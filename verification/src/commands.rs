//! Commands that the interface sends to the backend, and how the backend's
//! command loop routes them.
use crate::ids::{ChannelMarker, GuildMarker, Id, MessageMarker, UserMarker};
use vstd::prelude::*;

verus! {

/// Microphone activation threshold, in whole decibels.
#[derive(Clone, Copy, Debug, PartialEq, Eq)]
pub struct MicrophoneSensitivityDb {
    pub decibels: i16,
}

impl Default for MicrophoneSensitivityDb {
    fn default() -> (value: Self)
        ensures
            value.decibels == -50,
    {
        MicrophoneSensitivityDb { decibels: -50 }
    }
}

/// A volume, in percent of the unchanged level.
#[derive(Clone, Copy, Debug, PartialEq, Eq)]
pub struct VoiceVolumePercent {
    pub percent: u16,
}

impl Default for VoiceVolumePercent {
    fn default() -> (value: Self)
        ensures
            value.percent == 100,
    {
        VoiceVolumePercent { percent: 100 }
    }
}

/// Which forum posts a forum listing asks for.
#[derive(Clone, Copy, Debug, PartialEq, Eq)]
pub enum ForumPostArchiveState {
    Active,
    Archived,
}

/// A user's presence as Discord reports it.
#[derive(Clone, Copy, Debug, PartialEq, Eq, Structural)]
pub enum PresenceStatus {
    Online,
    Idle,
    DoNotDisturb,
    Invisible,
    Offline,
    Unknown,
}

/// How long a mute lasts: the window that was picked, in seconds, and the
/// moment it ends, in Unix milliseconds, when it ends at all.
#[derive(Clone, Copy, Debug, PartialEq, Eq)]
pub struct MuteDuration {
    pub selected_time_window: i64,
    pub end_time_millis: Option<i64>,
}

/// A command from the interface to the backend.
#[derive(Debug)]
pub enum AppCommand {
    LoadMessageHistory { channel_id: Id<ChannelMarker>, before: Option<Id<MessageMarker>> },
    RefreshMessageHistory { channel_id: Id<ChannelMarker> },
    LoadMessageHistoryAfter { channel_id: Id<ChannelMarker>, after: Id<MessageMarker> },
    CatchUpMessageHistoryAfter { channel_id: Id<ChannelMarker>, after: Id<MessageMarker> },
    LoadMessageHistoryAround { channel_id: Id<ChannelMarker>, message_id: Id<MessageMarker> },
    LoadThreadPreview { channel_id: Id<ChannelMarker> },
    LoadForumPosts {
        guild_id: Id<GuildMarker>,
        channel_id: Id<ChannelMarker>,
        archive_state: ForumPostArchiveState,
        offset: usize,
    },
    SearchMessages {
        guild_id: Option<Id<GuildMarker>>,
        channel_id: Option<Id<ChannelMarker>>,
        query: String,
    },
    LoadGuildMembers { guild_id: Id<GuildMarker> },
    LoadGuildMembersByIds { guild_id: Id<GuildMarker>, user_ids: Vec<Id<UserMarker>> },
    SearchGuildMembers { guild_id: Id<GuildMarker>, query: String },
    SetSelectedGuild { guild_id: Option<Id<GuildMarker>> },
    SetSelectedMessageChannel { channel_id: Option<Id<ChannelMarker>> },
    SubscribeDirectMessage { channel_id: Id<ChannelMarker> },
    SubscribeGuildChannel { guild_id: Id<GuildMarker>, channel_id: Id<ChannelMarker> },
    UpdateMemberListSubscription {
        guild_id: Id<GuildMarker>,
        channel_id: Id<ChannelMarker>,
        ranges: Vec<(u32, u32)>,
    },
    JoinVoiceChannel { guild_id: Id<GuildMarker>, channel_id: Id<ChannelMarker> },
    UpdateVoiceState {
        guild_id: Id<GuildMarker>,
        channel_id: Option<Id<ChannelMarker>>,
        self_mute: bool,
        self_deaf: bool,
    },
    UpdateVoiceCapturePermission {
        guild_id: Id<GuildMarker>,
        channel_id: Id<ChannelMarker>,
        allow_microphone_transmit: bool,
        microphone_sensitivity: MicrophoneSensitivityDb,
        microphone_volume: VoiceVolumePercent,
        voice_output_volume: VoiceVolumePercent,
    },
    LeaveVoiceChannel { guild_id: Id<GuildMarker> },
    LoadAttachmentPreview { url: String },
    LoadProfileAvatarPreview { url: String },
    OpenUrl { url: String },
    PlayMedia { url: String },
    DownloadAttachment { url: String, filename: String },
    SendMessage {
        channel_id: Id<ChannelMarker>,
        content: String,
        reply_to: Option<Id<MessageMarker>>,
    },
    SendTtsMessage { channel_id: Id<ChannelMarker>, content: String },
    LoadApplicationCommands { guild_id: Option<Id<GuildMarker>>, channel_id: Id<ChannelMarker> },
    RunApplicationCommand {
        guild_id: Option<Id<GuildMarker>>,
        channel_id: Id<ChannelMarker>,
        command_name: String,
        arguments: Vec<(String, String)>,
    },
    EditMessage { channel_id: Id<ChannelMarker>, message_id: Id<MessageMarker>, content: String },
    DeleteMessage { channel_id: Id<ChannelMarker>, message_id: Id<MessageMarker> },
    LeaveGuild { guild_id: Id<GuildMarker> },
    AddReaction { channel_id: Id<ChannelMarker>, message_id: Id<MessageMarker>, emoji: String },
    RemoveReaction { channel_id: Id<ChannelMarker>, message_id: Id<MessageMarker>, emoji: String },
    LoadReactionUsers {
        channel_id: Id<ChannelMarker>,
        message_id: Id<MessageMarker>,
        emoji: String,
    },
    LoadPinnedMessages { channel_id: Id<ChannelMarker> },
    SetMessagePinned {
        channel_id: Id<ChannelMarker>,
        message_id: Id<MessageMarker>,
        pinned: bool,
    },
    VotePoll { channel_id: Id<ChannelMarker>, message_id: Id<MessageMarker>, answer_ids: Vec<u8> },
    LoadUserProfile { user_id: Id<UserMarker>, guild_id: Option<Id<GuildMarker>> },
    LoadUserNote { user_id: Id<UserMarker> },
    UpdateUserProfile { bio: Option<String>, pronouns: Option<String> },
    UpdateCurrentUserStatus { status: PresenceStatus },
    UpdateCurrentUserActivity { activity: Option<String> },
    AckChannel { channel_id: Id<ChannelMarker>, message_id: Id<MessageMarker> },
    ScheduleAckChannel { channel_id: Id<ChannelMarker>, message_id: Id<MessageMarker> },
    AckChannels { targets: Vec<(Id<ChannelMarker>, Id<MessageMarker>)> },
    SetGuildMuted { guild_id: Id<GuildMarker>, muted: bool, duration: Option<MuteDuration> },
    SetChannelMuted {
        guild_id: Option<Id<GuildMarker>>,
        channel_id: Id<ChannelMarker>,
        muted: bool,
        duration: Option<MuteDuration>,
    },
}

/// The backend handler that serves a command.
#[derive(Clone, Copy, Debug, PartialEq, Eq, Structural)]
pub enum CommandHandler {
    History,
    Gateway,
    Voice,
    Media,
    Message,
    User,
    ReadState,
    Notification,
}

/// The handler each command goes to.
pub open spec fn spec_command_handler(command: AppCommand) -> CommandHandler {
    match command {
        AppCommand::LoadMessageHistory { .. }
        | AppCommand::RefreshMessageHistory { .. }
        | AppCommand::LoadMessageHistoryAfter { .. }
        | AppCommand::CatchUpMessageHistoryAfter { .. }
        | AppCommand::LoadMessageHistoryAround { .. }
        | AppCommand::LoadThreadPreview { .. }
        | AppCommand::LoadForumPosts { .. }
        | AppCommand::SearchMessages { .. } => CommandHandler::History,
        AppCommand::LoadGuildMembers { .. }
        | AppCommand::LoadGuildMembersByIds { .. }
        | AppCommand::SearchGuildMembers { .. }
        | AppCommand::SetSelectedGuild { .. }
        | AppCommand::SetSelectedMessageChannel { .. }
        | AppCommand::SubscribeDirectMessage { .. }
        | AppCommand::SubscribeGuildChannel { .. }
        | AppCommand::UpdateMemberListSubscription { .. } => CommandHandler::Gateway,
        AppCommand::JoinVoiceChannel { .. }
        | AppCommand::UpdateVoiceState { .. }
        | AppCommand::UpdateVoiceCapturePermission { .. }
        | AppCommand::LeaveVoiceChannel { .. } => CommandHandler::Voice,
        AppCommand::LoadAttachmentPreview { .. }
        | AppCommand::LoadProfileAvatarPreview { .. }
        | AppCommand::OpenUrl { .. }
        | AppCommand::PlayMedia { .. }
        | AppCommand::DownloadAttachment { .. } => CommandHandler::Media,
        AppCommand::SendMessage { .. }
        | AppCommand::SendTtsMessage { .. }
        | AppCommand::LoadApplicationCommands { .. }
        | AppCommand::RunApplicationCommand { .. }
        | AppCommand::EditMessage { .. }
        | AppCommand::DeleteMessage { .. }
        | AppCommand::LeaveGuild { .. }
        | AppCommand::AddReaction { .. }
        | AppCommand::RemoveReaction { .. }
        | AppCommand::LoadReactionUsers { .. }
        | AppCommand::LoadPinnedMessages { .. }
        | AppCommand::SetMessagePinned { .. }
        | AppCommand::VotePoll { .. } => CommandHandler::Message,
        AppCommand::LoadUserProfile { .. }
        | AppCommand::LoadUserNote { .. }
        | AppCommand::UpdateUserProfile { .. }
        | AppCommand::UpdateCurrentUserStatus { .. }
        | AppCommand::UpdateCurrentUserActivity { .. } => CommandHandler::User,
        AppCommand::AckChannel { .. }
        | AppCommand::ScheduleAckChannel { .. }
        | AppCommand::AckChannels { .. } => CommandHandler::ReadState,
        AppCommand::SetGuildMuted { .. } | AppCommand::SetChannelMuted { .. } => {
            CommandHandler::Notification
        },
    }
}

/// Picks the backend handler for a command.
pub fn command_handler(command: &AppCommand) -> (handler: CommandHandler)
    ensures
        handler == spec_command_handler(*command),
        (command is SendMessage || command is SendTtsMessage || command is EditMessage
            || command is DeleteMessage || command is VotePoll) ==> handler == CommandHandler::Message,
{
    match command {
        AppCommand::LoadMessageHistory { .. }
        | AppCommand::RefreshMessageHistory { .. }
        | AppCommand::LoadMessageHistoryAfter { .. }
        | AppCommand::CatchUpMessageHistoryAfter { .. }
        | AppCommand::LoadMessageHistoryAround { .. }
        | AppCommand::LoadThreadPreview { .. }
        | AppCommand::LoadForumPosts { .. }
        | AppCommand::SearchMessages { .. } => CommandHandler::History,
        AppCommand::LoadGuildMembers { .. }
        | AppCommand::LoadGuildMembersByIds { .. }
        | AppCommand::SearchGuildMembers { .. }
        | AppCommand::SetSelectedGuild { .. }
        | AppCommand::SetSelectedMessageChannel { .. }
        | AppCommand::SubscribeDirectMessage { .. }
        | AppCommand::SubscribeGuildChannel { .. }
        | AppCommand::UpdateMemberListSubscription { .. } => CommandHandler::Gateway,
        AppCommand::JoinVoiceChannel { .. }
        | AppCommand::UpdateVoiceState { .. }
        | AppCommand::UpdateVoiceCapturePermission { .. }
        | AppCommand::LeaveVoiceChannel { .. } => CommandHandler::Voice,
        AppCommand::LoadAttachmentPreview { .. }
        | AppCommand::LoadProfileAvatarPreview { .. }
        | AppCommand::OpenUrl { .. }
        | AppCommand::PlayMedia { .. }
        | AppCommand::DownloadAttachment { .. } => CommandHandler::Media,
        AppCommand::SendMessage { .. }
        | AppCommand::SendTtsMessage { .. }
        | AppCommand::LoadApplicationCommands { .. }
        | AppCommand::RunApplicationCommand { .. }
        | AppCommand::EditMessage { .. }
        | AppCommand::DeleteMessage { .. }
        | AppCommand::LeaveGuild { .. }
        | AppCommand::AddReaction { .. }
        | AppCommand::RemoveReaction { .. }
        | AppCommand::LoadReactionUsers { .. }
        | AppCommand::LoadPinnedMessages { .. }
        | AppCommand::SetMessagePinned { .. }
        | AppCommand::VotePoll { .. } => CommandHandler::Message,
        AppCommand::LoadUserProfile { .. }
        | AppCommand::LoadUserNote { .. }
        | AppCommand::UpdateUserProfile { .. }
        | AppCommand::UpdateCurrentUserStatus { .. }
        | AppCommand::UpdateCurrentUserActivity { .. } => CommandHandler::User,
        AppCommand::AckChannel { .. }
        | AppCommand::ScheduleAckChannel { .. }
        | AppCommand::AckChannels { .. } => CommandHandler::ReadState,
        AppCommand::SetGuildMuted { .. } | AppCommand::SetChannelMuted { .. } => {
            CommandHandler::Notification
        },
    }
}

/// Whether the media handler also needs the attachment preview and download
/// permit pools.
pub fn handler_uses_attachment_permits(handler: CommandHandler) -> (uses: bool)
    ensures
        uses == (handler == CommandHandler::Media),
{
    match handler {
        CommandHandler::Media => true,
        _ => false,
    }
}

/// Commands whose relative order matters when the user navigates quickly.
pub open spec fn spec_is_ordered_control_command(command: AppCommand) -> bool {
    command is SetSelectedGuild || command is SetSelectedMessageChannel
        || command is UpdateVoiceCapturePermission
}

/// Whether the command loop must run the command inline, in arrival order,
/// instead of handing it to a task of its own.
pub fn is_ordered_control_command(command: &AppCommand) -> (ordered: bool)
    ensures
        ordered == spec_is_ordered_control_command(*command),
{
    match command {
        AppCommand::SetSelectedGuild { .. }
        | AppCommand::SetSelectedMessageChannel { .. }
        | AppCommand::UpdateVoiceCapturePermission { .. } => true,
        _ => false,
    }
}

/// Every command that runs inline goes to the gateway or the voice handler:
/// inline work never waits on REST or media downloads.
pub proof fn lemma_ordered_commands_are_gateway_or_voice(command: AppCommand)
    requires
        spec_is_ordered_control_command(command),
    ensures
        spec_command_handler(command) == CommandHandler::Gateway || spec_command_handler(command)
            == CommandHandler::Voice,
{
}

/// The line that records a failed operation: the context, the error's
/// message and its detail.
pub open spec fn spec_app_error_log_line(
    context: Seq<char>,
    message: Seq<char>,
    detail: Seq<char>,
) -> Seq<char> {
    context + ": "@ + message + "; detail="@ + detail
}

/// Formats the log line for a failed operation.
pub fn app_error_log_line(context: &str, message: &str, detail: &str) -> (line: String)
    ensures
        line@ == spec_app_error_log_line(context@, message@, detail@),
{
    let mut line = String::from_str(context);
    line.append(": ");
    line.append(message);
    line.append("; detail=");
    line.append(detail);
    line
}

/// Where each command is served. Commands that read message history go to
/// the history handler; commands that write or change messages (sending,
/// editing, deleting, reacting, pinning, voting) and the other message-level
/// REST calls go to the message handler, never to the history handler;
/// member loads, selections and subscriptions go to the gateway; voice
/// commands to voice; previews, links, media and downloads to media;
/// profiles, notes and presence to the user handler; read acknowledgements
/// to the read state handler; mutes to the notification handler.
pub proof fn lemma_command_routing(command: AppCommand)
    ensures
        (command is LoadMessageHistory || command is RefreshMessageHistory
            || command is LoadMessageHistoryAfter || command is CatchUpMessageHistoryAfter
            || command is LoadMessageHistoryAround || command is LoadThreadPreview
            || command is LoadForumPosts || command is SearchMessages) ==> spec_command_handler(
            command,
        ) == CommandHandler::History,
        (command is SendMessage || command is SendTtsMessage || command is EditMessage
            || command is DeleteMessage || command is AddReaction || command is RemoveReaction
            || command is SetMessagePinned || command is VotePoll) ==> spec_command_handler(command)
            == CommandHandler::Message,
        (command is LoadApplicationCommands || command is RunApplicationCommand
            || command is LeaveGuild || command is LoadReactionUsers || command is LoadPinnedMessages)
            ==> spec_command_handler(command) == CommandHandler::Message,
        (command is LoadGuildMembers || command is LoadGuildMembersByIds
            || command is SearchGuildMembers || command is SetSelectedGuild
            || command is SetSelectedMessageChannel || command is SubscribeDirectMessage
            || command is SubscribeGuildChannel || command is UpdateMemberListSubscription)
            ==> spec_command_handler(command) == CommandHandler::Gateway,
        (command is JoinVoiceChannel || command is UpdateVoiceState
            || command is UpdateVoiceCapturePermission || command is LeaveVoiceChannel)
            ==> spec_command_handler(command) == CommandHandler::Voice,
        (command is LoadAttachmentPreview || command is LoadProfileAvatarPreview || command is OpenUrl
            || command is PlayMedia || command is DownloadAttachment) ==> spec_command_handler(command)
            == CommandHandler::Media,
        (command is LoadUserProfile || command is LoadUserNote || command is UpdateUserProfile
            || command is UpdateCurrentUserStatus || command is UpdateCurrentUserActivity)
            ==> spec_command_handler(command) == CommandHandler::User,
        (command is AckChannel || command is ScheduleAckChannel || command is AckChannels)
            ==> spec_command_handler(command) == CommandHandler::ReadState,
        (command is SetGuildMuted || command is SetChannelMuted) ==> spec_command_handler(command)
            == CommandHandler::Notification,
{
}

/// Exactly the guild and channel selections and the voice capture
/// permission run inline, in arrival order; every other command runs in a
/// task of its own.
pub proof fn lemma_inline_commands(command: AppCommand)
    ensures
        spec_is_ordered_control_command(command) <==> (command is SetSelectedGuild
            || command is SetSelectedMessageChannel || command is UpdateVoiceCapturePermission),
{
}

/// The error log line starts with the context, then `: `, the message,
/// `; detail=` and the detail, nothing more.
pub proof fn lemma_app_error_log_line_parts(context: Seq<char>, message: Seq<char>, detail: Seq<char>)
    ensures
        spec_app_error_log_line(context, message, detail).len() == context.len() + message.len()
            + detail.len() + 11,
        spec_app_error_log_line(context, message, detail).subrange(0, context.len() as int)
            == context,
        spec_app_error_log_line(context, message, detail).subrange(
            context.len() as int,
            (context.len() + 2) as int,
        ) == ": "@,
        spec_app_error_log_line(context, message, detail).subrange(
            (context.len() + 2) as int,
            (context.len() + 2 + message.len()) as int,
        ) == message,
        spec_app_error_log_line(context, message, detail).subrange(
            (context.len() + 2 + message.len()) as int,
            (context.len() + 11 + message.len()) as int,
        ) == "; detail="@,
        spec_app_error_log_line(context, message, detail).subrange(
            (context.len() + 11 + message.len()) as int,
            (context.len() + 11 + message.len() + detail.len()) as int,
        ) == detail,
{
    reveal_strlit(": ");
    reveal_strlit("; detail=");
    let line = spec_app_error_log_line(context, message, detail);
    assert(line.subrange(0, context.len() as int) =~= context);
    assert(line.subrange(context.len() as int, (context.len() + 2) as int) =~= ": "@);
    assert(line.subrange((context.len() + 2) as int, (context.len() + 2 + message.len()) as int) =~= message);
    assert(line.subrange((context.len() + 2 + message.len()) as int, (context.len() + 11 + message.len()) as int)
        =~= "; detail="@);
    assert(line.subrange(
        (context.len() + 11 + message.len()) as int,
        (context.len() + 11 + message.len() + detail.len()) as int,
    ) =~= detail);
}

} // verus!
