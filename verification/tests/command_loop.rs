use discord_tui::commands::{
    command_handler, is_ordered_control_command, AppCommand, CommandHandler,
    MicrophoneSensitivityDb, VoiceVolumePercent,
};
use discord_tui::ids::Id;

#[test]
fn only_order_sensitive_control_commands_run_inline() {
    assert!(is_ordered_control_command(&AppCommand::SetSelectedGuild {
        guild_id: Some(Id::new(1)),
    }));
    assert!(is_ordered_control_command(
        &AppCommand::SetSelectedMessageChannel {
            channel_id: Some(Id::new(2)),
        }
    ));
    assert!(is_ordered_control_command(
        &AppCommand::UpdateVoiceCapturePermission {
            guild_id: Id::new(1),
            channel_id: Id::new(2),
            allow_microphone_transmit: true,
            microphone_sensitivity: MicrophoneSensitivityDb::default(),
            microphone_volume: VoiceVolumePercent::default(),
            voice_output_volume: VoiceVolumePercent::default(),
        }
    ));

    assert!(!is_ordered_control_command(
        &AppCommand::LoadMessageHistory {
            channel_id: Id::new(2),
            before: None,
        }
    ));
    assert!(!is_ordered_control_command(
        &AppCommand::LoadAttachmentPreview {
            url: "https://cdn.discordapp.com/avatar.png".to_owned(),
        }
    ));
}

#[test]
fn commands_are_routed_to_their_handlers() {
    assert_eq!(
        command_handler(&AppCommand::LoadMessageHistory { channel_id: Id::new(2), before: None }),
        CommandHandler::History
    );
    assert_eq!(
        command_handler(&AppCommand::SetSelectedGuild { guild_id: None }),
        CommandHandler::Gateway
    );
    assert_eq!(
        command_handler(&AppCommand::LeaveVoiceChannel { guild_id: Id::new(3) }),
        CommandHandler::Voice
    );
    assert_eq!(
        command_handler(&AppCommand::OpenUrl { url: "https://example.com".to_owned() }),
        CommandHandler::Media
    );
    assert_eq!(
        command_handler(&AppCommand::VotePoll {
            channel_id: Id::new(4),
            message_id: Id::new(5),
            answer_ids: vec![1, 2],
        }),
        CommandHandler::Message
    );
    assert_eq!(
        command_handler(&AppCommand::LoadUserProfile { user_id: Id::new(6), guild_id: None }),
        CommandHandler::User
    );
    assert_eq!(
        command_handler(&AppCommand::AckChannels { targets: Vec::new() }),
        CommandHandler::ReadState
    );
    assert_eq!(
        command_handler(&AppCommand::SetGuildMuted {
            guild_id: Id::new(7),
            muted: true,
            duration: None,
        }),
        CommandHandler::Notification
    );
}

#[test]
fn ordered_commands_never_wait_on_rest_or_media() {
    let command = AppCommand::SetSelectedMessageChannel { channel_id: None };
    assert!(is_ordered_control_command(&command));
    let handler = command_handler(&command);
    assert!(handler == CommandHandler::Gateway || handler == CommandHandler::Voice);
}

#[test]
fn error_log_line_joins_context_message_and_detail() {
    assert_eq!(
        discord_tui::commands::app_error_log_line("load history", "timeout", "after 30s"),
        "load history: timeout; detail=after 30s"
    );
}
