//! Keyboard routing decisions: which popup handler gets a key, what a
//! dashboard action does, and which leader action menu a shortcut runs.
use crate::keybindings::{member_action_hit, row_shortcut_typed};
use crate::commands::AppCommand;
use crate::keys::{KeyChord, KeyCode, KeyEvent};
use crate::state::dashboard::{DashboardState, FocusPane};
use crate::state::popups::ActiveModalPopupKind;
use vstd::prelude::*;

verus! {

/// Popups whose keys are handled before the pane-level page keys run out.
#[derive(Clone, Copy, Debug, PartialEq, Eq, Structural)]
pub enum PriorityPopupKeyTarget {
    Keymap,
    DebugLog,
    QuitConfirmation,
    Options,
    ReactionUsers,
    MessageDeleteConfirmation,
    MessagePinConfirmation,
    GuildLeaveConfirmation,
    PollVotePicker,
    EmojiReactionPicker,
}

/// Popups whose keys are handled after the global bindings had their turn.
#[derive(Clone, Copy, Debug, PartialEq, Eq, Structural)]
pub enum DeferredPopupKeyTarget {
    ChannelSwitcher,
    Leader,
    MessageUrlPicker,
    MessageActionMenu,
    AttachmentViewer,
    UserProfile,
}

pub open spec fn spec_priority_target(kind: ActiveModalPopupKind) -> Option<PriorityPopupKeyTarget> {
    match kind {
        ActiveModalPopupKind::KeymapHelp => Some(PriorityPopupKeyTarget::Keymap),
        ActiveModalPopupKind::DebugLog => Some(PriorityPopupKeyTarget::DebugLog),
        ActiveModalPopupKind::QuitConfirmation => Some(PriorityPopupKeyTarget::QuitConfirmation),
        ActiveModalPopupKind::Options => Some(PriorityPopupKeyTarget::Options),
        ActiveModalPopupKind::ReactionUsers => Some(PriorityPopupKeyTarget::ReactionUsers),
        ActiveModalPopupKind::MessageDeleteConfirmation => Some(
            PriorityPopupKeyTarget::MessageDeleteConfirmation,
        ),
        ActiveModalPopupKind::MessagePinConfirmation => Some(
            PriorityPopupKeyTarget::MessagePinConfirmation,
        ),
        ActiveModalPopupKind::GuildLeaveConfirmation => Some(
            PriorityPopupKeyTarget::GuildLeaveConfirmation,
        ),
        ActiveModalPopupKind::PollVotePicker => Some(PriorityPopupKeyTarget::PollVotePicker),
        ActiveModalPopupKind::EmojiReactionPicker => Some(
            PriorityPopupKeyTarget::EmojiReactionPicker,
        ),
        ActiveModalPopupKind::MessageActionMenu
        | ActiveModalPopupKind::MessageUrlPicker
        | ActiveModalPopupKind::AttachmentViewer
        | ActiveModalPopupKind::Leader
        | ActiveModalPopupKind::UserProfile
        | ActiveModalPopupKind::ChannelSwitcher => None,
    }
}

pub open spec fn spec_deferred_target(kind: ActiveModalPopupKind) -> Option<DeferredPopupKeyTarget> {
    match kind {
        ActiveModalPopupKind::ChannelSwitcher => Some(DeferredPopupKeyTarget::ChannelSwitcher),
        ActiveModalPopupKind::Leader => Some(DeferredPopupKeyTarget::Leader),
        ActiveModalPopupKind::MessageUrlPicker => Some(DeferredPopupKeyTarget::MessageUrlPicker),
        ActiveModalPopupKind::MessageActionMenu => Some(DeferredPopupKeyTarget::MessageActionMenu),
        ActiveModalPopupKind::AttachmentViewer => Some(DeferredPopupKeyTarget::AttachmentViewer),
        ActiveModalPopupKind::UserProfile => Some(DeferredPopupKeyTarget::UserProfile),
        ActiveModalPopupKind::MessageDeleteConfirmation
        | ActiveModalPopupKind::MessagePinConfirmation
        | ActiveModalPopupKind::QuitConfirmation
        | ActiveModalPopupKind::GuildLeaveConfirmation
        | ActiveModalPopupKind::Options
        | ActiveModalPopupKind::EmojiReactionPicker
        | ActiveModalPopupKind::PollVotePicker
        | ActiveModalPopupKind::ReactionUsers
        | ActiveModalPopupKind::DebugLog
        | ActiveModalPopupKind::KeymapHelp => None,
    }
}

impl PriorityPopupKeyTarget {
    /// The priority handler of the open popup, if it has one.
    pub fn active(state: &DashboardState) -> (target: Option<Self>)
        ensures
            target == match state.popups.active_kind() {
                Some(kind) => spec_priority_target(kind),
                None => None,
            },
    {
        let kind = match state.popups.active_modal_popup_kind() {
            Some(kind) => kind,
            None => return None,
        };
        match kind {
            ActiveModalPopupKind::KeymapHelp => Some(Self::Keymap),
            ActiveModalPopupKind::DebugLog => Some(Self::DebugLog),
            ActiveModalPopupKind::QuitConfirmation => Some(Self::QuitConfirmation),
            ActiveModalPopupKind::Options => Some(Self::Options),
            ActiveModalPopupKind::ReactionUsers => Some(Self::ReactionUsers),
            ActiveModalPopupKind::MessageDeleteConfirmation => {
                Some(Self::MessageDeleteConfirmation)
            },
            ActiveModalPopupKind::MessagePinConfirmation => Some(Self::MessagePinConfirmation),
            ActiveModalPopupKind::GuildLeaveConfirmation => Some(Self::GuildLeaveConfirmation),
            ActiveModalPopupKind::PollVotePicker => Some(Self::PollVotePicker),
            ActiveModalPopupKind::EmojiReactionPicker => Some(Self::EmojiReactionPicker),
            ActiveModalPopupKind::MessageActionMenu
            | ActiveModalPopupKind::MessageUrlPicker
            | ActiveModalPopupKind::AttachmentViewer
            | ActiveModalPopupKind::Leader
            | ActiveModalPopupKind::UserProfile
            | ActiveModalPopupKind::ChannelSwitcher => None,
        }
    }
}

impl DeferredPopupKeyTarget {
    /// The deferred handler of the open popup, if it has one.
    pub fn active(state: &DashboardState) -> (target: Option<Self>)
        ensures
            target == match state.popups.active_kind() {
                Some(kind) => spec_deferred_target(kind),
                None => None,
            },
    {
        let kind = match state.popups.active_modal_popup_kind() {
            Some(kind) => kind,
            None => return None,
        };
        match kind {
            ActiveModalPopupKind::ChannelSwitcher => Some(Self::ChannelSwitcher),
            ActiveModalPopupKind::Leader => Some(Self::Leader),
            ActiveModalPopupKind::MessageUrlPicker => Some(Self::MessageUrlPicker),
            ActiveModalPopupKind::MessageActionMenu => Some(Self::MessageActionMenu),
            ActiveModalPopupKind::AttachmentViewer => Some(Self::AttachmentViewer),
            ActiveModalPopupKind::UserProfile => Some(Self::UserProfile),
            ActiveModalPopupKind::MessageDeleteConfirmation
            | ActiveModalPopupKind::MessagePinConfirmation
            | ActiveModalPopupKind::QuitConfirmation
            | ActiveModalPopupKind::GuildLeaveConfirmation
            | ActiveModalPopupKind::Options
            | ActiveModalPopupKind::EmojiReactionPicker
            | ActiveModalPopupKind::PollVotePicker
            | ActiveModalPopupKind::ReactionUsers
            | ActiveModalPopupKind::DebugLog
            | ActiveModalPopupKind::KeymapHelp => None,
        }
    }
}

/// Every open popup has exactly one key handler: either a priority one or a
/// deferred one.
pub proof fn lemma_every_popup_has_one_key_handler(kind: ActiveModalPopupKind)
    ensures
        spec_priority_target(kind) is Some != spec_deferred_target(kind) is Some,
{
}

/// Message actions that have a direct shortcut.
#[derive(Clone, Copy, Debug, PartialEq, Eq, Structural)]
pub enum MessageShortcutAction {
    CopyContent,
    OpenReactionPicker,
    Reply,
    OpenDeleteConfirmation,
    Edit,
    OpenUrl,
    ViewAttachment,
    ShowProfile,
    OpenPinConfirmation,
    OpenThread,
    ShowReactionUsers,
    OpenPollVotePicker,
}

/// Entries of the message action menu.
#[derive(Clone, Copy, Debug, PartialEq, Eq, Structural)]
pub enum MessageActionKind {
    CopyContent,
    OpenReactionPicker,
    Reply,
    OpenDeleteConfirmation,
    Edit,
    OpenUrl,
    ViewAttachment,
    ShowProfile,
    OpenPinConfirmation,
    OpenThread,
    ShowReactionUsers,
    OpenPollVotePicker,
}

pub open spec fn spec_message_shortcut_kind(action: MessageShortcutAction) -> MessageActionKind {
    match action {
        MessageShortcutAction::CopyContent => MessageActionKind::CopyContent,
        MessageShortcutAction::OpenReactionPicker => MessageActionKind::OpenReactionPicker,
        MessageShortcutAction::Reply => MessageActionKind::Reply,
        MessageShortcutAction::OpenDeleteConfirmation => MessageActionKind::OpenDeleteConfirmation,
        MessageShortcutAction::Edit => MessageActionKind::Edit,
        MessageShortcutAction::OpenUrl => MessageActionKind::OpenUrl,
        MessageShortcutAction::ViewAttachment => MessageActionKind::ViewAttachment,
        MessageShortcutAction::ShowProfile => MessageActionKind::ShowProfile,
        MessageShortcutAction::OpenPinConfirmation => MessageActionKind::OpenPinConfirmation,
        MessageShortcutAction::OpenThread => MessageActionKind::OpenThread,
        MessageShortcutAction::ShowReactionUsers => MessageActionKind::ShowReactionUsers,
        MessageShortcutAction::OpenPollVotePicker => MessageActionKind::OpenPollVotePicker,
    }
}

/// The message action menu entry that a message shortcut runs.
pub fn message_shortcut_action_kind(action: MessageShortcutAction) -> (kind: MessageActionKind)
    ensures
        kind == spec_message_shortcut_kind(action),
{
    match action {
        MessageShortcutAction::CopyContent => MessageActionKind::CopyContent,
        MessageShortcutAction::OpenReactionPicker => MessageActionKind::OpenReactionPicker,
        MessageShortcutAction::Reply => MessageActionKind::Reply,
        MessageShortcutAction::OpenDeleteConfirmation => MessageActionKind::OpenDeleteConfirmation,
        MessageShortcutAction::Edit => MessageActionKind::Edit,
        MessageShortcutAction::OpenUrl => MessageActionKind::OpenUrl,
        MessageShortcutAction::ViewAttachment => MessageActionKind::ViewAttachment,
        MessageShortcutAction::ShowProfile => MessageActionKind::ShowProfile,
        MessageShortcutAction::OpenPinConfirmation => MessageActionKind::OpenPinConfirmation,
        MessageShortcutAction::OpenThread => MessageActionKind::OpenThread,
        MessageShortcutAction::ShowReactionUsers => MessageActionKind::ShowReactionUsers,
        MessageShortcutAction::OpenPollVotePicker => MessageActionKind::OpenPollVotePicker,
    }
}

/// Distinct message shortcuts run distinct menu entries.
pub proof fn lemma_message_shortcuts_are_distinct(a: MessageShortcutAction, b: MessageShortcutAction)
    requires
        a != b,
    ensures
        spec_message_shortcut_kind(a) != spec_message_shortcut_kind(b),
{
}

/// Moving the selection of a list.
#[derive(Clone, Copy, Debug, PartialEq, Eq, Structural)]
pub enum SelectionAction {
    Next,
    Previous,
}

/// An action of the dashboard's key bindings.
#[derive(Clone, Copy, Debug, PartialEq, Eq, Structural)]
pub enum DashboardAction {
    Select(SelectionAction),
    MessageShortcut(MessageShortcutAction),
    Back,
    Quit,
    StartComposer,
    FocusPane(FocusPane),
    CycleFocusBackward,
    CycleFocusForward,
    OpenFocusedPaneFilter,
    ResizePaneLeft,
    ResizePaneRight,
    HalfPageDown,
    HalfPageUp,
    JumpTop,
    JumpBottom,
    ScrollMessageViewportDown,
    ScrollMessageViewportUp,
    ScrollHorizontalLeft,
    ScrollHorizontalRight,
    ActivateFocused,
}

/// What the dashboard does for an action; the steps run on the dashboard in
/// the order their names give.
#[derive(Clone, Copy, Debug, PartialEq, Eq, Structural)]
pub enum DashboardStep {
    MoveDown,
    /// Moves up, then asks for older history when the top was reached.
    MoveUpThenLoadOlderHistory,
    ActivateMessageAction(MessageActionKind),
    /// Leaves the pinned message view, or else the opened thread.
    ReturnFromPinnedViewOrThread,
    OpenQuitConfirmation,
    StartComposer,
    ShowAndFocusPane(FocusPane),
    CycleFocusBackward,
    CycleFocusForward,
    OpenPaneFilter(FocusPane),
    /// Widens (positive) or narrows (negative) the focused pane by a column.
    AdjustFocusedPaneWidth(i8),
    HalfPageDown,
    /// Moves half a page up, then asks for older history when the top was
    /// reached.
    HalfPageUpThenLoadOlderHistory,
    JumpTop,
    JumpBottom,
    ScrollMessageViewportDown,
    ScrollMessageViewportUp,
    ScrollFocusedPaneLeft,
    ScrollFocusedPaneRight,
    /// Confirms the selected guild; on success focuses the channel pane.
    ConfirmGuildThenFocusChannels,
    /// Opens the selected channel; when that sends a command, focuses the
    /// message pane.
    ConfirmChannelThenFocusMessages,
    OpenSelectedMemberActions,
    ActivateSelectedMessagePaneItem,
}

pub open spec fn spec_dashboard_step(focus: FocusPane, action: DashboardAction) -> DashboardStep {
    match action {
        DashboardAction::Select(SelectionAction::Next) => DashboardStep::MoveDown,
        DashboardAction::Select(SelectionAction::Previous) => DashboardStep::MoveUpThenLoadOlderHistory,
        DashboardAction::MessageShortcut(a) => DashboardStep::ActivateMessageAction(
            spec_message_shortcut_kind(a),
        ),
        DashboardAction::Back => DashboardStep::ReturnFromPinnedViewOrThread,
        DashboardAction::Quit => DashboardStep::OpenQuitConfirmation,
        DashboardAction::StartComposer => DashboardStep::StartComposer,
        DashboardAction::FocusPane(pane) => DashboardStep::ShowAndFocusPane(pane),
        DashboardAction::CycleFocusBackward => DashboardStep::CycleFocusBackward,
        DashboardAction::CycleFocusForward => DashboardStep::CycleFocusForward,
        DashboardAction::OpenFocusedPaneFilter => DashboardStep::OpenPaneFilter(focus),
        DashboardAction::ResizePaneLeft => DashboardStep::AdjustFocusedPaneWidth(-1i8),
        DashboardAction::ResizePaneRight => DashboardStep::AdjustFocusedPaneWidth(1i8),
        DashboardAction::HalfPageDown => DashboardStep::HalfPageDown,
        DashboardAction::HalfPageUp => DashboardStep::HalfPageUpThenLoadOlderHistory,
        DashboardAction::JumpTop => DashboardStep::JumpTop,
        DashboardAction::JumpBottom => DashboardStep::JumpBottom,
        DashboardAction::ScrollMessageViewportDown => DashboardStep::ScrollMessageViewportDown,
        DashboardAction::ScrollMessageViewportUp => DashboardStep::ScrollMessageViewportUp,
        DashboardAction::ScrollHorizontalLeft => DashboardStep::ScrollFocusedPaneLeft,
        DashboardAction::ScrollHorizontalRight => DashboardStep::ScrollFocusedPaneRight,
        DashboardAction::ActivateFocused => match focus {
            FocusPane::Guilds => DashboardStep::ConfirmGuildThenFocusChannels,
            FocusPane::Channels => DashboardStep::ConfirmChannelThenFocusMessages,
            FocusPane::Members => DashboardStep::OpenSelectedMemberActions,
            FocusPane::Messages => DashboardStep::ActivateSelectedMessagePaneItem,
        },
    }
}

/// What the dashboard does for `action` while `focus` has the focus.
pub fn dashboard_action_step(focus: FocusPane, action: DashboardAction) -> (step: DashboardStep)
    ensures
        step == spec_dashboard_step(focus, action),
{
    match action {
        DashboardAction::Select(SelectionAction::Next) => DashboardStep::MoveDown,
        DashboardAction::Select(SelectionAction::Previous) => DashboardStep::MoveUpThenLoadOlderHistory,
        DashboardAction::MessageShortcut(action) => DashboardStep::ActivateMessageAction(
            message_shortcut_action_kind(action),
        ),
        DashboardAction::Back => DashboardStep::ReturnFromPinnedViewOrThread,
        DashboardAction::Quit => DashboardStep::OpenQuitConfirmation,
        DashboardAction::StartComposer => DashboardStep::StartComposer,
        DashboardAction::FocusPane(pane) => DashboardStep::ShowAndFocusPane(pane),
        DashboardAction::CycleFocusBackward => DashboardStep::CycleFocusBackward,
        DashboardAction::CycleFocusForward => DashboardStep::CycleFocusForward,
        DashboardAction::OpenFocusedPaneFilter => DashboardStep::OpenPaneFilter(focus),
        DashboardAction::ResizePaneLeft => DashboardStep::AdjustFocusedPaneWidth(-1),
        DashboardAction::ResizePaneRight => DashboardStep::AdjustFocusedPaneWidth(1),
        DashboardAction::HalfPageDown => DashboardStep::HalfPageDown,
        DashboardAction::HalfPageUp => DashboardStep::HalfPageUpThenLoadOlderHistory,
        DashboardAction::JumpTop => DashboardStep::JumpTop,
        DashboardAction::JumpBottom => DashboardStep::JumpBottom,
        DashboardAction::ScrollMessageViewportDown => DashboardStep::ScrollMessageViewportDown,
        DashboardAction::ScrollMessageViewportUp => DashboardStep::ScrollMessageViewportUp,
        DashboardAction::ScrollHorizontalLeft => DashboardStep::ScrollFocusedPaneLeft,
        DashboardAction::ScrollHorizontalRight => DashboardStep::ScrollFocusedPaneRight,
        DashboardAction::ActivateFocused => match focus {
            FocusPane::Guilds => DashboardStep::ConfirmGuildThenFocusChannels,
            FocusPane::Channels => DashboardStep::ConfirmChannelThenFocusMessages,
            FocusPane::Members => DashboardStep::OpenSelectedMemberActions,
            FocusPane::Messages => DashboardStep::ActivateSelectedMessagePaneItem,
        },
    }
}

/// Only moving up through a list can ask for older message history.
pub proof fn lemma_only_upward_moves_load_history(focus: FocusPane, action: DashboardAction)
    ensures
        (spec_dashboard_step(focus, action) == DashboardStep::MoveUpThenLoadOlderHistory
            || spec_dashboard_step(focus, action) == DashboardStep::HalfPageUpThenLoadOlderHistory)
            <==> (action == DashboardAction::Select(SelectionAction::Previous) || action
            == DashboardAction::HalfPageUp),
{
}

/// The leader action menu that a shortcut is tried on.
#[derive(Clone, Copy, Debug, PartialEq, Eq, Structural)]
pub enum LeaderActionTarget {
    Message,
    Channel,
    Guild,
    Member,
}

pub open spec fn spec_leader_shortcut_target(
    message: bool,
    channel: bool,
    guild: bool,
    member: bool,
) -> Option<LeaderActionTarget> {
    if message {
        Some(LeaderActionTarget::Message)
    } else if channel {
        Some(LeaderActionTarget::Channel)
    } else if guild {
        Some(LeaderActionTarget::Guild)
    } else if member {
        Some(LeaderActionTarget::Member)
    } else {
        None
    }
}

/// The menu that runs a leader shortcut, given which menus have an enabled
/// entry for it: messages first, then channels, guilds and members.
pub fn leader_shortcut_target(message: bool, channel: bool, guild: bool, member: bool) -> (target:
    Option<LeaderActionTarget>)
    ensures
        target == spec_leader_shortcut_target(message, channel, guild, member),
{
    if message {
        return Some(LeaderActionTarget::Message);
    }
    if channel {
        return Some(LeaderActionTarget::Channel);
    }
    if guild {
        return Some(LeaderActionTarget::Guild);
    }
    if member {
        return Some(LeaderActionTarget::Member);
    }
    None
}

/// Whether a shortcut runs an entry of the open member action menu.
pub fn leader_member_action_matches(state: &DashboardState, shortcut: KeyChord) -> (matched: bool)
    ensures
        matched == (state.popups.member_action() is Some && row_shortcut_typed(
            state.key_bindings@,
            shortcut,
            0,
        )),
{
    if !state.is_member_leader_action_active() {
        return false;
    }
    let actions = state.selected_member_action_items();
    let found = state.key_bindings().matching_member_action_shortcut_index(&actions, shortcut);
    proof {
        if found is None {
            assert(!member_action_hit(state.key_bindings@, actions@, shortcut, 0));
        }
    }
    found.is_some()
}

/// Escape or `q` closes the keymap popup; other keys scroll it.
pub open spec fn spec_keymap_popup_key_closes(key: KeyEvent) -> bool {
    key.code == KeyCode::Esc || key.code == KeyCode::Char('q')
}

pub fn keymap_popup_key_closes(key: KeyEvent) -> (closes: bool)
    ensures
        closes == spec_keymap_popup_key_closes(key),
{
    match key.code {
        KeyCode::Esc => true,
        KeyCode::Char(c) => c == 'q',
        _ => false,
    }
}

/// What a dashboard step leaves behind: the pane that gets the focus, if
/// the step moves it, and the command for the backend, if any.
#[derive(Debug)]
pub struct DashboardStepResult {
    pub focus: Option<FocusPane>,
    pub command: Option<AppCommand>,
}

/// Whether a step hands back the command of the dashboard method it calls
/// (older history, a message action, the selected message pane item, or the
/// opened channel).
pub open spec fn step_returns_callee_command(step: DashboardStep) -> bool {
    step is MoveUpThenLoadOlderHistory || step is HalfPageUpThenLoadOlderHistory
        || step is ActivateMessageAction || step is ActivateSelectedMessagePaneItem
        || step is ConfirmChannelThenFocusMessages
}

/// The focus change that a step makes once its method ran: confirming a
/// guild focuses the channel pane, and opening a channel that sent a command
/// focuses the message pane.
pub open spec fn step_focus(
    step: DashboardStep,
    guild_confirmed: bool,
    callee_command: Option<AppCommand>,
) -> Option<FocusPane> {
    match step {
        DashboardStep::ConfirmGuildThenFocusChannels => if guild_confirmed {
            Some(FocusPane::Channels)
        } else {
            None
        },
        DashboardStep::ConfirmChannelThenFocusMessages => if callee_command is Some {
            Some(FocusPane::Messages)
        } else {
            None
        },
        _ => None,
    }
}

/// Completes a dashboard step from what its method returned: whether the
/// guild confirm succeeded, and the command the method gave.
pub fn dashboard_step_result(
    step: DashboardStep,
    guild_confirmed: bool,
    callee_command: Option<AppCommand>,
) -> (result: DashboardStepResult)
    ensures
        result.focus == step_focus(step, guild_confirmed, callee_command),
        result.command == (if step_returns_callee_command(step) {
            callee_command
        } else {
            None
        }),
{
    let focus = match step {
        DashboardStep::ConfirmGuildThenFocusChannels => if guild_confirmed {
            Some(FocusPane::Channels)
        } else {
            None
        },
        DashboardStep::ConfirmChannelThenFocusMessages => if callee_command.is_some() {
            Some(FocusPane::Messages)
        } else {
            None
        },
        _ => None,
    };
    let hands_back = match step {
        DashboardStep::MoveUpThenLoadOlderHistory
        | DashboardStep::HalfPageUpThenLoadOlderHistory
        | DashboardStep::ActivateMessageAction(_)
        | DashboardStep::ActivateSelectedMessagePaneItem
        | DashboardStep::ConfirmChannelThenFocusMessages => true,
        _ => false,
    };
    DashboardStepResult { focus, command: if hands_back { callee_command } else { None } }
}

/// What `activate_leader_action_shortcut` reports for the menu that took the
/// shortcut: whether one did, and the command its activation gave.
pub fn leader_shortcut_result(target: Option<LeaderActionTarget>, command: Option<AppCommand>) -> (result: (
    bool,
    Option<AppCommand>,
))
    ensures
        result.0 == target is Some,
        result.1 == (if target is Some {
            command
        } else {
            None
        }),
{
    match target {
        Some(_) => (true, command),
        None => (false, None),
    }
}

/// An action of the leader action menu's key bindings.
#[derive(Clone, Copy, Debug, PartialEq, Eq, Structural)]
pub enum LeaderActionMenuAction {
    BackOrClose,
    Close,
    ActivateShortcut(KeyChord),
    UnknownClose,
}

/// What the leader popup does with a key of its action menu.
#[derive(Clone, Copy, Debug, PartialEq, Eq, Structural)]
pub struct LeaderKeyOutcome {
    /// Close the URL picker that the menu opened, and nothing else.
    pub close_url_picker: bool,
    /// Close every action menu and the leader popup.
    pub close_menus_and_leader: bool,
    /// Hand back the command of the shortcut's activation.
    pub returns_shortcut_command: bool,
}

pub open spec fn spec_leader_key_outcome(
    action: LeaderActionMenuAction,
    url_picker_open: bool,
    backed_out: bool,
    matched: bool,
    context_active: bool,
) -> LeaderKeyOutcome {
    match action {
        LeaderActionMenuAction::BackOrClose => if url_picker_open {
            LeaderKeyOutcome {
                close_url_picker: true,
                close_menus_and_leader: false,
                returns_shortcut_command: false,
            }
        } else if backed_out {
            LeaderKeyOutcome {
                close_url_picker: false,
                close_menus_and_leader: false,
                returns_shortcut_command: false,
            }
        } else {
            LeaderKeyOutcome {
                close_url_picker: false,
                close_menus_and_leader: true,
                returns_shortcut_command: false,
            }
        },
        LeaderActionMenuAction::Close | LeaderActionMenuAction::UnknownClose => LeaderKeyOutcome {
            close_url_picker: false,
            close_menus_and_leader: true,
            returns_shortcut_command: false,
        },
        LeaderActionMenuAction::ActivateShortcut(_) => LeaderKeyOutcome {
            close_url_picker: false,
            close_menus_and_leader: !matched || !context_active,
            returns_shortcut_command: true,
        },
    }
}

/// The leader popup's handling of an action menu key. Back first closes an
/// open URL picker, then steps back out of a channel or guild submenu
/// (`backed_out` tells whether one did), and only then closes everything. A
/// shortcut that no menu took, or that left no menu open, closes everything.
pub fn leader_action_key_outcome(
    action: LeaderActionMenuAction,
    url_picker_open: bool,
    backed_out: bool,
    matched: bool,
    context_active: bool,
) -> (outcome: LeaderKeyOutcome)
    ensures
        outcome == spec_leader_key_outcome(
            action,
            url_picker_open,
            backed_out,
            matched,
            context_active,
        ),
{
    match action {
        LeaderActionMenuAction::BackOrClose => {
            if url_picker_open {
                return LeaderKeyOutcome {
                    close_url_picker: true,
                    close_menus_and_leader: false,
                    returns_shortcut_command: false,
                };
            }
            if backed_out {
                return LeaderKeyOutcome {
                    close_url_picker: false,
                    close_menus_and_leader: false,
                    returns_shortcut_command: false,
                };
            }
            LeaderKeyOutcome {
                close_url_picker: false,
                close_menus_and_leader: true,
                returns_shortcut_command: false,
            }
        },
        LeaderActionMenuAction::Close | LeaderActionMenuAction::UnknownClose => LeaderKeyOutcome {
            close_url_picker: false,
            close_menus_and_leader: true,
            returns_shortcut_command: false,
        },
        LeaderActionMenuAction::ActivateShortcut(_) => LeaderKeyOutcome {
            close_url_picker: false,
            close_menus_and_leader: !matched || !context_active,
            returns_shortcut_command: true,
        },
    }
}

/// Close and unbound keys always close the leader popup and its menus; Back
/// closes them too when there is no URL picker to close and no submenu to
/// step back from.
pub proof fn lemma_leader_close_keys_close(
    url_picker_open: bool,
    backed_out: bool,
    matched: bool,
    context_active: bool,
)
    ensures
        spec_leader_key_outcome(
            LeaderActionMenuAction::Close,
            url_picker_open,
            backed_out,
            matched,
            context_active,
        ).close_menus_and_leader,
        spec_leader_key_outcome(
            LeaderActionMenuAction::UnknownClose,
            url_picker_open,
            backed_out,
            matched,
            context_active,
        ).close_menus_and_leader,
        !url_picker_open && !backed_out ==> spec_leader_key_outcome(
            LeaderActionMenuAction::BackOrClose,
            url_picker_open,
            backed_out,
            matched,
            context_active,
        ).close_menus_and_leader,
{
}

/// An action of the channel switcher's key bindings.
#[derive(Clone, Copy, Debug, PartialEq, Eq, Structural)]
pub enum ChannelSwitcherAction {
    Select(SelectionAction),
    Close,
    ActivateSelected,
    MoveQueryCursorLeft,
    MoveQueryCursorRight,
    DeleteQueryChar,
    InsertQueryChar(char),
}

/// What the channel switcher does with a key.
#[derive(Clone, Copy, Debug, PartialEq, Eq, Structural)]
pub enum ChannelSwitcherStep {
    MoveDown,
    MoveUp,
    Close,
    /// Opens the selected channel; its command is handed back.
    ActivateSelected,
    MoveQueryCursorLeft,
    MoveQueryCursorRight,
    DeleteQueryChar,
    InsertQueryChar(char),
    /// The key has no binding here.
    Ignore,
}

pub open spec fn spec_channel_switcher_step(action: Option<ChannelSwitcherAction>) -> ChannelSwitcherStep {
    match action {
        Some(ChannelSwitcherAction::Select(SelectionAction::Next)) => ChannelSwitcherStep::MoveDown,
        Some(ChannelSwitcherAction::Select(SelectionAction::Previous)) => ChannelSwitcherStep::MoveUp,
        Some(ChannelSwitcherAction::Close) => ChannelSwitcherStep::Close,
        Some(ChannelSwitcherAction::ActivateSelected) => ChannelSwitcherStep::ActivateSelected,
        Some(ChannelSwitcherAction::MoveQueryCursorLeft) => ChannelSwitcherStep::MoveQueryCursorLeft,
        Some(ChannelSwitcherAction::MoveQueryCursorRight) => ChannelSwitcherStep::MoveQueryCursorRight,
        Some(ChannelSwitcherAction::DeleteQueryChar) => ChannelSwitcherStep::DeleteQueryChar,
        Some(ChannelSwitcherAction::InsertQueryChar(c)) => ChannelSwitcherStep::InsertQueryChar(c),
        None => ChannelSwitcherStep::Ignore,
    }
}

/// What the channel switcher does with the action bound to a key, if any.
pub fn channel_switcher_step(action: Option<ChannelSwitcherAction>) -> (step: ChannelSwitcherStep)
    ensures
        step == spec_channel_switcher_step(action),
{
    match action {
        Some(ChannelSwitcherAction::Select(SelectionAction::Next)) => ChannelSwitcherStep::MoveDown,
        Some(ChannelSwitcherAction::Select(SelectionAction::Previous)) => ChannelSwitcherStep::MoveUp,
        Some(ChannelSwitcherAction::Close) => ChannelSwitcherStep::Close,
        Some(ChannelSwitcherAction::ActivateSelected) => ChannelSwitcherStep::ActivateSelected,
        Some(ChannelSwitcherAction::MoveQueryCursorLeft) => ChannelSwitcherStep::MoveQueryCursorLeft,
        Some(ChannelSwitcherAction::MoveQueryCursorRight) => ChannelSwitcherStep::MoveQueryCursorRight,
        Some(ChannelSwitcherAction::DeleteQueryChar) => ChannelSwitcherStep::DeleteQueryChar,
        Some(ChannelSwitcherAction::InsertQueryChar(c)) => ChannelSwitcherStep::InsertQueryChar(c),
        None => ChannelSwitcherStep::Ignore,
    }
}

/// The command a channel switcher step hands back: only activating the
/// selected channel gives one, the activation's own.
pub fn channel_switcher_result(step: ChannelSwitcherStep, activation_command: Option<AppCommand>) -> (command:
    Option<AppCommand>)
    ensures
        command == (if step is ActivateSelected {
            activation_command
        } else {
            None
        }),
{
    match step {
        ChannelSwitcherStep::ActivateSelected => activation_command,
        _ => None,
    }
}

/// An action of the emoji reaction picker's key bindings.
#[derive(Clone, Copy, Debug, PartialEq, Eq, Structural)]
pub enum EmojiReactionPickerAction {
    Select(SelectionAction),
    Close,
    DeleteFilterChar,
    CommitFilter,
    StartFilter,
    InsertFilterChar(char),
    ActivateSelected,
    ActivateShortcut(KeyChord),
}

/// What the emoji reaction picker does with a key.
#[derive(Clone, Copy, Debug, PartialEq, Eq, Structural)]
pub enum EmojiPickerStep {
    MoveDown,
    MoveUp,
    Close,
    DeleteFilterChar,
    CommitFilter,
    StartFilter,
    InsertFilterChar(char),
    /// Reacts with the selected emoji; its command is handed back.
    ActivateSelected,
    /// Reacts with the emoji of a numbered shortcut; its command is handed
    /// back.
    ActivateShortcut(KeyChord),
    /// The key has no binding here.
    Ignore,
}

pub open spec fn spec_emoji_picker_step(action: Option<EmojiReactionPickerAction>) -> EmojiPickerStep {
    match action {
        Some(EmojiReactionPickerAction::Select(SelectionAction::Next)) => EmojiPickerStep::MoveDown,
        Some(EmojiReactionPickerAction::Select(SelectionAction::Previous)) => EmojiPickerStep::MoveUp,
        Some(EmojiReactionPickerAction::Close) => EmojiPickerStep::Close,
        Some(EmojiReactionPickerAction::DeleteFilterChar) => EmojiPickerStep::DeleteFilterChar,
        Some(EmojiReactionPickerAction::CommitFilter) => EmojiPickerStep::CommitFilter,
        Some(EmojiReactionPickerAction::StartFilter) => EmojiPickerStep::StartFilter,
        Some(EmojiReactionPickerAction::InsertFilterChar(c)) => EmojiPickerStep::InsertFilterChar(c),
        Some(EmojiReactionPickerAction::ActivateSelected) => EmojiPickerStep::ActivateSelected,
        Some(EmojiReactionPickerAction::ActivateShortcut(k)) => EmojiPickerStep::ActivateShortcut(k),
        None => EmojiPickerStep::Ignore,
    }
}

/// What the emoji reaction picker does with the action bound to a key, if
/// any. Which action a key is bound to depends on whether the filter is
/// being edited; that lookup belongs to the key bindings.
pub fn emoji_reaction_picker_step(action: Option<EmojiReactionPickerAction>) -> (step: EmojiPickerStep)
    ensures
        step == spec_emoji_picker_step(action),
{
    match action {
        Some(EmojiReactionPickerAction::Select(SelectionAction::Next)) => EmojiPickerStep::MoveDown,
        Some(EmojiReactionPickerAction::Select(SelectionAction::Previous)) => EmojiPickerStep::MoveUp,
        Some(EmojiReactionPickerAction::Close) => EmojiPickerStep::Close,
        Some(EmojiReactionPickerAction::DeleteFilterChar) => EmojiPickerStep::DeleteFilterChar,
        Some(EmojiReactionPickerAction::CommitFilter) => EmojiPickerStep::CommitFilter,
        Some(EmojiReactionPickerAction::StartFilter) => EmojiPickerStep::StartFilter,
        Some(EmojiReactionPickerAction::InsertFilterChar(c)) => EmojiPickerStep::InsertFilterChar(c),
        Some(EmojiReactionPickerAction::ActivateSelected) => EmojiPickerStep::ActivateSelected,
        Some(EmojiReactionPickerAction::ActivateShortcut(k)) => EmojiPickerStep::ActivateShortcut(k),
        None => EmojiPickerStep::Ignore,
    }
}

/// Whether the emoji reaction picker has fully handled a key, and with
/// which command. A closing key or a key that edits the filter is fully
/// handled and gives no command; an activation is fully handled and gives
/// the activation's own command; a movement key (after the list moved) and
/// a key with no binding fall through to normal navigation.
pub open spec fn spec_emoji_picker_result(step: EmojiPickerStep, activation_command: Option<AppCommand>)
    -> Option<Option<AppCommand>> {
    match step {
        EmojiPickerStep::MoveDown | EmojiPickerStep::MoveUp | EmojiPickerStep::Ignore => None,
        EmojiPickerStep::ActivateSelected | EmojiPickerStep::ActivateShortcut(_) => Some(
            activation_command,
        ),
        _ => Some(None),
    }
}

/// What the emoji reaction picker hands back for a step: `Some(command)`
/// when it has fully handled the key and the caller returns `command`,
/// `None` when the key falls through to normal navigation.
pub fn emoji_picker_result(step: EmojiPickerStep, activation_command: Option<AppCommand>) -> (handled:
    Option<Option<AppCommand>>)
    ensures
        handled == spec_emoji_picker_result(step, activation_command),
        handled is None <==> (step is MoveDown || step is MoveUp || step is Ignore),
        step is Close ==> handled == Some(None::<AppCommand>),
        (step is ActivateSelected || step is ActivateShortcut) ==> handled == Some(activation_command),
{
    match step {
        EmojiPickerStep::MoveDown | EmojiPickerStep::MoveUp | EmojiPickerStep::Ignore => None,
        EmojiPickerStep::ActivateSelected | EmojiPickerStep::ActivateShortcut(_) => Some(
            activation_command,
        ),
        _ => Some(None),
    }
}

/// The options categories that have a direct shortcut.
#[derive(Clone, Copy, Debug, PartialEq, Eq, Structural)]
pub enum OptionsCategoryShortcut {
    Display,
    Notifications,
    Voice,
}

/// An action of the global key bindings.
#[derive(Clone, Copy, Debug, PartialEq, Eq, Structural)]
pub enum UiAction {
    ToggleGuildPane,
    ToggleChannelPane,
    ToggleMemberPane,
    OpenFocusedPaneAction,
    OpenOptions,
    ChannelSwitcher,
    OpenDisplayOptions,
    OpenNotificationOptions,
    OpenVoiceOptions,
    VoiceDeafen,
    VoiceMute,
    VoiceLeave,
    /// An action that has a meaning only through the dashboard action that
    /// the key bindings give it.
    Other,
}

/// What the dashboard does for a global action.
#[derive(Clone, Copy, Debug, PartialEq, Eq, Structural)]
pub enum UiStep {
    Dashboard(DashboardStep),
    TogglePane(FocusPane),
    OpenFocusedPaneLeaderActions,
    OpenOptionsCategoryPicker,
    OpenChannelSwitcher,
    OpenOptionsCategory(OptionsCategoryShortcut),
    ToggleVoiceDeafen,
    ToggleVoiceMute,
    /// Leaves the voice channel; its command is handed back.
    LeaveVoiceChannel,
    Nothing,
}

pub open spec fn spec_ui_action_step(
    action: UiAction,
    dashboard_action: Option<DashboardAction>,
    focus: FocusPane,
) -> UiStep {
    match dashboard_action {
        Some(d) => UiStep::Dashboard(spec_dashboard_step(focus, d)),
        None => match action {
            UiAction::ToggleGuildPane => UiStep::TogglePane(FocusPane::Guilds),
            UiAction::ToggleChannelPane => UiStep::TogglePane(FocusPane::Channels),
            UiAction::ToggleMemberPane => UiStep::TogglePane(FocusPane::Members),
            UiAction::OpenFocusedPaneAction => UiStep::OpenFocusedPaneLeaderActions,
            UiAction::OpenOptions => UiStep::OpenOptionsCategoryPicker,
            UiAction::ChannelSwitcher => UiStep::OpenChannelSwitcher,
            UiAction::OpenDisplayOptions => UiStep::OpenOptionsCategory(
                OptionsCategoryShortcut::Display,
            ),
            UiAction::OpenNotificationOptions => UiStep::OpenOptionsCategory(
                OptionsCategoryShortcut::Notifications,
            ),
            UiAction::OpenVoiceOptions => UiStep::OpenOptionsCategory(OptionsCategoryShortcut::Voice),
            UiAction::VoiceDeafen => UiStep::ToggleVoiceDeafen,
            UiAction::VoiceMute => UiStep::ToggleVoiceMute,
            UiAction::VoiceLeave => UiStep::LeaveVoiceChannel,
            UiAction::Other => UiStep::Nothing,
        },
    }
}

/// What the dashboard does for a global action: the dashboard action that
/// the key bindings give it for the focused pane, when they give one, comes
/// first; otherwise the action's own effect.
pub fn ui_action_step(action: UiAction, dashboard_action: Option<DashboardAction>, focus: FocusPane) -> (step:
    UiStep)
    ensures
        step == spec_ui_action_step(action, dashboard_action, focus),
{
    if let Some(dashboard_action) = dashboard_action {
        return UiStep::Dashboard(dashboard_action_step(focus, dashboard_action));
    }
    match action {
        UiAction::ToggleGuildPane => UiStep::TogglePane(FocusPane::Guilds),
        UiAction::ToggleChannelPane => UiStep::TogglePane(FocusPane::Channels),
        UiAction::ToggleMemberPane => UiStep::TogglePane(FocusPane::Members),
        UiAction::OpenFocusedPaneAction => UiStep::OpenFocusedPaneLeaderActions,
        UiAction::OpenOptions => UiStep::OpenOptionsCategoryPicker,
        UiAction::ChannelSwitcher => UiStep::OpenChannelSwitcher,
        UiAction::OpenDisplayOptions => UiStep::OpenOptionsCategory(OptionsCategoryShortcut::Display),
        UiAction::OpenNotificationOptions => UiStep::OpenOptionsCategory(
            OptionsCategoryShortcut::Notifications,
        ),
        UiAction::OpenVoiceOptions => UiStep::OpenOptionsCategory(OptionsCategoryShortcut::Voice),
        UiAction::VoiceDeafen => UiStep::ToggleVoiceDeafen,
        UiAction::VoiceMute => UiStep::ToggleVoiceMute,
        UiAction::VoiceLeave => UiStep::LeaveVoiceChannel,
        UiAction::Other => UiStep::Nothing,
    }
}

/// The result of a global action: a dashboard step completes as
/// `dashboard_step_result` says; leaving voice hands back its command; every
/// other action changes no focus and gives no command.
pub fn ui_step_result(step: UiStep, guild_confirmed: bool, callee_command: Option<AppCommand>) -> (result:
    DashboardStepResult)
    ensures
        match step {
            UiStep::Dashboard(d) => result.focus == step_focus(d, guild_confirmed, callee_command)
                && result.command == (if step_returns_callee_command(d) {
                callee_command
            } else {
                None
            }),
            UiStep::LeaveVoiceChannel => result.focus is None && result.command == callee_command,
            _ => result.focus is None && result.command is None,
        },
{
    match step {
        UiStep::Dashboard(d) => dashboard_step_result(d, guild_confirmed, callee_command),
        UiStep::LeaveVoiceChannel => DashboardStepResult { focus: None, command: callee_command },
        _ => DashboardStepResult { focus: None, command: None },
    }
}

/// Each dashboard action takes the step its name promises, whatever pane
/// has the focus: moving down and up, jumping to the top and to the bottom,
/// half pages down and up, scrolling the message viewport down and up and
/// the focused pane left and right, cycling the focus forward and backward,
/// and resizing the focused pane narrower (left) and wider (right) never
/// trade places. Only moving up, by a row or half a page, asks for older
/// history.
pub proof fn lemma_dashboard_actions_keep_their_direction(focus: FocusPane)
    ensures
        spec_dashboard_step(focus, DashboardAction::Select(SelectionAction::Next))
            == DashboardStep::MoveDown,
        spec_dashboard_step(focus, DashboardAction::Select(SelectionAction::Previous))
            == DashboardStep::MoveUpThenLoadOlderHistory,
        spec_dashboard_step(focus, DashboardAction::JumpTop) == DashboardStep::JumpTop,
        spec_dashboard_step(focus, DashboardAction::JumpBottom) == DashboardStep::JumpBottom,
        spec_dashboard_step(focus, DashboardAction::HalfPageDown) == DashboardStep::HalfPageDown,
        spec_dashboard_step(focus, DashboardAction::HalfPageUp)
            == DashboardStep::HalfPageUpThenLoadOlderHistory,
        spec_dashboard_step(focus, DashboardAction::ScrollMessageViewportDown)
            == DashboardStep::ScrollMessageViewportDown,
        spec_dashboard_step(focus, DashboardAction::ScrollMessageViewportUp)
            == DashboardStep::ScrollMessageViewportUp,
        spec_dashboard_step(focus, DashboardAction::ScrollHorizontalLeft)
            == DashboardStep::ScrollFocusedPaneLeft,
        spec_dashboard_step(focus, DashboardAction::ScrollHorizontalRight)
            == DashboardStep::ScrollFocusedPaneRight,
        spec_dashboard_step(focus, DashboardAction::CycleFocusForward)
            == DashboardStep::CycleFocusForward,
        spec_dashboard_step(focus, DashboardAction::CycleFocusBackward)
            == DashboardStep::CycleFocusBackward,
        spec_dashboard_step(focus, DashboardAction::ResizePaneLeft)
            == DashboardStep::AdjustFocusedPaneWidth(-1i8),
        spec_dashboard_step(focus, DashboardAction::ResizePaneRight)
            == DashboardStep::AdjustFocusedPaneWidth(1i8),
{
}

/// Back leaves the pinned view or thread, Quit asks to confirm quitting,
/// the composer key starts the composer, a pane key shows and focuses that
/// very pane, the filter key filters the focused pane, and a message
/// shortcut runs the message action of the same name.
pub proof fn lemma_dashboard_commands_target_what_they_name(
    focus: FocusPane,
    pane: FocusPane,
    shortcut: MessageShortcutAction,
)
    ensures
        spec_dashboard_step(focus, DashboardAction::Back)
            == DashboardStep::ReturnFromPinnedViewOrThread,
        spec_dashboard_step(focus, DashboardAction::Quit) == DashboardStep::OpenQuitConfirmation,
        spec_dashboard_step(focus, DashboardAction::StartComposer) == DashboardStep::StartComposer,
        spec_dashboard_step(focus, DashboardAction::FocusPane(pane))
            == DashboardStep::ShowAndFocusPane(pane),
        spec_dashboard_step(focus, DashboardAction::OpenFocusedPaneFilter)
            == DashboardStep::OpenPaneFilter(focus),
        spec_dashboard_step(focus, DashboardAction::MessageShortcut(shortcut))
            == DashboardStep::ActivateMessageAction(spec_message_shortcut_kind(shortcut)),
{
}

/// Activating the focused pane confirms the selected guild in the guild
/// pane, opens the selected channel in the channel pane, opens the actions
/// of the selected member in the member pane, and activates the selected
/// item in the message pane.
pub proof fn lemma_activate_depends_on_the_focused_pane()
    ensures
        spec_dashboard_step(FocusPane::Guilds, DashboardAction::ActivateFocused)
            == DashboardStep::ConfirmGuildThenFocusChannels,
        spec_dashboard_step(FocusPane::Channels, DashboardAction::ActivateFocused)
            == DashboardStep::ConfirmChannelThenFocusMessages,
        spec_dashboard_step(FocusPane::Members, DashboardAction::ActivateFocused)
            == DashboardStep::OpenSelectedMemberActions,
        spec_dashboard_step(FocusPane::Messages, DashboardAction::ActivateFocused)
            == DashboardStep::ActivateSelectedMessagePaneItem,
{
}

/// A message shortcut runs the menu entry of the same name.
pub proof fn lemma_message_shortcuts_run_their_namesake()
    ensures
        spec_message_shortcut_kind(MessageShortcutAction::CopyContent)
            == MessageActionKind::CopyContent,
        spec_message_shortcut_kind(MessageShortcutAction::OpenReactionPicker)
            == MessageActionKind::OpenReactionPicker,
        spec_message_shortcut_kind(MessageShortcutAction::Reply) == MessageActionKind::Reply,
        spec_message_shortcut_kind(MessageShortcutAction::OpenDeleteConfirmation)
            == MessageActionKind::OpenDeleteConfirmation,
        spec_message_shortcut_kind(MessageShortcutAction::Edit) == MessageActionKind::Edit,
        spec_message_shortcut_kind(MessageShortcutAction::OpenUrl) == MessageActionKind::OpenUrl,
        spec_message_shortcut_kind(MessageShortcutAction::ViewAttachment)
            == MessageActionKind::ViewAttachment,
        spec_message_shortcut_kind(MessageShortcutAction::ShowProfile)
            == MessageActionKind::ShowProfile,
        spec_message_shortcut_kind(MessageShortcutAction::OpenPinConfirmation)
            == MessageActionKind::OpenPinConfirmation,
        spec_message_shortcut_kind(MessageShortcutAction::OpenThread)
            == MessageActionKind::OpenThread,
        spec_message_shortcut_kind(MessageShortcutAction::ShowReactionUsers)
            == MessageActionKind::ShowReactionUsers,
        spec_message_shortcut_kind(MessageShortcutAction::OpenPollVotePicker)
            == MessageActionKind::OpenPollVotePicker,
{
}

/// Which steps hand back their method's command, and which move the focus:
/// the upward moves (older history), message actions, the selected message
/// pane item and opening a channel hand back a command; confirming a guild
/// focuses the channels when it succeeds, and opening a channel focuses the
/// messages when it sent a command; no other step moves the focus.
pub proof fn lemma_dashboard_step_results(
    step: DashboardStep,
    guild_confirmed: bool,
    command: Option<AppCommand>,
)
    ensures
        step_returns_callee_command(step) <==> (step is MoveUpThenLoadOlderHistory
            || step is HalfPageUpThenLoadOlderHistory || step is ActivateMessageAction
            || step is ActivateSelectedMessagePaneItem || step is ConfirmChannelThenFocusMessages),
        step == DashboardStep::ConfirmGuildThenFocusChannels ==> step_focus(
            step,
            guild_confirmed,
            command,
        ) == (if guild_confirmed {
            Some(FocusPane::Channels)
        } else {
            None::<FocusPane>
        }),
        step == DashboardStep::ConfirmChannelThenFocusMessages ==> step_focus(
            step,
            guild_confirmed,
            command,
        ) == (if command is Some {
            Some(FocusPane::Messages)
        } else {
            None::<FocusPane>
        }),
        !(step is ConfirmGuildThenFocusChannels || step is ConfirmChannelThenFocusMessages)
            ==> step_focus(step, guild_confirmed, command) is None,
{
}

/// The first menu in the order messages, channels, guilds, members that has
/// an entry for the shortcut runs it: a menu runs it exactly when it has an
/// entry and no earlier menu has one, and no menu runs it when none has an
/// entry.
pub proof fn lemma_leader_shortcut_goes_to_the_first_matching_menu(
    message: bool,
    channel: bool,
    guild: bool,
    member: bool,
)
    ensures
        spec_leader_shortcut_target(message, channel, guild, member) == Some(
            LeaderActionTarget::Message,
        ) <==> message,
        spec_leader_shortcut_target(message, channel, guild, member) == Some(
            LeaderActionTarget::Channel,
        ) <==> !message && channel,
        spec_leader_shortcut_target(message, channel, guild, member) == Some(
            LeaderActionTarget::Guild,
        ) <==> !message && !channel && guild,
        spec_leader_shortcut_target(message, channel, guild, member) == Some(
            LeaderActionTarget::Member,
        ) <==> !message && !channel && !guild && member,
        spec_leader_shortcut_target(message, channel, guild, member) is None <==> !message
            && !channel && !guild && !member,
{
}

/// What each leader menu key does: Back closes an open URL picker and
/// nothing else; otherwise it steps out of a submenu when there was one, and
/// closes everything when there was not. Close and unbound keys close
/// everything. A shortcut hands back its command and closes everything
/// exactly when no menu took it or no menu is left open. Only a shortcut
/// hands back a command.
pub proof fn lemma_leader_key_outcomes(
    action: LeaderActionMenuAction,
    url_picker_open: bool,
    backed_out: bool,
    matched: bool,
    context_active: bool,
)
    ensures
        ({
            let outcome = spec_leader_key_outcome(
                action,
                url_picker_open,
                backed_out,
                matched,
                context_active,
            );
            &&& outcome.returns_shortcut_command <==> action is ActivateShortcut
            &&& outcome.close_url_picker <==> (action == LeaderActionMenuAction::BackOrClose
                && url_picker_open)
            &&& action == LeaderActionMenuAction::BackOrClose ==> (outcome.close_menus_and_leader
                <==> !url_picker_open && !backed_out)
            &&& (action == LeaderActionMenuAction::Close || action
                == LeaderActionMenuAction::UnknownClose) ==> outcome.close_menus_and_leader
            &&& action is ActivateShortcut ==> (outcome.close_menus_and_leader <==> !matched
                || !context_active)
        }),
{
}

/// Each channel switcher key does what its binding names: down and up move
/// the selection down and up, the cursor keys move the query cursor left and
/// right, and the query keys delete or insert that very character.
pub proof fn lemma_channel_switcher_keys(c: char)
    ensures
        spec_channel_switcher_step(Some(ChannelSwitcherAction::Select(SelectionAction::Next)))
            == ChannelSwitcherStep::MoveDown,
        spec_channel_switcher_step(Some(ChannelSwitcherAction::Select(SelectionAction::Previous)))
            == ChannelSwitcherStep::MoveUp,
        spec_channel_switcher_step(Some(ChannelSwitcherAction::Close)) == ChannelSwitcherStep::Close,
        spec_channel_switcher_step(Some(ChannelSwitcherAction::ActivateSelected))
            == ChannelSwitcherStep::ActivateSelected,
        spec_channel_switcher_step(Some(ChannelSwitcherAction::MoveQueryCursorLeft))
            == ChannelSwitcherStep::MoveQueryCursorLeft,
        spec_channel_switcher_step(Some(ChannelSwitcherAction::MoveQueryCursorRight))
            == ChannelSwitcherStep::MoveQueryCursorRight,
        spec_channel_switcher_step(Some(ChannelSwitcherAction::DeleteQueryChar))
            == ChannelSwitcherStep::DeleteQueryChar,
        spec_channel_switcher_step(Some(ChannelSwitcherAction::InsertQueryChar(c)))
            == ChannelSwitcherStep::InsertQueryChar(c),
        spec_channel_switcher_step(None) == ChannelSwitcherStep::Ignore,
{
}

/// Each emoji picker key does what its binding names, the filter keys
/// insert or delete that very character, and an activation by shortcut uses
/// that very shortcut.
pub proof fn lemma_emoji_picker_keys(c: char, shortcut: KeyChord)
    ensures
        spec_emoji_picker_step(Some(EmojiReactionPickerAction::Select(SelectionAction::Next)))
            == EmojiPickerStep::MoveDown,
        spec_emoji_picker_step(Some(EmojiReactionPickerAction::Select(SelectionAction::Previous)))
            == EmojiPickerStep::MoveUp,
        spec_emoji_picker_step(Some(EmojiReactionPickerAction::Close)) == EmojiPickerStep::Close,
        spec_emoji_picker_step(Some(EmojiReactionPickerAction::DeleteFilterChar))
            == EmojiPickerStep::DeleteFilterChar,
        spec_emoji_picker_step(Some(EmojiReactionPickerAction::CommitFilter))
            == EmojiPickerStep::CommitFilter,
        spec_emoji_picker_step(Some(EmojiReactionPickerAction::StartFilter))
            == EmojiPickerStep::StartFilter,
        spec_emoji_picker_step(Some(EmojiReactionPickerAction::InsertFilterChar(c)))
            == EmojiPickerStep::InsertFilterChar(c),
        spec_emoji_picker_step(Some(EmojiReactionPickerAction::ActivateSelected))
            == EmojiPickerStep::ActivateSelected,
        spec_emoji_picker_step(Some(EmojiReactionPickerAction::ActivateShortcut(shortcut)))
            == EmojiPickerStep::ActivateShortcut(shortcut),
        spec_emoji_picker_step(None) == EmojiPickerStep::Ignore,
{
}

/// The emoji picker fully handles every key but movement and unbound keys:
/// those fall through; an activation hands back its own command, and every
/// other handled key hands back none.
pub proof fn lemma_emoji_picker_handles_all_but_navigation(
    step: EmojiPickerStep,
    activation_command: Option<AppCommand>,
)
    ensures
        spec_emoji_picker_result(step, activation_command) is None <==> (step is MoveDown
            || step is MoveUp || step is Ignore),
        (step is ActivateSelected || step is ActivateShortcut) ==> spec_emoji_picker_result(
            step,
            activation_command,
        ) == Some(activation_command),
        (step is Close || step is DeleteFilterChar || step is CommitFilter || step is StartFilter
            || step is InsertFilterChar) ==> spec_emoji_picker_result(step, activation_command)
            == Some(None::<AppCommand>),
{
}

/// A global action that the key bindings map to a dashboard action for the
/// focused pane takes that dashboard step; otherwise each action does what
/// its name says: the pane toggles toggle that very pane, the options
/// shortcuts open that very category, and the voice keys deafen, mute and
/// leave.
pub proof fn lemma_global_actions(action: UiAction, dashboard_action: DashboardAction, focus: FocusPane)
    ensures
        spec_ui_action_step(action, Some(dashboard_action), focus) == UiStep::Dashboard(
            spec_dashboard_step(focus, dashboard_action),
        ),
        spec_ui_action_step(UiAction::ToggleGuildPane, None, focus) == UiStep::TogglePane(
            FocusPane::Guilds,
        ),
        spec_ui_action_step(UiAction::ToggleChannelPane, None, focus) == UiStep::TogglePane(
            FocusPane::Channels,
        ),
        spec_ui_action_step(UiAction::ToggleMemberPane, None, focus) == UiStep::TogglePane(
            FocusPane::Members,
        ),
        spec_ui_action_step(UiAction::OpenFocusedPaneAction, None, focus)
            == UiStep::OpenFocusedPaneLeaderActions,
        spec_ui_action_step(UiAction::OpenOptions, None, focus)
            == UiStep::OpenOptionsCategoryPicker,
        spec_ui_action_step(UiAction::ChannelSwitcher, None, focus) == UiStep::OpenChannelSwitcher,
        spec_ui_action_step(UiAction::OpenDisplayOptions, None, focus)
            == UiStep::OpenOptionsCategory(OptionsCategoryShortcut::Display),
        spec_ui_action_step(UiAction::OpenNotificationOptions, None, focus)
            == UiStep::OpenOptionsCategory(OptionsCategoryShortcut::Notifications),
        spec_ui_action_step(UiAction::OpenVoiceOptions, None, focus) == UiStep::OpenOptionsCategory(
            OptionsCategoryShortcut::Voice,
        ),
        spec_ui_action_step(UiAction::VoiceDeafen, None, focus) == UiStep::ToggleVoiceDeafen,
        spec_ui_action_step(UiAction::VoiceMute, None, focus) == UiStep::ToggleVoiceMute,
        spec_ui_action_step(UiAction::VoiceLeave, None, focus) == UiStep::LeaveVoiceChannel,
        spec_ui_action_step(UiAction::Other, None, focus) == UiStep::Nothing,
{
}

/// The popups that take keys before the global bindings are the keymap,
/// the debug log, the options, the reaction users, the poll vote picker,
/// the emoji reaction picker and the four confirmations, each by its own
/// handler; the channel switcher, the leader popup, the URL picker, the
/// message action menu, the attachment viewer and the profile popup take
/// keys after them, each by its own handler.
pub proof fn lemma_popup_key_handlers()
    ensures
        spec_priority_target(ActiveModalPopupKind::KeymapHelp) == Some(
            PriorityPopupKeyTarget::Keymap,
        ),
        spec_priority_target(ActiveModalPopupKind::DebugLog) == Some(
            PriorityPopupKeyTarget::DebugLog,
        ),
        spec_priority_target(ActiveModalPopupKind::QuitConfirmation) == Some(
            PriorityPopupKeyTarget::QuitConfirmation,
        ),
        spec_priority_target(ActiveModalPopupKind::Options) == Some(
            PriorityPopupKeyTarget::Options,
        ),
        spec_priority_target(ActiveModalPopupKind::ReactionUsers) == Some(
            PriorityPopupKeyTarget::ReactionUsers,
        ),
        spec_priority_target(ActiveModalPopupKind::MessageDeleteConfirmation) == Some(
            PriorityPopupKeyTarget::MessageDeleteConfirmation,
        ),
        spec_priority_target(ActiveModalPopupKind::MessagePinConfirmation) == Some(
            PriorityPopupKeyTarget::MessagePinConfirmation,
        ),
        spec_priority_target(ActiveModalPopupKind::GuildLeaveConfirmation) == Some(
            PriorityPopupKeyTarget::GuildLeaveConfirmation,
        ),
        spec_priority_target(ActiveModalPopupKind::PollVotePicker) == Some(
            PriorityPopupKeyTarget::PollVotePicker,
        ),
        spec_priority_target(ActiveModalPopupKind::EmojiReactionPicker) == Some(
            PriorityPopupKeyTarget::EmojiReactionPicker,
        ),
        spec_deferred_target(ActiveModalPopupKind::ChannelSwitcher) == Some(
            DeferredPopupKeyTarget::ChannelSwitcher,
        ),
        spec_deferred_target(ActiveModalPopupKind::Leader) == Some(DeferredPopupKeyTarget::Leader),
        spec_deferred_target(ActiveModalPopupKind::MessageUrlPicker) == Some(
            DeferredPopupKeyTarget::MessageUrlPicker,
        ),
        spec_deferred_target(ActiveModalPopupKind::MessageActionMenu) == Some(
            DeferredPopupKeyTarget::MessageActionMenu,
        ),
        spec_deferred_target(ActiveModalPopupKind::AttachmentViewer) == Some(
            DeferredPopupKeyTarget::AttachmentViewer,
        ),
        spec_deferred_target(ActiveModalPopupKind::UserProfile) == Some(
            DeferredPopupKeyTarget::UserProfile,
        ),
{
}

/// Escape and `q` close the keymap popup, with or without modifiers; no
/// other key does.
pub proof fn lemma_keymap_popup_closing_keys(key: KeyEvent)
    ensures
        spec_keymap_popup_key_closes(key) <==> (key.code == KeyCode::Esc || key.code
            == KeyCode::Char('q')),
{
}

} // verus!
