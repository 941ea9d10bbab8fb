use discord_tui::keybindings::KeyBindings;
use discord_tui::keyboard::{
    dashboard_action_step, keymap_popup_key_closes, leader_shortcut_target,
    message_shortcut_action_kind, DashboardAction, DashboardStep, DeferredPopupKeyTarget,
    LeaderActionTarget, MessageActionKind, MessageShortcutAction, PriorityPopupKeyTarget,
    SelectionAction,
};
use discord_tui::keys::{KeyChord, KeyCode, KeyEvent, KeyModifiers};
use discord_tui::layout::standalone_message_rendered_height;
use discord_tui::paste::{
    after_text_paste, native_paste_starts, paste_failure_log_lines, AfterTextPaste,
    TextPasteOutcome,
};
use discord_tui::state::dashboard::{ActiveGuildScope, DashboardState, FocusPane, Navigation};
use discord_tui::state::discord::{DiscordCache, DiscordState};
use discord_tui::state::popups::{ModalPopup, Popups};
use discord_tui::url_picker::{message_url_picker_lines, MessageUrlItem};

fn empty_dashboard(modal: Option<ModalPopup>) -> DashboardState {
    DashboardState {
        navigation: Navigation { focus: FocusPane::Messages, active_guild: ActiveGuildScope::Unset },
        members: Vec::new(),
        selected_member: 0,
        popups: Popups { modal },
        discord: DiscordState {
            guild_members: Vec::new(),
            guild_presences: Vec::new(),
            direct_channels: Vec::new(),
            cache: DiscordCache { profiles: Vec::new(), presences: Vec::new(), activities: Vec::new() },
        },
        key_bindings: KeyBindings::default(),
    }
}

#[test]
fn popups_route_keys_to_one_handler() {
    let state = empty_dashboard(Some(ModalPopup::QuitConfirmation));
    assert_eq!(PriorityPopupKeyTarget::active(&state), Some(PriorityPopupKeyTarget::QuitConfirmation));
    assert_eq!(DeferredPopupKeyTarget::active(&state), None);

    let state = empty_dashboard(Some(ModalPopup::ChannelSwitcher));
    assert_eq!(PriorityPopupKeyTarget::active(&state), None);
    assert_eq!(DeferredPopupKeyTarget::active(&state), Some(DeferredPopupKeyTarget::ChannelSwitcher));

    let state = empty_dashboard(None);
    assert_eq!(PriorityPopupKeyTarget::active(&state), None);
    assert_eq!(DeferredPopupKeyTarget::active(&state), None);
}

#[test]
fn dashboard_actions_pick_their_steps() {
    assert_eq!(
        dashboard_action_step(FocusPane::Guilds, DashboardAction::Select(SelectionAction::Previous)),
        DashboardStep::MoveUpThenLoadOlderHistory
    );
    assert_eq!(
        dashboard_action_step(FocusPane::Members, DashboardAction::ActivateFocused),
        DashboardStep::OpenSelectedMemberActions
    );
    assert_eq!(
        dashboard_action_step(FocusPane::Guilds, DashboardAction::ActivateFocused),
        DashboardStep::ConfirmGuildThenFocusChannels
    );
    assert_eq!(
        dashboard_action_step(FocusPane::Channels, DashboardAction::ResizePaneLeft),
        DashboardStep::AdjustFocusedPaneWidth(-1)
    );
    assert_eq!(
        dashboard_action_step(FocusPane::Channels, DashboardAction::OpenFocusedPaneFilter),
        DashboardStep::OpenPaneFilter(FocusPane::Channels)
    );
    assert_eq!(
        dashboard_action_step(
            FocusPane::Messages,
            DashboardAction::MessageShortcut(MessageShortcutAction::Reply)
        ),
        DashboardStep::ActivateMessageAction(MessageActionKind::Reply)
    );
    assert_eq!(
        message_shortcut_action_kind(MessageShortcutAction::OpenPollVotePicker),
        MessageActionKind::OpenPollVotePicker
    );
}

#[test]
fn leader_shortcuts_try_messages_first() {
    assert_eq!(leader_shortcut_target(true, true, true, true), Some(LeaderActionTarget::Message));
    assert_eq!(leader_shortcut_target(false, false, true, true), Some(LeaderActionTarget::Guild));
    assert_eq!(leader_shortcut_target(false, false, false, true), Some(LeaderActionTarget::Member));
    assert_eq!(leader_shortcut_target(false, false, false, false), None);
}

#[test]
fn numbered_shortcuts_match_rows() {
    let bindings = KeyBindings::default();
    assert_eq!(bindings.indexed_shortcut(0), Some('1'));
    assert_eq!(bindings.indexed_shortcut(9), None);
    assert!(bindings.indexed_shortcut_matches(KeyChord::char('3'), 3));
    assert!(!bindings.indexed_shortcut_matches(KeyChord::char('3'), 2));
    let control_three = KeyChord { code: KeyCode::Char('3'), modifiers: KeyModifiers::control() };
    assert!(!bindings.indexed_shortcut_matches(control_three, 5));
}

#[test]
fn keymap_popup_closes_on_escape_or_q() {
    assert!(keymap_popup_key_closes(KeyEvent::new(KeyCode::Esc, KeyModifiers::none())));
    assert!(keymap_popup_key_closes(KeyEvent::new(KeyCode::Char('q'), KeyModifiers::none())));
    assert!(!keymap_popup_key_closes(KeyEvent::new(KeyCode::Char('j'), KeyModifiers::none())));
}

#[test]
fn native_paste_steps() {
    let paste = KeyEvent::new(KeyCode::Char('v'), KeyModifiers::control());
    assert!(native_paste_starts(paste, true));
    assert!(!native_paste_starts(paste, false));
    assert_eq!(after_text_paste(TextPasteOutcome::Pasted, true), AfterTextPaste::Handled);
    assert_eq!(after_text_paste(TextPasteOutcome::NotPasted, false), AfterTextPaste::NotHandled);
    assert_eq!(
        after_text_paste(TextPasteOutcome::Failed("empty".to_owned()), true),
        AfterTextPaste::TryImage { text_error: Some("empty".to_owned()) }
    );
    assert_eq!(
        paste_failure_log_lines(Some("empty"), "no image"),
        vec!["native text paste failed: empty".to_owned(), "native image paste failed: no image".to_owned()]
    );
    assert_eq!(
        paste_failure_log_lines(None, "no image"),
        vec!["native image paste failed: no image".to_owned()]
    );
}

#[test]
fn url_picker_marks_the_selected_row() {
    let urls = vec![
        MessageUrlItem { label: "docs".to_owned(), url: "https://docs.example".to_owned() },
        MessageUrlItem { label: "blog".to_owned(), url: "https://blog.example".to_owned() },
    ];
    let lines = message_url_picker_lines(&urls, 1);
    assert_eq!(lines.len(), 2);
    assert_eq!(lines[0].marker, "  ");
    assert_eq!(lines[1].marker, "› ");
    assert_eq!(lines[0].shortcut, "1 ");
    assert_eq!(lines[1].label, "blog");
    assert!(!lines[0].highlighted);
    assert!(lines[1].highlighted);
}

#[test]
fn standalone_message_height_counts_every_part() {
    assert_eq!(standalone_message_rendered_height(3, 1, 2), 8);
    assert_eq!(standalone_message_rendered_height(0, 0, 0), 2);
}
