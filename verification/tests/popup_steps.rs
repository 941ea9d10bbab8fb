use discord_tui::back_out::{
    channel_shortcut_source, guild_shortcut_source, leader_back_out_after,
    leader_channel_shortcut_matches, leader_guild_shortcut_matches, leader_key_step,
    return_attempt_after, ChannelShortcutSource, GuildShortcutSource, KeyMapLookup,
    LeaderBackOut, LeaderKeyStep, ReturnAttempt,
};
use discord_tui::commands::AppCommand;
use discord_tui::ids::Id;
use discord_tui::keybindings::KeyBindings;
use discord_tui::keyboard::{
    DeferredPopupKeyTarget, LeaderActionMenuAction, PriorityPopupKeyTarget, SelectionAction,
    UiAction,
};
use discord_tui::keys::KeyChord;
use discord_tui::popup_keys::{
    attachment_viewer_result, confirmation_result, deferred_popup_result, poll_vote_picker_result,
    popup_list_result, priority_popup_result, AttachmentViewerAction, ConfirmationPopup,
    MessageConfirmationAction, PollVotePickerAction, PopupListAction,
};
use discord_tui::terminal::options_save_report;

fn history(channel: u64) -> Option<AppCommand> {
    Some(AppCommand::RefreshMessageHistory { channel_id: Id::new(channel) })
}

fn is_history(command: &Option<AppCommand>, channel: u64) -> bool {
    matches!(command, Some(AppCommand::RefreshMessageHistory { channel_id }) if channel_id.get() == channel)
}

#[test]
fn back_leaves_the_thread_only_when_no_pinned_view_was_left() {
    assert_eq!(return_attempt_after(None), Some(ReturnAttempt::PinnedMessageView));
    assert_eq!(
        return_attempt_after(Some((ReturnAttempt::PinnedMessageView, false))),
        Some(ReturnAttempt::OpenedThread)
    );
    assert_eq!(return_attempt_after(Some((ReturnAttempt::PinnedMessageView, true))), None);
    assert_eq!(return_attempt_after(Some((ReturnAttempt::OpenedThread, false))), None);
    assert_eq!(return_attempt_after(Some((ReturnAttempt::OpenedThread, true))), None);
}

#[test]
fn leader_back_tries_the_channel_then_the_guild_submenu() {
    let back = LeaderActionMenuAction::BackOrClose;
    assert_eq!(leader_back_out_after(back, false, None), Some(LeaderBackOut::ChannelSubmenu));
    assert_eq!(
        leader_back_out_after(back, false, Some((LeaderBackOut::ChannelSubmenu, false))),
        Some(LeaderBackOut::GuildSubmenu)
    );
    assert_eq!(leader_back_out_after(back, false, Some((LeaderBackOut::ChannelSubmenu, true))), None);
    assert_eq!(leader_back_out_after(back, false, Some((LeaderBackOut::GuildSubmenu, false))), None);
    assert_eq!(leader_back_out_after(back, true, None), None);
    assert_eq!(leader_back_out_after(LeaderActionMenuAction::Close, false, None), None);
    assert_eq!(
        leader_back_out_after(LeaderActionMenuAction::ActivateShortcut(KeyChord::char('1')), false, None),
        None
    );
}

#[test]
fn leader_keys_follow_the_key_map() {
    assert_eq!(leader_key_step(true, Some(KeyMapLookup::Pending)), LeaderKeyStep::ActionMenuKey);
    assert_eq!(leader_key_step(false, Some(KeyMapLookup::Pending)), LeaderKeyStep::PushChord);
    assert_eq!(
        leader_key_step(false, Some(KeyMapLookup::Action(UiAction::OpenOptions))),
        LeaderKeyStep::CloseThenRun(UiAction::OpenOptions)
    );
    assert_eq!(leader_key_step(false, None), LeaderKeyStep::Close);
}

#[test]
fn menu_phases_pick_where_shortcuts_come_from() {
    assert_eq!(channel_shortcut_source(true, true), ChannelShortcutSource::Threads);
    assert_eq!(channel_shortcut_source(false, true), ChannelShortcutSource::MuteDurations);
    assert_eq!(channel_shortcut_source(false, false), ChannelShortcutSource::Actions);
    assert_eq!(guild_shortcut_source(true), GuildShortcutSource::MuteDurations);
    assert_eq!(guild_shortcut_source(false), GuildShortcutSource::Actions);

    let bindings = KeyBindings::default();
    let three = KeyChord::char('3');
    assert!(leader_channel_shortcut_matches(&bindings, three, true, false, 3, 0, false));
    assert!(!leader_channel_shortcut_matches(&bindings, three, true, false, 2, 9, true));
    assert!(leader_channel_shortcut_matches(&bindings, three, false, true, 0, 3, false));
    assert!(leader_channel_shortcut_matches(&bindings, three, false, false, 0, 0, true));
    assert!(!leader_channel_shortcut_matches(&bindings, three, false, false, 9, 9, false));
    assert!(leader_guild_shortcut_matches(&bindings, three, true, 5, false));
    assert!(!leader_guild_shortcut_matches(&bindings, three, true, 2, true));
    assert!(leader_guild_shortcut_matches(&bindings, three, false, 0, true));
}

#[test]
fn priority_popups_take_keys_before_the_global_bindings() {
    assert!(matches!(priority_popup_result(true, None, history(1)), Some(None)));
    let taken = priority_popup_result(false, Some(PriorityPopupKeyTarget::PollVotePicker), history(2));
    assert!(matches!(taken, Some(c) if is_history(&c, 2)));
    assert!(priority_popup_result(false, None, history(3)).is_none());
    let deferred = deferred_popup_result(Some(DeferredPopupKeyTarget::UserProfile), None);
    assert!(matches!(deferred, Some(None)));
    assert!(deferred_popup_result(None, history(4)).is_none());
}

#[test]
fn popups_hand_back_only_their_activation_commands() {
    assert!(is_history(&popup_list_result(Some(PopupListAction::ActivateSelected), history(1)), 1));
    assert!(is_history(
        &popup_list_result(Some(PopupListAction::ActivateShortcut(KeyChord::char('2'))), history(2)),
        2
    ));
    assert!(popup_list_result(Some(PopupListAction::Select(SelectionAction::Next)), history(1)).is_none());
    assert!(popup_list_result(Some(PopupListAction::Close), history(1)).is_none());
    assert!(popup_list_result(None, history(1)).is_none());

    let confirm = Some(MessageConfirmationAction::Confirm);
    assert!(is_history(&confirmation_result(ConfirmationPopup::MessageDelete, confirm, history(5)), 5));
    assert!(is_history(&confirmation_result(ConfirmationPopup::MessagePin, confirm, history(6)), 6));
    assert!(is_history(&confirmation_result(ConfirmationPopup::GuildLeave, confirm, history(7)), 7));
    assert!(confirmation_result(ConfirmationPopup::Quit, confirm, history(8)).is_none());
    assert!(confirmation_result(
        ConfirmationPopup::MessageDelete,
        Some(MessageConfirmationAction::Cancel),
        history(5)
    )
    .is_none());

    assert!(is_history(
        &attachment_viewer_result(Some(AttachmentViewerAction::DownloadSelected), history(9)),
        9
    ));
    assert!(attachment_viewer_result(Some(AttachmentViewerAction::ZoomIn), history(9)).is_none());
    assert!(is_history(&poll_vote_picker_result(Some(PollVotePickerAction::Submit), history(10)), 10));
    assert!(poll_vote_picker_result(Some(PollVotePickerAction::ToggleSelected), history(10)).is_none());
}

#[test]
fn a_failed_options_save_is_reported() {
    assert_eq!(
        options_save_report(Some("disk full")),
        Some("save options failed: disk full".to_owned())
    );
    assert_eq!(options_save_report(None), None);
}
