use discord_tui::commands::AppCommand;
use discord_tui::ids::{ChannelMarker, Id};
use discord_tui::keyboard::{
    channel_switcher_result, channel_switcher_step, dashboard_step_result, emoji_picker_result,
    emoji_reaction_picker_step, leader_action_key_outcome, leader_shortcut_result,
    ui_action_step, ui_step_result, ChannelSwitcherAction, ChannelSwitcherStep, DashboardAction,
    DashboardStep, EmojiPickerStep, EmojiReactionPickerAction, LeaderActionMenuAction,
    LeaderActionTarget, LeaderKeyOutcome, OptionsCategoryShortcut, SelectionAction, UiAction,
    UiStep,
};
use discord_tui::keys::KeyChord;
use discord_tui::request_lifecycle::{LastSelection, TimedRequestSet};
use discord_tui::state::dashboard::FocusPane;
use discord_tui::terminal::{
    terminal_event_outcome, FrameArea, KeyEventKind, TerminalEvent, TerminalHandlerResults,
};
use discord_tui::keys::{KeyCode, KeyEvent, KeyModifiers};
use discord_tui::display_width::fit_to_width;
use discord_tui::url_picker::{message_url_picker_lines_for_width, MessageUrlItem};

fn history(channel: u64) -> Option<AppCommand> {
    Some(AppCommand::RefreshMessageHistory { channel_id: Id::new(channel) })
}

fn is_history(command: &Option<AppCommand>, channel: u64) -> bool {
    matches!(command, Some(AppCommand::RefreshMessageHistory { channel_id }) if channel_id.get() == channel)
}

fn results() -> TerminalHandlerResults {
    TerminalHandlerResults {
        native_paste_handled: false,
        key_command: None,
        mouse_handled: false,
        mouse_command: None,
        paste_handled: false,
    }
}

const AREA: FrameArea = FrameArea { x: 0, y: 0, width: 80, height: 24 };

#[test]
fn request_set_holds_at_most_its_limit() {
    let mut set = TimedRequestSet::new(10_000, 3);
    for key in 0..10u64 {
        assert!(set.insert(key, key));
    }
    let held = (0..10u64).filter(|key| set.contains(*key)).count();
    assert_eq!(held, 3);
    assert!(set.contains(9) && set.contains(8) && set.contains(7));
}

#[test]
fn repeated_insert_refreshes_nothing() {
    let mut set = TimedRequestSet::new(100, 4);
    assert!(set.insert(1, 0));
    assert!(!set.insert(1, 90));
    set.prune(101);
    assert!(!set.contains(1));
}

#[test]
fn selection_compares_with_the_previous_one() {
    let mut selection: LastSelection<ChannelMarker> = LastSelection::default();
    assert!(selection.select(Id::new(4)));
    assert!(!selection.select(Id::new(4)));
    assert!(selection.select(Id::new(5)));
    assert!(selection.select(Id::new(4)));
}

#[test]
fn dashboard_step_results_follow_the_callees() {
    let r = dashboard_step_result(DashboardStep::ConfirmGuildThenFocusChannels, true, None);
    assert_eq!(r.focus, Some(FocusPane::Channels));
    assert!(r.command.is_none());
    let r = dashboard_step_result(DashboardStep::ConfirmGuildThenFocusChannels, false, None);
    assert_eq!(r.focus, None);
    let r = dashboard_step_result(DashboardStep::ConfirmChannelThenFocusMessages, false, history(3));
    assert_eq!(r.focus, Some(FocusPane::Messages));
    assert!(is_history(&r.command, 3));
    let r = dashboard_step_result(DashboardStep::ConfirmChannelThenFocusMessages, false, None);
    assert_eq!(r.focus, None);
    let r = dashboard_step_result(DashboardStep::MoveUpThenLoadOlderHistory, false, history(4));
    assert!(is_history(&r.command, 4));
    let r = dashboard_step_result(DashboardStep::JumpTop, false, history(4));
    assert!(r.command.is_none());
}

#[test]
fn ui_actions_prefer_their_dashboard_binding() {
    assert_eq!(
        ui_action_step(UiAction::VoiceMute, Some(DashboardAction::Quit), FocusPane::Guilds),
        UiStep::Dashboard(DashboardStep::OpenQuitConfirmation)
    );
    assert_eq!(ui_action_step(UiAction::VoiceMute, None, FocusPane::Guilds), UiStep::ToggleVoiceMute);
    assert_eq!(
        ui_action_step(UiAction::OpenVoiceOptions, None, FocusPane::Guilds),
        UiStep::OpenOptionsCategory(OptionsCategoryShortcut::Voice)
    );
    assert_eq!(ui_action_step(UiAction::Other, None, FocusPane::Guilds), UiStep::Nothing);
    let r = ui_step_result(UiStep::LeaveVoiceChannel, false, history(8));
    assert!(is_history(&r.command, 8));
    let r = ui_step_result(UiStep::ToggleVoiceMute, false, history(8));
    assert!(r.command.is_none());
}

#[test]
fn leader_keys_close_by_the_rules() {
    let back = LeaderActionMenuAction::BackOrClose;
    assert_eq!(
        leader_action_key_outcome(back, true, true, false, false),
        LeaderKeyOutcome { close_url_picker: true, close_menus_and_leader: false, returns_shortcut_command: false }
    );
    assert_eq!(
        leader_action_key_outcome(back, false, true, false, false),
        LeaderKeyOutcome { close_url_picker: false, close_menus_and_leader: false, returns_shortcut_command: false }
    );
    assert!(leader_action_key_outcome(back, false, false, false, false).close_menus_and_leader);
    assert!(leader_action_key_outcome(LeaderActionMenuAction::Close, true, true, true, true).close_menus_and_leader);
    let shortcut = LeaderActionMenuAction::ActivateShortcut(KeyChord::char('1'));
    let kept = leader_action_key_outcome(shortcut, false, false, true, true);
    assert!(!kept.close_menus_and_leader && kept.returns_shortcut_command);
    assert!(leader_action_key_outcome(shortcut, false, false, false, true).close_menus_and_leader);
    assert!(leader_action_key_outcome(shortcut, false, false, true, false).close_menus_and_leader);
    let (matched, command) = leader_shortcut_result(Some(LeaderActionTarget::Member), history(2));
    assert!(matched && is_history(&command, 2));
    let (matched, command) = leader_shortcut_result(None, history(2));
    assert!(!matched && command.is_none());
}

#[test]
fn switcher_and_picker_steps() {
    assert_eq!(
        channel_switcher_step(Some(ChannelSwitcherAction::Select(SelectionAction::Previous))),
        ChannelSwitcherStep::MoveUp
    );
    assert_eq!(
        channel_switcher_step(Some(ChannelSwitcherAction::InsertQueryChar('x'))),
        ChannelSwitcherStep::InsertQueryChar('x')
    );
    assert_eq!(channel_switcher_step(None), ChannelSwitcherStep::Ignore);
    assert!(is_history(&channel_switcher_result(ChannelSwitcherStep::ActivateSelected, history(1)), 1));
    assert!(channel_switcher_result(ChannelSwitcherStep::Close, history(1)).is_none());

    assert_eq!(
        emoji_reaction_picker_step(Some(EmojiReactionPickerAction::StartFilter)),
        EmojiPickerStep::StartFilter
    );
    assert_eq!(emoji_reaction_picker_step(None), EmojiPickerStep::Ignore);
    let shortcut = EmojiPickerStep::ActivateShortcut(KeyChord::char('2'));
    assert!(matches!(emoji_picker_result(shortcut, history(6)), Some(c) if is_history(&c, 6)));
    assert!(matches!(emoji_picker_result(EmojiPickerStep::ActivateSelected, None), Some(None)));
    assert!(matches!(emoji_picker_result(EmojiPickerStep::CommitFilter, history(6)), Some(None)));
    assert!(matches!(emoji_picker_result(EmojiPickerStep::InsertFilterChar('a'), None), Some(None)));
    assert!(emoji_picker_result(EmojiPickerStep::MoveDown, history(6)).is_none());
    assert!(emoji_picker_result(EmojiPickerStep::MoveUp, None).is_none());
    assert!(emoji_picker_result(EmojiPickerStep::Ignore, history(6)).is_none());
}

#[test]
fn emoji_picker_close_is_fully_handled() {
    let step = emoji_reaction_picker_step(Some(EmojiReactionPickerAction::Close));
    assert_eq!(step, EmojiPickerStep::Close);
    assert!(matches!(emoji_picker_result(step, None), Some(None)));
}

#[test]
fn terminal_events_decide_redraw_command_and_area() {
    let press = TerminalEvent::Key(KeyEvent::new(KeyCode::Char('j'), KeyModifiers::none()), KeyEventKind::Press);
    let mut r = results();
    r.key_command = history(1);
    let outcome = terminal_event_outcome(&press, r, AREA);
    assert!(outcome.dirty && outcome.save_options);
    assert!(is_history(&outcome.command, 1));

    let mut r = results();
    r.native_paste_handled = true;
    r.key_command = history(1);
    let outcome = terminal_event_outcome(&press, r, AREA);
    assert!(outcome.dirty && outcome.command.is_none());

    let release = TerminalEvent::Key(KeyEvent::new(KeyCode::Char('j'), KeyModifiers::none()), KeyEventKind::Release);
    let mut r = results();
    r.key_command = history(2);
    let outcome = terminal_event_outcome(&release, r, AREA);
    assert!(!outcome.dirty && !outcome.save_options);
    assert!(is_history(&outcome.command, 2));

    let outcome = terminal_event_outcome(&TerminalEvent::Resize { width: 100, height: 40 }, results(), AREA);
    assert!(outcome.dirty);
    assert_eq!(outcome.area, FrameArea { x: 0, y: 0, width: 100, height: 40 });

    let mut r = results();
    r.mouse_handled = true;
    assert!(terminal_event_outcome(&TerminalEvent::Mouse, r, AREA).dirty);
    assert!(!terminal_event_outcome(&TerminalEvent::Paste("x".to_owned()), results(), AREA).dirty);
    assert!(!terminal_event_outcome(&TerminalEvent::FocusLost, results(), AREA).dirty);
}

#[test]
fn text_is_cut_at_the_first_character_that_does_not_fit() {
    assert_eq!(fit_to_width("hello", 3), ("hel".to_owned(), 3, false));
    assert_eq!(fit_to_width("hi", 5), ("hi".to_owned(), 2, true));
    // a wide character that does not fit stops the cut, even if narrower ones follow
    assert_eq!(fit_to_width("a漢b", 2), ("a".to_owned(), 1, false));
    assert_eq!(fit_to_width("a\u{7}b", 2), ("a\u{7}b".to_owned(), 2, true));
}

#[test]
fn url_picker_lines_are_cut_to_the_popup_width() {
    let urls = vec![MessageUrlItem { label: "documentation".to_owned(), url: "https://d".to_owned() }];
    let lines = message_url_picker_lines_for_width(&urls, 0, 8);
    assert_eq!(lines[0].marker, "› ");
    assert_eq!(lines[0].shortcut, "1 ");
    assert_eq!(lines[0].label, "docu");
    let lines = message_url_picker_lines_for_width(&urls, 0, 0);
    assert_eq!(lines[0].marker, "›");
    assert_eq!(lines[0].shortcut, "");
    assert_eq!(lines[0].label, "");
}
