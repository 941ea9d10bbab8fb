use discord_tui::keys::{is_native_paste_key, KeyCode, KeyEvent, KeyModifiers};

#[test]
fn recognizes_native_clipboard_paste_keys() {
    assert!(is_native_paste_key(KeyEvent::new(
        KeyCode::Char('v'),
        KeyModifiers::control(),
    )));
    assert!(is_native_paste_key(KeyEvent::new(
        KeyCode::Char('V'),
        KeyModifiers::control().union(KeyModifiers::shift()),
    )));
}

#[test]
fn ignores_unmodified_v_as_native_paste_key() {
    assert!(!is_native_paste_key(KeyEvent::new(
        KeyCode::Char('v'),
        KeyModifiers::none(),
    )));
}

#[test]
fn other_control_keys_are_not_paste_keys() {
    assert!(!is_native_paste_key(KeyEvent::new(KeyCode::Char('c'), KeyModifiers::control())));
    assert!(!is_native_paste_key(KeyEvent::new(KeyCode::Insert, KeyModifiers::shift())));
}
