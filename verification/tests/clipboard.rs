use discord_tui::clipboard::{copy_text_backend_order, CopyTextAttempts, CopyTextBackend};

#[test]
fn local_sessions_try_native_clipboard_before_osc52() {
    assert_eq!(
        copy_text_backend_order(false),
        [CopyTextBackend::Native, CopyTextBackend::Osc52]
    );
}

#[test]
fn remote_sessions_try_osc52_before_native_clipboard() {
    assert_eq!(
        copy_text_backend_order(true),
        [CopyTextBackend::Osc52, CopyTextBackend::Native]
    );
}

#[test]
fn attempts_follow_the_order_and_join_failures() {
    let mut attempts = CopyTextAttempts::new(false);
    assert_eq!(attempts.next_backend(), Some(CopyTextBackend::Native));
    attempts.record_failure("native clipboard unavailable: no display".to_owned());
    assert_eq!(attempts.next_backend(), Some(CopyTextBackend::Osc52));
    attempts.record_failure("OSC52 clipboard write failed: broken pipe".to_owned());
    assert_eq!(attempts.next_backend(), None);
    assert_eq!(
        attempts.into_error().details(),
        "native clipboard unavailable: no display; OSC52 clipboard write failed: broken pipe"
    );
}

#[test]
fn a_single_failure_is_reported_alone() {
    let mut attempts = CopyTextAttempts::new(true);
    assert_eq!(attempts.next_backend(), Some(CopyTextBackend::Osc52));
    attempts.record_failure("OSC52 clipboard write failed: closed".to_owned());
    assert_eq!(attempts.next_backend(), Some(CopyTextBackend::Native));
    assert_eq!(attempts.into_error().details(), "OSC52 clipboard write failed: closed");
}
