use taskman::domain::{
    now_timestamp_ms, timestamp_ms_from, ActionKind, CapabilityMatrix, TaskmanError,
};

#[test]
fn action_names() {
    assert_eq!(ActionKind::Kill.as_str(), "kill");
    assert_eq!(ActionKind::Suspend.as_str(), "suspend");
    assert_eq!(ActionKind::Resume.as_str(), "resume");
    assert_eq!(ActionKind::SetPriority.as_str(), "set_priority");
    assert_eq!(ActionKind::SetAffinity.as_str(), "set_affinity");
}

#[test]
fn read_only_matrix_allows_nothing() {
    let m = CapabilityMatrix::read_only();
    assert!(!m.can_kill);
    assert!(!m.can_suspend);
    assert!(!m.can_resume);
    assert!(!m.can_set_priority);
    assert!(!m.can_set_affinity);
}

#[test]
fn error_display_texts() {
    assert_eq!(
        TaskmanError::UnsupportedAction("x".to_owned()).display_text(),
        "unsupported action: x"
    );
    assert_eq!(
        TaskmanError::ProcessNotFound(42).display_text(),
        "process not found: pid=42"
    );
    assert_eq!(
        TaskmanError::ProcessNotFound(-3).display_text(),
        "process not found: pid=-3"
    );
    assert_eq!(
        TaskmanError::PermissionDenied("no".to_owned()).display_text(),
        "permission denied: no"
    );
    assert_eq!(
        TaskmanError::InvalidInput("bad".to_owned()).display_text(),
        "invalid input: bad"
    );
    assert_eq!(
        TaskmanError::Platform("EPERM".to_owned()).display_text(),
        "platform error: EPERM"
    );
    assert_eq!(
        TaskmanError::Internal("lock".to_owned()).display_text(),
        "internal error: lock"
    );
}

#[test]
fn timestamp_from_clock_readings() {
    assert_eq!(timestamp_ms_from(None), 0);
    assert_eq!(timestamp_ms_from(Some(1_700_000_000_123)), 1_700_000_000_123);
    assert_eq!(timestamp_ms_from(Some((1u128 << 64) + 5)), 5);
}

#[test]
fn timestamp_now_is_after_2020() {
    let t = now_timestamp_ms();
    assert!(t > 1_577_836_800_000);
    let u = now_timestamp_ms();
    assert!(u >= t);
}
