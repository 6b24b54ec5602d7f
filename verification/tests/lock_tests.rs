use server_warden::lock::{operator_identity, Acquisition, LockMarker};

#[test]
fn absent_marker_is_acquired() {
    let mut marker = LockMarker::absent();
    assert!(!marker.is_held());
    assert_eq!(marker.try_acquire("alice"), Acquisition::Acquired);
    assert!(marker.is_held());
    assert_eq!(marker.contents, Some("alice".to_string()));
}

#[test]
fn second_acquisition_fails_and_changes_nothing() {
    let mut marker = LockMarker::absent();
    assert_eq!(marker.try_acquire("alice"), Acquisition::Acquired);
    assert_eq!(marker.try_acquire("bob"), Acquisition::AlreadyLocked("alice".to_string()));
    assert_eq!(marker.contents, Some("alice".to_string()));
    assert_eq!(marker.try_acquire("alice"), Acquisition::AlreadyLocked("alice".to_string()));
    assert_eq!(marker.contents, Some("alice".to_string()));
}

#[test]
fn stale_marker_is_surfaced_untouched() {
    let mut marker = LockMarker::holding("not a name\n\n");
    assert_eq!(marker.try_acquire("bob"), Acquisition::AlreadyLocked("not a name\n\n".to_string()));
    assert_eq!(marker, LockMarker::holding("not a name\n\n"));
}

#[test]
fn release_removes_the_marker() {
    let mut marker = LockMarker::holding("alice");
    marker.release();
    assert_eq!(marker, LockMarker::absent());
    assert_eq!(marker.try_acquire("bob"), Acquisition::Acquired);
    marker.release();
    marker.release();
    assert!(!marker.is_held());
}

#[test]
fn identity_is_the_trimmed_answer() {
    assert_eq!(operator_identity("alice\n"), "alice");
    assert_eq!(operator_identity("  bob \r\n"), "bob");
}
