use luma11y::session::{eq_ignore_ascii_case, grab_step, is_wayland_session, GrabStep, GRAB_RETRIES};

#[test]
fn ascii_case_is_ignored() {
    assert!(eq_ignore_ascii_case("Wayland", "wayland"));
    assert!(eq_ignore_ascii_case("WAYLAND", "wayland"));
    assert!(!eq_ignore_ascii_case("wayland ", "wayland"));
    assert!(!eq_ignore_ascii_case("x11", "wayland"));
    assert!(eq_ignore_ascii_case("", ""));
    assert!(!eq_ignore_ascii_case("É", "é"));
}

#[test]
fn wayland_detection() {
    assert!(is_wayland_session(Some("wayland"), None));
    assert!(is_wayland_session(Some("Wayland"), None));
    assert!(!is_wayland_session(Some("x11"), None));
    assert!(!is_wayland_session(None, None));
    assert!(is_wayland_session(None, Some("wayland-0")));
    assert!(!is_wayland_session(Some("x11"), Some("")));
    assert!(is_wayland_session(Some("tty"), Some("wayland-1")));
}

#[test]
fn grab_retries_then_gives_up() {
    assert_eq!(GRAB_RETRIES, 20);
    assert_eq!(grab_step(1, true), GrabStep::Granted);
    assert_eq!(grab_step(20, true), GrabStep::Granted);
    assert_eq!(grab_step(1, false), GrabStep::Retry);
    assert_eq!(grab_step(19, false), GrabStep::Retry);
    assert_eq!(grab_step(20, false), GrabStep::GiveUp);
}
