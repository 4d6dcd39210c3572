use luma11y::permissions::{has_screen_recording_access, open_settings, request_screen_recording_access};

#[test]
fn access_is_granted_without_restriction() {
    assert!(has_screen_recording_access());
    assert!(request_screen_recording_access());
    assert_eq!(open_settings(), Ok(()));
}
