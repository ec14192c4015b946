use lolshorts::recording::integration_backend::{RecordingStatus, TargetOs};
use lolshorts::recording::Platform;

#[test]
fn mod_test_platform_detection() {
    let platform = Platform::current(TargetOs::Windows).unwrap();
    assert_eq!(platform, Platform::Windows);
    assert_eq!(Platform::current(TargetOs::MacOS), Some(Platform::MacOS));
    assert_eq!(Platform::current(TargetOs::Linux), None);

    // Test platform matching
    match platform {
        Platform::Windows | Platform::MacOS => {}
    }
}

#[test]
fn test_platform_names() {
    assert_eq!(Platform::Windows.name(), "Windows");
    assert_eq!(Platform::MacOS.name(), "macOS");
}

#[test]
fn test_recording_status_default() {
    let status = RecordingStatus::default();
    assert_eq!(status, RecordingStatus::Idle);
}

#[test]
fn test_recording_status_equality() {
    assert_eq!(RecordingStatus::Idle, RecordingStatus::Idle);
    assert_ne!(RecordingStatus::Idle, RecordingStatus::Recording);
}
