use lolshorts::recording::integration_backend::RecordingStatus;
use lolshorts::recording::windows_backend::{
    clip_file_name, ReplayBuffer, ReplayError, RotationAction, SegmentBuffer, BUFFER_SEGMENTS,
};

#[test]
fn windows_backend_test_recorder_creation() {
    let recorder = ReplayBuffer::new();
    assert_eq!(recorder.get_state(), RecordingStatus::Idle);
}

#[test]
fn test_state_transitions() {
    let mut recorder = ReplayBuffer::new();
    assert_eq!(recorder.get_state(), RecordingStatus::Idle);
    recorder.start().unwrap();
    assert_eq!(recorder.get_state(), RecordingStatus::Buffering);
    assert_eq!(recorder.start(), Err(ReplayError::AlreadyRunning));
    recorder.stop();
    assert_eq!(recorder.get_state(), RecordingStatus::Idle);
}

#[test]
fn test_segment_buffer() {
    let mut buffer = SegmentBuffer::new();
    let mut names = Vec::new();
    for _ in 0..BUFFER_SEGMENTS {
        let path = buffer.next_segment_name();
        names.push(path.clone());
        assert!(buffer.add_segment(path).is_none());
    }
    assert_eq!(buffer.len(), BUFFER_SEGMENTS);
    assert_eq!(names[0], "segment_0000.mp4");
    assert_eq!(names[5], "segment_0005.mp4");

    // Add one more - should remove oldest
    let path = buffer.next_segment_name();
    assert_eq!(path, "segment_0006.mp4");
    assert_eq!(buffer.add_segment(path).as_deref(), Some("segment_0000.mp4"));
    assert_eq!(buffer.len(), BUFFER_SEGMENTS);
    assert_eq!(buffer.get_all_segments()[0], "segment_0001.mp4");

    // Clear all
    let drained = buffer.clear();
    assert_eq!(drained.len(), BUFFER_SEGMENTS);
    assert_eq!(buffer.len(), 0);
    assert_eq!(buffer.next_segment_name(), "segment_0000.mp4");
}

#[test]
fn test_save_clip_requires_active_buffer() {
    let mut recorder = ReplayBuffer::new();
    let result = recorder.begin_save(30_000);
    assert!(result.is_err());
    assert!(result.unwrap_err().message().contains("not active"));
}

#[test]
fn saving_from_the_buffer() {
    let mut recorder = ReplayBuffer::new();
    recorder.start().unwrap();
    assert_eq!(recorder.begin_save(10_000), Err(ReplayError::NoSegments));
    let name = recorder.next_segment_name();
    recorder.segment_completed(name);
    let (duration, segments) = recorder.begin_save(600_000).unwrap();
    assert_eq!(duration, 60_000);
    assert_eq!(segments, vec!["segment_0000.mp4".to_string()]);
    assert_eq!(recorder.get_state(), RecordingStatus::Processing);
    recorder.save_finished();
    assert_eq!(recorder.get_state(), RecordingStatus::Buffering);
    assert_eq!(recorder.rotation_action(10_000), RotationAction::Rotate);
    assert_eq!(recorder.rotation_action(9_999), RotationAction::Continue);
    let removed = recorder.stop();
    assert_eq!(removed.len(), 1);
    assert_eq!(recorder.rotation_action(10_000), RotationAction::Stop);
}

#[test]
fn clip_names() {
    let named = clip_file_name(&Some("g1".to_string()), "20250101_120000", 4, "abc");
    let unnamed = clip_file_name(&None, "20250101_120000", 4, "abc");
    assert_eq!(named, "g1_20250101_120000_p4_abc.mp4");
    assert_eq!(unnamed, "unknown_20250101_120000_p4_abc.mp4");
}
