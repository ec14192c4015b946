use lolshorts::recording::integration_backend::{
    clip_extract_args, clip_start_offset, concat_list, event_clip_name, event_clip_window,
    last_seconds_clip_name, RecorderError, RecorderStatus, RecordingConfig, RecordingStatus,
    TargetOs, VideoEncoder,
};

#[test]
fn integration_backend_test_recorder_creation() {
    let config = RecordingConfig { output_dir: "/tmp/rec".to_string(), ..Default::default() };
    assert_eq!(config.output_dir, "/tmp/rec");
    let recorder = RecorderStatus::new();
    assert_eq!(recorder.get(), RecordingStatus::Idle);
}

#[test]
fn test_video_encoder() {
    assert_eq!(VideoEncoder::H264.to_ffmpeg_name(TargetOs::Windows), "h264_nvenc");
    assert_eq!(VideoEncoder::H265.to_ffmpeg_name(TargetOs::Windows), "hevc_nvenc");
    assert_eq!(VideoEncoder::H264.to_extension(), "mp4");
}

#[test]
fn test_config_default() {
    let config = RecordingConfig::default();
    assert_eq!(config.fps, 60);
    assert_eq!(config.bitrate, 15_000_000);
    assert_eq!(config.resolution, (1920, 1080));
    assert_eq!(config.buffer_duration_secs, 60);
    assert_eq!(config.segment_duration_secs, 10);
}

#[test]
fn recorder_status_machine() {
    let mut r = RecorderStatus::new();
    assert_eq!(r.check_capturing(), Err(RecorderError::NotCapturing));
    assert_eq!(r.request_stop(), Err(RecorderError::NotRecording));
    r.request_start().unwrap();
    assert_eq!(r.get(), RecordingStatus::Buffering);
    assert_eq!(r.request_start(), Err(RecorderError::AlreadyRecording));
    r.start_finished(true);
    assert_eq!(r.get(), RecordingStatus::Recording);
    assert!(r.check_capturing().is_ok());
    r.request_stop().unwrap();
    assert_eq!(r.request_stop(), Err(RecorderError::StopInProgress));
    r.stop_finished(true);
    assert_eq!(r.get(), RecordingStatus::Idle);
    r.request_start().unwrap();
    r.request_stop().unwrap();
    r.stop_finished(false);
    assert_eq!(r.get(), RecordingStatus::Error);
    assert_eq!(r.request_start(), Err(RecorderError::AlreadyRecording));
}

#[test]
fn clip_cutting_figures() {
    assert_eq!(clip_start_offset(90_000, 60_000), 30_000);
    assert_eq!(clip_start_offset(30_000, 60_000), 0);
    assert_eq!(event_clip_window(100_000, 15_000, 5_000), (80_000, 20_000));
    assert_eq!(last_seconds_clip_name("20250101_120000", 30), "clip_20250101_120000_30.mp4");
    assert_eq!(event_clip_name("ChampionKill_125"), "ChampionKill_125.mp4");
    let list = concat_list(&vec!["a.mp4".to_string(), "b.mp4".to_string()]);
    assert_eq!(list, "file 'a.mp4'\nfile 'b.mp4'\n");
    let args = clip_extract_args("list.txt", 30_500, 60_000, "out.mp4");
    assert_eq!(
        args,
        vec![
            "-y", "-f", "concat", "-safe", "0", "-i", "list.txt", "-ss", "30.5", "-t", "60", "-c",
            "copy", "-movflags", "+faststart", "out.mp4"
        ]
    );
}

#[test]
fn successful_stop_hands_back_the_segment_directory() {
    let config = RecordingConfig::default();
    assert_eq!(config.segments_dir(), "./recordings\\segments");
    let mut status = RecorderStatus::new();
    assert!(status.request_start().is_ok());
    status.start_finished(true);
    assert!(status.request_stop().is_ok());
    assert_eq!(status.finish_stop(true, &config), Some("./recordings\\segments".to_string()));
    assert_eq!(status.get(), RecordingStatus::Idle);
    assert!(status.request_start().is_ok());
    status.start_finished(true);
    assert!(status.request_stop().is_ok());
    assert_eq!(status.finish_stop(false, &config), None);
    assert_eq!(status.get(), RecordingStatus::Error);
}
