use lolshorts::settings::platform_config::parse_sysctl_number;
use lolshorts::recording::integration_backend::TargetOs;
use lolshorts::settings::models::{
    ClipTimingSettings, EncoderPreference, FrameRate, RecordingSettings, Resolution, VideoCodec,
};
use lolshorts::settings::platform_config::{
    detect_features, detect_macos_gpu, detect_windows_gpu, generate_performance_recommendations,
    generate_video_recommendations, validate_settings, Platform,
};

#[test]
fn test_default_settings() {
    let settings = RecordingSettings::default();

    // Event filter defaults
    assert!(settings.event_filter.record_kills);
    assert!(settings.event_filter.record_multikills);
    assert!(!settings.event_filter.record_deaths);
    assert_eq!(settings.event_filter.min_priority, 2);

    // Game mode defaults
    assert!(settings.game_mode.record_ranked_solo);
    assert!(!settings.game_mode.record_practice);

    // Video defaults
    assert!(matches!(settings.video.resolution, Resolution::R1920x1080));
    assert!(matches!(settings.video.frame_rate, FrameRate::Fps60));
    assert!(matches!(settings.video.codec, VideoCodec::H265));

    // Audio defaults
    assert!(settings.audio.record_microphone);
    assert_eq!(settings.audio.microphone_volume, 120);
    assert_eq!(settings.audio.system_audio_volume, 100);

    // Clip timing defaults
    assert_eq!(settings.clip_timing.default_pre_duration, 10);
    assert_eq!(settings.clip_timing.default_post_duration, 3);
    assert!(settings.clip_timing.merge_consecutive_events);
    assert_eq!(settings.clip_timing.merge_time_threshold, 15);

    // Hotkey defaults
    assert_eq!(settings.hotkeys.manual_save_clip, "F8");
    assert_eq!(settings.hotkeys.toggle_recording, "F9");
    assert_eq!(settings.hotkeys.delete_last_clip, "F10");
}

#[test]
fn test_event_timing_lookup() {
    let settings = ClipTimingSettings::default();

    let multikill_timing = settings.get_timing_for_event("multikill");
    assert_eq!(multikill_timing.pre_duration, 15);
    assert_eq!(multikill_timing.post_duration, 5);

    let unknown_timing = settings.get_timing_for_event("unknown_event");
    assert_eq!(unknown_timing.pre_duration, 10); // fallback to default
    assert_eq!(unknown_timing.post_duration, 3);

    let steal = settings.get_timing_for_event("steal");
    assert_eq!((steal.pre_duration, steal.post_duration), (20, 5));
}

#[test]
fn platform_config_test_platform_detection() {
    assert_eq!(Platform::detect(TargetOs::Windows), Platform::Windows);
    assert_eq!(Platform::detect(TargetOs::MacOS), Platform::MacOS);
    assert_eq!(Platform::detect(TargetOs::Linux), Platform::Linux);
}

#[test]
fn platform_recommendations() {
    let gpus = detect_windows_gpu();
    assert_eq!(gpus[0].memory_mb, 8000);
    let video = generate_video_recommendations(&gpus, 16_384, 200_000);
    assert_eq!(video.recommended_encoder, EncoderPreference::Auto);
    assert_eq!(video.recommended_codec, "h265");
    assert_eq!(video.recommended_bitrate_kbps, 20000);
    let perf = generate_performance_recommendations(&gpus, 8_192);
    assert!(perf.enable_hardware_acceleration);
    assert_eq!(perf.recommended_buffer_size_mb, 256);
    let mac = detect_features(Platform::MacOS, &detect_macos_gpu());
    assert!(mac.supports_core_graphics && !mac.supports_windows_capture);
    assert_eq!(
        validate_settings(FrameRate::Fps120, 4_096, 100_000).unwrap_err(),
        "120 FPS recording requires at least 8GB RAM"
    );
    assert_eq!(
        validate_settings(FrameRate::Fps60, 4_096, 1_000).unwrap_err(),
        "At least 5GB free space required for recording"
    );
    assert!(validate_settings(FrameRate::Fps60, 4_096, 10_000).is_ok());
}

#[test]
fn sysctl_numbers_parse_as_str_parse_does() {

    assert_eq!(parse_sysctl_number("8\n", u64::MAX), Some(8));
    assert_eq!(parse_sysctl_number("  17179869184 \n", u64::MAX), Some(17_179_869_184));
    assert_eq!(parse_sysctl_number("+4", u64::MAX), Some(4));
    assert_eq!(parse_sysctl_number("", u64::MAX), None);
    assert_eq!(parse_sysctl_number("eight", u64::MAX), None);
    assert_eq!(parse_sysctl_number("18446744073709551616", u64::MAX), None);
    assert_eq!(parse_sysctl_number("300", 255), None);
}
