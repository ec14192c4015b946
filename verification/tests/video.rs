use lolshorts::video::auto_composer::AudioLevels;
use lolshorts::video::processor::{scale_crop_filter, VideoEncoder, VideoProcessor};
use lolshorts::video::VideoError;

#[test]
fn mod_test_video_processor_creation() {
    let _processor = VideoProcessor::new(Ok("ffmpeg".to_string()), false, false, false);
}

#[test]
fn processor_test_video_processor_creation() {
    let processor = VideoProcessor::new_with_fallback(Err("not found".to_string()), false, false, false);
    // Should have a valid ffmpeg path (either actual path or "ffmpeg" fallback)
    assert!(!processor.ffmpeg_path().is_empty());
    assert_eq!(processor.ffmpeg_path(), "ffmpeg");
}

#[test]
fn test_video_processor_creation_with_validation() {
    match VideoProcessor::new(Ok("/usr/bin/ffmpeg".to_string()), false, false, false) {
        Ok(processor) => {
            assert!(!processor.ffmpeg_path().is_empty());
            println!("VideoProcessor created with FFmpeg path: {}", processor.ffmpeg_path());
        }
        Err(e) => {
            println!("VideoProcessor creation failed: {:?}", e);
        }
    }
    match VideoProcessor::new(Err("missing".to_string()), false, false, false) {
        Err(VideoError::ProcessingError(m)) => assert_eq!(m, "Failed to find FFmpeg: missing"),
        _ => panic!("expected an error"),
    }
}

#[test]
fn test_scale_filter_generation() {
    // Test 9:16 aspect ratio calculation
    let target_width = 1080;
    let target_height = 1920;

    let filter = scale_crop_filter(target_width, target_height);

    assert!(filter.contains("scale=-1:1920"));
    assert!(filter.contains("crop=1080:1920"));
    assert_eq!(filter, "scale=-1:1920:force_original_aspect_ratio=increase,crop=1080:1920,setsar=1");
}

#[test]
fn test_audio_levels_default() {
    let levels = AudioLevels::default();
    assert_eq!(levels.game_audio, 60);
    assert_eq!(levels.background_music, 80);
}

#[test]
fn optimal_encoder_prefers_nvidia_then_amd_then_intel() {
    assert_eq!(VideoProcessor::detect_optimal_encoder(true, true, true), VideoEncoder::NvidiaH264);
    assert_eq!(VideoProcessor::detect_optimal_encoder(false, true, true), VideoEncoder::AmdH264);
    assert_eq!(VideoProcessor::detect_optimal_encoder(false, false, true), VideoEncoder::IntelH264);
    assert_eq!(VideoProcessor::detect_optimal_encoder(false, false, false), VideoEncoder::H264);
    let p = VideoProcessor::new(Ok("ff".to_string()), false, true, false).unwrap();
    assert_eq!(*p.get_optimal_encoder(), VideoEncoder::AmdH264);
}
