use lolshorts::security::{
    check_path, validate_audio_level, validate_id, validate_path, validate_target_duration,
    SecurityError,
};

#[test]
fn test_path_traversal_detection() {
    let result = validate_path("C:\\test\\..\\..\\etc\\passwd", None, false);
    assert!(result.is_err());
    assert!(matches!(result.unwrap_err(), SecurityError::PathTraversal { .. }));
}

#[test]
fn test_relative_path_rejection() {
    let result = validate_path("relative/path/file.mp4", None, false);
    assert!(result.is_err());
    assert!(matches!(result.unwrap_err(), SecurityError::NotAbsolutePath { .. }));
}

#[test]
fn test_invalid_extension() {
    let result = validate_path("C:\\test\\file.exe", Some(&["mp4", "avi"]), false);
    assert!(result.is_err());
    assert!(matches!(result.unwrap_err(), SecurityError::InvalidExtension { .. }));
}

#[test]
fn test_valid_absolute_path() {
    // Paths follow Windows' rules, the platform the application runs on.
    let path = "C:\\Users\\Test\\video.mp4";

    let result = validate_path(path, Some(&["mp4"]), false);
    assert!(result.is_ok());
    assert_eq!(result.unwrap(), path);
}

#[test]
fn absolute_paths_follow_windows_rules() {
    for path in [
        "C:\\a.mp4",
        "c:/videos/a.mp4",
        "\\\\server\\share\\a.mp4",
        "//server/share/a.mp4",
        "\\\\?\\C:\\a.mp4",
        "\\\\?\\UNC\\server\\share\\a.mp4",
        "\\\\.\\device\\a.mp4",
    ] {
        assert!(validate_path(path, Some(&["mp4"]), false).is_ok(), "{}", path);
    }
    for path in ["/a.mp4", "\\a.mp4", "C:a.mp4", "a.mp4", "\\\\server", "\\\\server\\"] {
        assert!(
            matches!(validate_path(path, None, false), Err(SecurityError::NotAbsolutePath { .. })),
            "{}",
            path
        );
    }
    // A UNC share is part of the prefix, never a file name.
    assert!(matches!(
        validate_path("\\\\server\\share.mp4", Some(&["mp4"]), false),
        Err(SecurityError::InvalidPath { .. })
    ));
}

#[test]
fn test_id_validation() {
    // Valid IDs
    assert!(validate_id("game_12345", 100).is_ok());
    assert!(validate_id("template-abc-123", 100).is_ok());
    assert!(validate_id("test_id-123", 100).is_ok());

    // Invalid IDs
    assert!(validate_id("", 100).is_err()); // Empty
    assert!(validate_id("test/path", 100).is_err()); // Slash
    assert!(validate_id("test;command", 100).is_err()); // Semicolon
    assert!(validate_id("test'drop", 100).is_err()); // Quote
    assert!(validate_id(&"a".repeat(101), 100).is_err()); // Too long
}

#[test]
fn test_target_duration_validation() {
    assert!(validate_target_duration(60).is_ok());
    assert!(validate_target_duration(120).is_ok());
    assert!(validate_target_duration(180).is_ok());

    assert!(validate_target_duration(30).is_err());
    assert!(validate_target_duration(90).is_err());
    assert!(validate_target_duration(240).is_err());
}

#[test]
fn test_audio_level_validation() {
    assert!(validate_audio_level(0).is_ok());
    assert!(validate_audio_level(50).is_ok());
    assert!(validate_audio_level(100).is_ok());

    assert!(validate_audio_level(101).is_err());
    assert!(validate_audio_level(255).is_err());
}

#[test]
fn audio_level_error_carries_range() {
    match validate_audio_level(150) {
        Err(SecurityError::OutOfRange { value, min, max }) => {
            assert_eq!((value, min, max), (150, 0, 100));
        }
        other => panic!("unexpected {:?}", other),
    }
}

#[test]
fn extension_compared_in_lowercase() {
    assert!(validate_path("D:\\videos\\CLIP.MP4", Some(&["mp4"]), false).is_ok());
    match validate_path("D:\\videos\\clip.EXE", Some(&["mp4", "avi"]), false) {
        Err(SecurityError::InvalidExtension { ext, allowed }) => {
            assert_eq!(ext, "exe");
            assert_eq!(allowed, vec!["mp4".to_string(), "avi".to_string()]);
        }
        other => panic!("unexpected {:?}", other),
    }
    assert!(matches!(
        validate_path("D:\\videos\\noext", Some(&["mp4"]), false),
        Err(SecurityError::InvalidPath { .. })
    ));
}

#[test]
fn existence_checked_last() {
    assert!(matches!(
        check_path("D:/videos/a.mp4", None, true, false),
        Err(SecurityError::PathNotFound { .. })
    ));
    assert!(check_path("D:/videos/a.mp4", None, true, true).is_ok());
    assert!(matches!(
        check_path("D:/videos/../a.mp4", None, true, false),
        Err(SecurityError::PathTraversal { .. })
    ));
}
