use lolshorts::recording::audio::{
    apply_audio_config, build_audio_args_from_config, default_audio_devices,
    get_current_audio_config, list_audio_devices, list_wmi_audio_devices,
    parse_dshow_audio_devices, parse_registry_audio_output, registry_output_parsable,
    wmi_audio_devices, AudioConfig, AudioConfigState, AudioDevice, AudioDeviceManager,
    AudioDeviceType,
};
use lolshorts::settings::models::{AudioBitrate, AudioSettings, SampleRate};

#[test]
fn test_audio_config_default() {
    let config = AudioConfig::default();
    assert!(config.record_microphone);
    assert!(config.record_system_audio);
    assert_eq!(config.sample_rate, 48000);
    assert_eq!(config.bitrate, 192);
}

#[test]
fn test_audio_config_disabled() {
    let config = AudioConfig {
        record_microphone: false,
        record_system_audio: false,
        ..Default::default()
    };
    assert!(!config.is_enabled());

    let (input_args, filter_args, map_args, codec_args) = config.build_ffmpeg_args();
    assert!(input_args.is_empty());
    assert!(filter_args.is_empty());
    assert!(map_args.is_empty());
    assert!(codec_args.is_empty());
}

#[test]
fn test_audio_config_microphone_only() {
    let config = AudioConfig {
        record_microphone: true,
        microphone_volume: 150,
        record_system_audio: false,
        ..Default::default()
    };
    assert!(config.is_enabled());

    let (input_args, filter_args, _, codec_args) = config.build_ffmpeg_args();
    assert!(!input_args.is_empty());
    assert!(!filter_args.is_empty());
    assert!(!codec_args.is_empty());

    // Check volume is applied (150% = 1.5)
    let filter_str = filter_args.join(" ");
    assert!(filter_str.contains("volume=1.5"));
}

#[test]
fn test_audio_config_both_sources() {
    let config = AudioConfig {
        record_microphone: true,
        microphone_volume: 120,
        record_system_audio: true,
        system_audio_volume: 100,
        ..Default::default()
    };
    assert!(config.is_enabled());

    let (input_args, filter_args, map_args, codec_args) = config.build_ffmpeg_args();
    assert!(!input_args.is_empty());
    assert!(!filter_args.is_empty());
    assert!(!map_args.is_empty());
    assert!(!codec_args.is_empty());

    // Check mixing is configured
    let filter_str = filter_args.join(" ");
    assert!(filter_str.contains("amix"));
    assert!(filter_str.contains("[aout]"));
}

#[test]
fn audio_args_exact_values() {
    let config = AudioConfig {
        microphone_device: Some("Mic (USB)".to_string()),
        microphone_volume: 105,
        system_audio_volume: 100,
        ..Default::default()
    };
    let (input_args, filter_args, map_args, codec_args) = config.build_ffmpeg_args();
    assert_eq!(
        input_args,
        vec!["-f", "dshow", "-i", "audio=Mic (USB)", "-f", "dshow", "-i", "audio=Stereo Mix"]
    );
    assert_eq!(
        filter_args,
        vec![
            "-filter_complex",
            "[1:a]volume=1.05[mic];[2:a]volume=1[sys];[mic][sys]amix=inputs=2[aout]"
        ]
    );
    assert_eq!(map_args, vec!["-map", "0:v", "-map", "[aout]"]);
    assert_eq!(codec_args, vec!["-c:a", "aac", "-b:a", "192k", "-ar", "48000"]);

    let system_only = AudioConfig {
        record_microphone: false,
        system_audio_volume: 150,
        ..Default::default()
    };
    let (_, filter_args, map_args, _) = system_only.build_ffmpeg_args();
    assert_eq!(
        filter_args,
        vec!["-filter_complex", "[1:a]volume=1.5[sys]", "-map", "0:v", "-map", "[sys]"]
    );
    assert!(map_args.is_empty());
}

fn settings(mic: Option<&str>, sys: Option<&str>, mic_vol: u8, sys_vol: u8) -> AudioSettings {
    AudioSettings {
        record_microphone: true,
        microphone_device: mic.map(|s| s.to_string()),
        microphone_volume: mic_vol,
        record_system_audio: true,
        system_audio_device: sys.map(|s| s.to_string()),
        system_audio_volume: sys_vol,
        sample_rate: SampleRate::Hz44100,
        bitrate: AudioBitrate::Kbps320,
    }
}

#[test]
fn apply_audio_config_refusals() {
    let mut state = AudioConfigState::new();
    let err = apply_audio_config(&mut state, &settings(None, Some("Stereo Mix"), 100, 100)).unwrap_err();
    assert_eq!(
        err,
        "Microphone recording enabled but no device selected. Please select a microphone device in settings."
    );
    let err = apply_audio_config(&mut state, &settings(Some("Mic"), None, 100, 100)).unwrap_err();
    assert!(err.starts_with("System audio recording enabled but no device selected."));
    let err = apply_audio_config(&mut state, &settings(Some("Mic"), Some("Mix"), 201, 100)).unwrap_err();
    assert_eq!(err, "Microphone volume must be between 0 and 200. Got: 201");
    let err = apply_audio_config(&mut state, &settings(Some("Mic"), Some("Mix"), 200, 255)).unwrap_err();
    assert_eq!(err, "System audio volume must be between 0 and 200. Got: 255");
    assert!(get_current_audio_config(&state).is_none());
    assert_eq!(
        build_audio_args_from_config(&state).unwrap_err(),
        "No audio configuration applied. Call apply_audio_config first."
    );
}

#[test]
fn applied_config_is_read_back_and_drives_arguments() {
    let mut state = AudioConfigState::new();
    apply_audio_config(&mut state, &settings(Some("Mic"), Some("Mix"), 150, 80)).unwrap();
    let current = get_current_audio_config(&state).unwrap();
    assert_eq!(current.microphone_device.as_deref(), Some("Mic"));
    assert_eq!(current.microphone_volume, 150);
    assert_eq!(current.system_audio_volume, 80);

    // A refused configuration leaves the applied one in place.
    assert!(apply_audio_config(&mut state, &settings(None, None, 1, 1)).is_err());
    let (inputs, filters, maps, codecs) = build_audio_args_from_config(&state).unwrap();
    assert_eq!(inputs, vec!["-f", "dshow", "-i", "audio=Mic", "-f", "dshow", "-i", "audio=Mix"]);
    assert_eq!(
        filters[1],
        "[1:a]volume=1.5[mic];[2:a]volume=0.8[sys];[mic][sys]amix=inputs=2[aout]"
    );
    assert_eq!(maps.len(), 4);
    // The applied sample rate and bitrate are used.
    assert_eq!(codecs, vec!["-c:a", "aac", "-b:a", "320k", "-ar", "44100"]);
}

#[test]
fn applied_rate_and_bitrate_reach_the_codec_arguments() {
    let mut state = AudioConfigState::new();
    let only_system = AudioSettings {
        record_microphone: false,
        microphone_device: None,
        microphone_volume: 100,
        record_system_audio: true,
        system_audio_device: Some("Stereo Mix".to_string()),
        system_audio_volume: 100,
        sample_rate: SampleRate::Hz44100,
        bitrate: AudioBitrate::Kbps128,
    };
    apply_audio_config(&mut state, &only_system).unwrap();
    let args = build_audio_args_from_config(&state);
    assert!(args.is_ok());
    assert_eq!(args.unwrap().3, vec!["-c:a", "aac", "-b:a", "128k", "-ar", "44100"]);
}

#[test]
fn registry_output_parsing() {
    let output = "\r\nHKEY_LOCAL_MACHINE\\SOFTWARE\\Capture\\{a}\\Properties\r\n    DeviceDesc    REG_SZ    Microphone Array\r\n\r\nHKEY_LOCAL_MACHINE\\SOFTWARE\\Capture\\{b}\r\n    DeviceDesc    REG_SZ    \"Line In\"\r\n\r\n\r\n    DeviceDesc    REG_SZ    Microphone Array\r\n\r\n";
    assert!(registry_output_parsable(output));
    let devices = parse_registry_audio_output(output, true);
    let names: Vec<&str> = devices.iter().map(|d| d.name.as_str()).collect();
    assert_eq!(names, vec!["Microphone Array", "Line In"]);
    assert!(devices.iter().all(|d| d.device_type == AudioDeviceType::Microphone));

    let render = parse_registry_audio_output("    DeviceDesc    REG_SZ    Speakers\n\n", false);
    assert_eq!(render.len(), 1);
    assert_eq!(render[0].name, "Speakers");
    assert_eq!(render[0].device_type, AudioDeviceType::SystemAudio);

    // A description that is not followed by a blank line is not kept.
    assert!(parse_registry_audio_output("    DeviceDesc    REG_SZ    Speakers", false).is_empty());
    // A key line forgets the pending description.
    assert!(parse_registry_audio_output("DeviceDesc REG_SZ x\nHKEY_X\n\n", true).is_empty());
}

#[test]
fn registry_output_that_cannot_be_cut() {
    assert!(!registry_output_parsable("DeviceDesc REG_SZ"));
    assert!(!registry_output_parsable("DeviceDesc REG_SZé name"));
    assert!(registry_output_parsable("HKEY_X DeviceDesc REG_SZ"));
    assert!(registry_output_parsable("no description here"));
}

#[test]
fn dshow_listing_parsing() {
    let stderr = "[dshow @ 0x1] DirectShow video devices\n[dshow @ 0x1]  \"Camera\"\n[dshow @ 0x1] DirectShow audio devices\n[dshow @ 0x1]  \"Microphone (Realtek)\"\n[dshow @ 0x1]     Alternative name \"@device_cm_{x}\"\n[dshow @ 0x1]  \"Stereo Mix\"\n[dshow @ 0x1]  \"Line INPUT\"\n";
    let devices = parse_dshow_audio_devices(stderr);
    let names: Vec<&str> = devices.iter().map(|d| d.name.as_str()).collect();
    // The video header before the audio one ends nothing: it comes first.
    assert!(names.is_empty());

    let stderr = "[dshow] DirectShow audio devices\n[dshow]  \"Microphone (Realtek)\"\n[dshow]     Alternative name \"@device_cm_{x}\"\n[dshow]  \"Stereo Mix\"\n[dshow]  \"Line INPUT\"\n[dshow] DirectShow video devices\n[dshow]  \"Camera\"\n";
    let devices = parse_dshow_audio_devices(stderr);
    let names: Vec<&str> = devices.iter().map(|d| d.name.as_str()).collect();
    assert_eq!(names, vec!["Microphone (Realtek)", "@device_cm_{x}", "Stereo Mix", "Line INPUT"]);
    let kinds: Vec<AudioDeviceType> = devices.iter().map(|d| d.device_type).collect();
    assert_eq!(
        kinds,
        vec![
            AudioDeviceType::Microphone,
            AudioDeviceType::SystemAudio,
            AudioDeviceType::SystemAudio,
            AudioDeviceType::Microphone
        ]
    );
}

#[test]
fn wmi_devices_are_classified_and_deduplicated() {
    let fields = vec![
        Some("Realtek Audio".to_string()),
        None,
        Some("USB Capture Device".to_string()),
        Some("Realtek Audio".to_string()),
    ];
    let devices = wmi_audio_devices(&fields);
    assert_eq!(devices.len(), 2);
    assert_eq!(devices[0].name, "Realtek Audio");
    assert_eq!(devices[0].device_type, AudioDeviceType::SystemAudio);
    assert_eq!(devices[1].device_type, AudioDeviceType::Microphone);

    let json = r#"[{"Name":"Headset Microphone","DeviceID":"1"},{"DeviceID":"2"},{"Name":"Speakers"}]"#;
    let devices = list_wmi_audio_devices(json);
    assert_eq!(devices.len(), 2);
    assert_eq!(devices[0].name, "Headset Microphone");
    assert_eq!(devices[0].device_type, AudioDeviceType::Microphone);
    assert_eq!(devices[1].name, "Speakers");
    assert!(list_wmi_audio_devices("not json").is_empty());
}

#[test]
fn default_device_list() {
    let devices = default_audio_devices();
    let names: Vec<&str> = devices.iter().map(|d| d.name.as_str()).collect();
    assert_eq!(names, vec!["스피커", "마이크", "Microphone", "Speakers", "Headphones", "Line In"]);
    assert_eq!(devices[1].device_type, AudioDeviceType::Microphone);
    assert_eq!(devices[4].device_type, AudioDeviceType::SystemAudio);
}

#[test]
fn device_cache_expiry() {
    let mut manager = AudioDeviceManager::new(1_000);
    assert!(manager.get_devices().is_empty());
    assert!(!manager.refresh_due(60_999));
    assert!(manager.refresh_due(61_000));
    assert!(!manager.refresh_due(500));
    manager.record_refresh(
        vec![AudioDevice { name: "Mic".to_string(), device_type: AudioDeviceType::Microphone }],
        70_000,
    );
    assert!(!manager.refresh_due(70_000));
    assert_eq!(list_audio_devices(&manager).len(), 1);
    manager.mark_stale(80_000);
    assert!(manager.refresh_due(80_000));
    assert_eq!(manager.get_devices()[0].name, "Mic");
}
