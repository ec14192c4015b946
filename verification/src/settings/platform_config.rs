//! Platform capabilities: which features a platform offers, the defaults it
//! starts from, the settings the hardware allows, and the recommendations it
//! warrants. Memory and disk sizes are in mebibytes.
use crate::recording::integration_backend::TargetOs;
use crate::settings::models::{
    default_audio_settings, default_event_filter, default_video_settings, BitratePreset,
    EncoderPreference, FrameRate, RecordingSettings,
};
use crate::text::{chars_of, owned, parse_unsigned, parse_unsigned_exec, trim, trimmed};
use vstd::prelude::*;

verus! {

/// Platform enumeration.
#[derive(Debug, Clone, Copy, PartialEq, Eq, Structural)]
pub enum Platform {
    Windows,
    MacOS,
    Linux,
}

impl Platform {
    /// The platform of an operating system.
    pub fn detect(os: TargetOs) -> (p: Platform)
        ensures
            p == (match os {
                TargetOs::Windows => Platform::Windows,
                TargetOs::MacOS => Platform::MacOS,
                TargetOs::Linux => Platform::Linux,
            }),
    {
        match os {
            TargetOs::Windows => Platform::Windows,
            TargetOs::MacOS => Platform::MacOS,
            TargetOs::Linux => Platform::Linux,
        }
    }
}

/// GPU vendor.
#[derive(Debug, Clone, Copy, PartialEq, Eq, Structural)]
pub enum GpuVendor {
    Nvidia,
    Amd,
    Intel,
    Apple,
    Unknown,
}

/// GPU information.
#[derive(Debug)]
pub struct GpuInfo {
    pub name: String,
    pub vendor: GpuVendor,
    pub memory_mb: u64,
    pub driver_version: String,
    pub is_primary: bool,
    pub supports_encoding: bool,
    pub supports_nvenc: bool,
    pub supports_amf: bool,
    pub supports_qsv: bool,
}

/// Audio device.
#[derive(Debug)]
pub struct AudioDevice {
    pub id: String,
    pub name: String,
    pub channels: u32,
    pub sample_rate: u32,
    pub is_default: bool,
}

/// Audio devices of the machine.
#[derive(Debug)]
pub struct AudioDeviceInfo {
    pub input_devices: Vec<AudioDevice>,
    pub output_devices: Vec<AudioDevice>,
    pub default_input: Option<String>,
    pub default_output: Option<String>,
}

/// Platform-specific feature flags.
#[derive(Debug, Clone, Copy, PartialEq, Eq, Structural)]
pub struct PlatformFeatures {
    pub supports_windows_capture: bool,
    pub supports_ffmpeg_native: bool,
    pub supports_core_graphics: bool,
    pub supports_hardware_acceleration: bool,
    pub supports_system_tray: bool,
    pub supports_global_hotkeys: bool,
    pub supports_file_associations: bool,
    pub supports_auto_start: bool,
    pub supports_notifications: bool,
    pub supports_api_detection: bool,
    pub supports_window_enumeration: bool,
}

/// Audio recommendations.
#[derive(Debug)]
pub struct AudioRecommendations {
    pub recommended_sample_rate: String,
    pub recommended_bitrate: String,
    pub max_channels: u32,
    pub enable_microphone_by_default: bool,
    pub enable_system_audio_by_default: bool,
}

/// Performance recommendations.
#[derive(Debug, Clone, Copy, PartialEq, Eq, Structural)]
pub struct PerformanceRecommendations {
    pub enable_hardware_acceleration: bool,
    pub recommended_buffer_size_mb: u32,
    pub recommended_temp_cleanup_interval_minutes: u32,
    pub recommended_concurrent_clips: u32,
    pub enable_performance_monitoring: bool,
}

/// Video recommendations (the recording-time limit is in whole hours).
#[derive(Debug)]
pub struct VideoRecommendations {
    pub recommended_encoder: EncoderPreference,
    pub recommended_codec: &'static str,
    pub recommended_bitrate_kbps: u32,
    pub recommended_resolution: &'static str,
    pub recommended_frame_rate: &'static str,
    pub maximum_recording_hours: u32,
}

/// Some GPU can encode video.
pub open spec fn any_encoding(gpus: Seq<GpuInfo>) -> bool {
    exists|i: int| 0 <= i < gpus.len() && (#[trigger] gpus[i]).supports_encoding
}

/// Some GPU has NVENC.
pub open spec fn any_nvenc(gpus: Seq<GpuInfo>) -> bool {
    exists|i: int| 0 <= i < gpus.len() && (#[trigger] gpus[i]).supports_nvenc
}

/// Some GPU has AMF.
pub open spec fn any_amf(gpus: Seq<GpuInfo>) -> bool {
    exists|i: int| 0 <= i < gpus.len() && (#[trigger] gpus[i]).supports_amf
}

/// Some GPU has Quick Sync.
pub open spec fn any_qsv(gpus: Seq<GpuInfo>) -> bool {
    exists|i: int| 0 <= i < gpus.len() && (#[trigger] gpus[i]).supports_qsv
}

/// Largest GPU memory, 0 without a GPU.
pub open spec fn max_gpu_memory(gpus: Seq<GpuInfo>) -> u64
    decreases gpus.len(),
{
    if gpus.len() == 0 {
        0
    } else {
        let rest = max_gpu_memory(gpus.drop_last());
        if gpus.last().memory_mb > rest {
            gpus.last().memory_mb
        } else {
            rest
        }
    }
}

fn scan_gpus(gpus: &Vec<GpuInfo>) -> (r: (bool, bool, bool, bool, u64))
    ensures
        r.0 == any_encoding(gpus@),
        r.1 == any_nvenc(gpus@),
        r.2 == any_amf(gpus@),
        r.3 == any_qsv(gpus@),
        r.4 == max_gpu_memory(gpus@),
{
    let mut enc = false;
    let mut nv = false;
    let mut amf = false;
    let mut qsv = false;
    let mut mem: u64 = 0;
    let mut i: usize = 0;
    while i < gpus.len()
        invariant
            i <= gpus@.len(),
            enc == (exists|j: int| 0 <= j < i && (#[trigger] gpus@[j]).supports_encoding),
            nv == (exists|j: int| 0 <= j < i && (#[trigger] gpus@[j]).supports_nvenc),
            amf == (exists|j: int| 0 <= j < i && (#[trigger] gpus@[j]).supports_amf),
            qsv == (exists|j: int| 0 <= j < i && (#[trigger] gpus@[j]).supports_qsv),
            mem == max_gpu_memory(gpus@.subrange(0, i as int)),
        decreases gpus@.len() - i,
    {
        let g = &gpus[i];
        assert(gpus@.subrange(0, i + 1).drop_last() =~= gpus@.subrange(0, i as int));
        enc = enc || g.supports_encoding;
        nv = nv || g.supports_nvenc;
        amf = amf || g.supports_amf;
        qsv = qsv || g.supports_qsv;
        if g.memory_mb > mem {
            mem = g.memory_mb;
        }
        i += 1;
    }
    assert(gpus@.subrange(0, gpus@.len() as int) =~= gpus@);
    (enc, nv, amf, qsv, mem)
}

/// The features of a platform, hardware acceleration when some GPU encodes.
pub open spec fn platform_features(p: Platform, accel: bool) -> PlatformFeatures {
    match p {
        Platform::Windows => PlatformFeatures {
            supports_windows_capture: true,
            supports_ffmpeg_native: true,
            supports_core_graphics: false,
            supports_hardware_acceleration: accel,
            supports_system_tray: true,
            supports_global_hotkeys: true,
            supports_file_associations: true,
            supports_auto_start: true,
            supports_notifications: true,
            supports_api_detection: true,
            supports_window_enumeration: true,
        },
        Platform::MacOS => PlatformFeatures {
            supports_windows_capture: false,
            supports_ffmpeg_native: true,
            supports_core_graphics: true,
            supports_hardware_acceleration: accel,
            supports_system_tray: true,
            supports_global_hotkeys: true,
            supports_file_associations: true,
            supports_auto_start: true,
            supports_notifications: true,
            supports_api_detection: true,
            supports_window_enumeration: true,
        },
        Platform::Linux => PlatformFeatures {
            supports_windows_capture: false,
            supports_ffmpeg_native: true,
            supports_core_graphics: false,
            supports_hardware_acceleration: accel,
            supports_system_tray: false,
            supports_global_hotkeys: false,
            supports_file_associations: true,
            supports_auto_start: true,
            supports_notifications: true,
            supports_api_detection: false,
            supports_window_enumeration: false,
        },
    }
}

/// Detect platform features.
pub fn detect_features(platform: Platform, gpus: &Vec<GpuInfo>) -> (f: PlatformFeatures)
    ensures
        f == platform_features(platform, any_encoding(gpus@)),
{
    let (accel, _, _, _, _) = scan_gpus(gpus);
    match platform {
        Platform::Windows => PlatformFeatures {
            supports_windows_capture: true,
            supports_ffmpeg_native: true,
            supports_core_graphics: false,
            supports_hardware_acceleration: accel,
            supports_system_tray: true,
            supports_global_hotkeys: true,
            supports_file_associations: true,
            supports_auto_start: true,
            supports_notifications: true,
            supports_api_detection: true,
            supports_window_enumeration: true,
        },
        Platform::MacOS => PlatformFeatures {
            supports_windows_capture: false,
            supports_ffmpeg_native: true,
            supports_core_graphics: true,
            supports_hardware_acceleration: accel,
            supports_system_tray: true,
            supports_global_hotkeys: true,
            supports_file_associations: true,
            supports_auto_start: true,
            supports_notifications: true,
            supports_api_detection: true,
            supports_window_enumeration: true,
        },
        Platform::Linux => PlatformFeatures {
            supports_windows_capture: false,
            supports_ffmpeg_native: true,
            supports_core_graphics: false,
            supports_hardware_acceleration: accel,
            supports_system_tray: false,
            supports_global_hotkeys: false,
            supports_file_associations: true,
            supports_auto_start: true,
            supports_notifications: true,
            supports_api_detection: false,
            supports_window_enumeration: false,
        },
    }
}

/// Encoder a platform defaults to: on Windows the first of NVENC, AMF and
/// Quick Sync some GPU supports, else software; software elsewhere.
pub open spec fn default_encoder(p: Platform, gpus: Seq<GpuInfo>) -> EncoderPreference {
    match p {
        Platform::Windows => if any_nvenc(gpus) {
            EncoderPreference::Nvenc
        } else if any_amf(gpus) {
            EncoderPreference::Amf
        } else if any_qsv(gpus) {
            EncoderPreference::Qsv
        } else {
            EncoderPreference::Software
        },
        _ => EncoderPreference::Software,
    }
}

/// Platform-specific defaults: the default settings with the platform's
/// encoder, and no minimising to the tray outside Windows.
pub fn get_default_overrides(platform: Platform, gpus: &Vec<GpuInfo>) -> (s: RecordingSettings)
    ensures
        s.video.encoder == default_encoder(platform, gpus@),
        s.video.resolution == default_video_settings().resolution,
        s.video.frame_rate == default_video_settings().frame_rate,
        s.video.bitrate_preset == default_video_settings().bitrate_preset,
        s.video.codec == default_video_settings().codec,
        s.minimize_to_tray == (platform == Platform::Windows),
        s.audio == default_audio_settings(),
        s.event_filter == default_event_filter(),
        s.show_notifications,
        s.auto_start_with_league,
{
    let mut defaults = RecordingSettings::default();
    let (_, nv, amf, qsv, _) = scan_gpus(gpus);
    match platform {
        Platform::Windows => {
            defaults.video.encoder = if nv {
                EncoderPreference::Nvenc
            } else if amf {
                EncoderPreference::Amf
            } else if qsv {
                EncoderPreference::Qsv
            } else {
                EncoderPreference::Software
            };
        },
        Platform::MacOS => {
            defaults.video.encoder = EncoderPreference::Software;
            defaults.minimize_to_tray = false;
        },
        Platform::Linux => {
            defaults.video.encoder = EncoderPreference::Software;
            defaults.minimize_to_tray = false;
        },
    }
    defaults
}

/// Video recommendations: encoder, codec and bitrate by the largest GPU
/// memory (8000 and 4000 MB thresholds), resolution and frame rate by system
/// memory (16 GB with a 6000 MB GPU, 8 GB), and the recording-time limit by
/// free disk space (100 GB, 50 GB).
pub fn generate_video_recommendations(gpus: &Vec<GpuInfo>, total_memory_mib: u64, free_space_mib: u64) -> (r:
    VideoRecommendations)
    ensures
        ({
            let g = max_gpu_memory(gpus@);
            &&& r.recommended_encoder == (if g >= 4000 {
                EncoderPreference::Auto
            } else {
                EncoderPreference::Software
            })
            &&& r.recommended_codec@ == (if g >= 4000 {
                "h265"@
            } else {
                "h264"@
            })
            &&& r.recommended_bitrate_kbps == (if g >= 8000 {
                20000u32
            } else if g >= 4000 {
                10000u32
            } else {
                5000u32
            })
            &&& r.recommended_resolution@ == (if total_memory_mib >= 16384 && g >= 6000 {
                "2560x1440"@
            } else if total_memory_mib >= 8192 {
                "1920x1080"@
            } else {
                "1280x720"@
            })
            &&& r.recommended_frame_rate@ == (if total_memory_mib >= 8192 {
                "60"@
            } else {
                "30"@
            })
            &&& r.maximum_recording_hours == (if free_space_mib >= 102400 {
                24u32
            } else if free_space_mib >= 51200 {
                12u32
            } else {
                6u32
            })
        }),
{
    let (_, _, _, _, g) = scan_gpus(gpus);
    let (recommended_encoder, recommended_codec, recommended_bitrate_kbps) = if g >= 8000 {
        (EncoderPreference::Auto, "h265", 20000u32)
    } else if g >= 4000 {
        (EncoderPreference::Auto, "h265", 10000u32)
    } else {
        (EncoderPreference::Software, "h264", 5000u32)
    };
    let (recommended_resolution, recommended_frame_rate) = if total_memory_mib >= 16384 && g
        >= 6000 {
        ("2560x1440", "60")
    } else if total_memory_mib >= 8192 {
        ("1920x1080", "60")
    } else {
        ("1280x720", "30")
    };
    let maximum_recording_hours: u32 = if free_space_mib >= 102400 {
        24
    } else if free_space_mib >= 51200 {
        12
    } else {
        6
    };
    VideoRecommendations {
        recommended_encoder,
        recommended_codec,
        recommended_bitrate_kbps,
        recommended_resolution,
        recommended_frame_rate,
        maximum_recording_hours,
    }
}

/// Audio recommendations: 48 kHz, 192 kbps, stereo, both sources on.
pub fn generate_audio_recommendations() -> (r: AudioRecommendations)
    ensures
        r.recommended_sample_rate@ == "48000"@,
        r.recommended_bitrate@ == "192"@,
        r.max_channels == 2,
        r.enable_microphone_by_default,
        r.enable_system_audio_by_default,
{
    AudioRecommendations {
        recommended_sample_rate: owned("48000"),
        recommended_bitrate: owned("192"),
        max_channels: 2,
        enable_microphone_by_default: true,
        enable_system_audio_by_default: true,
    }
}

/// Performance recommendations: hardware acceleration when some GPU encodes,
/// buffer and concurrency by system memory.
pub fn generate_performance_recommendations(gpus: &Vec<GpuInfo>, total_memory_mib: u64) -> (r:
    PerformanceRecommendations)
    ensures
        r == (PerformanceRecommendations {
            enable_hardware_acceleration: any_encoding(gpus@),
            recommended_buffer_size_mb: if total_memory_mib >= 16384 {
                512
            } else if total_memory_mib >= 8192 {
                256
            } else {
                128
            },
            recommended_temp_cleanup_interval_minutes: 30,
            recommended_concurrent_clips: if total_memory_mib >= 16384 {
                5
            } else {
                3
            },
            enable_performance_monitoring: true,
        }),
{
    let (accel, _, _, _, _) = scan_gpus(gpus);
    PerformanceRecommendations {
        enable_hardware_acceleration: accel,
        recommended_buffer_size_mb: if total_memory_mib >= 16384 {
            512
        } else if total_memory_mib >= 8192 {
            256
        } else {
            128
        },
        recommended_temp_cleanup_interval_minutes: 30,
        recommended_concurrent_clips: if total_memory_mib >= 16384 {
            5
        } else {
            3
        },
        enable_performance_monitoring: true,
    }
}

/// Validate settings against the machine: 120 FPS needs 8 GB of memory, and
/// recording needs 5 GB of free disk space.
pub fn validate_settings(frame_rate: FrameRate, total_memory_mib: u64, free_space_mib: u64) -> (r:
    Result<(), String>)
    ensures
        frame_rate == FrameRate::Fps120 && total_memory_mib < 8192 ==> (r matches Err(m) && m@
            == "120 FPS recording requires at least 8GB RAM"@),
        !(frame_rate == FrameRate::Fps120 && total_memory_mib < 8192) && free_space_mib < 5120 ==> (
        r matches Err(m) && m@ == "At least 5GB free space required for recording"@),
        !(frame_rate == FrameRate::Fps120 && total_memory_mib < 8192) && free_space_mib >= 5120
            ==> r is Ok,
{
    if frame_rate == FrameRate::Fps120 && total_memory_mib < 8192 {
        return Err(owned("120 FPS recording requires at least 8GB RAM"));
    }
    if free_space_mib < 5120 {
        return Err(owned("At least 5GB free space required for recording"));
    }
    Ok(())
}

/// Adapt settings to the machine: low bitrate under 8 GB of memory, software
/// encoding without an encoding GPU, no microphone without input devices,
/// and no minimising to the tray (with notifications on, on Linux) outside
/// Windows.
pub fn optimize_settings(
    settings: &mut RecordingSettings,
    platform: Platform,
    gpus: &Vec<GpuInfo>,
    total_memory_mib: u64,
    input_device_count: usize,
)
    ensures
        final(settings).video.bitrate_preset == (if total_memory_mib < 8192 {
            BitratePreset::Low
        } else {
            old(settings).video.bitrate_preset
        }),
        final(settings).video.encoder == (if !any_encoding(gpus@) {
            EncoderPreference::Software
        } else {
            old(settings).video.encoder
        }),
        (old(settings).audio.record_microphone && input_device_count == 0) ==> (!final(settings).audio.record_microphone && final(settings).audio.microphone_device is None),
        !(old(settings).audio.record_microphone && input_device_count == 0) ==> (final(settings).audio.record_microphone == old(settings).audio.record_microphone && final(settings).audio.microphone_device == old(settings).audio.microphone_device),
        final(settings).minimize_to_tray == (if platform == Platform::Windows {
            old(settings).minimize_to_tray
        } else {
            false
        }),
        final(settings).show_notifications == (if platform == Platform::Linux {
            true
        } else {
            old(settings).show_notifications
        }),
        final(settings).video.resolution == old(settings).video.resolution,
        final(settings).video.frame_rate == old(settings).video.frame_rate,
        final(settings).video.codec == old(settings).video.codec,
{
    let (accel, _, _, _, _) = scan_gpus(gpus);
    if total_memory_mib < 8192 {
        settings.video.bitrate_preset = BitratePreset::Low;
    }
    if !accel {
        settings.video.encoder = EncoderPreference::Software;
    }
    if settings.audio.record_microphone && input_device_count == 0 {
        settings.audio.record_microphone = false;
        settings.audio.microphone_device = None;
    }
    match platform {
        Platform::Windows => {},
        Platform::MacOS => {
            settings.minimize_to_tray = false;
        },
        Platform::Linux => {
            settings.minimize_to_tray = false;
            settings.show_notifications = true;
        },
    }
}


/// The GPUs reported on Windows: one primary NVIDIA GeForce RTX 3070 with
/// 8000 MB, driver 511.23, encoding through NVENC.
pub fn detect_windows_gpu() -> (r: Vec<GpuInfo>)
    ensures
        r@.len() == 1,
        r@[0].name@ == "NVIDIA GeForce RTX 3070"@,
        r@[0].vendor == GpuVendor::Nvidia,
        r@[0].memory_mb == 8000,
        r@[0].driver_version@ == "511.23"@,
        r@[0].is_primary,
        r@[0].supports_encoding,
        r@[0].supports_nvenc,
        !r@[0].supports_amf,
        !r@[0].supports_qsv,
{
    let mut v: Vec<GpuInfo> = Vec::new();
    v.push(
        GpuInfo {
            name: owned("NVIDIA GeForce RTX 3070"),
            vendor: GpuVendor::Nvidia,
            memory_mb: 8000,
            driver_version: owned("511.23"),
            is_primary: true,
            supports_encoding: true,
            supports_nvenc: true,
            supports_amf: false,
            supports_qsv: false,
        },
    );
    v
}

/// The number printed by `sysctl -n` (`hw.ncpu`, `hw.memsize`): the output
/// trimmed of white space and parsed as an unsigned integer no larger than
/// `max`; `None` where it does not parse.
pub fn parse_sysctl_number(output: &str, max: u64) -> (r: Option<u64>)
    ensures
        r matches Some(v) ==> parse_unsigned(trim(output@), max as nat) == Some(v as nat),
        r is None ==> parse_unsigned(trim(output@), max as nat) is None,
{
    let text = chars_of(output);
    let t = trimmed(text.as_slice());
    parse_unsigned_exec(t.as_slice(), max)
}

/// The GPU reported on macOS: the Apple Silicon GPU, memory unknown (0),
/// encoding without NVENC, AMF or QSV.
pub fn detect_macos_gpu() -> (r: Vec<GpuInfo>)
    ensures
        r@.len() == 1,
        r@[0].name@ == "Apple Silicon GPU"@,
        r@[0].vendor == GpuVendor::Apple,
        r@[0].memory_mb == 0,
        r@[0].driver_version@ == "N/A"@,
        r@[0].is_primary,
        r@[0].supports_encoding,
        !r@[0].supports_nvenc,
        !r@[0].supports_amf,
        !r@[0].supports_qsv,
{
    let mut v: Vec<GpuInfo> = Vec::new();
    v.push(
        GpuInfo {
            name: owned("Apple Silicon GPU"),
            vendor: GpuVendor::Apple,
            memory_mb: 0,
            driver_version: owned("N/A"),
            is_primary: true,
            supports_encoding: true,
            supports_nvenc: false,
            supports_amf: false,
            supports_qsv: false,
        },
    );
    v
}

} // verus!
