//! What the recording commands report: status names, the dashboard status,
//! quality information, and the catalogue of encoders found on the machine.
use crate::recording::integration_backend::{
    hardware_encoder_name, RecordingConfig, RecordingStatus, TargetOs, VideoEncoder,
};
use crate::text::{decimal, owned, push_all, push_decimal};
use vstd::prelude::*;

verus! {

/// Status for the dashboard.
#[derive(Debug)]
pub struct RecordingStatusInfo {
    pub status: String,
    pub is_monitoring: bool,
    pub buffer_duration_secs: u32,
}

/// Lower-case status name.
pub open spec fn status_lower(s: RecordingStatus) -> Seq<char> {
    match s {
        RecordingStatus::Idle => "idle"@,
        RecordingStatus::Buffering => "buffering"@,
        RecordingStatus::Recording => "recording"@,
        RecordingStatus::Processing => "processing"@,
        RecordingStatus::Error => "error"@,
    }
}

/// Capitalised status name.
pub open spec fn status_title(s: RecordingStatus) -> Seq<char> {
    match s {
        RecordingStatus::Idle => "Idle"@,
        RecordingStatus::Buffering => "Buffering"@,
        RecordingStatus::Recording => "Recording"@,
        RecordingStatus::Processing => "Processing"@,
        RecordingStatus::Error => "Error"@,
    }
}

/// The status as the frontend receives it.
pub fn recording_status_name(status: RecordingStatus) -> (r: &'static str)
    ensures
        r@ == status_lower(status),
{
    match status {
        RecordingStatus::Idle => "idle",
        RecordingStatus::Buffering => "buffering",
        RecordingStatus::Recording => "recording",
        RecordingStatus::Processing => "processing",
        RecordingStatus::Error => "error",
    }
}

/// The dashboard status: the capitalised status, whether events are
/// monitored, and the replay window of the configuration (truncated to 32
/// bits).
pub fn detailed_status(status: RecordingStatus, is_monitoring: bool, buffer_duration_secs: u64) -> (r:
    RecordingStatusInfo)
    ensures
        r.status@ == status_title(status),
        r.is_monitoring == is_monitoring,
        r.buffer_duration_secs == buffer_duration_secs as u32,
{
    let name = match status {
        RecordingStatus::Idle => "Idle",
        RecordingStatus::Buffering => "Buffering",
        RecordingStatus::Recording => "Recording",
        RecordingStatus::Processing => "Processing",
        RecordingStatus::Error => "Error",
    };
    RecordingStatusInfo {
        status: owned(name),
        is_monitoring,
        buffer_duration_secs: buffer_duration_secs as u32,
    }
}

/// Quality information of a recording configuration.
#[derive(Debug)]
pub struct QualitySummary {
    pub encoder: &'static str,
    pub codec: &'static str,
    pub resolution: String,
    pub fps: u32,
    /// Bitrate in bits per second.
    pub bitrate: u32,
    pub audio_enabled: bool,
}

/// Codec label of an encoder.
pub open spec fn codec_label(e: VideoEncoder) -> Seq<char> {
    match e {
        VideoEncoder::H264 => "H.264/AVC"@,
        VideoEncoder::H265 => "H.265/HEVC"@,
    }
}

/// The quality information of `config` on `os`.
pub fn quality_summary(config: &RecordingConfig, os: TargetOs) -> (r: QualitySummary)
    ensures
        r.encoder@ == hardware_encoder_name(config.encoder, os),
        r.codec@ == codec_label(config.encoder),
        r.resolution@ == decimal(config.resolution.0 as nat) + "x"@ + decimal(
            config.resolution.1 as nat,
        ),
        r.fps == config.fps,
        r.bitrate == config.bitrate,
        r.audio_enabled == config.audio_config is Some,
{
    let codec = match config.encoder {
        VideoEncoder::H264 => "H.264/AVC",
        VideoEncoder::H265 => "H.265/HEVC",
    };
    let mut resolution = String::new();
    push_decimal(&mut resolution, config.resolution.0 as u64);
    push_all(&mut resolution, "x");
    push_decimal(&mut resolution, config.resolution.1 as u64);
    assert(resolution@ =~= decimal(config.resolution.0 as nat) + "x"@ + decimal(
        config.resolution.1 as nat,
    ));
    QualitySummary {
        encoder: config.encoder.to_ffmpeg_name(os),
        codec,
        resolution,
        fps: config.fps,
        bitrate: config.bitrate,
        audio_enabled: config.audio_config.is_some(),
    }
}

/// One encoder the machine offers.
#[derive(Debug)]
pub struct EncoderInfo {
    pub id: &'static str,
    pub name: &'static str,
    pub kind: &'static str,
    pub vendor: &'static str,
    pub codecs: Vec<&'static str>,
    pub h264_encoder: &'static str,
    pub h265_encoder: &'static str,
    pub av1_encoder: Option<&'static str>,
    pub performance: &'static str,
    pub quality: &'static str,
}

/// Encoders found: the working hardware encoders (NVENC, Quick Sync, AMF, in
/// that order) and then the software encoder, which always works; the
/// encoder picked automatically; and their number.
#[derive(Debug)]
pub struct EncoderDetection {
    pub available: Vec<EncoderInfo>,
    pub auto_detected: &'static str,
    pub total_count: usize,
}

/// Ids of the encoders listed for the probe results.
pub open spec fn detected_ids(nvenc: bool, qsv: bool, amf: bool) -> Seq<Seq<char>> {
    (if nvenc {
        seq!["nvenc"@]
    } else {
        Seq::empty()
    }) + (if qsv {
        seq!["qsv"@]
    } else {
        Seq::empty()
    }) + (if amf {
        seq!["amf"@]
    } else {
        Seq::empty()
    }) + seq!["software"@]
}

/// What an encoder entry shows: id, name, kind, vendor, codecs, H.264 and
/// H.265 encoders, AV1 encoder, performance and quality.
pub open spec fn encoder_view(e: EncoderInfo) -> (
    Seq<char>,
    Seq<char>,
    Seq<char>,
    Seq<char>,
    Seq<Seq<char>>,
    Seq<char>,
    Seq<char>,
    Option<Seq<char>>,
    Seq<char>,
    Seq<char>,
) {
    (
        e.id@,
        e.name@,
        e.kind@,
        e.vendor@,
        e.codecs@.map_values(|c: &str| c@),
        e.h264_encoder@,
        e.h265_encoder@,
        match e.av1_encoder {
            Some(a) => Some(a@),
            None => None,
        },
        e.performance@,
        e.quality@,
    )
}

/// The catalogue row of an encoder id; any id other than the three hardware
/// ones is the software row.
pub open spec fn catalog_row(id: Seq<char>) -> (
    Seq<char>,
    Seq<char>,
    Seq<char>,
    Seq<char>,
    Seq<Seq<char>>,
    Seq<char>,
    Seq<char>,
    Option<Seq<char>>,
    Seq<char>,
    Seq<char>,
) {
    if id == "nvenc"@ {
        ("nvenc"@, "NVIDIA NVENC"@, "hardware"@, "NVIDIA"@, seq!["h264"@, "h265"@], "h264_nvenc"@,
        "hevc_nvenc"@, None, "excellent"@, "high"@)
    } else if id == "qsv"@ {
        ("qsv"@, "Intel Quick Sync"@, "hardware"@, "Intel"@, seq!["h264"@, "h265"@], "h264_qsv"@,
        "hevc_qsv"@, None, "excellent"@, "high"@)
    } else if id == "amf"@ {
        ("amf"@, "AMD AMF"@, "hardware"@, "AMD"@, seq!["h264"@, "h265"@], "h264_amf"@,
        "hevc_amf"@, None, "excellent"@, "high"@)
    } else {
        ("software"@, "Software (CPU)"@, "software"@, "FFmpeg"@, seq!["h264"@, "h265"@, "av1"@],
        "libx264"@, "libx265"@, Some("libsvtav1"@), "slow"@, "excellent"@)
    }
}

/// The ids of a list of encoders.
pub open spec fn encoder_ids(v: Seq<EncoderInfo>) -> Seq<Seq<char>> {
    v.map_values(|e: EncoderInfo| e.id@)
}

fn hardware_info(id: &'static str, name: &'static str, vendor: &'static str, h264: &'static str, h265: &'static str) -> (r: EncoderInfo)
    ensures
        encoder_view(r) == (id@, name@, "hardware"@, vendor@, seq!["h264"@, "h265"@], h264@, h265@,
        Option::<Seq<char>>::None, "excellent"@, "high"@),
{
    let r = EncoderInfo {
        id,
        name,
        kind: "hardware",
        vendor,
        codecs: vec!["h264", "h265"],
        h264_encoder: h264,
        h265_encoder: h265,
        av1_encoder: None,
        performance: "excellent",
        quality: "high",
    };
    assert(r.codecs@.map_values(|c: &str| c@) =~= seq!["h264"@, "h265"@]);
    r
}

fn software_info() -> (r: EncoderInfo)
    ensures
        encoder_view(r) == catalog_row("software"@),
{
    let r = EncoderInfo {
        id: "software",
        name: "Software (CPU)",
        kind: "software",
        vendor: "FFmpeg",
        codecs: vec!["h264", "h265", "av1"],
        h264_encoder: "libx264",
        h265_encoder: "libx265",
        av1_encoder: Some("libsvtav1"),
        performance: "slow",
        quality: "excellent",
    };
    proof {
        reveal_strlit("software");
        reveal_strlit("nvenc");
        reveal_strlit("qsv");
        reveal_strlit("amf");
    }
    assert(r.codecs@.map_values(|c: &str| c@) =~= seq!["h264"@, "h265"@, "av1"@]);
    r
}

proof fn lemma_hardware_rows()
    ensures
        catalog_row("nvenc"@) == ("nvenc"@, "NVIDIA NVENC"@, "hardware"@, "NVIDIA"@, seq![
            "h264"@,
            "h265"@,
        ], "h264_nvenc"@, "hevc_nvenc"@, Option::<Seq<char>>::None, "excellent"@, "high"@),
        catalog_row("qsv"@) == ("qsv"@, "Intel Quick Sync"@, "hardware"@, "Intel"@, seq![
            "h264"@,
            "h265"@,
        ], "h264_qsv"@, "hevc_qsv"@, Option::<Seq<char>>::None, "excellent"@, "high"@),
        catalog_row("amf"@) == ("amf"@, "AMD AMF"@, "hardware"@, "AMD"@, seq!["h264"@, "h265"@],
        "h264_amf"@, "hevc_amf"@, Option::<Seq<char>>::None, "excellent"@, "high"@),
{
    reveal_strlit("nvenc");
    reveal_strlit("qsv");
    reveal_strlit("amf");
    assert("amf"@[0] != "qsv"@[0]);
    assert("amf"@ != "qsv"@);
    assert("amf"@ != "nvenc"@);
    assert("qsv"@ != "nvenc"@);
}

/// The encoder catalogue for the results of probing the NVENC, Quick Sync
/// and AMF H.265 encoders. The automatic choice is the first working hardware
/// encoder, else software.
pub fn encoder_catalog(nvenc: bool, qsv: bool, amf: bool) -> (r: EncoderDetection)
    ensures
        encoder_ids(r.available@) == detected_ids(nvenc, qsv, amf),
        r.total_count == r.available@.len(),
        r.auto_detected@ == detected_ids(nvenc, qsv, amf)[0],
        forall|i: int|
            0 <= i < r.available@.len() ==> encoder_view(#[trigger] r.available@[i]) == catalog_row(
                detected_ids(nvenc, qsv, amf)[i],
            ),
{
    proof {
        lemma_hardware_rows();
    }
    let mut available: Vec<EncoderInfo> = Vec::new();
    if nvenc {
        available.push(hardware_info("nvenc", "NVIDIA NVENC", "NVIDIA", "h264_nvenc", "hevc_nvenc"));
    }
    if qsv {
        available.push(hardware_info("qsv", "Intel Quick Sync", "Intel", "h264_qsv", "hevc_qsv"));
    }
    if amf {
        available.push(hardware_info("amf", "AMD AMF", "AMD", "h264_amf", "hevc_amf"));
    }
    available.push(software_info());
    assert(encoder_ids(available@) =~= detected_ids(nvenc, qsv, amf));
    assert forall|i: int| 0 <= i < available@.len() implies encoder_view(
        #[trigger] available@[i],
    ) == catalog_row(detected_ids(nvenc, qsv, amf)[i]) by {
        assert(encoder_ids(available@)[i] == available@[i].id@);
    }
    let auto_detected = if available.len() > 1 {
        available[0].id
    } else {
        "software"
    };
    let total_count = available.len();
    EncoderDetection { available, auto_detected, total_count }
}


// ============================================================================
// Disk usage
// ============================================================================

/// Bytes in a gibibyte.
pub const GIB: u64 = 1_073_741_824;

/// Disk usage of the recorder's data, in whole gibibytes, with advice.
#[derive(Debug, Clone, Copy, PartialEq, Eq, Structural)]
pub struct DiskUsageReport {
    pub total_space_gb: u64,
    pub free_space_gb: u64,
    pub used_space_gb: u64,
    pub recordings_gb: u64,
    pub temp_files_gb: u64,
    pub logs_gb: u64,
    /// Temporary files take more than 2 GiB.
    pub cleanup_needed: bool,
    /// There are temporary files.
    pub cleanup_temp: bool,
    /// Recordings take more than 20 GiB.
    pub archive_old_recordings: bool,
    /// Less than 10 GiB are free.
    pub low_disk_space: bool,
}

/// The usage report of a disk of `total_bytes` with `free_bytes` free, and of
/// the recordings, temporary and log directories' sizes.
pub fn disk_usage_report(
    total_bytes: u64,
    free_bytes: u64,
    recordings_bytes: u64,
    temp_bytes: u64,
    logs_bytes: u64,
) -> (r: DiskUsageReport)
    requires
        free_bytes <= total_bytes,
    ensures
        r == (DiskUsageReport {
            total_space_gb: total_bytes / GIB,
            free_space_gb: free_bytes / GIB,
            used_space_gb: ((total_bytes - free_bytes) as u64) / GIB,
            recordings_gb: recordings_bytes / GIB,
            temp_files_gb: temp_bytes / GIB,
            logs_gb: logs_bytes / GIB,
            cleanup_needed: temp_bytes > 2 * GIB,
            cleanup_temp: temp_bytes > 0,
            archive_old_recordings: recordings_bytes > 20 * GIB,
            low_disk_space: free_bytes < 10 * GIB,
        }),
{
    DiskUsageReport {
        total_space_gb: total_bytes / GIB,
        free_space_gb: free_bytes / GIB,
        used_space_gb: (total_bytes - free_bytes) / GIB,
        recordings_gb: recordings_bytes / GIB,
        temp_files_gb: temp_bytes / GIB,
        logs_gb: logs_bytes / GIB,
        cleanup_needed: temp_bytes > 2 * GIB,
        cleanup_temp: temp_bytes > 0,
        archive_old_recordings: recordings_bytes > 20 * GIB,
        low_disk_space: free_bytes < 10 * GIB,
    }
}

} // verus!
