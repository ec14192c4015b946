//! Segment-based screen recording: the recording configuration, the FFmpeg
//! arguments that capture the screen into a ring of segment files and cut a
//! clip out of them, and the recorder's status machine.
use crate::recording::audio::{default_audio_config, views, AudioConfig};
use crate::security::{extension_range, join_path, joined, path_extension};
use crate::storage::models_v2::{lemma_time_sorted_prefix, order_by_time, time_order};
use crate::text::{chars_of, decimal, owned, push_all, push_decimal};
use vstd::prelude::*;

verus! {

// ============================================================================
// Platform and encoders
// ============================================================================

/// Operating system the recorder runs on; it selects the capture device and the
/// hardware encoder.
#[derive(Debug, Clone, Copy, PartialEq, Eq, Structural)]
pub enum TargetOs {
    Windows,
    MacOS,
    Linux,
}

/// Cross-platform video encoder choice.
#[derive(Debug, Clone, Copy, PartialEq, Eq, Structural)]
pub enum VideoEncoder {
    H264,
    H265,
}

/// Hardware-accelerated FFmpeg encoder of each platform.
pub open spec fn hardware_encoder_name(e: VideoEncoder, os: TargetOs) -> Seq<char> {
    match os {
        TargetOs::Windows => match e {
            VideoEncoder::H264 => "h264_nvenc"@,
            VideoEncoder::H265 => "hevc_nvenc"@,
        },
        TargetOs::MacOS => match e {
            VideoEncoder::H264 => "h264_videotoolbox"@,
            VideoEncoder::H265 => "hevc_videotoolbox"@,
        },
        TargetOs::Linux => match e {
            VideoEncoder::H264 => "libx264"@,
            VideoEncoder::H265 => "libx265"@,
        },
    }
}

impl VideoEncoder {
    /// FFmpeg encoder name optimised for the platform (hardware acceleration).
    pub fn to_ffmpeg_name(&self, os: TargetOs) -> (r: &'static str)
        ensures
            r@ == hardware_encoder_name(*self, os),
    {
        match os {
            TargetOs::Windows => match self {
                VideoEncoder::H264 => "h264_nvenc",
                VideoEncoder::H265 => "hevc_nvenc",
            },
            TargetOs::MacOS => match self {
                VideoEncoder::H264 => "h264_videotoolbox",
                VideoEncoder::H265 => "hevc_videotoolbox",
            },
            TargetOs::Linux => match self {
                VideoEncoder::H264 => "libx264",
                VideoEncoder::H265 => "libx265",
            },
        }
    }

    /// Software encoder used as a compatibility fallback.
    pub fn to_software_fallback(&self) -> (r: &'static str)
        ensures
            r@ == (match *self {
                VideoEncoder::H264 => "libx264"@,
                VideoEncoder::H265 => "libx265"@,
            }),
    {
        match self {
            VideoEncoder::H264 => "libx264",
            VideoEncoder::H265 => "libx265",
        }
    }

    /// Container extension of the recorded files.
    pub fn to_extension(&self) -> (r: &'static str)
        ensures
            r@ == "mp4"@,
    {
        match self {
            VideoEncoder::H264 => "mp4",
            VideoEncoder::H265 => "mp4",
        }
    }
}

// ============================================================================
// Frames
// ============================================================================

/// Frame data handed over by a capture source.
pub struct CapturedFrame {
    pub width: u32,
    pub height: u32,
    pub data: Vec<u8>,
    pub timestamp: std::time::SystemTime,
}

impl CapturedFrame {
    /// A frame stamped with the current system time.
    pub fn new(width: u32, height: u32, data: Vec<u8>) -> (f: Self)
        ensures
            f.width == width,
            f.height == height,
            f.data@ == data@,
    {
        CapturedFrame { width, height, data, timestamp: crate::clock::system_now() }
    }

    /// Size of the frame data in bytes.
    pub fn size(&self) -> (n: usize)
        ensures
            n == self.data@.len(),
    {
        self.data.len()
    }
}

// ============================================================================
// Configuration
// ============================================================================

/// Recording configuration.
#[derive(Debug)]
pub struct RecordingConfig {
    pub fps: u32,
    /// Video bitrate in bits per second.
    pub bitrate: u32,
    pub resolution: (u32, u32),
    pub encoder: VideoEncoder,
    pub output_dir: String,
    /// Length of the replay window kept in segments.
    pub buffer_duration_secs: u64,
    pub segment_duration_secs: u64,
    pub audio_config: Option<AudioConfig>,
    /// Title of the window to capture; the whole desktop when `None`.
    pub capture_target: Option<String>,
}

/// Window title captured by default: the Korean League of Legends client title,
/// the first of the known localized titles.
pub open spec fn league_capture_title() -> Seq<char> {
    "리그 오브 레전드"@
}

/// The default recording configuration, apart from its audio settings.
pub open spec fn is_default_recording(c: RecordingConfig) -> bool {
    &&& c.fps == 60
    &&& c.bitrate == 15_000_000
    &&& c.resolution == (1920u32, 1080u32)
    &&& c.encoder == VideoEncoder::H264
    &&& c.output_dir@ == "./recordings"@
    &&& c.buffer_duration_secs == 60
    &&& c.segment_duration_secs == 10
    &&& c.capture_target matches Some(t) && t@ == league_capture_title()
}

impl Default for RecordingConfig {
    fn default() -> (c: Self)
        ensures
            is_default_recording(c),
            c.audio_config matches Some(a) && a == default_audio_config(),
    {
        RecordingConfig {
            fps: 60,
            bitrate: 15_000_000,
            resolution: (1920, 1080),
            encoder: VideoEncoder::H264,
            output_dir: owned("./recordings"),
            buffer_duration_secs: 60,
            segment_duration_secs: 10,
            audio_config: Some(AudioConfig::default()),
            capture_target: Some(owned("리그 오브 레전드")),
        }
    }
}

/// Video settings used to initialise a recording.
#[derive(Debug, Clone, Copy)]
pub struct VideoSettingsConfig {
    pub resolution: (u32, u32),
    pub fps: u32,
    pub bitrate: u32,
    pub use_h265: bool,
}

impl Default for VideoSettingsConfig {
    fn default() -> (c: Self)
        ensures
            c == (VideoSettingsConfig {
                resolution: (1920, 1080),
                fps: 60,
                bitrate: 15_000_000,
                use_h265: false,
            }),
    {
        VideoSettingsConfig { resolution: (1920, 1080), fps: 60, bitrate: 15_000_000, use_h265: false }
    }
}

impl RecordingConfig {
    /// The configuration a recording backend is initialised with: the given
    /// output directory, audio settings and video settings (the defaults when
    /// `None`), H.265 when the video settings ask for it, and the defaults for
    /// everything else.
    pub fn from_video_settings(
        output_dir: String,
        audio_config: Option<AudioConfig>,
        video_config: Option<VideoSettingsConfig>,
    ) -> (c: Self)
        ensures
            ({
                let v = match video_config {
                    Some(v) => v,
                    None => VideoSettingsConfig {
                        resolution: (1920, 1080),
                        fps: 60,
                        bitrate: 15_000_000,
                        use_h265: false,
                    },
                };
                &&& c.fps == v.fps
                &&& c.bitrate == v.bitrate
                &&& c.resolution == v.resolution
                &&& c.encoder == (if v.use_h265 {
                    VideoEncoder::H265
                } else {
                    VideoEncoder::H264
                })
                &&& c.output_dir@ == output_dir@
                &&& c.audio_config == audio_config
                &&& c.buffer_duration_secs == 60
                &&& c.segment_duration_secs == 10
                &&& c.capture_target matches Some(t) && t@ == league_capture_title()
            }),
    {
        let video = match video_config {
            Some(v) => v,
            None => VideoSettingsConfig::default(),
        };
        let encoder = if video.use_h265 {
            VideoEncoder::H265
        } else {
            VideoEncoder::H264
        };
        RecordingConfig {
            fps: video.fps,
            bitrate: video.bitrate,
            resolution: video.resolution,
            encoder,
            output_dir,
            buffer_duration_secs: 60,
            segment_duration_secs: 10,
            audio_config,
            capture_target: Some(owned("리그 오브 레전드")),
        }
    }
}

// ============================================================================
// Capture arguments
// ============================================================================

/// Decimal rendering of a signed integer.
pub open spec fn signed_decimal(i: int) -> Seq<char> {
    if i < 0 {
        seq!['-'] + decimal((-i) as nat)
    } else {
        decimal(i as nat)
    }
}

/// Number of segments kept in the ring (the segment wrap), as FFmpeg receives it.
pub open spec fn segment_wrap(c: RecordingConfig) -> i32 {
    (c.buffer_duration_secs / c.segment_duration_secs) as i32
}

/// gdigrab input: a window by title, or the whole desktop.
pub open spec fn gdigrab_input(target: Option<String>) -> Seq<char> {
    match target {
        Some(t) => "title="@ + t@,
        None => "desktop"@,
    }
}

/// Capture input arguments of each platform.
pub open spec fn spec_capture_input(c: RecordingConfig, os: TargetOs) -> Seq<Seq<char>> {
    match os {
        TargetOs::Windows => seq![
            "-f"@,
            "gdigrab"@,
            "-framerate"@,
            decimal(c.fps as nat),
            "-i"@,
            gdigrab_input(c.capture_target),
        ] + (if c.audio_config matches Some(a) && a.record_system_audio {
            seq!["-f"@, "dshow"@, "-i"@, "audio=virtual-audio-capturer"@]
        } else {
            Seq::empty()
        }),
        TargetOs::MacOS => seq![
            "-f"@,
            "avfoundation"@,
            "-framerate"@,
            decimal(c.fps as nat),
            "-i"@,
            "1:0"@,
        ],
        TargetOs::Linux => seq![
            "-f"@,
            "x11grab"@,
            "-framerate"@,
            decimal(c.fps as nat),
            "-video_size"@,
            decimal(c.resolution.0 as nat) + "x"@ + decimal(c.resolution.1 as nat),
            "-i"@,
            ":0.0"@,
        ],
    }
}

/// Video encoding arguments: a keyframe every two seconds.
pub open spec fn spec_encoding_args(c: RecordingConfig, os: TargetOs) -> Seq<Seq<char>> {
    seq![
        "-c:v"@,
        hardware_encoder_name(c.encoder, os),
        "-b:v"@,
        decimal((c.bitrate / 1000) as nat) + "k"@,
        "-preset"@,
        "ultrafast"@,
        "-tune"@,
        "zerolatency"@,
        "-g"@,
        decimal((c.fps * 2) as nat),
        "-keyint_min"@,
        decimal(c.fps as nat),
        "-sc_threshold"@,
        "0"@,
        "-pix_fmt"@,
        "yuv420p"@,
    ]
}

/// Audio encoding arguments, present when audio is configured.
pub open spec fn spec_audio_encoding_args(c: RecordingConfig) -> Seq<Seq<char>> {
    if c.audio_config is Some {
        seq!["-c:a"@, "aac"@, "-b:a"@, "128k"@]
    } else {
        Seq::empty()
    }
}

/// Segment muxer arguments: a ring of segment files written to `pattern`.
pub open spec fn spec_segment_args(c: RecordingConfig, pattern: Seq<char>) -> Seq<Seq<char>> {
    seq![
        "-f"@,
        "segment"@,
        "-segment_time"@,
        decimal(c.segment_duration_secs as nat),
        "-segment_wrap"@,
        signed_decimal(segment_wrap(c) as int),
        "-segment_format"@,
        "mp4"@,
        "-reset_timestamps"@,
        "1"@,
        "-strftime"@,
        "0"@,
        pattern,
    ]
}

/// The full FFmpeg argument list of a segment recording.
pub open spec fn spec_capture_args(c: RecordingConfig, os: TargetOs, pattern: Seq<char>) -> Seq<
    Seq<char>,
> {
    seq!["-y"@] + spec_capture_input(c, os) + spec_encoding_args(c, os)
        + spec_audio_encoding_args(c) + spec_segment_args(c, pattern)
}

proof fn lemma_views_append(a: Seq<String>, b: Seq<String>)
    ensures
        views(a + b) == views(a) + views(b),
{
    assert(views(a + b) =~= views(a) + views(b));
}

/// Moves the strings of `src` to the end of `dst`.
pub fn extend_strings(dst: &mut Vec<String>, src: Vec<String>)
    ensures
        views(final(dst)@) == views(old(dst)@) + views(src@),
{
    let mut src = src;
    let ghost s0 = src@;
    dst.append(&mut src);
    proof {
        lemma_views_append(old(dst)@, s0);
    }
}

fn push_signed(s: &mut String, i: i32)
    ensures
        final(s)@ == old(s)@ + signed_decimal(i as int),
{
    if i < 0 {
        s.push('-');
        let m: i64 = -(i as i64);
        push_decimal(s, m as u64);
        assert(final(s)@ =~= old(s)@ + signed_decimal(i as int));
    } else {
        push_decimal(s, i as u64);
    }
}

fn decimal_string(n: u64) -> (s: String)
    ensures
        s@ == decimal(n as nat),
{
    let mut s = String::new();
    push_decimal(&mut s, n);
    assert(s@ =~= decimal(n as nat));
    s
}

impl RecordingConfig {
    fn capture_input_args(&self, os: TargetOs) -> (r: Vec<String>)
        ensures
            views(r@) == spec_capture_input(*self, os),
    {
        let mut v: Vec<String> = Vec::new();
        match os {
            TargetOs::Windows => {
                v.push(owned("-f"));
                v.push(owned("gdigrab"));
                v.push(owned("-framerate"));
                v.push(decimal_string(self.fps as u64));
                v.push(owned("-i"));
                match &self.capture_target {
                    Some(t) => {
                        let mut s = owned("title=");
                        push_all(&mut s, t.as_str());
                        v.push(s);
                    },
                    None => v.push(owned("desktop")),
                }
                let record_system = match &self.audio_config {
                    Some(a) => a.record_system_audio,
                    None => false,
                };
                if record_system {
                    v.push(owned("-f"));
                    v.push(owned("dshow"));
                    v.push(owned("-i"));
                    v.push(owned("audio=virtual-audio-capturer"));
                }
            },
            TargetOs::MacOS => {
                v.push(owned("-f"));
                v.push(owned("avfoundation"));
                v.push(owned("-framerate"));
                v.push(decimal_string(self.fps as u64));
                v.push(owned("-i"));
                v.push(owned("1:0"));
            },
            TargetOs::Linux => {
                v.push(owned("-f"));
                v.push(owned("x11grab"));
                v.push(owned("-framerate"));
                v.push(decimal_string(self.fps as u64));
                v.push(owned("-video_size"));
                let mut size = decimal_string(self.resolution.0 as u64);
                push_all(&mut size, "x");
                push_decimal(&mut size, self.resolution.1 as u64);
                v.push(size);
                v.push(owned("-i"));
                v.push(owned(":0.0"));
            },
        }
        assert(views(v@) =~= spec_capture_input(*self, os));
        v
    }

    fn encoding_args(&self, os: TargetOs) -> (r: Vec<String>)
        requires
            self.fps * 2 <= u32::MAX,
        ensures
            views(r@) == spec_encoding_args(*self, os),
    {
        let mut v: Vec<String> = Vec::new();
        v.push(owned("-c:v"));
        v.push(owned(self.encoder.to_ffmpeg_name(os)));
        v.push(owned("-b:v"));
        let mut rate = decimal_string((self.bitrate / 1000) as u64);
        push_all(&mut rate, "k");
        v.push(rate);
        v.push(owned("-preset"));
        v.push(owned("ultrafast"));
        v.push(owned("-tune"));
        v.push(owned("zerolatency"));
        v.push(owned("-g"));
        v.push(decimal_string((self.fps * 2) as u64));
        v.push(owned("-keyint_min"));
        v.push(decimal_string(self.fps as u64));
        v.push(owned("-sc_threshold"));
        v.push(owned("0"));
        v.push(owned("-pix_fmt"));
        v.push(owned("yuv420p"));
        assert(views(v@) =~= spec_encoding_args(*self, os));
        v
    }

    fn segment_args(&self, pattern: &str) -> (r: Vec<String>)
        requires
            self.segment_duration_secs > 0,
        ensures
            views(r@) == spec_segment_args(*self, pattern@),
    {
        let wrap: i32 = (self.buffer_duration_secs / self.segment_duration_secs) as i32;
        let mut v: Vec<String> = Vec::new();
        v.push(owned("-f"));
        v.push(owned("segment"));
        v.push(owned("-segment_time"));
        v.push(decimal_string(self.segment_duration_secs));
        v.push(owned("-segment_wrap"));
        let mut w = String::new();
        push_signed(&mut w, wrap);
        assert(w@ =~= signed_decimal(wrap as int));
        v.push(w);
        v.push(owned("-segment_format"));
        v.push(owned("mp4"));
        v.push(owned("-reset_timestamps"));
        v.push(owned("1"));
        v.push(owned("-strftime"));
        v.push(owned("0"));
        v.push(owned(pattern));
        assert(views(v@) =~= spec_segment_args(*self, pattern@));
        v
    }

    /// The directory of the segment files: `segments` under the output
    /// directory. A successful stop of the recorder hands it back.
    pub fn segments_dir(&self) -> (r: String)
        ensures
            r@ == joined(self.output_dir@, "segments"@),
    {
        join_path(self.output_dir.as_str(), "segments")
    }

    /// FFmpeg arguments of a segment recording on `os`: screen (and system
    /// audio) capture, low-latency encoding with a keyframe every two seconds,
    /// and a ring of `buffer / segment` segment files named by `segment_pattern`.
    pub fn capture_args(&self, os: TargetOs, segment_pattern: &str) -> (r: Vec<String>)
        requires
            self.fps * 2 <= u32::MAX,
            self.segment_duration_secs > 0,
        ensures
            views(r@) == spec_capture_args(*self, os, segment_pattern@),
    {
        let mut args: Vec<String> = Vec::new();
        args.push(owned("-y"));
        assert(views(args@) =~= seq!["-y"@]);
        extend_strings(&mut args, self.capture_input_args(os));
        extend_strings(&mut args, self.encoding_args(os));
        let mut audio: Vec<String> = Vec::new();
        if self.audio_config.is_some() {
            audio.push(owned("-c:a"));
            audio.push(owned("aac"));
            audio.push(owned("-b:a"));
            audio.push(owned("128k"));
        }
        assert(views(audio@) =~= spec_audio_encoding_args(*self));
        extend_strings(&mut args, audio);
        extend_strings(&mut args, self.segment_args(segment_pattern));
        args
    }
}

// ============================================================================
// Clip extraction
// ============================================================================

/// Seconds rendered from milliseconds the way a float prints them: whole
/// seconds, then the fraction without trailing zeros.
pub open spec fn seconds_text(ms: nat) -> Seq<char> {
    let whole = ms / 1000;
    let frac = ms % 1000;
    if frac == 0 {
        decimal(whole)
    } else if frac % 100 == 0 {
        decimal(whole) + seq!['.', digit_of(frac / 100)]
    } else if frac % 10 == 0 {
        decimal(whole) + seq!['.', digit_of(frac / 100), digit_of((frac / 10) % 10)]
    } else {
        decimal(whole) + seq!['.', digit_of(frac / 100), digit_of((frac / 10) % 10), digit_of(frac % 10)]
    }
}

/// The ASCII digit of a value below ten.
pub open spec fn digit_of(d: nat) -> char {
    ((48 + d) as u32) as char
}

fn digit_char_exec(d: u64) -> (c: char)
    requires
        d < 10,
    ensures
        c == digit_of(d as nat),
{
    let b: u8 = 48u8 + (d as u8);
    b as char
}

/// Appends the seconds of `ms` milliseconds.
pub fn push_seconds(s: &mut String, ms: u64)
    ensures
        final(s)@ == old(s)@ + seconds_text(ms as nat),
{
    let whole = ms / 1000;
    let frac = ms % 1000;
    push_decimal(s, whole);
    let ghost base = s@;
    if frac != 0 {
        s.push('.');
        s.push(digit_char_exec(frac / 100));
        if frac % 100 != 0 {
            s.push(digit_char_exec((frac / 10) % 10));
            if frac % 10 != 0 {
                s.push(digit_char_exec(frac % 10));
            }
        }
    }
    assert(final(s)@ =~= old(s)@ + seconds_text(ms as nat));
}

/// Start offset of the last `duration_ms` of a recording that has run for
/// `elapsed_ms`: zero when the recording is shorter.
pub fn clip_start_offset(elapsed_ms: u64, duration_ms: u64) -> (r: u64)
    ensures
        r == (if elapsed_ms > duration_ms {
            elapsed_ms - duration_ms
        } else {
            0
        }),
{
    if elapsed_ms > duration_ms {
        elapsed_ms - duration_ms
    } else {
        0
    }
}

/// Window of an event clip taken once the post-event time has passed: the last
/// `pre + post` milliseconds of the recording, as (start offset, duration).
pub fn event_clip_window(elapsed_ms: u64, pre_ms: u64, post_ms: u64) -> (r: (u64, u64))
    requires
        pre_ms + post_ms <= u64::MAX,
    ensures
        r.1 == pre_ms + post_ms,
        r.0 == (if elapsed_ms > pre_ms + post_ms {
            elapsed_ms - (pre_ms + post_ms)
        } else {
            0
        }),
{
    let total = pre_ms + post_ms;
    (clip_start_offset(elapsed_ms, total), total)
}

/// Concat-demuxer list of segment files, one `file '<path>'` line each.
pub open spec fn concat_list_text(segments: Seq<Seq<char>>) -> Seq<char>
    decreases segments.len(),
{
    if segments.len() == 0 {
        Seq::empty()
    } else {
        concat_list_text(segments.drop_last()) + "file '"@ + segments.last() + "'\n"@
    }
}

/// The concat list of `segments`.
pub fn concat_list(segments: &Vec<String>) -> (r: String)
    ensures
        r@ == concat_list_text(views(segments@)),
{
    let mut s = String::new();
    let mut i: usize = 0;
    while i < segments.len()
        invariant
            i <= segments@.len(),
            s@ == concat_list_text(views(segments@.subrange(0, i as int))),
        decreases segments@.len() - i,
    {
        assert(views(segments@.subrange(0, i + 1)).drop_last() =~= views(
            segments@.subrange(0, i as int),
        ));
        push_all(&mut s, "file '");
        push_all(&mut s, segments[i].as_str());
        push_all(&mut s, "'\n");
        i += 1;
    }
    assert(segments@.subrange(0, segments@.len() as int) =~= segments@);
    s
}

/// FFmpeg arguments cutting `duration_ms` starting at `start_ms` out of the
/// concatenated segments, copying the streams without re-encoding.
pub open spec fn spec_extract_args(
    concat_file: Seq<char>,
    start_ms: nat,
    duration_ms: nat,
    output: Seq<char>,
) -> Seq<Seq<char>> {
    seq![
        "-y"@,
        "-f"@,
        "concat"@,
        "-safe"@,
        "0"@,
        "-i"@,
        concat_file,
        "-ss"@,
        seconds_text(start_ms),
        "-t"@,
        seconds_text(duration_ms),
        "-c"@,
        "copy"@,
        "-movflags"@,
        "+faststart"@,
        output,
    ]
}

/// The arguments of a clip extraction.
pub fn clip_extract_args(concat_file: &str, start_ms: u64, duration_ms: u64, output: &str) -> (r:
    Vec<String>)
    ensures
        views(r@) == spec_extract_args(concat_file@, start_ms as nat, duration_ms as nat, output@),
{
    let mut v: Vec<String> = Vec::new();
    v.push(owned("-y"));
    v.push(owned("-f"));
    v.push(owned("concat"));
    v.push(owned("-safe"));
    v.push(owned("0"));
    v.push(owned("-i"));
    v.push(owned(concat_file));
    v.push(owned("-ss"));
    let mut ss = String::new();
    push_seconds(&mut ss, start_ms);
    assert(ss@ =~= seconds_text(start_ms as nat));
    v.push(ss);
    v.push(owned("-t"));
    let mut t = String::new();
    push_seconds(&mut t, duration_ms);
    assert(t@ =~= seconds_text(duration_ms as nat));
    v.push(t);
    v.push(owned("-c"));
    v.push(owned("copy"));
    v.push(owned("-movflags"));
    v.push(owned("+faststart"));
    v.push(owned(output));
    assert(views(v@) =~= spec_extract_args(
        concat_file@,
        start_ms as nat,
        duration_ms as nat,
        output@,
    ));
    v
}

/// File name of a clip of the last `seconds`, stamped `timestamp`.
pub fn last_seconds_clip_name(timestamp: &str, seconds: u32) -> (r: String)
    ensures
        r@ == "clip_"@ + timestamp@ + "_"@ + decimal(seconds as nat) + ".mp4"@,
{
    let mut s = owned("clip_");
    push_all(&mut s, timestamp);
    push_all(&mut s, "_");
    push_decimal(&mut s, seconds as u64);
    push_all(&mut s, ".mp4");
    s
}

/// File name of an event clip.
pub fn event_clip_name(clip_id: &str) -> (r: String)
    ensures
        r@ == clip_id@ + ".mp4"@,
{
    let mut s = owned(clip_id);
    push_all(&mut s, ".mp4");
    s
}

// ============================================================================
// Recorder status machine
// ============================================================================

/// Recording status.
#[derive(Debug, Clone, Copy, PartialEq, Eq, Structural)]
pub enum RecordingStatus {
    Idle,
    Buffering,
    Recording,
    Processing,
    Error,
}

impl Default for RecordingStatus {
    fn default() -> (s: Self)
        ensures
            s == RecordingStatus::Idle,
    {
        RecordingStatus::Idle
    }
}

/// Why the recorder refused a request.
#[derive(Debug, Clone, Copy, PartialEq, Eq, Structural)]
pub enum RecorderError {
    /// A start while a recording is under way (or being stopped).
    AlreadyRecording,
    /// A stop with no recording under way.
    NotRecording,
    /// A stop while another stop is in progress.
    StopInProgress,
    /// A clip request while nothing is being captured.
    NotCapturing,
}

impl RecorderError {
    /// The message shown for the error.
    pub fn message(&self) -> (r: &'static str)
        ensures
            r@ == (match *self {
                RecorderError::AlreadyRecording => "이미 녹화가 진행 중입니다"@,
                RecorderError::NotRecording => "진행 중인 녹화가 없습니다"@,
                RecorderError::StopInProgress => "이미 녹화 중지가 진행 중입니다"@,
                RecorderError::NotCapturing => "녹화가 진행 중이 아닙니다"@,
            }),
    {
        match self {
            RecorderError::AlreadyRecording => "이미 녹화가 진행 중입니다",
            RecorderError::NotRecording => "진행 중인 녹화가 없습니다",
            RecorderError::StopInProgress => "이미 녹화 중지가 진행 중입니다",
            RecorderError::NotCapturing => "녹화가 진행 중이 아닙니다",
        }
    }
}

/// Outcome of a start request: only an idle recorder starts, and it buffers
/// until the capture process runs.
pub open spec fn start_request(s: RecordingStatus) -> Result<RecordingStatus, RecorderError> {
    if s == RecordingStatus::Idle {
        Ok(RecordingStatus::Buffering)
    } else {
        Err(RecorderError::AlreadyRecording)
    }
}

/// Outcome of a stop request: a recording (buffering, recording, or failed) moves
/// to processing, which blocks any other start or stop.
pub open spec fn stop_request(s: RecordingStatus) -> Result<RecordingStatus, RecorderError> {
    match s {
        RecordingStatus::Idle => Err(RecorderError::NotRecording),
        RecordingStatus::Processing => Err(RecorderError::StopInProgress),
        _ => Ok(RecordingStatus::Processing),
    }
}

/// Status once the capture process has been asked to stop.
pub open spec fn stop_outcome(stopped: bool) -> RecordingStatus {
    if stopped {
        RecordingStatus::Idle
    } else {
        RecordingStatus::Error
    }
}

/// Clips can be cut while the recorder buffers or records.
pub open spec fn capturing(s: RecordingStatus) -> bool {
    s == RecordingStatus::Recording || s == RecordingStatus::Buffering
}

/// The recorder's status, changed only through its requests.
pub struct RecorderStatus {
    status: RecordingStatus,
}

impl View for RecorderStatus {
    type V = RecordingStatus;

    closed spec fn view(&self) -> RecordingStatus {
        self.status
    }
}

impl RecorderStatus {
    /// An idle recorder.
    pub fn new() -> (r: Self)
        ensures
            r@ == RecordingStatus::Idle,
    {
        RecorderStatus { status: RecordingStatus::Idle }
    }

    /// The current status.
    pub fn get(&self) -> (s: RecordingStatus)
        ensures
            s == self@,
    {
        self.status
    }

    /// Ask to start recording.
    pub fn request_start(&mut self) -> (r: Result<(), RecorderError>)
        ensures
            match start_request(old(self)@) {
                Ok(s) => r is Ok && final(self)@ == s,
                Err(e) => r == Err::<(), RecorderError>(e) && final(self)@ == old(self)@,
            },
    {
        if self.status != RecordingStatus::Idle {
            return Err(RecorderError::AlreadyRecording);
        }
        self.status = RecordingStatus::Buffering;
        Ok(())
    }

    /// The capture process runs: the recorder records. A failed start leaves the
    /// recorder buffering.
    pub fn start_finished(&mut self, started: bool)
        ensures
            final(self)@ == (if started {
                RecordingStatus::Recording
            } else {
                old(self)@
            }),
    {
        if started {
            self.status = RecordingStatus::Recording;
        }
    }

    /// Ask to stop recording.
    pub fn request_stop(&mut self) -> (r: Result<(), RecorderError>)
        ensures
            match stop_request(old(self)@) {
                Ok(s) => r is Ok && final(self)@ == s,
                Err(e) => r == Err::<(), RecorderError>(e) && final(self)@ == old(self)@,
            },
    {
        match self.status {
            RecordingStatus::Idle => Err(RecorderError::NotRecording),
            RecordingStatus::Processing => Err(RecorderError::StopInProgress),
            _ => {
                self.status = RecordingStatus::Processing;
                Ok(())
            },
        }
    }

    /// The capture process has stopped (or failed to).
    pub fn stop_finished(&mut self, stopped: bool)
        ensures
            final(self)@ == stop_outcome(stopped),
    {
        self.status = if stopped {
            RecordingStatus::Idle
        } else {
            RecordingStatus::Error
        };
    }

    /// The capture process has stopped (or failed to): the status as
    /// `stop_finished` sets it, and on success the segment directory of
    /// `config`, which the stop hands back.
    pub fn finish_stop(&mut self, stopped: bool, config: &RecordingConfig) -> (r: Option<String>)
        ensures
            final(self)@ == stop_outcome(stopped),
            stopped ==> (r matches Some(d) && d@ == joined(config.output_dir@, "segments"@)),
            !stopped ==> r is None,
    {
        self.stop_finished(stopped);
        if stopped {
            Some(config.segments_dir())
        } else {
            None
        }
    }

    /// Check that a clip can be cut now.
    pub fn check_capturing(&self) -> (r: Result<(), RecorderError>)
        ensures
            r is Ok <==> capturing(self@),
            r is Err ==> r == Err::<(), RecorderError>(RecorderError::NotCapturing),
    {
        if self.status != RecordingStatus::Recording && self.status != RecordingStatus::Buffering {
            return Err(RecorderError::NotCapturing);
        }
        Ok(())
    }
}

/// A recording cycle — start, capture running, stop, capture stopped — leaves an
/// idle recorder idle again, ready for the next start.
pub proof fn law_recording_cycle_returns_to_idle()
    ensures
        start_request(RecordingStatus::Idle) == Ok::<RecordingStatus, RecorderError>(
            RecordingStatus::Buffering,
        ),
        stop_request(RecordingStatus::Recording) == Ok::<RecordingStatus, RecorderError>(
            RecordingStatus::Processing,
        ),
        stop_outcome(true) == RecordingStatus::Idle,
        start_request(stop_outcome(true)) is Ok,
{
}

/// While a stop is being processed, neither a start nor another stop is
/// accepted, and no clip is cut.
pub proof fn law_processing_blocks_requests()
    ensures
        start_request(RecordingStatus::Processing) == Err::<RecordingStatus, RecorderError>(
            RecorderError::AlreadyRecording,
        ),
        stop_request(RecordingStatus::Processing) == Err::<RecordingStatus, RecorderError>(
            RecorderError::StopInProgress,
        ),
        !capturing(RecordingStatus::Processing),
{
}

/// A start is accepted exactly when the recorder is idle, and a stop exactly
/// when it is not idle and not already stopping; an accepted stop always goes
/// through processing.
pub proof fn law_request_acceptance(s: RecordingStatus)
    ensures
        start_request(s) is Ok <==> s == RecordingStatus::Idle,
        stop_request(s) is Ok <==> (s != RecordingStatus::Idle && s != RecordingStatus::Processing),
        stop_request(s) is Ok ==> stop_request(s) == Ok::<RecordingStatus, RecorderError>(
            RecordingStatus::Processing,
        ),
{
}

/// A failed recorder can still be stopped, and a failed stop can be retried.
pub proof fn law_error_is_recoverable()
    ensures
        stop_request(RecordingStatus::Error) is Ok,
        stop_request(stop_outcome(false)) is Ok,
{
}


// ============================================================================
// Segment files
// ============================================================================

/// A segment file: its extension is exactly `mp4`.
pub open spec fn is_segment_file(path: Seq<char>) -> bool {
    path_extension(path) == Some("mp4"@)
}

/// Positions of the segment files among the first `k` directory entries, in order.
pub open spec fn segment_positions(paths: Seq<Seq<char>>, k: nat) -> Seq<int>
    decreases k,
{
    if k == 0 {
        Seq::empty()
    } else if is_segment_file(paths[k - 1]) {
        segment_positions(paths, (k - 1) as nat).push(k - 1)
    } else {
        segment_positions(paths, (k - 1) as nat)
    }
}

/// The segment files of a directory listing, oldest first by modification
/// time (equal times keep the listing's order).
pub open spec fn sorted_segment_paths(paths: Seq<Seq<char>>, modified_ms: Seq<u64>) -> Seq<
    Seq<char>,
> {
    let pos = segment_positions(paths, paths.len());
    let times = pos.map_values(|p: int| modified_ms[p]);
    time_order(times).map_values(|j: int| paths[pos[j]])
}

proof fn lemma_segment_positions(paths: Seq<Seq<char>>, k: nat)
    requires
        k <= paths.len(),
    ensures
        forall|j: int|
            0 <= j < segment_positions(paths, k).len() ==> 0 <= #[trigger] segment_positions(
                paths,
                k,
            )[j] < k,
        segment_positions(paths, k).len() <= k,
    decreases k,
{
    if k > 0 {
        lemma_segment_positions(paths, (k - 1) as nat);
    }
}

fn segment_file_exec(path: &str) -> (r: bool)
    ensures
        r == is_segment_file(path@),
{
    let v = chars_of(path);
    match extension_range(v.as_slice()) {
        Some((a, b)) => {
            let same = b - a == 3 && v[a] == 'm' && v[a + 1] == 'p' && v[a + 2] == '4';
            proof {
                reveal_strlit("mp4");
                let e = v@.subrange(a as int, b as int);
                assert(path_extension(path@) == Some(e));
                if same {
                    assert(e =~= "mp4"@);
                } else {
                    assert(e != "mp4"@) by {
                        if e == "mp4"@ {
                            assert(e.len() == 3);
                            assert(e[0] == v@[a as int] && e[1] == v@[a + 1] && e[2] == v@[a + 2]);
                        }
                    }
                }
            }
            same
        },
        None => false,
    }
}

/// The segment files of a directory listing (`modified_ms[i]` is the
/// modification time of `paths[i]`), oldest first.
pub fn sorted_segments(paths: &Vec<String>, modified_ms: &Vec<u64>) -> (r: Vec<String>)
    requires
        paths@.len() == modified_ms@.len(),
    ensures
        views(r@) == sorted_segment_paths(views(paths@), modified_ms@),
{
    let ghost pv = views(paths@);
    let mut pos: Vec<usize> = Vec::new();
    let mut times: Vec<u64> = Vec::new();
    let mut i: usize = 0;
    while i < paths.len()
        invariant
            pv == views(paths@),
            paths@.len() == modified_ms@.len(),
            i <= paths@.len(),
            pos@.len() == segment_positions(pv, i as nat).len(),
            forall|j: int| 0 <= j < pos@.len() ==> (#[trigger] pos@[j]) as int == segment_positions(pv, i as nat)[j],
            times@ == segment_positions(pv, i as nat).map_values(|p: int| modified_ms@[p]),
        decreases paths@.len() - i,
    {
        proof {
            lemma_segment_positions(pv, i as nat);
        }
        assert(pv[i as int] == paths@[i as int]@);
        if segment_file_exec(paths[i].as_str()) {
            pos.push(i);
            times.push(modified_ms[i]);
        }
        i += 1;
        assert(times@ =~= segment_positions(pv, i as nat).map_values(|p: int| modified_ms@[p]));
    }
    proof {
        lemma_segment_positions(pv, pv.len());
    }
    let ghost sp = segment_positions(pv, pv.len());
    let order = order_by_time(&times);
    proof {
        lemma_time_sorted_prefix(times@, times@.len());
    }
    let mut out: Vec<String> = Vec::new();
    let mut k: usize = 0;
    while k < order.len()
        invariant
            pv == views(paths@),
            sp == segment_positions(pv, pv.len()),
            pos@.len() == sp.len(),
            times@.len() == sp.len(),
            forall|j: int| 0 <= j < pos@.len() ==> (#[trigger] pos@[j]) as int == sp[j],
            forall|j: int| 0 <= j < sp.len() ==> 0 <= #[trigger] sp[j] < pv.len(),
            pv.len() == paths@.len(),
            order@.len() == times@.len(),
            time_order(times@).len() == order@.len(),
            forall|j: int| 0 <= j < order@.len() ==> (#[trigger] order@[j]) as int == time_order(times@)[j],
            forall|j: int| 0 <= j < order@.len() ==> 0 <= #[trigger] time_order(times@)[j] < order@.len(),
            k <= order@.len(),
            views(out@) == time_order(times@).subrange(0, k as int).map_values(|j: int| pv[sp[j]]),
        decreases order@.len() - k,
    {
        let j = order[k];
        assert(0 <= time_order(times@)[k as int] < order@.len());
        let p = pos[j];
        let item = owned(paths[p].as_str());
        let ghost prev = out@;
        assert(item@ == pv[sp[j as int]]);
        out.push(item);
        assert(views(out@) =~= views(prev).push(pv[sp[j as int]]));
        assert(time_order(times@).subrange(0, k + 1) =~= time_order(times@).subrange(0, k as int).push(
            time_order(times@)[k as int],
        ));
        k += 1;
        assert(views(out@) =~= time_order(times@).subrange(0, k as int).map_values(|j: int| pv[sp[j]]));
    }
    assert(time_order(times@).subrange(0, order@.len() as int) =~= time_order(times@));
    assert(times@ =~= sp.map_values(|p: int| modified_ms@[p]));
    out
}

/// The segment files of a directory listing, which cleanup removes.
pub fn segment_files(paths: &Vec<String>) -> (r: Vec<String>)
    ensures
        views(r@) == segment_positions(views(paths@), paths@.len()).map_values(
            |p: int| views(paths@)[p],
        ),
{
    let ghost pv = views(paths@);
    let mut out: Vec<String> = Vec::new();
    let mut i: usize = 0;
    while i < paths.len()
        invariant
            pv == views(paths@),
            i <= paths@.len(),
            views(out@) == segment_positions(pv, i as nat).map_values(|p: int| pv[p]),
        decreases paths@.len() - i,
    {
        assert(pv[i as int] == paths@[i as int]@);
        let ghost prev = out@;
        if segment_file_exec(paths[i].as_str()) {
            out.push(owned(paths[i].as_str()));
            assert(views(out@) =~= views(prev).push(pv[i as int]));
        }
        i += 1;
        assert(views(out@) =~= segment_positions(pv, i as nat).map_values(|p: int| pv[p]));
    }
    out
}

} // verus!
