//! Replay buffer on Windows: hardware encoder selection, the FFmpeg arguments of
//! one ten-second segment, the ring of the last six segments, and the decisions
//! of the replay buffer (start, rotate, save a clip, stop).
use crate::recording::audio::{
    spec_codec_args, spec_filter_args, spec_input_args, spec_map_args, views, AudioConfig,
};
use crate::recording::integration_backend::{
    concat_list_text, extend_strings, push_seconds, seconds_text, RecordingStatus,
};
use crate::settings::models::{AudioBitrate, AudioSettings, SampleRate};
use crate::settings::models::copy_opt_string;
use crate::text::{decimal, owned, push_all, push_decimal};
use std::collections::VecDeque;
use vstd::prelude::*;

verus! {

/// Length of one segment in seconds.
pub const SEGMENT_DURATION_SECS: u64 = 10;

/// Number of segments kept: a sixty-second replay window.
pub const BUFFER_SEGMENTS: usize = 6;

/// Longest clip in milliseconds.
pub const MAX_CLIP_DURATION_MS: u64 = 60_000;

/// Default video bitrate (20 Mbps for 1080p60).
pub const DEFAULT_BITRATE: u32 = 20_000_000;

/// Default frame rate.
pub const DEFAULT_FPS: u32 = 60;

// ============================================================================
// Codecs and hardware encoders
// ============================================================================

/// Video codec of the replay buffer.
#[derive(Debug, Clone, Copy, PartialEq, Eq, Structural)]
pub enum VideoCodec {
    /// H.265 (preferred for quality and size).
    HEVC,
    /// H.264 (fallback for compatibility).
    H264,
}

/// Hardware encoder families.
#[derive(Debug, Clone, Copy, PartialEq, Eq, Structural)]
pub enum HardwareEncoder {
    /// NVIDIA GPU.
    NVENC,
    /// Intel Quick Sync.
    QSV,
    /// AMD GPU.
    AMF,
    /// CPU fallback.
    Software,
}

/// FFmpeg H.265 encoder of each family.
pub open spec fn hevc_name(e: HardwareEncoder) -> Seq<char> {
    match e {
        HardwareEncoder::NVENC => "hevc_nvenc"@,
        HardwareEncoder::QSV => "hevc_qsv"@,
        HardwareEncoder::AMF => "hevc_amf"@,
        HardwareEncoder::Software => "libx265"@,
    }
}

/// FFmpeg H.264 encoder of each family.
pub open spec fn h264_name(e: HardwareEncoder) -> Seq<char> {
    match e {
        HardwareEncoder::NVENC => "h264_nvenc"@,
        HardwareEncoder::QSV => "h264_qsv"@,
        HardwareEncoder::AMF => "h264_amf"@,
        HardwareEncoder::Software => "libx264"@,
    }
}

/// Balanced encoding preset of each family.
pub open spec fn preset_name(e: HardwareEncoder) -> Seq<char> {
    match e {
        HardwareEncoder::NVENC => "p4"@,
        HardwareEncoder::QSV => "balanced"@,
        HardwareEncoder::AMF => "balanced"@,
        HardwareEncoder::Software => "medium"@,
    }
}

/// Encoder-specific quality options, as (option, value) pairs.
pub open spec fn encoder_options(e: HardwareEncoder) -> Seq<(Seq<char>, Seq<char>)> {
    match e {
        HardwareEncoder::NVENC => seq![
            ("-rc"@, "vbr"@),
            ("-rc-lookahead"@, "20"@),
            ("-spatial-aq"@, "1"@),
            ("-temporal-aq"@, "1"@),
        ],
        HardwareEncoder::QSV => seq![("-look_ahead"@, "1"@), ("-look_ahead_depth"@, "40"@)],
        HardwareEncoder::AMF => seq![("-rc"@, "vbr_latency"@), ("-quality"@, "balanced"@)],
        HardwareEncoder::Software => seq![("-x265-params"@, "aq-mode=3"@)],
    }
}

/// The views of a list of string-slice pairs.
pub open spec fn pair_views(v: Seq<(&str, &str)>) -> Seq<(Seq<char>, Seq<char>)> {
    v.map_values(|p: (&str, &str)| (p.0@, p.1@))
}

/// Option pairs laid out as consecutive arguments.
pub open spec fn flatten_pairs(p: Seq<(Seq<char>, Seq<char>)>) -> Seq<Seq<char>>
    decreases p.len(),
{
    if p.len() == 0 {
        Seq::empty()
    } else {
        flatten_pairs(p.drop_last()) + seq![p.last().0, p.last().1]
    }
}

/// The first family whose H.265 encoder works, in the order NVENC, QSV, AMF;
/// software encoding when none does.
pub open spec fn selected_encoder(nvenc: bool, qsv: bool, amf: bool) -> HardwareEncoder {
    if nvenc {
        HardwareEncoder::NVENC
    } else if qsv {
        HardwareEncoder::QSV
    } else if amf {
        HardwareEncoder::AMF
    } else {
        HardwareEncoder::Software
    }
}

impl HardwareEncoder {
    /// FFmpeg encoder name for H.265/HEVC.
    pub fn hevc_encoder(&self) -> (r: &'static str)
        ensures
            r@ == hevc_name(*self),
    {
        match self {
            HardwareEncoder::NVENC => "hevc_nvenc",
            HardwareEncoder::QSV => "hevc_qsv",
            HardwareEncoder::AMF => "hevc_amf",
            HardwareEncoder::Software => "libx265",
        }
    }

    /// FFmpeg encoder name for H.264.
    pub fn h264_encoder(&self) -> (r: &'static str)
        ensures
            r@ == h264_name(*self),
    {
        match self {
            HardwareEncoder::NVENC => "h264_nvenc",
            HardwareEncoder::QSV => "h264_qsv",
            HardwareEncoder::AMF => "h264_amf",
            HardwareEncoder::Software => "libx264",
        }
    }

    /// Encoding preset of this encoder.
    pub fn get_preset(&self) -> (r: &'static str)
        ensures
            r@ == preset_name(*self),
    {
        match self {
            HardwareEncoder::NVENC => "p4",
            HardwareEncoder::QSV => "balanced",
            HardwareEncoder::AMF => "balanced",
            HardwareEncoder::Software => "medium",
        }
    }

    /// Additional encoder-specific options.
    pub fn get_encoder_options(&self) -> (r: Vec<(&'static str, &'static str)>)
        ensures
            pair_views(r@) == encoder_options(*self),
    {
        let r = match self {
            HardwareEncoder::NVENC => vec![
                ("-rc", "vbr"),
                ("-rc-lookahead", "20"),
                ("-spatial-aq", "1"),
                ("-temporal-aq", "1"),
            ],
            HardwareEncoder::QSV => vec![("-look_ahead", "1"), ("-look_ahead_depth", "40")],
            HardwareEncoder::AMF => vec![("-rc", "vbr_latency"), ("-quality", "balanced")],
            HardwareEncoder::Software => vec![("-x265-params", "aq-mode=3")],
        };
        assert(pair_views(r@) =~= encoder_options(*self));
        r
    }

    /// Hardware families probed, in priority order.
    pub fn candidates() -> (r: Vec<HardwareEncoder>)
        ensures
            r@ == seq![HardwareEncoder::NVENC, HardwareEncoder::QSV, HardwareEncoder::AMF],
    {
        let r = vec![HardwareEncoder::NVENC, HardwareEncoder::QSV, HardwareEncoder::AMF];
        assert(r@ =~= seq![HardwareEncoder::NVENC, HardwareEncoder::QSV, HardwareEncoder::AMF]);
        r
    }

    /// The encoder chosen from the probe results of the NVENC, QSV and AMF H.265
    /// encoders.
    pub fn select(nvenc: bool, qsv: bool, amf: bool) -> (r: HardwareEncoder)
        ensures
            r == selected_encoder(nvenc, qsv, amf),
    {
        if nvenc {
            HardwareEncoder::NVENC
        } else if qsv {
            HardwareEncoder::QSV
        } else if amf {
            HardwareEncoder::AMF
        } else {
            HardwareEncoder::Software
        }
    }
}

/// FFmpeg arguments that encode a tenth of a second of a null source with
/// `encoder`, to learn whether the encoder works.
pub open spec fn spec_probe_args(encoder: Seq<char>) -> Seq<Seq<char>> {
    seq![
        "-f"@,
        "lavfi"@,
        "-i"@,
        "nullsrc=s=256x256:d=0.1"@,
        "-c:v"@,
        encoder,
        "-f"@,
        "null"@,
        "-"@,
    ]
}

/// Arguments of an encoder probe.
pub fn probe_args(encoder: &str) -> (r: Vec<String>)
    ensures
        views(r@) == spec_probe_args(encoder@),
{
    let mut v: Vec<String> = Vec::new();
    v.push(owned("-f"));
    v.push(owned("lavfi"));
    v.push(owned("-i"));
    v.push(owned("nullsrc=s=256x256:d=0.1"));
    v.push(owned("-c:v"));
    v.push(owned(encoder));
    v.push(owned("-f"));
    v.push(owned("null"));
    v.push(owned("-"));
    assert(views(v@) =~= spec_probe_args(encoder@));
    v
}

// ============================================================================
// Replay configuration and segment arguments
// ============================================================================

/// Configuration of the replay buffer.
pub struct RecordingConfig {
    pub resolution: (u32, u32),
    pub fps: u32,
    pub bitrate: u32,
    pub codec: VideoCodec,
    pub audio: AudioConfig,
    pub hardware_encoder: HardwareEncoder,
}

/// Encoder used for a codec on a hardware family.
pub open spec fn encoder_for(codec: VideoCodec, hw: HardwareEncoder) -> Seq<char> {
    match codec {
        VideoCodec::HEVC => hevc_name(hw),
        VideoCodec::H264 => h264_name(hw),
    }
}

/// Audio settings as the recorder's audio configuration.
pub open spec fn audio_config_of(s: AudioSettings) -> AudioConfig {
    AudioConfig {
        record_microphone: s.record_microphone,
        microphone_device: s.microphone_device,
        microphone_volume: s.microphone_volume,
        record_system_audio: s.record_system_audio,
        system_audio_device: s.system_audio_device,
        system_audio_volume: s.system_audio_volume,
        sample_rate: match s.sample_rate {
            SampleRate::Hz44100 => 44100,
            SampleRate::Hz48000 => 48000,
        },
        bitrate: match s.bitrate {
            AudioBitrate::Kbps128 => 128,
            AudioBitrate::Kbps192 => 192,
            AudioBitrate::Kbps256 => 256,
            AudioBitrate::Kbps320 => 320,
        },
    }
}

/// Arguments of one segment recording: desktop capture, the configured audio
/// inputs, hardware encoding at the configured bitrate (also its maximum, with
/// a buffer of twice that), the encoder's quality options, the audio filters and
/// stream mapping (video only without audio), audio encoding, ten seconds, and
/// the segment file.
pub open spec fn spec_segment_args(c: RecordingConfig, segment_path: Seq<char>) -> Seq<Seq<char>> {
    let rate = decimal((c.bitrate / 1000) as nat) + "k"@;
    seq!["-f"@, "gdigrab"@, "-framerate"@, decimal(c.fps as nat), "-i"@, "desktop"@]
        + spec_input_args(c.audio) + seq![
        "-c:v"@,
        encoder_for(c.codec, c.hardware_encoder),
        "-preset"@,
        preset_name(c.hardware_encoder),
        "-b:v"@,
        rate,
        "-maxrate"@,
        rate,
        "-bufsize"@,
        decimal((c.bitrate * 2 / 1000) as nat) + "k"@,
        "-pix_fmt"@,
        "yuv420p"@,
    ] + flatten_pairs(encoder_options(c.hardware_encoder)) + spec_filter_args(c.audio) + (if spec_map_args(
        c.audio,
    ).len() > 0 {
        spec_map_args(c.audio)
    } else {
        seq!["-map"@, "0:v"@]
    }) + spec_codec_args(c.audio) + seq!["-t"@, "10"@, "-y"@, segment_path]
}

fn decimal_string(n: u64) -> (s: String)
    ensures
        s@ == decimal(n as nat),
{
    let mut s = String::new();
    push_decimal(&mut s, n);
    assert(s@ =~= decimal(n as nat));
    s
}

impl RecordingConfig {
    /// Default replay configuration on the given hardware encoder: 1080p60 H.265
    /// at 20 Mbps with the default audio.
    pub fn with_encoder(hardware_encoder: HardwareEncoder) -> (c: Self)
        ensures
            c.resolution == (1920u32, 1080u32),
            c.fps == DEFAULT_FPS,
            c.bitrate == DEFAULT_BITRATE,
            c.codec == VideoCodec::HEVC,
            c.audio == crate::recording::audio::default_audio_config(),
            c.hardware_encoder == hardware_encoder,
    {
        RecordingConfig {
            resolution: (1920, 1080),
            fps: DEFAULT_FPS,
            bitrate: DEFAULT_BITRATE,
            codec: VideoCodec::HEVC,
            audio: AudioConfig::default(),
            hardware_encoder,
        }
    }

    /// Encoder name for the configured codec and hardware.
    pub fn get_encoder_name(&self) -> (r: &'static str)
        ensures
            r@ == encoder_for(self.codec, self.hardware_encoder),
    {
        match self.codec {
            VideoCodec::HEVC => self.hardware_encoder.hevc_encoder(),
            VideoCodec::H264 => self.hardware_encoder.h264_encoder(),
        }
    }

    /// Take the audio settings over; they apply from the next segment.
    pub fn update_audio_config(&mut self, audio_settings: &AudioSettings)
        ensures
            final(self).audio == audio_config_of(*audio_settings),
            final(self).resolution == old(self).resolution,
            final(self).fps == old(self).fps,
            final(self).bitrate == old(self).bitrate,
            final(self).codec == old(self).codec,
            final(self).hardware_encoder == old(self).hardware_encoder,
    {
        let sample_rate: u32 = match audio_settings.sample_rate {
            SampleRate::Hz44100 => 44100,
            SampleRate::Hz48000 => 48000,
        };
        let bitrate: u32 = match audio_settings.bitrate {
            AudioBitrate::Kbps128 => 128,
            AudioBitrate::Kbps192 => 192,
            AudioBitrate::Kbps256 => 256,
            AudioBitrate::Kbps320 => 320,
        };
        self.audio = AudioConfig {
            record_microphone: audio_settings.record_microphone,
            microphone_device: copy_opt_string(&audio_settings.microphone_device),
            microphone_volume: audio_settings.microphone_volume,
            record_system_audio: audio_settings.record_system_audio,
            system_audio_device: copy_opt_string(&audio_settings.system_audio_device),
            system_audio_volume: audio_settings.system_audio_volume,
            sample_rate,
            bitrate,
        };
    }

    fn video_args(&self) -> (r: Vec<String>)
        requires
            self.bitrate * 2 <= u32::MAX,
        ensures
            views(r@) == seq![
                "-c:v"@,
                encoder_for(self.codec, self.hardware_encoder),
                "-preset"@,
                preset_name(self.hardware_encoder),
                "-b:v"@,
                decimal((self.bitrate / 1000) as nat) + "k"@,
                "-maxrate"@,
                decimal((self.bitrate / 1000) as nat) + "k"@,
                "-bufsize"@,
                decimal((self.bitrate * 2 / 1000) as nat) + "k"@,
                "-pix_fmt"@,
                "yuv420p"@,
            ],
    {
        let mut rate = decimal_string((self.bitrate / 1000) as u64);
        push_all(&mut rate, "k");
        let mut rate2 = decimal_string((self.bitrate / 1000) as u64);
        push_all(&mut rate2, "k");
        let mut buf = decimal_string((self.bitrate * 2 / 1000) as u64);
        push_all(&mut buf, "k");
        let mut v: Vec<String> = Vec::new();
        v.push(owned("-c:v"));
        v.push(owned(self.get_encoder_name()));
        v.push(owned("-preset"));
        v.push(owned(self.hardware_encoder.get_preset()));
        v.push(owned("-b:v"));
        v.push(rate);
        v.push(owned("-maxrate"));
        v.push(rate2);
        v.push(owned("-bufsize"));
        v.push(buf);
        v.push(owned("-pix_fmt"));
        v.push(owned("yuv420p"));
        assert(views(v@) =~= seq![
            "-c:v"@,
            encoder_for(self.codec, self.hardware_encoder),
            "-preset"@,
            preset_name(self.hardware_encoder),
            "-b:v"@,
            decimal((self.bitrate / 1000) as nat) + "k"@,
            "-maxrate"@,
            decimal((self.bitrate / 1000) as nat) + "k"@,
            "-bufsize"@,
            decimal((self.bitrate * 2 / 1000) as nat) + "k"@,
            "-pix_fmt"@,
            "yuv420p"@,
        ]);
        v
    }

    fn option_args(&self) -> (r: Vec<String>)
        ensures
            views(r@) == flatten_pairs(encoder_options(self.hardware_encoder)),
    {
        let opts = self.hardware_encoder.get_encoder_options();
        let mut v: Vec<String> = Vec::new();
        let mut i: usize = 0;
        while i < opts.len()
            invariant
                i <= opts@.len(),
                pair_views(opts@) == encoder_options(self.hardware_encoder),
                views(v@) == flatten_pairs(pair_views(opts@).subrange(0, i as int)),
            decreases opts@.len() - i,
        {
            assert(pair_views(opts@).subrange(0, i + 1).drop_last() =~= pair_views(opts@).subrange(
                0,
                i as int,
            ));
            let (key, value) = opts[i];
            v.push(owned(key));
            v.push(owned(value));
            i += 1;
            assert(views(v@) =~= flatten_pairs(pair_views(opts@).subrange(0, i as int)));
        }
        assert(pair_views(opts@).subrange(0, opts@.len() as int) =~= pair_views(opts@));
        v
    }

    /// FFmpeg arguments recording one segment into `segment_path`.
    pub fn segment_args(&self, segment_path: &str) -> (r: Vec<String>)
        requires
            self.bitrate * 2 <= u32::MAX,
        ensures
            views(r@) == spec_segment_args(*self, segment_path@),
    {
        let (audio_inputs, audio_filters, audio_maps, audio_codec) = self.audio.build_ffmpeg_args();
        let mut args: Vec<String> = Vec::new();
        args.push(owned("-f"));
        args.push(owned("gdigrab"));
        args.push(owned("-framerate"));
        args.push(decimal_string(self.fps as u64));
        args.push(owned("-i"));
        args.push(owned("desktop"));
        assert(views(args@) =~= seq![
            "-f"@,
            "gdigrab"@,
            "-framerate"@,
            decimal(self.fps as nat),
            "-i"@,
            "desktop"@,
        ]);
        extend_strings(&mut args, audio_inputs);
        extend_strings(&mut args, self.video_args());
        extend_strings(&mut args, self.option_args());
        extend_strings(&mut args, audio_filters);
        if audio_maps.len() > 0 {
            extend_strings(&mut args, audio_maps);
        } else {
            let mut m: Vec<String> = Vec::new();
            m.push(owned("-map"));
            m.push(owned("0:v"));
            assert(views(m@) =~= seq!["-map"@, "0:v"@]);
            assert(views(audio_maps@).len() == 0);
            extend_strings(&mut args, m);
        }
        extend_strings(&mut args, audio_codec);
        let mut tail: Vec<String> = Vec::new();
        tail.push(owned("-t"));
        tail.push(owned("10"));
        tail.push(owned("-y"));
        tail.push(owned(segment_path));
        assert(views(tail@) =~= seq!["-t"@, "10"@, "-y"@, segment_path@]);
        extend_strings(&mut args, tail);
        args
    }
}

// ============================================================================
// Segment ring
// ============================================================================

/// The last (at most six) of the segments recorded, oldest first.
pub open spec fn last_segments(paths: Seq<Seq<char>>) -> Seq<Seq<char>> {
    if paths.len() <= BUFFER_SEGMENTS {
        paths
    } else {
        paths.subrange(paths.len() - BUFFER_SEGMENTS, paths.len() as int)
    }
}

/// `s` left-padded with zeros to at least `width` characters.
pub open spec fn zero_pad(s: Seq<char>, width: nat) -> Seq<char> {
    if s.len() >= width {
        s
    } else {
        Seq::new((width - s.len()) as nat, |i: int| '0') + s
    }
}

/// Circular buffer of recorded segment files.
pub struct SegmentBuffer {
    segments: VecDeque<String>,
    current_segment: usize,
}

impl View for SegmentBuffer {
    type V = (Seq<Seq<char>>, nat);

    /// The segments, oldest first, and the number of segments added so far.
    closed spec fn view(&self) -> (Seq<Seq<char>>, nat) {
        (views(self.segments@), self.current_segment as nat)
    }
}

impl SegmentBuffer {
    #[verifier::type_invariant]
    closed spec fn bounded(self) -> bool {
        self.segments@.len() <= BUFFER_SEGMENTS
    }

    /// An empty buffer.
    pub fn new() -> (b: Self)
        ensures
            b@.0 == Seq::<Seq<char>>::empty(),
            b@.1 == 0,
    {
        let b = SegmentBuffer { segments: VecDeque::new(), current_segment: 0 };
        assert(views(b.segments@) =~= Seq::<Seq<char>>::empty());
        b
    }

    /// Number of segments held.
    pub fn len(&self) -> (n: usize)
        ensures
            n == self@.0.len(),
            n <= BUFFER_SEGMENTS,
    {
        proof {
            use_type_invariant(self);
        }
        self.segments.len()
    }

    /// Add a new segment, dropping the oldest one when the ring is full; the
    /// dropped segment's path is returned so that its file can be removed.
    pub fn add_segment(&mut self, segment_path: String) -> (evicted: Option<String>)
        requires
            old(self)@.1 < usize::MAX,
        ensures
            final(self)@.1 == old(self)@.1 + 1,
            old(self)@.0.len() >= BUFFER_SEGMENTS ==> (evicted matches Some(p) && p@ == old(
                self,
            )@.0[0] && final(self)@.0 == old(self)@.0.drop_first().push(segment_path@)),
            old(self)@.0.len() < BUFFER_SEGMENTS ==> (evicted is None && final(self)@.0 == old(
                self,
            )@.0.push(segment_path@)),
            final(self)@.0.len() <= BUFFER_SEGMENTS,
    {
        proof {
            use_type_invariant(&*self);
        }
        let ghost before = self.segments@;
        let mut segs: VecDeque<String> = VecDeque::new();
        std::mem::swap(&mut segs, &mut self.segments);
        let evicted = if segs.len() >= BUFFER_SEGMENTS {
            segs.pop_front()
        } else {
            None
        };
        segs.push_back(segment_path);
        proof {
            if before.len() >= BUFFER_SEGMENTS {
                assert(views(segs@) =~= views(before).drop_first().push(segment_path@));
            } else {
                assert(views(segs@) =~= views(before).push(segment_path@));
            }
        }
        self.segments = segs;
        self.current_segment = self.current_segment + 1;
        evicted
    }

    /// All segments, oldest first.
    pub fn get_all_segments(&self) -> (r: Vec<String>)
        ensures
            views(r@) == self@.0,
    {
        let mut r: Vec<String> = Vec::new();
        let mut i: usize = 0;
        while i < self.segments.len()
            invariant
                i <= self.segments@.len(),
                views(r@) == views(self.segments@).subrange(0, i as int),
            decreases self.segments@.len() - i,
        {
            let ghost prev = r@;
            let item = owned(self.segments[i].as_str());
            assert(item@ == views(self.segments@)[i as int]);
            r.push(item);
            assert(views(r@) =~= views(prev).push(item@));
            i += 1;
            assert(views(r@) =~= views(self.segments@).subrange(0, i as int));
        }
        assert(views(self.segments@).subrange(0, self.segments@.len() as int) =~= views(
            self.segments@,
        ));
        r
    }

    /// File name of the next segment: its number, zero-padded to four digits.
    pub fn next_segment_name(&self) -> (r: String)
        ensures
            r@ == "segment_"@ + zero_pad(decimal(self@.1), 4) + ".mp4"@,
    {
        let mut digits = String::new();
        push_decimal(&mut digits, self.current_segment as u64);
        let ghost d = decimal(self.current_segment as nat);
        assert(digits@ =~= d);
        let n = digits.as_str().unicode_len();
        let mut s = owned("segment_");
        let mut k = n;
        while k < 4
            invariant
                n == d.len(),
                n <= k,
                n < 4 ==> k <= 4,
                n >= 4 ==> k == n,
                s@ == "segment_"@ + Seq::new((k - n) as nat, |i: int| '0'),
            decreases 4 - k,
        {
            s.push('0');
            k += 1;
            assert(s@ =~= "segment_"@ + Seq::new((k - n) as nat, |i: int| '0'));
        }
        push_all(&mut s, digits.as_str());
        push_all(&mut s, ".mp4");
        proof {
            if n >= 4 {
                assert(Seq::new((k - n) as nat, |i: int| '0') =~= Seq::<char>::empty());
            }
            assert(s@ =~= "segment_"@ + zero_pad(d, 4) + ".mp4"@);
        }
        s
    }

    /// Empty the ring; returns the segments it held so that their files can be
    /// removed, and restarts the numbering.
    pub fn clear(&mut self) -> (drained: Vec<String>)
        ensures
            views(drained@) == old(self)@.0,
            final(self)@.0 == Seq::<Seq<char>>::empty(),
            final(self)@.1 == 0,
    {
        let mut held: VecDeque<String> = VecDeque::new();
        std::mem::swap(&mut held, &mut self.segments);
        self.current_segment = 0;
        assert(views(self.segments@) =~= Seq::<Seq<char>>::empty());
        let ghost all = held@;
        let mut drained: Vec<String> = Vec::new();
        while held.len() > 0
            invariant
                drained@ + held@ == all,
            decreases held@.len(),
        {
            let ghost before = held@;
            match held.pop_front() {
                Some(p) => {
                    drained.push(p);
                    assert(drained@ + held@ =~= all);
                },
                None => {},
            }
        }
        assert(drained@ =~= all);
        drained
    }
}

/// Adding segments to a ring keeps exactly the last six added, oldest first.
pub proof fn law_ring_keeps_last_segments(before: Seq<Seq<char>>, p: Seq<char>)
    ensures
        last_segments(before.push(p)) == (if last_segments(before).len() >= BUFFER_SEGMENTS {
            last_segments(before).drop_first().push(p)
        } else {
            last_segments(before).push(p)
        }),
{
    let l = last_segments(before);
    if before.len() < BUFFER_SEGMENTS {
    } else if before.len() == BUFFER_SEGMENTS {
        assert(before.push(p).subrange(1, 7) =~= before.drop_first().push(p));
    } else {
        let n = before.len() as int;
        assert(before.push(p).subrange(n + 1 - 6, n + 1) =~= before.subrange(n - 6, n).drop_first().push(p));
    }
}

/// One `add_segment` on the held segments, as its contract states it.
pub open spec fn ring_step(held: Seq<Seq<char>>, p: Seq<char>) -> Seq<Seq<char>> {
    if held.len() >= BUFFER_SEGMENTS {
        held.drop_first().push(p)
    } else {
        held.push(p)
    }
}

/// The segments held after adding `paths` one by one to `held`.
pub open spec fn ring_after(held: Seq<Seq<char>>, paths: Seq<Seq<char>>) -> Seq<Seq<char>>
    decreases paths.len(),
{
    if paths.len() == 0 {
        held
    } else {
        ring_step(ring_after(held, paths.drop_last()), paths.last())
    }
}

/// A new ring to which segments are added one by one holds the last six of
/// them (all of them while there are fewer), in the order they were added.
pub proof fn law_new_ring_holds_last_six(paths: Seq<Seq<char>>)
    ensures
        ring_after(Seq::empty(), paths) == last_segments(paths),
        ring_after(Seq::empty(), paths).len() <= BUFFER_SEGMENTS,
    decreases paths.len(),
{
    if paths.len() > 0 {
        let before = paths.drop_last();
        law_new_ring_holds_last_six(before);
        law_ring_keeps_last_segments(before, paths.last());
        assert(before.push(paths.last()) =~= paths);
    }
}

// ============================================================================
// Replay buffer decisions
// ============================================================================

/// Why the replay buffer refused a request.
#[derive(Debug, Clone, Copy, PartialEq, Eq, Structural)]
pub enum ReplayError {
    AlreadyRunning,
    NotActive,
    InErrorState,
    NoSegments,
}

impl ReplayError {
    /// The message shown for the error.
    pub fn message(&self) -> (r: &'static str)
        ensures
            r@ == (match *self {
                ReplayError::AlreadyRunning => "Replay buffer already running"@,
                ReplayError::NotActive => "Cannot save clip: replay buffer not active"@,
                ReplayError::InErrorState => "Cannot save clip: recording in error state"@,
                ReplayError::NoSegments => "No segments available to save"@,
            }),
    {
        match self {
            ReplayError::AlreadyRunning => "Replay buffer already running",
            ReplayError::NotActive => "Cannot save clip: replay buffer not active",
            ReplayError::InErrorState => "Cannot save clip: recording in error state",
            ReplayError::NoSegments => "No segments available to save",
        }
    }
}

/// What the rotation task does at one of its once-a-second checks.
#[derive(Debug, Clone, Copy, PartialEq, Eq, Structural)]
pub enum RotationAction {
    /// The buffer was stopped or failed: stop the segment and end the task.
    Stop,
    /// The segment is ten seconds long: start the next one.
    Rotate,
    /// Keep recording the current segment.
    Continue,
}

/// The rotation decision for a status and the age of the current segment.
pub open spec fn rotation_decision(status: RecordingStatus, segment_elapsed_ms: u64) -> RotationAction {
    if status == RecordingStatus::Idle || status == RecordingStatus::Error {
        RotationAction::Stop
    } else if segment_elapsed_ms >= SEGMENT_DURATION_SECS * 1000 {
        RotationAction::Rotate
    } else {
        RotationAction::Continue
    }
}

/// File name of a saved clip.
pub open spec fn clip_file_name_text(
    game_id: Option<String>,
    timestamp: Seq<char>,
    priority: u8,
    clip_id: Seq<char>,
) -> Seq<char> {
    let game = match game_id {
        Some(g) => g@,
        None => "unknown"@,
    };
    game + "_"@ + timestamp + "_p"@ + decimal(priority as nat) + "_"@ + clip_id + ".mp4"@
}

/// The file name of a clip of the current game (or "unknown"), stamped
/// `timestamp`, with its priority and id.
pub fn clip_file_name(game_id: &Option<String>, timestamp: &str, priority: u8, clip_id: &str) -> (r:
    String)
    ensures
        r@ == clip_file_name_text(*game_id, timestamp@, priority, clip_id@),
{
    let mut s = match game_id {
        Some(g) => owned(g.as_str()),
        None => owned("unknown"),
    };
    push_all(&mut s, "_");
    push_all(&mut s, timestamp);
    push_all(&mut s, "_p");
    push_decimal(&mut s, priority as u64);
    push_all(&mut s, "_");
    push_all(&mut s, clip_id);
    push_all(&mut s, ".mp4");
    s
}

/// The segments whose files exist.
pub open spec fn existing_segments(segments: Seq<Seq<char>>, exists: Seq<bool>) -> Seq<Seq<char>>
    decreases segments.len(),
{
    if segments.len() == 0 {
        Seq::empty()
    } else {
        let rest = existing_segments(segments.drop_last(), exists.subrange(0, segments.len() - 1));
        if exists[segments.len() - 1] {
            rest.push(segments.last())
        } else {
            rest
        }
    }
}

/// Concat list of the segments whose files exist (`exists[i]` for `segments[i]`).
pub fn concat_list_existing(segments: &Vec<String>, exists: &Vec<bool>) -> (r: String)
    requires
        segments@.len() == exists@.len(),
    ensures
        r@ == concat_list_text(existing_segments(views(segments@), exists@)),
{
    let mut s = String::new();
    let mut i: usize = 0;
    let ghost kept: Seq<Seq<char>> = Seq::empty();
    while i < segments.len()
        invariant
            i <= segments@.len(),
            segments@.len() == exists@.len(),
            kept == existing_segments(
                views(segments@).subrange(0, i as int),
                exists@.subrange(0, i as int),
            ),
            s@ == concat_list_text(kept),
        decreases segments@.len() - i,
    {
        proof {
            let next = views(segments@).subrange(0, i + 1);
            assert(next.drop_last() =~= views(segments@).subrange(0, i as int));
            assert(exists@.subrange(0, i + 1).subrange(0, i as int) =~= exists@.subrange(
                0,
                i as int,
            ));
        }
        if exists[i] {
            push_all(&mut s, "file '");
            push_all(&mut s, segments[i].as_str());
            push_all(&mut s, "'\n");
            proof {
                let new_kept = kept.push(segments@[i as int]@);
                assert(new_kept.drop_last() =~= kept);
                assert(s@ =~= concat_list_text(new_kept));
                kept = new_kept;
            }
        }
        i += 1;
    }
    assert(views(segments@).subrange(0, segments@.len() as int) =~= views(segments@));
    assert(exists@.subrange(0, exists@.len() as int) =~= exists@);
    s
}

/// FFmpeg arguments joining the listed segments into one clip of at most
/// `duration_ms`, copying the streams.
pub open spec fn spec_concat_args(concat_file: Seq<char>, duration_ms: nat, output: Seq<char>) -> Seq<
    Seq<char>,
> {
    seq![
        "-f"@,
        "concat"@,
        "-safe"@,
        "0"@,
        "-i"@,
        concat_file,
        "-t"@,
        seconds_text(duration_ms),
        "-c"@,
        "copy"@,
        "-y"@,
        output,
    ]
}

/// The arguments of a segment concatenation.
pub fn concat_args(concat_file: &str, duration_ms: u64, output: &str) -> (r: Vec<String>)
    ensures
        views(r@) == spec_concat_args(concat_file@, duration_ms as nat, output@),
{
    let mut t = String::new();
    push_seconds(&mut t, duration_ms);
    assert(t@ =~= seconds_text(duration_ms as nat));
    let mut v: Vec<String> = Vec::new();
    v.push(owned("-f"));
    v.push(owned("concat"));
    v.push(owned("-safe"));
    v.push(owned("0"));
    v.push(owned("-i"));
    v.push(owned(concat_file));
    v.push(owned("-t"));
    v.push(t);
    v.push(owned("-c"));
    v.push(owned("copy"));
    v.push(owned("-y"));
    v.push(owned(output));
    assert(views(v@) =~= spec_concat_args(concat_file@, duration_ms as nat, output@));
    v
}

/// State of the replay buffer: its status, its ring of segments, and the
/// number of clips created.
pub struct ReplayBuffer {
    status: RecordingStatus,
    buffer: SegmentBuffer,
    clips_created: u64,
}

impl ReplayBuffer {
    /// Current status.
    pub closed spec fn status_spec(&self) -> RecordingStatus {
        self.status
    }

    /// Segments held, oldest first, and segments added.
    pub closed spec fn segments_spec(&self) -> (Seq<Seq<char>>, nat) {
        self.buffer@
    }

    /// Clips created.
    pub closed spec fn clips_spec(&self) -> nat {
        self.clips_created as nat
    }

    /// An idle replay buffer with no segments.
    pub fn new() -> (r: Self)
        ensures
            r.status_spec() == RecordingStatus::Idle,
            r.segments_spec().0 == Seq::<Seq<char>>::empty(),
            r.segments_spec().1 == 0,
            r.clips_spec() == 0,
    {
        ReplayBuffer { status: RecordingStatus::Idle, buffer: SegmentBuffer::new(), clips_created: 0 }
    }

    /// Current status.
    pub fn get_state(&self) -> (s: RecordingStatus)
        ensures
            s == self.status_spec(),
    {
        self.status
    }

    /// Clips created.
    pub fn clips_created(&self) -> (n: u64)
        ensures
            n == self.clips_spec(),
    {
        self.clips_created
    }

    /// Segments held, oldest first.
    pub fn segments(&self) -> (r: Vec<String>)
        ensures
            views(r@) == self.segments_spec().0,
    {
        self.buffer.get_all_segments()
    }

    /// File name of the next segment.
    pub fn next_segment_name(&self) -> (r: String)
        ensures
            r@ == "segment_"@ + zero_pad(decimal(self.segments_spec().1), 4) + ".mp4"@,
    {
        self.buffer.next_segment_name()
    }

    /// Start buffering; only an idle buffer starts.
    pub fn start(&mut self) -> (r: Result<(), ReplayError>)
        ensures
            old(self).status_spec() == RecordingStatus::Idle ==> (r is Ok
                && final(self).status_spec() == RecordingStatus::Buffering),
            old(self).status_spec() != RecordingStatus::Idle ==> (r == Err::<(), ReplayError>(
                ReplayError::AlreadyRunning) && final(self).status_spec() == old(self).status_spec()),
            final(self).segments_spec() == old(self).segments_spec(),
            final(self).clips_spec() == old(self).clips_spec(),
    {
        if self.status != RecordingStatus::Idle {
            return Err(ReplayError::AlreadyRunning);
        }
        self.status = RecordingStatus::Buffering;
        Ok(())
    }

    /// The capture process could not be started, or a rotation failed.
    pub fn fail(&mut self)
        ensures
            final(self).status_spec() == RecordingStatus::Error,
            final(self).segments_spec() == old(self).segments_spec(),
            final(self).clips_spec() == old(self).clips_spec(),
    {
        self.status = RecordingStatus::Error;
    }

    /// What the rotation task does when the current segment is
    /// `segment_elapsed_ms` old.
    pub fn rotation_action(&self, segment_elapsed_ms: u64) -> (a: RotationAction)
        ensures
            a == rotation_decision(self.status_spec(), segment_elapsed_ms),
    {
        if self.status == RecordingStatus::Idle || self.status == RecordingStatus::Error {
            RotationAction::Stop
        } else if segment_elapsed_ms >= SEGMENT_DURATION_SECS * 1000 {
            RotationAction::Rotate
        } else {
            RotationAction::Continue
        }
    }

    /// A finished, non-empty segment joins the ring; the path of the segment
    /// it displaced, if any, is returned for removal.
    pub fn segment_completed(&mut self, segment_path: String) -> (evicted: Option<String>)
        requires
            old(self).segments_spec().1 < usize::MAX,
        ensures
            final(self).status_spec() == old(self).status_spec(),
            final(self).clips_spec() == old(self).clips_spec(),
            final(self).segments_spec().1 == old(self).segments_spec().1 + 1,
            old(self).segments_spec().0.len() >= BUFFER_SEGMENTS ==> (evicted matches Some(p)
                && p@ == old(self).segments_spec().0[0] && final(self).segments_spec().0 == old(
                self,
            ).segments_spec().0.drop_first().push(segment_path@)),
            old(self).segments_spec().0.len() < BUFFER_SEGMENTS ==> (evicted is None
                && final(self).segments_spec().0 == old(self).segments_spec().0.push(
                segment_path@,
            )),
    {
        self.buffer.add_segment(segment_path)
    }

    /// Stop the replay buffer: an idle buffer is left alone; otherwise it
    /// becomes idle and its segments are returned for removal.
    pub fn stop(&mut self) -> (removed: Vec<String>)
        ensures
            final(self).status_spec() == RecordingStatus::Idle,
            final(self).clips_spec() == old(self).clips_spec(),
            old(self).status_spec() == RecordingStatus::Idle ==> (removed@.len() == 0
                && final(self).segments_spec() == old(self).segments_spec()),
            old(self).status_spec() != RecordingStatus::Idle ==> (views(removed@) == old(
                self,
            ).segments_spec().0 && final(self).segments_spec().0 == Seq::<Seq<char>>::empty()
                && final(self).segments_spec().1 == 0),
    {
        if self.status == RecordingStatus::Idle {
            return Vec::new();
        }
        self.status = RecordingStatus::Idle;
        self.buffer.clear()
    }

    /// Begin saving a clip of at most `duration_ms` (capped at sixty seconds):
    /// refused when the buffer is idle or failed; otherwise the buffer is
    /// processing, and the clip's duration and the segments to join are
    /// returned, or an error when there are none.
    pub fn begin_save(&mut self, duration_ms: u64) -> (r: Result<(u64, Vec<String>), ReplayError>)
        ensures
            old(self).status_spec() == RecordingStatus::Idle ==> (r matches Err(e) && e
                == ReplayError::NotActive && final(self).status_spec() == old(self).status_spec()),
            old(self).status_spec() == RecordingStatus::Error ==> (r matches Err(e) && e
                == ReplayError::InErrorState && final(self).status_spec() == old(
                self,
            ).status_spec()),
            (old(self).status_spec() != RecordingStatus::Idle && old(self).status_spec()
                != RecordingStatus::Error) ==> final(self).status_spec()
                == RecordingStatus::Processing,
            (old(self).status_spec() != RecordingStatus::Idle && old(self).status_spec()
                != RecordingStatus::Error && old(self).segments_spec().0.len() == 0) ==> (r matches Err(
                e,
            ) && e == ReplayError::NoSegments),
            (old(self).status_spec() != RecordingStatus::Idle && old(self).status_spec()
                != RecordingStatus::Error && old(self).segments_spec().0.len() > 0) ==> (r matches Ok(
                (d, segs),
            ) && d == (if duration_ms < MAX_CLIP_DURATION_MS {
                duration_ms
            } else {
                MAX_CLIP_DURATION_MS
            }) && views(segs@) == old(self).segments_spec().0),
            final(self).segments_spec() == old(self).segments_spec(),
            final(self).clips_spec() == old(self).clips_spec(),
    {
        let duration = if duration_ms < MAX_CLIP_DURATION_MS {
            duration_ms
        } else {
            MAX_CLIP_DURATION_MS
        };
        match self.status {
            RecordingStatus::Idle => {
                return Err(ReplayError::NotActive);
            },
            RecordingStatus::Error => {
                return Err(ReplayError::InErrorState);
            },
            _ => {},
        }
        self.status = RecordingStatus::Processing;
        let segments = self.buffer.get_all_segments();
        if segments.len() == 0 {
            return Err(ReplayError::NoSegments);
        }
        Ok((duration, segments))
    }

    /// The clip was written: one more clip, and the buffer buffers again.
    pub fn save_finished(&mut self)
        requires
            old(self).clips_spec() < u64::MAX,
        ensures
            final(self).status_spec() == RecordingStatus::Buffering,
            final(self).clips_spec() == old(self).clips_spec() + 1,
            final(self).segments_spec() == old(self).segments_spec(),
    {
        self.clips_created = self.clips_created + 1;
        self.status = RecordingStatus::Buffering;
    }
}

} // verus!
