//! The clip processor: encoder detection and choice, and the FFmpeg arguments
//! and filters of clip extraction, composition, thumbnails, transitions and
//! text overlays. Times are in milliseconds.
use crate::recording::audio::views;
use crate::recording::integration_backend::{digit_of, extend_strings, push_seconds, seconds_text};
use crate::text::{contains, contains_exec, chars_of, decimal, lowercase, owned, push_all, push_decimal, to_lowercase};
use crate::video::VideoError;
use vstd::prelude::*;

verus! {

/// Video transition types.
#[derive(Debug, Clone, Copy, PartialEq, Eq, Structural)]
pub enum TransitionType {
    Fade,
    Slide,
    Dissolve,
    Wipe,
}

/// Video encoders of the processor.
#[derive(Debug, Clone, Copy, PartialEq, Eq, Structural)]
pub enum VideoEncoder {
    /// Software H.264.
    H264,
    /// Software H.265.
    H265,
    /// NVIDIA NVENC H.264.
    NvidiaH264,
    /// NVIDIA NVENC H.265.
    NvidiaH265,
    /// AMD VCE H.264.
    AmdH264,
    /// Intel Quick Sync H.264.
    IntelH264,
}

/// Encoding arguments of each encoder.
pub open spec fn encoder_args(e: VideoEncoder) -> Seq<Seq<char>> {
    match e {
        VideoEncoder::H264 => seq!["-c:v"@, "libx264"@, "-preset"@, "medium"@, "-tune"@, "fastdecode"@],
        VideoEncoder::H265 => seq!["-c:v"@, "libx265"@, "-preset"@, "medium"@, "-tune"@, "fastdecode"@],
        VideoEncoder::NvidiaH264 => seq![
            "-c:v"@,
            "h264_nvenc"@,
            "-preset"@,
            "p1"@,
            "-tune"@,
            "ll"@,
            "-rc"@,
            "vbr"@,
            "-cq"@,
            "23"@,
        ],
        VideoEncoder::NvidiaH265 => seq![
            "-c:v"@,
            "hevc_nvenc"@,
            "-preset"@,
            "p1"@,
            "-tune"@,
            "ll"@,
            "-rc"@,
            "vbr"@,
            "-cq"@,
            "28"@,
        ],
        VideoEncoder::AmdH264 => seq![
            "-c:v"@,
            "h264_amf"@,
            "-quality"@,
            "speed"@,
            "-rc"@,
            "vbr_peak"@,
            "-qp_i"@,
            "23"@,
            "-qp_p"@,
            "23"@,
        ],
        VideoEncoder::IntelH264 => seq![
            "-c:v"@,
            "h264_qsv"@,
            "-preset"@,
            "veryfast"@,
            "-tune"@,
            "ll"@,
            "-global_quality"@,
            "23"@,
        ],
    }
}

/// The views of a list of string slices.
pub open spec fn str_views(v: Seq<&str>) -> Seq<Seq<char>> {
    v.map_values(|s: &str| s@)
}

impl VideoEncoder {
    /// FFmpeg encoding arguments.
    pub fn get_ffmpeg_args(&self) -> (r: Vec<&'static str>)
        ensures
            str_views(r@) == encoder_args(*self),
    {
        let r = match self {
            VideoEncoder::H264 => vec!["-c:v", "libx264", "-preset", "medium", "-tune", "fastdecode"],
            VideoEncoder::H265 => vec!["-c:v", "libx265", "-preset", "medium", "-tune", "fastdecode"],
            VideoEncoder::NvidiaH264 => vec![
                "-c:v",
                "h264_nvenc",
                "-preset",
                "p1",
                "-tune",
                "ll",
                "-rc",
                "vbr",
                "-cq",
                "23",
            ],
            VideoEncoder::NvidiaH265 => vec![
                "-c:v",
                "hevc_nvenc",
                "-preset",
                "p1",
                "-tune",
                "ll",
                "-rc",
                "vbr",
                "-cq",
                "28",
            ],
            VideoEncoder::AmdH264 => vec![
                "-c:v",
                "h264_amf",
                "-quality",
                "speed",
                "-rc",
                "vbr_peak",
                "-qp_i",
                "23",
                "-qp_p",
                "23",
            ],
            VideoEncoder::IntelH264 => vec![
                "-c:v",
                "h264_qsv",
                "-preset",
                "veryfast",
                "-tune",
                "ll",
                "-global_quality",
                "23",
            ],
        };
        assert(str_views(r@) =~= encoder_args(*self));
        r
    }

    /// Display name.
    pub fn get_name(&self) -> (r: &'static str)
        ensures
            r@ == (match *self {
                VideoEncoder::H264 => "H.264 (Software)"@,
                VideoEncoder::H265 => "H.265 (Software)"@,
                VideoEncoder::NvidiaH264 => "NVIDIA H.264 (Hardware)"@,
                VideoEncoder::NvidiaH265 => "NVIDIA H.265 (Hardware)"@,
                VideoEncoder::AmdH264 => "AMD H.264 (Hardware)"@,
                VideoEncoder::IntelH264 => "Intel H.264 (Hardware)"@,
            }),
    {
        match self {
            VideoEncoder::H264 => "H.264 (Software)",
            VideoEncoder::H265 => "H.265 (Software)",
            VideoEncoder::NvidiaH264 => "NVIDIA H.264 (Hardware)",
            VideoEncoder::NvidiaH265 => "NVIDIA H.265 (Hardware)",
            VideoEncoder::AmdH264 => "AMD H.264 (Hardware)",
            VideoEncoder::IntelH264 => "Intel H.264 (Hardware)",
        }
    }

    /// Output pixel format: yuv420p in software, cuda in hardware.
    pub fn get_output_format(&self) -> (r: &'static str)
        ensures
            r@ == (match *self {
                VideoEncoder::H264 | VideoEncoder::H265 => "yuv420p"@,
                _ => "cuda"@,
            }),
    {
        match self {
            VideoEncoder::H264 | VideoEncoder::H265 => "yuv420p",
            VideoEncoder::NvidiaH264 | VideoEncoder::AmdH264 | VideoEncoder::IntelH264 => "cuda",
            VideoEncoder::NvidiaH265 => "cuda",
        }
    }
}

/// Text overlay positions.
#[derive(Debug, Clone, Copy, PartialEq, Eq, Structural)]
pub enum TextPosition {
    TopLeft,
    TopRight,
    BottomLeft,
    BottomRight,
    Center,
}

/// Text overlay style.
#[derive(Debug)]
pub struct TextStyle {
    pub size: u32,
    pub color: String,
}

impl Default for TextStyle {
    fn default() -> (r: Self)
        ensures
            r.size == 48,
            r.color@ == "WHITE"@,
    {
        TextStyle { size: 48, color: owned("WHITE") }
    }
}

/// The encoder chosen from the hardware found: NVIDIA, then AMD, then Intel,
/// else software H.264.
pub open spec fn optimal_encoder(nvidia: bool, amd: bool, intel: bool) -> VideoEncoder {
    if nvidia {
        VideoEncoder::NvidiaH264
    } else if amd {
        VideoEncoder::AmdH264
    } else if intel {
        VideoEncoder::IntelH264
    } else {
        VideoEncoder::H264
    }
}

/// Whether FFmpeg's encoder list mentions `encoder`.
pub fn encoder_listed(ffmpeg_encoders_output: &str, encoder: &str) -> (r: bool)
    ensures
        r == contains(ffmpeg_encoders_output@, encoder@),
{
    let out = chars_of(ffmpeg_encoders_output);
    let name = chars_of(encoder);
    contains_exec(out.as_slice(), name.as_slice())
}

/// FFmpeg clip processor.
pub struct VideoProcessor {
    ffmpeg_path: String,
    optimal_encoder: VideoEncoder,
}

impl VideoProcessor {
    /// The FFmpeg executable.
    pub closed spec fn ffmpeg(&self) -> Seq<char> {
        self.ffmpeg_path@
    }

    /// The encoder in use.
    pub closed spec fn encoder(&self) -> VideoEncoder {
        self.optimal_encoder
    }

    /// Detect the optimal encoder from the hardware found.
    pub fn detect_optimal_encoder(nvidia: bool, amd: bool, intel: bool) -> (e: VideoEncoder)
        ensures
            e == optimal_encoder(nvidia, amd, intel),
    {
        if nvidia {
            return VideoEncoder::NvidiaH264;
        }
        if amd {
            return VideoEncoder::AmdH264;
        }
        if intel {
            return VideoEncoder::IntelH264;
        }
        VideoEncoder::H264
    }

    /// A processor on the FFmpeg found (or the reason it was not), using the
    /// optimal encoder of the hardware found.
    pub fn new(ffmpeg_path: Result<String, String>, nvidia: bool, amd: bool, intel: bool) -> (r:
        Result<Self, VideoError>)
        ensures
            match ffmpeg_path {
                Ok(p) => r matches Ok(v) && v.ffmpeg() == p@ && v.encoder() == optimal_encoder(
                    nvidia,
                    amd,
                    intel,
                ),
                Err(e) => r matches Err(VideoError::ProcessingError(m)) && m@
                    == "Failed to find FFmpeg: "@ + e@,
            },
    {
        let optimal_encoder = Self::detect_optimal_encoder(nvidia, amd, intel);
        match ffmpeg_path {
            Ok(p) => Ok(VideoProcessor { ffmpeg_path: p, optimal_encoder }),
            Err(e) => {
                let mut m = owned("Failed to find FFmpeg: ");
                push_all(&mut m, e.as_str());
                Err(VideoError::ProcessingError(m))
            },
        }
    }

    /// A processor as `new` makes it, or, when FFmpeg was not found,
    /// `ffmpeg` from the search path with software H.264.
    pub fn new_with_fallback(ffmpeg_path: Result<String, String>, nvidia: bool, amd: bool, intel: bool) -> (v:
        Self)
        ensures
            match ffmpeg_path {
                Ok(p) => v.ffmpeg() == p@ && v.encoder() == optimal_encoder(nvidia, amd, intel),
                Err(_) => v.ffmpeg() == "ffmpeg"@ && v.encoder() == VideoEncoder::H264,
            },
    {
        match Self::new(ffmpeg_path, nvidia, amd, intel) {
            Ok(p) => p,
            Err(_) => VideoProcessor { ffmpeg_path: owned("ffmpeg"), optimal_encoder: VideoEncoder::H264 },
        }
    }

    /// The encoder in use.
    pub fn get_optimal_encoder(&self) -> (e: &VideoEncoder)
        ensures
            *e == self.encoder(),
    {
        &self.optimal_encoder
    }

    /// The FFmpeg executable.
    pub fn ffmpeg_path(&self) -> (p: &str)
        ensures
            p@ == self.ffmpeg(),
    {
        self.ffmpeg_path.as_str()
    }

    /// FFmpeg arguments extracting `duration_ms` from `start_ms` of `input`:
    /// clips under five minutes are re-encoded (with hardware decoding), longer
    /// ones copied.
    pub fn extract_args(&self, input: &str, output: &str, start_ms: u64, duration_ms: u64) -> (r:
        Vec<String>)
        ensures
            views(r@) == spec_extract_args(self.encoder(), input@, output@, start_ms as nat, duration_ms as nat),
    {
        let reencode = duration_ms < 300_000;
        let mut v: Vec<String> = Vec::new();
        v.push(owned("-ss"));
        let mut ss = String::new();
        push_fixed3(&mut ss, start_ms);
        v.push(ss);
        if reencode {
            match self.optimal_encoder {
                VideoEncoder::NvidiaH264 | VideoEncoder::NvidiaH265 => {
                    v.push(owned("-hwaccel"));
                    v.push(owned("cuda"));
                },
                VideoEncoder::AmdH264 => {
                    v.push(owned("-hwaccel"));
                    v.push(owned("dxva2"));
                },
                VideoEncoder::IntelH264 => {
                    v.push(owned("-hwaccel"));
                    v.push(owned("qsv"));
                },
                _ => {},
            }
        }
        assert(views(v@) =~= seq!["-ss"@, fixed3(start_ms as nat)] + (if reencode {
            hwaccel_args(self.optimal_encoder)
        } else {
            Seq::empty()
        }));
        let mut b: Vec<String> = Vec::new();
        b.push(owned("-i"));
        b.push(owned(input));
        b.push(owned("-t"));
        let mut t = String::new();
        push_fixed3(&mut t, duration_ms);
        b.push(t);
        assert(views(b@) =~= seq!["-i"@, input@, "-t"@, fixed3(duration_ms as nat)]);
        extend_strings(&mut v, b);
        let mut c: Vec<String> = Vec::new();
        if reencode {
            let enc = self.optimal_encoder.get_ffmpeg_args();
            let mut i: usize = 0;
            while i < enc.len()
                invariant
                    i <= enc@.len(),
                    views(c@) == str_views(enc@).subrange(0, i as int),
                decreases enc@.len() - i,
            {
                let ghost prev = c@;
                let item = owned(enc[i]);
                assert(item@ == str_views(enc@)[i as int]);
                c.push(item);
                assert(views(c@) =~= views(prev).push(item@));
                i += 1;
                assert(views(c@) =~= str_views(enc@).subrange(0, i as int));
            }
            assert(str_views(enc@).subrange(0, enc@.len() as int) =~= str_views(enc@));
            let mut extra: Vec<String> = Vec::new();
            match self.optimal_encoder {
                VideoEncoder::NvidiaH264 | VideoEncoder::NvidiaH265 => {
                    extra.push(owned("-preset"));
                    extra.push(owned("fast"));
                },
                VideoEncoder::IntelH264 => {
                    extra.push(owned("-preset"));
                    extra.push(owned("medium"));
                },
                _ => {},
            }
            extra.push(owned("-crf"));
            extra.push(owned("23"));
            extra.push(owned("-threads"));
            extra.push(owned("0"));
            extra.push(owned("-pix_fmt"));
            extra.push(owned("yuv420p"));
            assert(views(extra@) =~= extra_preset(self.optimal_encoder) + seq![
                "-crf"@,
                "23"@,
                "-threads"@,
                "0"@,
                "-pix_fmt"@,
                "yuv420p"@,
            ]);
            extend_strings(&mut c, extra);
        } else {
            c.push(owned("-c"));
            c.push(owned("copy"));
            assert(views(c@) =~= seq!["-c"@, "copy"@]);
        }
        extend_strings(&mut v, c);
        let mut d: Vec<String> = Vec::new();
        d.push(owned("-avoid_negative_ts"));
        d.push(owned("make_zero"));
        d.push(owned("-movflags"));
        d.push(owned("+faststart"));
        d.push(owned("-y"));
        d.push(owned(output));
        assert(views(d@) =~= seq![
            "-avoid_negative_ts"@,
            "make_zero"@,
            "-movflags"@,
            "+faststart"@,
            "-y"@,
            output@,
        ]);
        extend_strings(&mut v, d);
        proof {
            if reencode {
                assert(encoder_args(self.optimal_encoder) + (extra_preset(self.optimal_encoder) + seq![
                    "-crf"@,
                    "23"@,
                    "-threads"@,
                    "0"@,
                    "-pix_fmt"@,
                    "yuv420p"@,
                ]) =~= encoder_args(self.optimal_encoder) + extra_preset(self.optimal_encoder) + seq![
                    "-crf"@,
                    "23"@,
                    "-threads"@,
                    "0"@,
                    "-pix_fmt"@,
                    "yuv420p"@,
                ]);
            }
        }
        v
    }
}

/// Seconds with exactly three decimals, as `{:.3}` prints them.
pub open spec fn fixed3(ms: nat) -> Seq<char> {
    let f = ms % 1000;
    decimal(ms / 1000) + seq!['.', digit_of(f / 100), digit_of((f / 10) % 10), digit_of(f % 10)]
}

fn digit_exec(d: u64) -> (c: char)
    requires
        d < 10,
    ensures
        c == digit_of(d as nat),
{
    let b: u8 = 48u8 + (d as u8);
    b as char
}

/// Appends `ms` as seconds with three decimals.
pub fn push_fixed3(s: &mut String, ms: u64)
    ensures
        final(s)@ == old(s)@ + fixed3(ms as nat),
{
    push_decimal(s, ms / 1000);
    let f = ms % 1000;
    s.push('.');
    s.push(digit_exec(f / 100));
    s.push(digit_exec((f / 10) % 10));
    s.push(digit_exec(f % 10));
    assert(final(s)@ =~= old(s)@ + fixed3(ms as nat));
}

/// Hardware decoding arguments of each encoder.
pub open spec fn hwaccel_args(e: VideoEncoder) -> Seq<Seq<char>> {
    match e {
        VideoEncoder::NvidiaH264 | VideoEncoder::NvidiaH265 => seq!["-hwaccel"@, "cuda"@],
        VideoEncoder::AmdH264 => seq!["-hwaccel"@, "dxva2"@],
        VideoEncoder::IntelH264 => seq!["-hwaccel"@, "qsv"@],
        _ => Seq::empty(),
    }
}

/// Extra preset of each encoder after its arguments.
pub open spec fn extra_preset(e: VideoEncoder) -> Seq<Seq<char>> {
    match e {
        VideoEncoder::NvidiaH264 | VideoEncoder::NvidiaH265 => seq!["-preset"@, "fast"@],
        VideoEncoder::IntelH264 => seq!["-preset"@, "medium"@],
        _ => Seq::empty(),
    }
}

/// Arguments of a clip extraction.
pub open spec fn spec_extract_args(
    e: VideoEncoder,
    input: Seq<char>,
    output: Seq<char>,
    start_ms: nat,
    duration_ms: nat,
) -> Seq<Seq<char>> {
    let reencode = duration_ms < 300_000;
    seq!["-ss"@, fixed3(start_ms)] + (if reencode {
        hwaccel_args(e)
    } else {
        Seq::empty()
    }) + seq!["-i"@, input, "-t"@, fixed3(duration_ms)] + (if reencode {
        encoder_args(e) + extra_preset(e) + seq![
            "-crf"@,
            "23"@,
            "-threads"@,
            "0"@,
            "-pix_fmt"@,
            "yuv420p"@,
        ]
    } else {
        seq!["-c"@, "copy"@]
    }) + seq![
        "-avoid_negative_ts"@,
        "make_zero"@,
        "-movflags"@,
        "+faststart"@,
        "-y"@,
        output,
    ]
}

/// A composition needs at least one clip.
pub fn check_clips(count: usize, what: &str) -> (r: Result<(), VideoError>)
    ensures
        count == 0 ==> (r matches Err(VideoError::ProcessingError(m)) && m@ == "No clips provided for "@
            + what@),
        count > 0 ==> r is Ok,
{
    if count == 0 {
        let mut m = owned("No clips provided for ");
        push_all(&mut m, what);
        return Err(VideoError::ProcessingError(m));
    }
    Ok(())
}

/// Filter scaling a clip to cover the target and cropping it to the target.
pub open spec fn scale_crop_filter_text(w: u32, h: u32) -> Seq<char> {
    "scale=-1:"@ + decimal(h as nat) + ":force_original_aspect_ratio=increase,crop="@ + decimal(
        w as nat,
    ) + ":"@ + decimal(h as nat) + ",setsar=1"@
}

/// The scale-and-crop filter of a target size.
pub fn scale_crop_filter(target_width: u32, target_height: u32) -> (r: String)
    ensures
        r@ == scale_crop_filter_text(target_width, target_height),
{
    let mut s = owned("scale=-1:");
    push_decimal(&mut s, target_height as u64);
    push_all(&mut s, ":force_original_aspect_ratio=increase,crop=");
    push_decimal(&mut s, target_width as u64);
    push_all(&mut s, ":");
    push_decimal(&mut s, target_height as u64);
    push_all(&mut s, ",setsar=1");
    s
}

/// Arguments scaling and cropping one clip to the target.
pub fn scale_crop_args(input: &str, output: &str, target_width: u32, target_height: u32) -> (r:
    Vec<String>)
    ensures
        views(r@) == seq![
            "-i"@,
            input@,
            "-vf"@,
            scale_crop_filter_text(target_width, target_height),
            "-c:v"@,
            "libx264"@,
            "-preset"@,
            "medium"@,
            "-crf"@,
            "23"@,
            "-c:a"@,
            "aac"@,
            "-b:a"@,
            "192k"@,
            "-y"@,
            output@,
        ],
{
    let mut v: Vec<String> = Vec::new();
    v.push(owned("-i"));
    v.push(owned(input));
    v.push(owned("-vf"));
    v.push(scale_crop_filter(target_width, target_height));
    v.push(owned("-c:v"));
    v.push(owned("libx264"));
    v.push(owned("-preset"));
    v.push(owned("medium"));
    v.push(owned("-crf"));
    v.push(owned("23"));
    v.push(owned("-c:a"));
    v.push(owned("aac"));
    v.push(owned("-b:a"));
    v.push(owned("192k"));
    v.push(owned("-y"));
    v.push(owned(output));
    assert(views(v@) =~= seq![
        "-i"@,
        input@,
        "-vf"@,
        scale_crop_filter_text(target_width, target_height),
        "-c:v"@,
        "libx264"@,
        "-preset"@,
        "medium"@,
        "-crf"@,
        "23"@,
        "-c:a"@,
        "aac"@,
        "-b:a"@,
        "192k"@,
        "-y"@,
        output@,
    ]);
    v
}

/// Arguments joining several clips into a short of the target size.
pub fn shorts_concat_args(concat_file: &str, output: &str, target_width: u32, target_height: u32) -> (r:
    Vec<String>)
    ensures
        views(r@) == seq![
            "-f"@,
            "concat"@,
            "-safe"@,
            "0"@,
            "-i"@,
            concat_file@,
            "-vf"@,
            "scale="@ + decimal(target_width as nat) + ":"@ + decimal(target_height as nat)
                + ",setsar=1"@,
            "-c:v"@,
            "libx264"@,
            "-preset"@,
            "medium"@,
            "-crf"@,
            "23"@,
            "-c:a"@,
            "aac"@,
            "-b:a"@,
            "192k"@,
            "-y"@,
            output@,
        ],
{
    let mut vf = owned("scale=");
    push_decimal(&mut vf, target_width as u64);
    push_all(&mut vf, ":");
    push_decimal(&mut vf, target_height as u64);
    push_all(&mut vf, ",setsar=1");
    let mut v: Vec<String> = Vec::new();
    v.push(owned("-f"));
    v.push(owned("concat"));
    v.push(owned("-safe"));
    v.push(owned("0"));
    v.push(owned("-i"));
    v.push(owned(concat_file));
    v.push(owned("-vf"));
    v.push(vf);
    v.push(owned("-c:v"));
    v.push(owned("libx264"));
    v.push(owned("-preset"));
    v.push(owned("medium"));
    v.push(owned("-crf"));
    v.push(owned("23"));
    v.push(owned("-c:a"));
    v.push(owned("aac"));
    v.push(owned("-b:a"));
    v.push(owned("192k"));
    v.push(owned("-y"));
    v.push(owned(output));
    assert(views(v@) =~= seq![
        "-f"@,
        "concat"@,
        "-safe"@,
        "0"@,
        "-i"@,
        concat_file@,
        "-vf"@,
        "scale="@ + decimal(target_width as nat) + ":"@ + decimal(target_height as nat)
            + ",setsar=1"@,
        "-c:v"@,
        "libx264"@,
        "-preset"@,
        "medium"@,
        "-crf"@,
        "23"@,
        "-c:a"@,
        "aac"@,
        "-b:a"@,
        "192k"@,
        "-y"@,
        output@,
    ]);
    v
}

/// Arguments of a montage: a stream copy first, a re-encode when the copy
/// fails.
pub fn montage_args(concat_file: &str, output: &str, reencode: bool) -> (r: Vec<String>)
    ensures
        views(r@) == seq!["-f"@, "concat"@, "-safe"@, "0"@, "-i"@, concat_file@] + (if reencode {
            seq![
                "-c:v"@,
                "libx264"@,
                "-preset"@,
                "fast"@,
                "-crf"@,
                "23"@,
                "-c:a"@,
                "aac"@,
            ]
        } else {
            seq!["-c"@, "copy"@]
        }) + seq!["-y"@, output@],
{
    let mut v: Vec<String> = Vec::new();
    v.push(owned("-f"));
    v.push(owned("concat"));
    v.push(owned("-safe"));
    v.push(owned("0"));
    v.push(owned("-i"));
    v.push(owned(concat_file));
    if reencode {
        v.push(owned("-c:v"));
        v.push(owned("libx264"));
        v.push(owned("-preset"));
        v.push(owned("fast"));
        v.push(owned("-crf"));
        v.push(owned("23"));
        v.push(owned("-c:a"));
        v.push(owned("aac"));
    } else {
        v.push(owned("-c"));
        v.push(owned("copy"));
    }
    v.push(owned("-y"));
    v.push(owned(output));
    assert(views(v@) =~= seq!["-f"@, "concat"@, "-safe"@, "0"@, "-i"@, concat_file@] + (if reencode {
        seq!["-c:v"@, "libx264"@, "-preset"@, "fast"@, "-crf"@, "23"@, "-c:a"@, "aac"@]
    } else {
        seq!["-c"@, "copy"@]
    }) + seq!["-y"@, output@]);
    v
}

/// Arguments extracting one high-quality JPEG frame at `offset_ms`.
pub fn thumbnail_args(input: &str, output: &str, offset_ms: u64) -> (r: Vec<String>)
    ensures
        views(r@) == seq![
            "-ss"@,
            seconds_text(offset_ms as nat),
            "-i"@,
            input@,
            "-vframes"@,
            "1"@,
            "-q:v"@,
            "2"@,
            "-y"@,
            output@,
        ],
{
    let mut t = String::new();
    push_seconds(&mut t, offset_ms);
    assert(t@ =~= seconds_text(offset_ms as nat));
    let mut v: Vec<String> = Vec::new();
    v.push(owned("-ss"));
    v.push(t);
    v.push(owned("-i"));
    v.push(owned(input));
    v.push(owned("-vframes"));
    v.push(owned("1"));
    v.push(owned("-q:v"));
    v.push(owned("2"));
    v.push(owned("-y"));
    v.push(owned(output));
    assert(views(v@) =~= seq![
        "-ss"@,
        seconds_text(offset_ms as nat),
        "-i"@,
        input@,
        "-vframes"@,
        "1"@,
        "-q:v"@,
        "2"@,
        "-y"@,
        output@,
    ]);
    v
}

/// The xfade transition of each transition type.
pub open spec fn xfade_name(t: TransitionType) -> Seq<char> {
    match t {
        TransitionType::Fade => "fade"@,
        TransitionType::Slide => "slideleft"@,
        TransitionType::Dissolve => "dissolve"@,
        TransitionType::Wipe => "wipeleft"@,
    }
}

/// Filter joining two clips with a transition of `duration_ms`.
pub fn transition_filter(t: TransitionType, duration_ms: u64) -> (r: String)
    ensures
        r@ == "[0:v][1:v]xfade=transition="@ + xfade_name(t) + ":duration="@ + seconds_text(
            duration_ms as nat,
        ) + ":offset=0[outv]"@,
{
    let mut s = owned("[0:v][1:v]xfade=transition=");
    let name = match t {
        TransitionType::Fade => "fade",
        TransitionType::Slide => "slideleft",
        TransitionType::Dissolve => "dissolve",
        TransitionType::Wipe => "wipeleft",
    };
    push_all(&mut s, name);
    push_all(&mut s, ":duration=");
    push_seconds(&mut s, duration_ms);
    push_all(&mut s, ":offset=0[outv]");
    s
}

/// Coordinates of each text position.
pub open spec fn text_xy(p: TextPosition) -> (Seq<char>, Seq<char>) {
    match p {
        TextPosition::TopLeft => ("10"@, "h-text_h-10"@),
        TextPosition::TopRight => ("w-text_w-10"@, "h-text_h-10"@),
        TextPosition::BottomLeft => ("10"@, "h-10"@),
        TextPosition::BottomRight => ("w-text_w-10"@, "h-10"@),
        TextPosition::Center => ("(w-text_w)/2"@, "(h-text_h)/2"@),
    }
}

/// `s` with each `'` escaped as `\'`.
pub open spec fn escape_quotes(s: Seq<char>) -> Seq<char>
    decreases s.len(),
{
    if s.len() == 0 {
        Seq::empty()
    } else {
        escape_quotes(s.drop_last()) + if s.last() == '\'' {
            seq!['\\', '\'']
        } else {
            seq![s.last()]
        }
    }
}

fn escape_quotes_exec(s: &str) -> (r: String)
    ensures
        r@ == escape_quotes(s@),
{
    let c = chars_of(s);
    let mut r = String::new();
    let mut i: usize = 0;
    while i < c.len()
        invariant
            c@ == s@,
            i <= c@.len(),
            r@ == escape_quotes(s@.subrange(0, i as int)),
        decreases c@.len() - i,
    {
        assert(s@.subrange(0, i + 1).drop_last() =~= s@.subrange(0, i as int));
        if c[i] == '\'' {
            r.push('\\');
            r.push('\'');
        } else {
            r.push(c[i]);
        }
        i += 1;
        assert(r@ =~= escape_quotes(s@.subrange(0, i as int)));
    }
    assert(s@.subrange(0, c@.len() as int) =~= s@);
    r
}

/// Filter drawing `text` at `position` in `style` (its color in lower case),
/// with a shadow.
pub fn text_overlay_filter(text: &str, position: TextPosition, style: &TextStyle) -> (r: String)
    ensures
        r@ == "drawtext=text='"@ + escape_quotes(text@) + "':x="@ + text_xy(position).0 + ":y="@
            + text_xy(position).1 + ":fontsize="@ + decimal(style.size as nat) + ":fontcolor="@
            + lowercase(style.color@) + ":shadowx=2:shadowy=2"@,
{
    let (x, y) = match position {
        TextPosition::TopLeft => ("10", "h-text_h-10"),
        TextPosition::TopRight => ("w-text_w-10", "h-text_h-10"),
        TextPosition::BottomLeft => ("10", "h-10"),
        TextPosition::BottomRight => ("w-text_w-10", "h-10"),
        TextPosition::Center => ("(w-text_w)/2", "(h-text_h)/2"),
    };
    let mut s = owned("drawtext=text='");
    push_all(&mut s, escape_quotes_exec(text).as_str());
    push_all(&mut s, "':x=");
    push_all(&mut s, x);
    push_all(&mut s, ":y=");
    push_all(&mut s, y);
    push_all(&mut s, ":fontsize=");
    push_decimal(&mut s, style.size as u64);
    push_all(&mut s, ":fontcolor=");
    push_all(&mut s, to_lowercase(style.color.as_str()).as_str());
    push_all(&mut s, ":shadowx=2:shadowy=2");
    s
}

} // verus!
