//! Audio capture configuration and the FFmpeg arguments built from it.
use crate::settings::models::{AudioBitrate, AudioSettings, SampleRate};
use crate::text::{
    char_views, chars_of, contains, contains_exec, decimal, digit_char, find, find_exec, index_of,
    index_of_from, lines, lowercase, owned, push_all, push_decimal, slice_to_vec, split_lines,
    starts_with, starts_with_exec, string_from_chars, to_lowercase, trim, trimmed,
};
use vstd::prelude::*;

verus! {

/// Kind of an audio device.
#[derive(Debug, Clone, Copy, PartialEq, Eq, Structural)]
pub enum AudioDeviceType {
    Microphone,
    SystemAudio,
}

/// Audio device information.
#[derive(Debug)]
pub struct AudioDevice {
    pub name: String,
    pub device_type: AudioDeviceType,
}

/// Audio capture configuration.
#[derive(Debug, Clone)]
pub struct AudioConfig {
    /// Enable microphone recording.
    pub record_microphone: bool,
    /// Microphone device name (None = default device).
    pub microphone_device: Option<String>,
    /// Microphone volume (0-200%).
    pub microphone_volume: u8,
    /// Enable system audio recording.
    pub record_system_audio: bool,
    /// System audio device name (None = default device).
    pub system_audio_device: Option<String>,
    /// System audio volume (0-200%).
    pub system_audio_volume: u8,
    /// Audio sample rate.
    pub sample_rate: u32,
    /// Audio bitrate in kbps.
    pub bitrate: u32,
}

/// The default audio configuration: microphone at 120% and system audio at
/// 100%, both on their default devices, 48 kHz, 192 kbps.
pub open spec fn default_audio_config() -> AudioConfig {
    AudioConfig {
        record_microphone: true,
        microphone_device: None,
        microphone_volume: 120,
        record_system_audio: true,
        system_audio_device: None,
        system_audio_volume: 100,
        sample_rate: 48000,
        bitrate: 192,
    }
}

impl Default for AudioConfig {
    fn default() -> (c: Self)
        ensures
            c == default_audio_config(),
    {
        AudioConfig {
            record_microphone: true,
            microphone_device: None,
            microphone_volume: 120,
            record_system_audio: true,
            system_audio_device: None,
            system_audio_volume: 100,
            sample_rate: 48000,
            bitrate: 192,
        }
    }
}

/// The views of a list of strings.
pub open spec fn views(v: Seq<String>) -> Seq<Seq<char>> {
    v.map_values(|s: String| s@)
}

/// A volume percentage written as a factor: 150 -> "1.5", 100 -> "1", 105 -> "1.05".
pub open spec fn volume_text(v: nat) -> Seq<char> {
    let whole = decimal(v / 100);
    let frac = v % 100;
    if frac == 0 {
        whole
    } else if frac % 10 == 0 {
        whole + seq!['.', digit_char(frac / 10)]
    } else {
        whole + seq!['.', digit_char(frac / 10), digit_char(frac % 10)]
    }
}

/// The DirectShow input naming a device, or the default one.
pub open spec fn device_input(device: Option<String>, default: Seq<char>) -> Seq<char> {
    match device {
        Some(d) => "audio="@ + d@,
        None => default,
    }
}

/// Default DirectShow microphone input.
pub open spec fn default_microphone_input() -> Seq<char> {
    "audio=@device_cm_{33D9A762-90C8-11D0-BD43-00A0C911CE86}\\wave_in"@
}

/// Default DirectShow system audio input.
pub open spec fn default_system_input() -> Seq<char> {
    "audio=Stereo Mix"@
}

/// Whether any audio capture is enabled.
pub open spec fn audio_enabled(c: AudioConfig) -> bool {
    c.record_microphone || c.record_system_audio
}

/// Input arguments: one DirectShow input per enabled source, microphone first.
pub open spec fn spec_input_args(c: AudioConfig) -> Seq<Seq<char>> {
    let mic = if c.record_microphone {
        seq!["-f"@, "dshow"@, "-i"@, device_input(c.microphone_device, default_microphone_input())]
    } else {
        Seq::empty()
    };
    let sys = if c.record_system_audio {
        seq!["-f"@, "dshow"@, "-i"@, device_input(c.system_audio_device, default_system_input())]
    } else {
        Seq::empty()
    };
    mic + sys
}

/// Volume filter of the microphone input (input 1).
pub open spec fn mic_filter(c: AudioConfig) -> Seq<char> {
    "[1:a]volume="@ + volume_text(c.microphone_volume as nat) + "[mic]"@
}

/// Volume filter of the system audio input (input 2 after a microphone, else 1).
pub open spec fn sys_filter(c: AudioConfig) -> Seq<char> {
    "["@ + decimal(if c.record_microphone { 2 } else { 1 }) + ":a]volume="@ + volume_text(
        c.system_audio_volume as nat,
    ) + "[sys]"@
}

/// Filter arguments: both sources are mixed into `[aout]`; a single source is mapped directly.
pub open spec fn spec_filter_args(c: AudioConfig) -> Seq<Seq<char>> {
    if c.record_microphone && c.record_system_audio {
        seq![
            "-filter_complex"@,
            mic_filter(c) + ";"@ + sys_filter(c) + ";"@ + "[mic][sys]amix=inputs=2[aout]"@,
        ]
    } else if c.record_microphone {
        seq!["-filter_complex"@, mic_filter(c), "-map"@, "0:v"@, "-map"@, "[mic]"@]
    } else if c.record_system_audio {
        seq!["-filter_complex"@, sys_filter(c), "-map"@, "0:v"@, "-map"@, "[sys]"@]
    } else {
        Seq::empty()
    }
}

/// Map arguments, present only when two sources are mixed.
pub open spec fn spec_map_args(c: AudioConfig) -> Seq<Seq<char>> {
    if c.record_microphone && c.record_system_audio {
        seq!["-map"@, "0:v"@, "-map"@, "[aout]"@]
    } else {
        Seq::empty()
    }
}

/// Codec arguments: AAC at the configured bitrate and sample rate.
pub open spec fn spec_codec_args(c: AudioConfig) -> Seq<Seq<char>> {
    if audio_enabled(c) {
        seq![
            "-c:a"@,
            "aac"@,
            "-b:a"@,
            decimal(c.bitrate as nat) + "k"@,
            "-ar"@,
            decimal(c.sample_rate as nat),
        ]
    } else {
        Seq::empty()
    }
}

/// Appends the factor form of a volume percentage.
fn push_volume(s: &mut String, v: u8)
    ensures
        final(s)@ == old(s)@ + volume_text(v as nat),
{
    let whole = (v / 100) as u64;
    let frac = v % 100;
    push_decimal(s, whole);
    if frac != 0 {
        s.push('.');
        let tens = frac / 10;
        let b: u8 = 48u8 + tens;
        s.push(b as char);
        if frac % 10 != 0 {
            let b2: u8 = 48u8 + frac % 10;
            s.push(b2 as char);
        }
    }
    proof {
        let f = (v % 100) as nat;
        if f != 0 {
            if f % 10 == 0 {
                assert(final(s)@ =~= old(s)@ + volume_text(v as nat));
            } else {
                assert(final(s)@ =~= old(s)@ + volume_text(v as nat));
            }
        } else {
            assert(final(s)@ =~= old(s)@ + volume_text(v as nat));
        }
    }
}

fn device_arg(device: &Option<String>, default: &str) -> (r: String)
    ensures
        r@ == device_input(*device, default@),
{
    match device {
        Some(d) => {
            let mut s = owned("audio=");
            push_all(&mut s, d.as_str());
            s
        },
        None => owned(default),
    }
}

fn mic_filter_text(c: &AudioConfig) -> (r: String)
    ensures
        r@ == mic_filter(*c),
{
    let mut s = owned("[1:a]volume=");
    push_volume(&mut s, c.microphone_volume);
    push_all(&mut s, "[mic]");
    s
}

fn sys_filter_text(c: &AudioConfig) -> (r: String)
    ensures
        r@ == sys_filter(*c),
{
    let mut s = owned("[");
    let idx: u64 = if c.record_microphone {
        2
    } else {
        1
    };
    push_decimal(&mut s, idx);
    push_all(&mut s, ":a]volume=");
    push_volume(&mut s, c.system_audio_volume);
    push_all(&mut s, "[sys]");
    s
}

impl AudioConfig {
    /// Check if any audio capture is enabled.
    pub fn is_enabled(&self) -> (r: bool)
        ensures
            r == audio_enabled(*self),
    {
        self.record_microphone || self.record_system_audio
    }

    /// Build FFmpeg audio input arguments.
    ///
    /// Returns (input_args, filter_args, map_args, codec_args); all four are empty
    /// when no audio is captured.
    pub fn build_ffmpeg_args(&self) -> (r: (Vec<String>, Vec<String>, Vec<String>, Vec<String>))
        ensures
            views(r.0@) == spec_input_args(*self),
            views(r.1@) == spec_filter_args(*self),
            views(r.2@) == spec_map_args(*self),
            views(r.3@) == spec_codec_args(*self),
    {
        if !self.is_enabled() {
            let r = (Vec::new(), Vec::new(), Vec::new(), Vec::new());
            assert(views(r.0@) =~= spec_input_args(*self));
            assert(views(r.1@) =~= spec_filter_args(*self));
            assert(views(r.2@) =~= spec_map_args(*self));
            assert(views(r.3@) =~= spec_codec_args(*self));
            return r;
        }
        let mut codec_args: Vec<String> = Vec::new();
        codec_args.push(owned("-c:a"));
        codec_args.push(owned("aac"));
        codec_args.push(owned("-b:a"));
        let mut rate = String::new();
        push_decimal(&mut rate, self.bitrate as u64);
        push_all(&mut rate, "k");
        codec_args.push(rate);
        codec_args.push(owned("-ar"));
        let mut sr = String::new();
        push_decimal(&mut sr, self.sample_rate as u64);
        codec_args.push(sr);
        assert(views(codec_args@) =~= spec_codec_args(*self));

        let mut input_args: Vec<String> = Vec::new();
        if self.record_microphone {
            input_args.push(owned("-f"));
            input_args.push(owned("dshow"));
            input_args.push(owned("-i"));
            input_args.push(
                device_arg(
                    &self.microphone_device,
                    "audio=@device_cm_{33D9A762-90C8-11D0-BD43-00A0C911CE86}\\wave_in",
                ),
            );
        }
        if self.record_system_audio {
            input_args.push(owned("-f"));
            input_args.push(owned("dshow"));
            input_args.push(owned("-i"));
            input_args.push(device_arg(&self.system_audio_device, "audio=Stereo Mix"));
        }
        assert(views(input_args@) =~= spec_input_args(*self));

        let mut filter_args: Vec<String> = Vec::new();
        let mut map_args: Vec<String> = Vec::new();
        if self.record_microphone && self.record_system_audio {
            let mut f = mic_filter_text(self);
            push_all(&mut f, ";");
            let sf = sys_filter_text(self);
            push_all(&mut f, sf.as_str());
            push_all(&mut f, ";");
            push_all(&mut f, "[mic][sys]amix=inputs=2[aout]");
            filter_args.push(owned("-filter_complex"));
            filter_args.push(f);
            map_args.push(owned("-map"));
            map_args.push(owned("0:v"));
            map_args.push(owned("-map"));
            map_args.push(owned("[aout]"));
        } else {
            filter_args.push(owned("-filter_complex"));
            if self.record_microphone {
                filter_args.push(mic_filter_text(self));
            } else {
                filter_args.push(sys_filter_text(self));
            }
            filter_args.push(owned("-map"));
            filter_args.push(owned("0:v"));
            filter_args.push(owned("-map"));
            if self.record_microphone {
                filter_args.push(owned("[mic]"));
            } else {
                filter_args.push(owned("[sys]"));
            }
        }
        assert(views(filter_args@) =~= spec_filter_args(*self));
        assert(views(map_args@) =~= spec_map_args(*self));
        (input_args, filter_args, map_args, codec_args)
    }
}


// ============================================================================
// Applied audio configuration
// ============================================================================

/// The capture configuration built from applied settings: their sources,
/// devices, volumes, sample rate and bitrate.
pub open spec fn capture_config_of(s: AudioSettings) -> AudioConfig {
    AudioConfig {
        record_microphone: s.record_microphone,
        microphone_device: s.microphone_device,
        microphone_volume: s.microphone_volume,
        record_system_audio: s.record_system_audio,
        system_audio_device: s.system_audio_device,
        system_audio_volume: s.system_audio_volume,
        sample_rate: match s.sample_rate {
            SampleRate::Hz44100 => 44100,
            SampleRate::Hz48000 => 48000,
        },
        bitrate: match s.bitrate {
            AudioBitrate::Kbps128 => 128,
            AudioBitrate::Kbps192 => 192,
            AudioBitrate::Kbps256 => 256,
            AudioBitrate::Kbps320 => 320,
        },
    }
}

/// Why settings are refused, in the order the checks run: an enabled source
/// without a device, then a volume above 200%.
pub open spec fn audio_config_error(c: AudioSettings) -> Option<Seq<char>> {
    if c.record_microphone && c.microphone_device is None {
        Some(
            "Microphone recording enabled but no device selected. Please select a microphone device in settings."@,
        )
    } else if c.record_system_audio && c.system_audio_device is None {
        Some(
            "System audio recording enabled but no device selected. Please select a system audio device (e.g., 'Stereo Mix' or 'What U Hear') in settings."@,
        )
    } else if c.microphone_volume > 200 {
        Some(
            "Microphone volume must be between 0 and 200. Got: "@ + decimal(
                c.microphone_volume as nat,
            ),
        )
    } else if c.system_audio_volume > 200 {
        Some(
            "System audio volume must be between 0 and 200. Got: "@ + decimal(
                c.system_audio_volume as nat,
            ),
        )
    } else {
        None
    }
}

/// The applied configuration after settings are offered: they replace it when
/// accepted, and it stays as it was when they are refused.
pub open spec fn applied_after(current: Option<AudioSettings>, offered: AudioSettings) -> Option<
    AudioSettings,
> {
    if audio_config_error(offered) is None {
        Some(offered)
    } else {
        current
    }
}

/// The four argument lists of a capture configuration.
pub open spec fn spec_audio_args(c: AudioConfig) -> (
    Seq<Seq<char>>,
    Seq<Seq<char>>,
    Seq<Seq<char>>,
    Seq<Seq<char>>,
) {
    (spec_input_args(c), spec_filter_args(c), spec_map_args(c), spec_codec_args(c))
}

/// The arguments built from the applied configuration, if there is one.
pub open spec fn applied_audio_args(current: Option<AudioSettings>) -> Option<
    (Seq<Seq<char>>, Seq<Seq<char>>, Seq<Seq<char>>, Seq<Seq<char>>),
> {
    match current {
        Some(s) => Some(spec_audio_args(capture_config_of(s))),
        None => None,
    }
}

/// The audio settings in effect for recording; none until some are applied.
pub struct AudioConfigState {
    current: Option<AudioSettings>,
}

impl View for AudioConfigState {
    type V = Option<AudioSettings>;

    closed spec fn view(&self) -> Option<AudioSettings> {
        self.current
    }
}

impl AudioConfigState {
    /// No configuration applied yet.
    pub fn new() -> (r: Self)
        ensures
            r@ is None,
    {
        AudioConfigState { current: None }
    }
}

/// Validates the settings and, when they pass, makes them the applied configuration.
pub fn apply_audio_config(state: &mut AudioConfigState, config: &AudioSettings) -> (r: Result<
    (),
    String,
>)
    ensures
        final(state)@ == applied_after(old(state)@, *config),
        match audio_config_error(*config) {
            Some(msg) => (r matches Err(e) && e@ == msg),
            None => r is Ok,
        },
{
    if config.record_microphone && config.microphone_device.is_none() {
        return Err(
            owned(
                "Microphone recording enabled but no device selected. Please select a microphone device in settings.",
            ),
        );
    }
    if config.record_system_audio && config.system_audio_device.is_none() {
        return Err(
            owned(
                "System audio recording enabled but no device selected. Please select a system audio device (e.g., 'Stereo Mix' or 'What U Hear') in settings.",
            ),
        );
    }
    if config.microphone_volume > 200 {
        let mut e = owned("Microphone volume must be between 0 and 200. Got: ");
        push_decimal(&mut e, config.microphone_volume as u64);
        return Err(e);
    }
    if config.system_audio_volume > 200 {
        let mut e = owned("System audio volume must be between 0 and 200. Got: ");
        push_decimal(&mut e, config.system_audio_volume as u64);
        return Err(e);
    }
    state.current = Some(config.copy());
    Ok(())
}

/// The currently applied audio configuration.
pub fn get_current_audio_config(state: &AudioConfigState) -> (r: Option<AudioSettings>)
    ensures
        r == state@,
{
    match &state.current {
        Some(c) => Some(c.copy()),
        None => None,
    }
}

/// FFmpeg audio arguments from the applied configuration, with its sample rate
/// and bitrate.
pub fn build_audio_args_from_config(state: &AudioConfigState) -> (r: Result<
    (Vec<String>, Vec<String>, Vec<String>, Vec<String>),
    String,
>)
    ensures
        match applied_audio_args(state@) {
            Some(a) => (r matches Ok(v) && views(v.0@) == a.0 && views(v.1@) == a.1 && views(
                v.2@,
            ) == a.2 && views(v.3@) == a.3),
            None => (r matches Err(e) && e@
                == "No audio configuration applied. Call apply_audio_config first."@),
        },
{
    match get_current_audio_config(state) {
        None => Err(owned("No audio configuration applied. Call apply_audio_config first.")),
        Some(config) => {
            let sample_rate = config.sample_rate_hz();
            let bitrate = config.bitrate_kbps();
            let audio_config = AudioConfig {
                record_microphone: config.record_microphone,
                microphone_device: config.microphone_device,
                microphone_volume: config.microphone_volume,
                record_system_audio: config.record_system_audio,
                system_audio_device: config.system_audio_device,
                system_audio_volume: config.system_audio_volume,
                sample_rate,
                bitrate,
            };
            Ok(audio_config.build_ffmpeg_args())
        },
    }
}

/// The applied configuration after each of `offered` was offered in turn.
pub open spec fn applied_after_all(current: Option<AudioSettings>, offered: Seq<AudioSettings>) -> Option<
    AudioSettings,
>
    decreases offered.len(),
{
    if offered.len() == 0 {
        current
    } else {
        applied_after(applied_after_all(current, offered.drop_last()), offered.last())
    }
}

/// The last of `offered` that is accepted, if any.
pub open spec fn last_accepted(offered: Seq<AudioSettings>) -> Option<AudioSettings>
    decreases offered.len(),
{
    if offered.len() == 0 {
        None
    } else if audio_config_error(offered.last()) is None {
        Some(offered.last())
    } else {
        last_accepted(offered.drop_last())
    }
}

/// Whatever settings are offered in turn, the applied configuration read back
/// is the last accepted one, refused offers after it changing nothing; when
/// none is accepted it is what was applied before (`None` on a new state).
pub proof fn law_last_accepted_config_is_read_back(
    current: Option<AudioSettings>,
    offered: Seq<AudioSettings>,
)
    ensures
        applied_after_all(current, offered) == (match last_accepted(offered) {
            Some(c) => Some(c),
            None => current,
        }),
    decreases offered.len(),
{
    if offered.len() > 0 {
        law_last_accepted_config_is_read_back(current, offered.drop_last());
    }
}

/// Applying settings and then building arguments: accepted settings give exactly
/// their own arguments; refused settings leave the built arguments as they were.
pub proof fn law_applied_config_drives_arguments(
    current: Option<AudioSettings>,
    offered: AudioSettings,
)
    ensures
        audio_config_error(offered) is None ==> applied_audio_args(applied_after(current, offered))
            == Some(spec_audio_args(capture_config_of(offered))),
        audio_config_error(offered) is Some ==> applied_audio_args(applied_after(current, offered))
            == applied_audio_args(current),
{
}


// ============================================================================
// Device lists
// ============================================================================

/// The names of a list of devices.
pub open spec fn device_names(v: Seq<AudioDevice>) -> Seq<Seq<char>> {
    v.map_values(|d: AudioDevice| d.name@)
}

/// A DirectShow device is a microphone when its lowercase name mentions
/// "mic", "microphone" or "input"; otherwise it is system audio.
pub open spec fn dshow_device_type(name: Seq<char>) -> AudioDeviceType {
    let low = lowercase(name);
    if contains(low, "mic"@) || contains(low, "microphone"@) || contains(low, "input"@) {
        AudioDeviceType::Microphone
    } else {
        AudioDeviceType::SystemAudio
    }
}

/// The text between the first two double quotes of a line.
pub open spec fn quoted_name(line: Seq<char>) -> Option<Seq<char>> {
    match index_of(line, '"') {
        Some(a) => match index_of(line.subrange(a + 1, line.len() as int), '"') {
            Some(e) => Some(line.subrange(a + 1, a + 1 + e)),
            None => None,
        },
        None => None,
    }
}

/// Device names of an FFmpeg DirectShow listing: the quoted names on the lines
/// after the audio header, up to the video header.
pub open spec fn dshow_scan(ls: Seq<Seq<char>>, in_audio: bool) -> Seq<Seq<char>>
    decreases ls.len(),
{
    if ls.len() == 0 {
        Seq::empty()
    } else if contains(ls[0], "DirectShow audio devices"@) {
        dshow_scan(ls.drop_first(), true)
    } else if contains(ls[0], "DirectShow video devices"@) {
        Seq::empty()
    } else if in_audio && quoted_name(ls[0]) is Some {
        seq![quoted_name(ls[0]).unwrap()] + dshow_scan(ls.drop_first(), in_audio)
    } else {
        dshow_scan(ls.drop_first(), in_audio)
    }
}

/// The device names listed in FFmpeg's DirectShow device output.
pub open spec fn dshow_names(output: Seq<char>) -> Seq<Seq<char>> {
    dshow_scan(lines(output), false)
}

fn quoted_name_exec(line: &[char]) -> (r: Option<Vec<char>>)
    ensures
        match quoted_name(line@) {
            Some(n) => (r matches Some(v) && v@ == n),
            None => r is None,
        },
{
    proof {
        assert(line@.subrange(0, line@.len() as int) =~= line@);
    }
    // Positions found lie below this length, so one past them fits in `usize`.
    let _len = line.len();
    match index_of_from(line, '"', 0) {
        Some(a) => match index_of_from(line, '"', a + 1) {
            Some(b) => Some(slice_to_vec(line, a + 1, b)),
            None => None,
        },
        None => None,
    }
}

fn dshow_kind(name: &str) -> (k: AudioDeviceType)
    ensures
        k == dshow_device_type(name@),
{
    let low = to_lowercase(name);
    let lc = chars_of(low.as_str());
    if contains_exec(&lc, &chars_of("mic")) || contains_exec(&lc, &chars_of("microphone"))
        || contains_exec(&lc, &chars_of("input")) {
        AudioDeviceType::Microphone
    } else {
        AudioDeviceType::SystemAudio
    }
}

/// Audio devices of FFmpeg's DirectShow device listing (its standard error), in
/// the order listed, each classified by its name.
pub fn parse_dshow_audio_devices(output: &str) -> (r: Vec<AudioDevice>)
    ensures
        device_names(r@) == dshow_names(output@),
        forall|i: int|
            0 <= i < r@.len() ==> #[trigger] r@[i].device_type == dshow_device_type(r@[i].name@),
{
    let text = chars_of(output);
    let ls = split_lines(&text);
    let audio_header = chars_of("DirectShow audio devices");
    let video_header = chars_of("DirectShow video devices");
    let ghost all = char_views(ls@);
    let n = ls.len();
    let mut in_audio = false;
    let mut out: Vec<AudioDevice> = Vec::new();
    let mut i: usize = 0;
    assert(all.skip(0) =~= all);
    assert(device_names(out@) =~= Seq::<Seq<char>>::empty());
    while i < n
        invariant
            n == ls@.len(),
            all == char_views(ls@),
            all == lines(output@),
            audio_header@ == "DirectShow audio devices"@,
            video_header@ == "DirectShow video devices"@,
            i <= n,
            device_names(out@) + dshow_scan(all.skip(i as int), in_audio) == dshow_scan(all, false),
            forall|j: int|
                0 <= j < out@.len() ==> #[trigger] out@[j].device_type == dshow_device_type(
                    out@[j].name@,
                ),
        decreases n - i,
    {
        let line = &ls[i];
        let ghost rest = all.skip(i as int);
        assert(rest[0] == line@);
        assert(rest.drop_first() =~= all.skip(i + 1));
        if contains_exec(line, &audio_header) {
            in_audio = true;
            i += 1;
        } else if contains_exec(line, &video_header) {
            assert(all.skip(n as int) =~= Seq::<Seq<char>>::empty());
            assert(device_names(out@) + dshow_scan(all.skip(n as int), in_audio) =~= device_names(
                out@,
            ));
            i = n;
        } else {
            if in_audio {
                match quoted_name_exec(line) {
                    Some(name_chars) => {
                        let name = string_from_chars(&name_chars);
                        let kind = dshow_kind(name.as_str());
                        let ghost prev = out@;
                        out.push(AudioDevice { name, device_type: kind });
                        assert(device_names(out@) =~= device_names(prev).push(name_chars@));
                        assert(device_names(out@) + dshow_scan(all.skip(i + 1), in_audio)
                            =~= device_names(prev) + dshow_scan(rest, in_audio));
                    },
                    None => {},
                }
            }
            i += 1;
        }
    }
    assert(all.skip(n as int) =~= Seq::<Seq<char>>::empty());
    assert(device_names(out@) =~= device_names(out@) + dshow_scan(all.skip(n as int), in_audio));
    out
}


/// `s` without leading copies of `c`.
pub open spec fn strip_start(s: Seq<char>, c: char) -> Seq<char>
    decreases s.len(),
{
    if s.len() > 0 && s[0] == c {
        strip_start(s.drop_first(), c)
    } else {
        s
    }
}

/// `s` without trailing copies of `c`.
pub open spec fn strip_end(s: Seq<char>, c: char) -> Seq<char>
    decreases s.len(),
{
    if s.len() > 0 && s.last() == c {
        strip_end(s.drop_last(), c)
    } else {
        s
    }
}

/// `s` without leading and trailing copies of `c`, as `str::trim_matches` gives it.
pub open spec fn strip_both(s: Seq<char>, c: char) -> Seq<char> {
    strip_end(strip_start(s, c), c)
}

/// The characters of `v` without leading and trailing copies of `c`.
fn strip_char(v: &[char], c: char) -> (r: Vec<char>)
    ensures
        r@ == strip_both(v@, c),
{
    let n = v.len();
    let mut a: usize = 0;
    assert(v@.subrange(0, n as int) =~= v@);
    while a < n && v[a] == c
        invariant
            n == v@.len(),
            a <= n,
            strip_start(v@, c) == strip_start(v@.subrange(a as int, n as int), c),
        decreases n - a,
    {
        assert(v@.subrange(a as int, n as int).drop_first() =~= v@.subrange(a + 1, n as int));
        a += 1;
    }
    let mut b: usize = n;
    while b > a && v[b - 1] == c
        invariant
            n == v@.len(),
            a <= b <= n,
            strip_start(v@, c) == v@.subrange(a as int, n as int),
            strip_end(v@.subrange(a as int, n as int), c) == strip_end(
                v@.subrange(a as int, b as int),
                c,
            ),
        decreases b - a,
    {
        assert(v@.subrange(a as int, b as int).drop_last() =~= v@.subrange(a as int, b - 1));
        b -= 1;
    }
    slice_to_vec(v, a, b)
}

/// A registry line that names a device description: `DeviceDesc` in its
/// trimmed text and `REG_SZ` on the line, and not a key line.
pub open spec fn registry_desc_line(line: Seq<char>) -> bool {
    let t = trim(line);
    !starts_with(t, "HKEY_"@) && contains(t, "DeviceDesc"@) && contains(line, "REG_SZ"@)
}

/// The description on such a line: what follows `REG_SZ` and one more character,
/// trimmed, without surrounding double quotes.
pub open spec fn registry_desc(line: Seq<char>) -> Seq<char> {
    let k = find(line, "REG_SZ"@).unwrap();
    strip_both(trim(line.subrange(k + 7, line.len() as int)), '"')
}

/// One registry line read with the device seen last and the names kept so far:
/// a key line forgets the device, a description line names a new one, and a
/// blank line keeps the device seen last unless it is already kept.
pub open spec fn registry_step(
    st: (Option<Seq<char>>, Seq<Seq<char>>),
    line: Seq<char>,
) -> (Option<Seq<char>>, Seq<Seq<char>>) {
    let t = trim(line);
    if starts_with(t, "HKEY_"@) {
        (None, st.1)
    } else if registry_desc_line(line) {
        if registry_desc(line).len() > 0 {
            (Some(registry_desc(line)), st.1)
        } else {
            st
        }
    } else if t.len() == 0 && st.0 is Some {
        if st.1.contains(st.0.unwrap()) {
            st
        } else {
            (st.0, st.1.push(st.0.unwrap()))
        }
    } else {
        st
    }
}

/// The state after reading all of `ls`.
pub open spec fn registry_scan(ls: Seq<Seq<char>>) -> (Option<Seq<char>>, Seq<Seq<char>>)
    decreases ls.len(),
{
    if ls.len() == 0 {
        (None, Seq::empty())
    } else {
        registry_step(registry_scan(ls.drop_last()), ls.last())
    }
}

/// The distinct device descriptions of `reg query` output, in order of appearance.
pub open spec fn registry_names(output: Seq<char>) -> Seq<Seq<char>> {
    registry_scan(lines(output)).1
}

/// A description line can be cut after `REG_SZ`: a character follows it, and it
/// is a one-byte (ASCII) character, so the byte offset seven past the match is a
/// character boundary within the line.
pub open spec fn registry_line_cuttable(line: Seq<char>) -> bool {
    registry_desc_line(line) ==> (match find(line, "REG_SZ"@) {
        Some(k) => k + 6 < line.len() && (line[k + 6] as u32) < 128,
        None => true,
    })
}

/// Every description line of the output can be cut after `REG_SZ`.
pub open spec fn registry_output_cuttable(output: Seq<char>) -> bool {
    forall|i: int| 0 <= i < lines(output).len() ==> #[trigger] registry_line_cuttable(lines(output)[i])
}

fn registry_line_cuttable_exec(line: &[char]) -> (r: bool)
    ensures
        r == registry_line_cuttable(line@),
{
    let t = trimmed(line);
    if starts_with_exec(&t, &chars_of("HKEY_")) || !contains_exec(&t, &chars_of("DeviceDesc")) {
        return true;
    }
    match find_exec(line, &chars_of("REG_SZ")) {
        Some(k) => k < line.len() && line.len() - k > 6 && (line[k + 6] as u32) < 128,
        None => true,
    }
}

/// Whether `parse_registry_audio_output` can read this output: every description
/// line has a one-byte character right after `REG_SZ`.
pub fn registry_output_parsable(output: &str) -> (r: bool)
    ensures
        r == registry_output_cuttable(output@),
{
    let text = chars_of(output);
    let ls = split_lines(&text);
    let ghost all = char_views(ls@);
    let mut i: usize = 0;
    while i < ls.len()
        invariant
            all == char_views(ls@),
            all == lines(output@),
            i <= ls@.len(),
            forall|j: int| 0 <= j < i ==> #[trigger] registry_line_cuttable(all[j]),
        decreases ls@.len() - i,
    {
        if !registry_line_cuttable_exec(&ls[i]) {
            assert(!registry_line_cuttable(all[i as int]));
            return false;
        }
        i += 1;
    }
    true
}

fn chars_eq(a: &[char], b: &[char]) -> (r: bool)
    ensures
        r == (a@ == b@),
{
    if a.len() != b.len() {
        return false;
    }
    let r = crate::text::occurs_at_exec(a, b, 0);
    assert(a@.subrange(0, b@.len() as int) =~= a@);
    r
}

fn name_kept(names: &Vec<Vec<char>>, n: &[char]) -> (r: bool)
    ensures
        r == char_views(names@).contains(n@),
{
    let mut i: usize = 0;
    while i < names.len()
        invariant
            i <= names@.len(),
            forall|j: int| 0 <= j < i ==> #[trigger] char_views(names@)[j] != n@,
        decreases names@.len() - i,
    {
        if chars_eq(&names[i], n) {
            assert(char_views(names@)[i as int] == n@);
            return true;
        }
        i += 1;
    }
    false
}

/// Audio devices named by `reg query ... /v DeviceDesc` output: each distinct
/// description once, in order, all of one kind (capture keys give microphones,
/// render keys system audio).
#[verifier::spinoff_prover]
pub fn parse_registry_audio_output(output: &str, is_capture: bool) -> (r: Vec<AudioDevice>)
    requires
        registry_output_cuttable(output@),
    ensures
        device_names(r@) == registry_names(output@),
        forall|i: int|
            0 <= i < r@.len() ==> #[trigger] r@[i].device_type == (if is_capture {
                AudioDeviceType::Microphone
            } else {
                AudioDeviceType::SystemAudio
            }),
{
    let kind = if is_capture {
        AudioDeviceType::Microphone
    } else {
        AudioDeviceType::SystemAudio
    };
    let text = chars_of(output);
    let ls = split_lines(&text);
    let hkey = chars_of("HKEY_");
    let desc_key = chars_of("DeviceDesc");
    let reg_sz = chars_of("REG_SZ");
    let ghost all = char_views(ls@);
    let mut current: Option<Vec<char>> = None;
    let mut names: Vec<Vec<char>> = Vec::new();
    let mut out: Vec<AudioDevice> = Vec::new();
    let mut i: usize = 0;
    assert(all.take(0) =~= Seq::<Seq<char>>::empty());
    while i < ls.len()
        invariant
            all == char_views(ls@),
            all == lines(output@),
            registry_output_cuttable(output@),
            hkey@ == "HKEY_"@,
            desc_key@ == "DeviceDesc"@,
            reg_sz@ == "REG_SZ"@,
            i <= ls@.len(),
            registry_scan(all.take(i as int)).0 == (match current {
                Some(c) => Some(c@),
                None => None::<Seq<char>>,
            }),
            registry_scan(all.take(i as int)).1 == char_views(names@),
            device_names(out@) == char_views(names@),
            forall|j: int| 0 <= j < out@.len() ==> #[trigger] out@[j].device_type == kind,
        decreases ls@.len() - i,
    {
        let line = &ls[i];
        proof {
            assert(all.take(i + 1).drop_last() =~= all.take(i as int));
            assert(all.take(i + 1).last() == line@);
            assert(registry_line_cuttable(all[i as int]));
        }
        let t = trimmed(line);
        if starts_with_exec(&t, &hkey) {
            current = None;
        } else if contains_exec(&t, &desc_key) && contains_exec(line, &reg_sz) {
            match find_exec(line, &reg_sz) {
                Some(k) => {
                    let rest = slice_to_vec(line, k + 7, line.len());
                    let d = strip_char(&trimmed(&rest), '"');
                    if d.len() > 0 {
                        current = Some(d);
                    }
                },
                None => {},
            }
        } else if t.len() == 0 && current.is_some() {
            match &current {
                Some(c) => {
                    if !name_kept(&names, c) {
                        let ghost prev_names = names@;
                        let ghost prev_out = out@;
                        names.push(slice_to_vec(c, 0, c.len()));
                        out.push(AudioDevice { name: string_from_chars(c), device_type: kind });
                        proof {
                            assert(c@.subrange(0, c@.len() as int) =~= c@);
                            assert(char_views(names@) =~= char_views(prev_names).push(c@));
                            assert(device_names(out@) =~= device_names(prev_out).push(c@));
                        }
                    }
                },
                None => {},
            }
        }
        i += 1;
    }
    assert(all.take(ls@.len() as int) =~= all);
    out
}


/// The kinds of a list of devices.
pub open spec fn device_types(v: Seq<AudioDevice>) -> Seq<AudioDeviceType> {
    v.map_values(|d: AudioDevice| d.device_type)
}

/// A sound device reported by WMI is a microphone when its lowercase name
/// mentions "capture", "microphone", "input" or "mic"; otherwise system audio.
pub open spec fn wmi_device_type(name: Seq<char>) -> AudioDeviceType {
    let low = lowercase(name);
    if contains(low, "capture"@) || contains(low, "microphone"@) || contains(low, "input"@)
        || contains(low, "mic"@) {
        AudioDeviceType::Microphone
    } else {
        AudioDeviceType::SystemAudio
    }
}

/// The distinct names among the `Name` fields, in order of first appearance;
/// entries without a name are skipped.
pub open spec fn wmi_scan(fields: Seq<Option<Seq<char>>>) -> Seq<Seq<char>>
    decreases fields.len(),
{
    if fields.len() == 0 {
        Seq::empty()
    } else {
        let prev = wmi_scan(fields.drop_last());
        match fields.last() {
            Some(n) => if prev.contains(n) {
                prev
            } else {
                prev.push(n)
            },
            None => prev,
        }
    }
}

/// What `serde_json::from_str::<Vec<serde_json::Value>>` gives for a text, read
/// through the string `Name` field of each element: `None` when the text is not
/// a JSON array, else one entry per element, `None` where the element has no
/// string `Name`.
pub uninterp spec fn json_array_names(json: Seq<char>) -> Option<Seq<Option<Seq<char>>>>;

/// The views of optional names.
pub open spec fn name_field_views(v: Seq<Option<String>>) -> Seq<Option<Seq<char>>> {
    v.map_values(
        |o: Option<String>|
            match o {
                Some(s) => Some(s@),
                None => None,
            },
    )
}

/// Parses a JSON array with `serde_json` and reads each element's string `Name`.
#[verifier::external_body]
fn json_name_fields(json: &str) -> (r: Option<Vec<Option<String>>>)
    ensures
        match r {
            Some(v) => json_array_names(json@) == Some(name_field_views(v@)),
            None => json_array_names(json@) is None,
        },
{
    match serde_json::from_str::<Vec<serde_json::Value>>(json) {
        Ok(values) => Some(
            values.iter().map(|d| d.get("Name").and_then(|v| v.as_str()).map(|n| n.to_string())).collect(),
        ),
        Err(_) => None,
    }
}

fn wmi_kind(name: &str) -> (k: AudioDeviceType)
    ensures
        k == wmi_device_type(name@),
{
    let low = to_lowercase(name);
    let lc = chars_of(low.as_str());
    if contains_exec(&lc, &chars_of("capture")) || contains_exec(&lc, &chars_of("microphone"))
        || contains_exec(&lc, &chars_of("input")) || contains_exec(&lc, &chars_of("mic")) {
        AudioDeviceType::Microphone
    } else {
        AudioDeviceType::SystemAudio
    }
}

/// Audio devices from the `Name` fields of WMI sound devices: each distinct name
/// once, in order, classified by its name.
pub fn wmi_audio_devices(fields: &[Option<String>]) -> (r: Vec<AudioDevice>)
    ensures
        device_names(r@) == wmi_scan(name_field_views(fields@)),
        forall|i: int|
            0 <= i < r@.len() ==> #[trigger] r@[i].device_type == wmi_device_type(r@[i].name@),
{
    let ghost all = name_field_views(fields@);
    let mut names: Vec<Vec<char>> = Vec::new();
    let mut out: Vec<AudioDevice> = Vec::new();
    let mut i: usize = 0;
    assert(all.take(0) =~= Seq::<Option<Seq<char>>>::empty());
    while i < fields.len()
        invariant
            all == name_field_views(fields@),
            i <= fields@.len(),
            wmi_scan(all.take(i as int)) == char_views(names@),
            device_names(out@) == char_views(names@),
            forall|j: int|
                0 <= j < out@.len() ==> #[trigger] out@[j].device_type == wmi_device_type(
                    out@[j].name@,
                ),
        decreases fields@.len() - i,
    {
        proof {
            assert(all.take(i + 1).drop_last() =~= all.take(i as int));
        }
        match &fields[i] {
            Some(name) => {
                let c = chars_of(name.as_str());
                if !name_kept(&names, &c) {
                    let ghost prev_names = names@;
                    let ghost prev_out = out@;
                    let kind = wmi_kind(name.as_str());
                    out.push(AudioDevice { name: string_from_chars(&c), device_type: kind });
                    names.push(c);
                    proof {
                        assert(char_views(names@) =~= char_views(prev_names).push(name@));
                        assert(device_names(out@) =~= device_names(prev_out).push(name@));
                    }
                }
            },
            None => {},
        }
        i += 1;
    }
    assert(all.take(fields@.len() as int) =~= all);
    out
}

/// Audio devices listed by WMI as a JSON array of sound devices; none when the
/// text is not a JSON array.
pub fn list_wmi_audio_devices(json: &str) -> (r: Vec<AudioDevice>)
    ensures
        match json_array_names(json@) {
            Some(f) => device_names(r@) == wmi_scan(f) && forall|i: int|
                0 <= i < r@.len() ==> #[trigger] r@[i].device_type == wmi_device_type(r@[i].name@),
            None => r@.len() == 0,
        },
{
    match json_name_fields(json) {
        Some(fields) => wmi_audio_devices(&fields),
        None => Vec::new(),
    }
}

/// The device names assumed when no device can be listed.
pub open spec fn default_device_names() -> Seq<Seq<char>> {
    seq!["스피커"@, "마이크"@, "Microphone"@, "Speakers"@, "Headphones"@, "Line In"@]
}

/// The kinds of the assumed devices.
pub open spec fn default_device_types() -> Seq<AudioDeviceType> {
    seq![
        AudioDeviceType::SystemAudio,
        AudioDeviceType::Microphone,
        AudioDeviceType::Microphone,
        AudioDeviceType::SystemAudio,
        AudioDeviceType::SystemAudio,
        AudioDeviceType::Microphone,
    ]
}

/// Common Windows audio device names, used when enumeration fails.
pub fn default_audio_devices() -> (r: Vec<AudioDevice>)
    ensures
        device_names(r@) == default_device_names(),
        device_types(r@) == default_device_types(),
{
    let mut v: Vec<AudioDevice> = Vec::new();
    v.push(AudioDevice { name: owned("스피커"), device_type: AudioDeviceType::SystemAudio });
    v.push(AudioDevice { name: owned("마이크"), device_type: AudioDeviceType::Microphone });
    v.push(AudioDevice { name: owned("Microphone"), device_type: AudioDeviceType::Microphone });
    v.push(AudioDevice { name: owned("Speakers"), device_type: AudioDeviceType::SystemAudio });
    v.push(AudioDevice { name: owned("Headphones"), device_type: AudioDeviceType::SystemAudio });
    v.push(AudioDevice { name: owned("Line In"), device_type: AudioDeviceType::Microphone });
    assert(device_names(v@) =~= default_device_names());
    assert(device_types(v@) =~= default_device_types());
    v
}

// ============================================================================
// Device cache
// ============================================================================

/// Cached audio devices with the time (in milliseconds) of their last refresh.
pub struct AudioDeviceManager {
    devices: Vec<AudioDevice>,
    /// Last refresh time in milliseconds.
    last_refresh_ms: u64,
    /// How long a refresh stays fresh, in milliseconds.
    cache_ttl_ms: u64,
}

/// Time since `since`, or zero when `now` is earlier (as `Instant::elapsed` gives it).
pub open spec fn elapsed_ms(since: u64, now: u64) -> int {
    if now >= since {
        now - since
    } else {
        0
    }
}

impl AudioDeviceManager {
    /// The cached devices.
    pub closed spec fn devices(self) -> Seq<AudioDevice> {
        self.devices@
    }

    /// Time of the last refresh, in milliseconds.
    pub closed spec fn last_refresh(self) -> u64 {
        self.last_refresh_ms
    }

    /// How long a refresh stays fresh, in milliseconds.
    pub closed spec fn ttl(self) -> u64 {
        self.cache_ttl_ms
    }

    /// An empty cache refreshed at `now_ms`, fresh for sixty seconds.
    pub fn new(now_ms: u64) -> (r: Self)
        ensures
            r.devices().len() == 0,
            r.last_refresh() == now_ms,
            r.ttl() == 60000,
    {
        AudioDeviceManager { devices: Vec::new(), last_refresh_ms: now_ms, cache_ttl_ms: 60000 }
    }

    /// The cached devices, without copying.
    pub fn get_devices(&self) -> (r: &[AudioDevice])
        ensures
            r@ == self.devices(),
    {
        self.devices.as_slice()
    }

    /// Time of the last refresh, in milliseconds.
    pub fn last_refresh_ms(&self) -> (r: u64)
        ensures
            r == self.last_refresh(),
    {
        self.last_refresh_ms
    }

    /// How long a refresh stays fresh, in milliseconds.
    pub fn cache_ttl_ms(&self) -> (r: u64)
        ensures
            r == self.ttl(),
    {
        self.cache_ttl_ms
    }

    /// Whether the cache has expired at `now_ms`.
    pub fn refresh_due(&self, now_ms: u64) -> (r: bool)
        ensures
            r == (elapsed_ms(self.last_refresh(), now_ms) >= self.ttl()),
    {
        let elapsed = if now_ms >= self.last_refresh_ms {
            now_ms - self.last_refresh_ms
        } else {
            0
        };
        elapsed >= self.cache_ttl_ms
    }

    /// Replaces the cached devices with a fresh listing taken at `now_ms`.
    pub fn record_refresh(&mut self, devices: Vec<AudioDevice>, now_ms: u64)
        ensures
            final(self).devices() == devices@,
            final(self).last_refresh() == now_ms,
            final(self).ttl() == old(self).ttl(),
    {
        self.devices = devices;
        self.last_refresh_ms = now_ms;
    }

    /// Backdates the last refresh by one lifetime, so that a refresh is due now.
    pub fn mark_stale(&mut self, now_ms: u64)
        requires
            now_ms >= old(self).ttl(),
        ensures
            final(self).devices() == old(self).devices(),
            final(self).last_refresh() == now_ms - old(self).ttl(),
            final(self).ttl() == old(self).ttl(),
            final(self).refresh_due_spec(now_ms),
    {
        self.last_refresh_ms = now_ms - self.cache_ttl_ms;
    }

    /// The cache has expired at `now`.
    pub open spec fn refresh_due_spec(self, now: u64) -> bool {
        elapsed_ms(self.last_refresh(), now) >= self.ttl()
    }
}


impl AudioDevice {
    /// A copy of the device.
    pub fn copy(&self) -> (r: Self)
        ensures
            r.name@ == self.name@,
            r.device_type == self.device_type,
    {
        AudioDevice { name: owned(self.name.as_str()), device_type: self.device_type }
    }
}

/// A copy of the cached devices.
pub fn list_audio_devices(manager: &AudioDeviceManager) -> (r: Vec<AudioDevice>)
    ensures
        device_names(r@) == device_names(manager.devices()),
        device_types(r@) == device_types(manager.devices()),
{
    let devices = manager.get_devices();
    let mut out: Vec<AudioDevice> = Vec::new();
    let mut i: usize = 0;
    assert(device_names(out@) =~= device_names(devices@.subrange(0, 0)));
    assert(device_types(out@) =~= device_types(devices@.subrange(0, 0)));
    while i < devices.len()
        invariant
            devices@ == manager.devices(),
            i <= devices@.len(),
            device_names(out@) == device_names(devices@.subrange(0, i as int)),
            device_types(out@) == device_types(devices@.subrange(0, i as int)),
        decreases devices@.len() - i,
    {
        let ghost prev = out@;
        let d = devices[i].copy();
        out.push(d);
        assert(devices@.subrange(0, i + 1) =~= devices@.subrange(0, i as int).push(devices@[i as int]));
        assert(device_names(out@) =~= device_names(prev).push(d.name@));
        assert(device_types(out@) =~= device_types(prev).push(d.device_type));
        assert(device_names(out@) =~= device_names(devices@.subrange(0, i + 1)));
        assert(device_types(out@) =~= device_types(devices@.subrange(0, i + 1)));
        i += 1;
    }
    assert(devices@.subrange(0, devices@.len() as int) =~= devices@);
    out
}

} // verus!
