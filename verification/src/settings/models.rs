//! Recording settings: which events to record, video and audio quality,
//! clip timing and hotkeys.
use crate::text::{owned, str_eq};
use vstd::prelude::*;

verus! {

// ============================================================================
// Event Filter Settings
// ============================================================================

/// Which game events produce clips.
#[derive(Debug, Clone, Copy, PartialEq, Eq, Structural)]
pub struct EventFilterSettings {
    pub record_kills: bool,
    pub record_multikills: bool,
    pub record_first_blood: bool,
    pub record_deaths: bool,
    pub record_shutdown: bool,
    pub record_assists: bool,
    pub record_dragon: bool,
    pub record_baron: bool,
    pub record_elder: bool,
    pub record_herald: bool,
    pub record_turret: bool,
    pub record_inhibitor: bool,
    pub record_nexus: bool,
    pub record_ace: bool,
    pub record_game_end: bool,
    pub record_steal: bool,
    /// Lowest event priority that is recorded (1-5).
    pub min_priority: u8,
}

/// The default filter records highlights only, from priority 2 up.
pub open spec fn default_event_filter() -> EventFilterSettings {
    EventFilterSettings {
        record_kills: true,
        record_multikills: true,
        record_first_blood: true,
        record_deaths: false,
        record_shutdown: false,
        record_assists: false,
        record_dragon: true,
        record_baron: true,
        record_elder: true,
        record_herald: true,
        record_turret: false,
        record_inhibitor: true,
        record_nexus: true,
        record_ace: true,
        record_game_end: true,
        record_steal: true,
        min_priority: 2,
    }
}

impl Default for EventFilterSettings {
    fn default() -> (r: Self)
        ensures
            r == default_event_filter(),
    {
        EventFilterSettings {
            record_kills: true,
            record_multikills: true,
            record_first_blood: true,
            record_deaths: false,
            record_shutdown: false,
            record_assists: false,
            record_dragon: true,
            record_baron: true,
            record_elder: true,
            record_herald: true,
            record_turret: false,
            record_inhibitor: true,
            record_nexus: true,
            record_ace: true,
            record_game_end: true,
            record_steal: true,
            min_priority: 2,
        }
    }
}

// ============================================================================
// Game Mode Settings
// ============================================================================

/// Which game modes are recorded.
#[derive(Debug, Clone, Copy, PartialEq, Eq, Structural)]
pub struct GameModeSettings {
    pub record_ranked_solo: bool,
    pub record_ranked_flex: bool,
    pub record_normal: bool,
    pub record_quick_play: bool,
    pub record_aram: bool,
    pub record_arena: bool,
    pub record_special: bool,
    pub record_custom: bool,
    pub record_practice: bool,
}

impl Default for GameModeSettings {
    fn default() -> (r: Self)
        ensures
            r == (GameModeSettings {
                record_ranked_solo: true,
                record_ranked_flex: true,
                record_normal: true,
                record_quick_play: true,
                record_aram: true,
                record_arena: true,
                record_special: false,
                record_custom: false,
                record_practice: false,
            }),
    {
        GameModeSettings {
            record_ranked_solo: true,
            record_ranked_flex: true,
            record_normal: true,
            record_quick_play: true,
            record_aram: true,
            record_arena: true,
            record_special: false,
            record_custom: false,
            record_practice: false,
        }
    }
}

// ============================================================================
// Video Settings
// ============================================================================

#[derive(Debug, Clone, Copy, PartialEq, Eq, Structural)]
pub enum Resolution {
    R1920x1080,
    R2560x1440,
    R3840x2160,
}

#[derive(Debug, Clone, Copy, PartialEq, Eq, Structural)]
pub enum FrameRate {
    Fps30,
    Fps60,
    Fps120,
    Fps144,
}

#[derive(Debug, Clone, Copy, PartialEq, Eq, Structural)]
pub enum BitratePreset {
    /// 10 Mbps (720p60)
    Low,
    /// 20 Mbps (1080p60)
    Medium,
    /// 40 Mbps (1440p60)
    High,
    /// 80 Mbps (4K60)
    VeryHigh,
    /// User defined (kbps)
    Custom(u32),
}

#[derive(Debug, Clone, Copy, PartialEq, Eq, Structural)]
pub enum VideoCodec {
    H264,
    H265,
    Av1,
}

#[derive(Debug, Clone, Copy, PartialEq, Eq, Structural)]
pub enum EncoderPreference {
    Auto,
    Nvenc,
    Qsv,
    Amf,
    Software,
}

/// Video capture quality.
#[derive(Debug, Clone, Copy, PartialEq, Eq, Structural)]
pub struct VideoSettings {
    pub resolution: Resolution,
    pub frame_rate: FrameRate,
    pub bitrate_preset: BitratePreset,
    pub codec: VideoCodec,
    pub encoder: EncoderPreference,
}

/// 1080p60, 20 Mbps, H.265 with automatic encoder choice.
pub open spec fn default_video_settings() -> VideoSettings {
    VideoSettings {
        resolution: Resolution::R1920x1080,
        frame_rate: FrameRate::Fps60,
        bitrate_preset: BitratePreset::Medium,
        codec: VideoCodec::H265,
        encoder: EncoderPreference::Auto,
    }
}

impl Default for VideoSettings {
    fn default() -> (r: Self)
        ensures
            r == default_video_settings(),
    {
        VideoSettings {
            resolution: Resolution::R1920x1080,
            frame_rate: FrameRate::Fps60,
            bitrate_preset: BitratePreset::Medium,
            codec: VideoCodec::H265,
            encoder: EncoderPreference::Auto,
        }
    }
}

// ============================================================================
// Audio Settings
// ============================================================================

#[derive(Debug, Clone, Copy, PartialEq, Eq, Structural)]
pub enum SampleRate {
    Hz44100,
    Hz48000,
}

#[derive(Debug, Clone, Copy, PartialEq, Eq, Structural)]
pub enum AudioBitrate {
    Kbps128,
    Kbps192,
    Kbps256,
    Kbps320,
}

/// Audio capture sources and quality.
#[derive(Debug)]
pub struct AudioSettings {
    pub record_microphone: bool,
    pub microphone_device: Option<String>,
    /// Microphone volume in percent (0-200).
    pub microphone_volume: u8,
    pub record_system_audio: bool,
    pub system_audio_device: Option<String>,
    /// System audio volume in percent (0-200).
    pub system_audio_volume: u8,
    pub sample_rate: SampleRate,
    pub bitrate: AudioBitrate,
}

/// A copy of an optional string.
pub fn copy_opt_string(o: &Option<String>) -> (r: Option<String>)
    ensures
        r == *o,
{
    match o {
        Some(s) => Some(s.clone()),
        None => None,
    }
}

impl AudioSettings {
    /// Field-by-field copy.
    pub fn copy(&self) -> (r: Self)
        ensures
            r == *self,
    {
        AudioSettings {
            record_microphone: self.record_microphone,
            microphone_device: copy_opt_string(&self.microphone_device),
            microphone_volume: self.microphone_volume,
            record_system_audio: self.record_system_audio,
            system_audio_device: copy_opt_string(&self.system_audio_device),
            system_audio_volume: self.system_audio_volume,
            sample_rate: self.sample_rate,
            bitrate: self.bitrate,
        }
    }

    /// Sample rate in Hz.
    pub fn sample_rate_hz(&self) -> (r: u32)
        ensures
            r == (match self.sample_rate {
                SampleRate::Hz44100 => 44100u32,
                SampleRate::Hz48000 => 48000u32,
            }),
    {
        match self.sample_rate {
            SampleRate::Hz44100 => 44100,
            SampleRate::Hz48000 => 48000,
        }
    }

    /// Bitrate in kbps.
    pub fn bitrate_kbps(&self) -> (r: u32)
        ensures
            r == (match self.bitrate {
                AudioBitrate::Kbps128 => 128u32,
                AudioBitrate::Kbps192 => 192u32,
                AudioBitrate::Kbps256 => 256u32,
                AudioBitrate::Kbps320 => 320u32,
            }),
    {
        match self.bitrate {
            AudioBitrate::Kbps128 => 128,
            AudioBitrate::Kbps192 => 192,
            AudioBitrate::Kbps256 => 256,
            AudioBitrate::Kbps320 => 320,
        }
    }
}

/// Both sources on, default devices, microphone at 120%, system audio at 100%, 48 kHz, 192 kbps.
pub open spec fn default_audio_settings() -> AudioSettings {
    AudioSettings {
        record_microphone: true,
        microphone_device: None,
        microphone_volume: 120,
        record_system_audio: true,
        system_audio_device: None,
        system_audio_volume: 100,
        sample_rate: SampleRate::Hz48000,
        bitrate: AudioBitrate::Kbps192,
    }
}

impl Default for AudioSettings {
    fn default() -> (r: Self)
        ensures
            r == default_audio_settings(),
    {
        AudioSettings {
            record_microphone: true,
            microphone_device: None,
            microphone_volume: 120,
            record_system_audio: true,
            system_audio_device: None,
            system_audio_volume: 100,
            sample_rate: SampleRate::Hz48000,
            bitrate: AudioBitrate::Kbps192,
        }
    }
}

// ============================================================================
// Clip Timing Settings
// ============================================================================

/// Seconds recorded before and after an event.
#[derive(Debug, Clone, Copy, PartialEq, Eq, Structural)]
pub struct EventTiming {
    pub pre_duration: u32,
    pub post_duration: u32,
}

/// Clip lengths, per event kind where one is set, and event merging.
#[derive(Debug)]
pub struct ClipTimingSettings {
    /// Seconds before an event when no specific timing is set.
    pub default_pre_duration: u32,
    /// Seconds after an event when no specific timing is set.
    pub default_post_duration: u32,
    /// Timings by event kind ("multikill", "steal", "kill", ...), each kind
    /// at most once (`timing_keys_distinct`), so the list is a map from kind
    /// to timing.
    pub event_timings: Vec<(String, EventTiming)>,
    /// Whether events close together are saved as one clip.
    pub merge_consecutive_events: bool,
    /// Seconds within which events are merged.
    pub merge_time_threshold: u32,
}

/// The timing stored for `key`: the first entry under that key.
pub open spec fn lookup_timing(entries: Seq<(String, EventTiming)>, key: Seq<char>) -> Option<
    EventTiming,
>
    decreases entries.len(),
{
    if entries.len() == 0 {
        None
    } else if entries[0].0@ == key {
        Some(entries[0].1)
    } else {
        lookup_timing(entries.drop_first(), key)
    }
}

/// No event kind has two entries.
pub open spec fn timing_keys_distinct(entries: Seq<(String, EventTiming)>) -> bool {
    forall|i: int, j: int|
        0 <= i < j < entries.len() ==> (#[trigger] entries[i]).0@ != (#[trigger] entries[j]).0@
}

/// With each kind listed once, every entry is what its kind looks up, wherever
/// it stands in the list: the list behaves as a map.
pub proof fn law_distinct_kinds_find_their_timing(entries: Seq<(String, EventTiming)>, i: int)
    requires
        timing_keys_distinct(entries),
        0 <= i < entries.len(),
    ensures
        lookup_timing(entries, entries[i].0@) == Some(entries[i].1),
    decreases i,
{
    if i > 0 {
        let rest = entries.drop_first();
        assert(entries[0].0@ != entries[i].0@);
        assert forall|a: int, b: int| 0 <= a < b < rest.len() implies (#[trigger] rest[a]).0@
            != (#[trigger] rest[b]).0@ by {
            assert(rest[a] == entries[a + 1] && rest[b] == entries[b + 1]);
        }
        assert(rest[i - 1] == entries[i]);
        law_distinct_kinds_find_their_timing(rest, i - 1);
    }
}

/// The timing used for an event kind: the stored one, else the defaults.
pub open spec fn timing_for(s: ClipTimingSettings, key: Seq<char>) -> EventTiming {
    match lookup_timing(s.event_timings@, key) {
        Some(t) => t,
        None => EventTiming {
            pre_duration: s.default_pre_duration,
            post_duration: s.default_post_duration,
        },
    }
}

impl ClipTimingSettings {
    /// Get timing for a specific event type.
    pub fn get_timing_for_event(&self, event_type: &str) -> (t: EventTiming)
        ensures
            t == timing_for(*self, event_type@),
            timing_keys_distinct(self.event_timings@) ==> forall|i: int|
                0 <= i < self.event_timings@.len() && (#[trigger] self.event_timings@[i]).0@
                    == event_type@ ==> t == self.event_timings@[i].1,
    {
        proof {
            if timing_keys_distinct(self.event_timings@) {
                assert forall|i: int|
                    0 <= i < self.event_timings@.len() && (#[trigger] self.event_timings@[i]).0@
                        == event_type@ implies timing_for(*self, event_type@)
                    == self.event_timings@[i].1 by {
                    law_distinct_kinds_find_their_timing(self.event_timings@, i);
                }
            }
        }
        let n = self.event_timings.len();
        let mut i: usize = 0;
        assert(self.event_timings@.subrange(0, n as int) =~= self.event_timings@);
        while i < n
            invariant
                n == self.event_timings@.len(),
                i <= n,
                lookup_timing(self.event_timings@, event_type@) == lookup_timing(
                    self.event_timings@.subrange(i as int, n as int),
                    event_type@,
                ),
            decreases n - i,
        {
            let ghost rest = self.event_timings@.subrange(i as int, n as int);
            assert(rest.drop_first() =~= self.event_timings@.subrange(i + 1, n as int));
            if str_eq(self.event_timings[i].0.as_str(), event_type) {
                return self.event_timings[i].1;
            }
            i += 1;
        }
        EventTiming {
            pre_duration: self.default_pre_duration,
            post_duration: self.default_post_duration,
        }
    }
}

impl Default for ClipTimingSettings {
    fn default() -> (r: Self)
        ensures
            r.default_pre_duration == 10,
            r.default_post_duration == 3,
            r.merge_consecutive_events,
            r.merge_time_threshold == 15,
            r.event_timings@.len() == 3,
            r.event_timings@[0].0@ == "multikill"@,
            r.event_timings@[0].1 == (EventTiming { pre_duration: 15, post_duration: 5 }),
            r.event_timings@[1].0@ == "steal"@,
            r.event_timings@[1].1 == (EventTiming { pre_duration: 20, post_duration: 5 }),
            r.event_timings@[2].0@ == "kill"@,
            r.event_timings@[2].1 == (EventTiming { pre_duration: 10, post_duration: 3 }),
            timing_keys_distinct(r.event_timings@),
    {
        let mut event_timings: Vec<(String, EventTiming)> = Vec::new();
        event_timings.push((owned("multikill"), EventTiming { pre_duration: 15, post_duration: 5 }));
        event_timings.push((owned("steal"), EventTiming { pre_duration: 20, post_duration: 5 }));
        event_timings.push((owned("kill"), EventTiming { pre_duration: 10, post_duration: 3 }));
        proof {
            reveal_strlit("multikill");
            reveal_strlit("steal");
            reveal_strlit("kill");
            assert(event_timings@[0].0@ == "multikill"@);
            assert(event_timings@[1].0@ == "steal"@);
            assert(event_timings@[2].0@ == "kill"@);
            assert(event_timings@[0].0@.len() == 9);
            assert(event_timings@[1].0@.len() == 5);
            assert(event_timings@[2].0@.len() == 4);
        }
        ClipTimingSettings {
            default_pre_duration: 10,
            default_post_duration: 3,
            event_timings,
            merge_consecutive_events: true,
            merge_time_threshold: 15,
        }
    }
}

// ============================================================================
// Hotkey Settings
// ============================================================================

/// Key bindings.
#[derive(Debug)]
pub struct HotkeySettings {
    pub manual_save_clip: String,
    pub toggle_recording: String,
    pub delete_last_clip: String,
}

impl Default for HotkeySettings {
    fn default() -> (r: Self)
        ensures
            r.manual_save_clip@ == "F8"@,
            r.toggle_recording@ == "F9"@,
            r.delete_last_clip@ == "F10"@,
    {
        HotkeySettings {
            manual_save_clip: owned("F8"),
            toggle_recording: owned("F9"),
            delete_last_clip: owned("F10"),
        }
    }
}

// ============================================================================
// Complete recording settings
// ============================================================================

/// Complete recording settings structure.
#[derive(Debug)]
pub struct RecordingSettings {
    pub event_filter: EventFilterSettings,
    pub game_mode: GameModeSettings,
    pub video: VideoSettings,
    pub audio: AudioSettings,
    pub clip_timing: ClipTimingSettings,
    pub hotkeys: HotkeySettings,
    pub auto_start_with_league: bool,
    pub minimize_to_tray: bool,
    pub show_notifications: bool,
}

impl Default for RecordingSettings {
    fn default() -> (r: Self)
        ensures
            r.event_filter == default_event_filter(),
            r.video == default_video_settings(),
            r.audio == default_audio_settings(),
            r.game_mode.record_ranked_solo && !r.game_mode.record_practice,
            r.clip_timing.default_pre_duration == 10,
            r.clip_timing.default_post_duration == 3,
            r.clip_timing.merge_consecutive_events,
            r.clip_timing.merge_time_threshold == 15,
            r.hotkeys.manual_save_clip@ == "F8"@,
            r.auto_start_with_league,
            r.minimize_to_tray,
            r.show_notifications,
    {
        RecordingSettings {
            event_filter: EventFilterSettings::default(),
            game_mode: GameModeSettings::default(),
            video: VideoSettings::default(),
            audio: AudioSettings::default(),
            clip_timing: ClipTimingSettings::default(),
            hotkeys: HotkeySettings::default(),
            auto_start_with_league: true,
            minimize_to_tray: true,
            show_notifications: true,
        }
    }
}

} // verus!
