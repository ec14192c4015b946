//! Rich clip metadata for the editor: technical details, game context, and
//! the rules that derive ids from paths and keep tags and ratings tidy.
use crate::security::{
    file_name, file_name_range, is_sep, is_sep_exec, last_dot, last_dot_exec, path_tail,
    prefix_len_exec,
};
use crate::storage::models::{ClipMetadata, EventType};
use crate::text::{chars_of, owned, slice_to_vec, str_eq, string_from_chars};
use vstd::prelude::*;

verus! {

/// How events were merged into a clip.
#[derive(Debug, Clone, Copy, PartialEq, Eq, Structural)]
pub enum MergeStrategy {
    SingleEvent,
    ConsecutiveEvents,
    /// The user saved the clip with a hotkey.
    ManualSave,
}

/// Clip resolution.
#[derive(Debug, Clone, Copy, PartialEq, Eq, Structural)]
pub enum Resolution {
    R1920x1080,
    R2560x1440,
    R3840x2160,
    Custom { width: u32, height: u32 },
}

/// Clip frame rate.
#[derive(Debug, Clone, Copy, PartialEq, Eq, Structural)]
pub enum FrameRate {
    Fps30,
    Fps60,
    Fps120,
    Fps144,
    Custom(u32),
}

/// Clip codec.
#[derive(Debug, Clone, Copy, PartialEq, Eq, Structural)]
pub enum VideoCodec {
    H264,
    H265,
    Av1,
}

/// The default video information: 1080p60 H.265 at 20 Mbps by an unknown
/// encoder, bt709 yuv420p, CRF 23, preset `medium`, no size or frames yet.
pub open spec fn default_video_info(r: VideoInfo) -> bool {
    &&& r.resolution == Resolution::R1920x1080
    &&& r.frame_rate == FrameRate::Fps60
    &&& r.bitrate_kbps == 20000
    &&& r.codec == VideoCodec::H265
    &&& r.encoder@ == "unknown"@
    &&& r.file_size_bytes == 0
    &&& r.total_frames == 0
    &&& r.color_space@ == "bt709"@
    &&& r.pixel_format@ == "yuv420p"@
    &&& r.crf == Some(23u8)
    &&& r.preset matches Some(p) && p@ == "medium"@
}

/// Technical video information.
#[derive(Debug)]
pub struct VideoInfo {
    pub resolution: Resolution,
    pub frame_rate: FrameRate,
    pub bitrate_kbps: u32,
    pub codec: VideoCodec,
    pub encoder: String,
    pub file_size_bytes: u64,
    pub total_frames: u64,
    pub color_space: String,
    pub pixel_format: String,
    pub crf: Option<u8>,
    pub preset: Option<String>,
}

impl Default for VideoInfo {
    fn default() -> (r: Self)
        ensures
            default_video_info(r),
    {
        VideoInfo {
            resolution: Resolution::R1920x1080,
            frame_rate: FrameRate::Fps60,
            bitrate_kbps: 20000,
            codec: VideoCodec::H265,
            encoder: owned("unknown"),
            file_size_bytes: 0,
            total_frames: 0,
            color_space: owned("bt709"),
            pixel_format: owned("yuv420p"),
            crf: Some(23),
            preset: Some(owned("medium")),
        }
    }
}

/// Audio track kinds.
#[derive(Debug, Clone, Copy, PartialEq, Eq, Structural)]
pub enum AudioTrackType {
    /// Game, voice chat and music.
    SystemAudio,
    Microphone,
    Mixed,
}

/// An audio track.
#[derive(Debug)]
pub struct AudioTrack {
    pub track_id: u8,
    pub track_type: AudioTrackType,
    /// Volume in percent (0-200).
    pub volume_percent: u8,
    pub device_name: Option<String>,
}

/// The default audio information: no tracks, 48 kHz stereo AAC at 192 kbps.
pub open spec fn default_audio_info(r: AudioInfo) -> bool {
    &&& r.tracks@.len() == 0
    &&& r.sample_rate == 48000
    &&& r.channels == 2
    &&& r.bitrate_kbps == 192
    &&& r.codec@ == "aac"@
}

/// Audio information.
#[derive(Debug)]
pub struct AudioInfo {
    pub tracks: Vec<AudioTrack>,
    pub sample_rate: u32,
    pub channels: u8,
    pub bitrate_kbps: u32,
    pub codec: String,
}

impl Default for AudioInfo {
    fn default() -> (r: Self)
        ensures
            default_audio_info(r),
    {
        AudioInfo {
            tracks: Vec::new(),
            sample_rate: 48000,
            channels: 2,
            bitrate_kbps: 192,
            codec: owned("aac"),
        }
    }
}

/// Timeline marker kinds.
#[derive(Debug, Clone, Copy, PartialEq, Eq, Structural)]
pub enum MarkerType {
    EventStart,
    EventPeak,
    EventEnd,
    KillMoment,
    ObjectiveTaken,
    Custom,
}

/// Game modes.
#[derive(Debug, Clone, Copy, PartialEq, Eq, Structural)]
pub enum GameMode {
    Classic,
    Aram,
    Arena,
    Custom,
}

/// Queue types.
#[derive(Debug, Clone, Copy, PartialEq, Eq, Structural)]
pub enum QueueType {
    RankedSolo,
    RankedFlex,
    Normal,
    QuickPlay,
    Aram,
    Arena,
    Custom,
    Practice,
}

/// Teams.
#[derive(Debug, Clone, Copy, PartialEq, Eq, Structural)]
pub enum Team {
    Blue,
    Red,
}

/// Team score.
#[derive(Debug, Clone, Copy, PartialEq, Eq, Structural)]
pub struct TeamScore {
    pub kills: u32,
    pub towers: u32,
    pub dragons: u32,
    pub barons: u32,
}

impl Default for TeamScore {
    fn default() -> (r: Self)
        ensures
            r == (TeamScore { kills: 0, towers: 0, dragons: 0, barons: 0 }),
    {
        TeamScore { kills: 0, towers: 0, dragons: 0, barons: 0 }
    }
}

/// The starting player state: level one, no gold, items, kills, deaths,
/// assists or creep score.
pub open spec fn default_player_state(r: PlayerState) -> bool {
    &&& r.level == 1
    &&& r.gold == 0
    &&& r.items@.len() == 0
    &&& r.kda == (0u32, 0u32, 0u32)
    &&& r.cs == 0
}

/// Player state at the event.
#[derive(Debug)]
pub struct PlayerState {
    pub level: u8,
    pub gold: u32,
    /// Item ids.
    pub items: Vec<u32>,
    /// (kills, deaths, assists).
    pub kda: (u32, u32, u32),
    /// Creep score.
    pub cs: u32,
}

impl Default for PlayerState {
    fn default() -> (r: Self)
        ensures
            default_player_state(r),
    {
        PlayerState { level: 1, gold: 0, items: Vec::new(), kda: (0, 0, 0), cs: 0 }
    }
}

/// The default game context: an unknown champion in a normal Classic game on
/// map 11, blue side, no score, starting player state.
pub open spec fn default_game_context(r: GameContext) -> bool {
    &&& r.champion@ == "Unknown"@
    &&& r.game_mode == GameMode::Classic
    &&& r.queue_type == QueueType::Normal
    &&& r.map_id == 11
    &&& r.team == Team::Blue
    &&& r.team_score == (TeamScore { kills: 0, towers: 0, dragons: 0, barons: 0 })
    &&& default_player_state(r.player_state)
}

/// Game context of a clip.
#[derive(Debug)]
pub struct GameContext {
    pub champion: String,
    pub game_mode: GameMode,
    pub queue_type: QueueType,
    pub map_id: u32,
    pub team: Team,
    pub team_score: TeamScore,
    pub player_state: PlayerState,
}

impl Default for GameContext {
    fn default() -> (r: Self)
        ensures
            default_game_context(r),
    {
        GameContext {
            champion: owned("Unknown"),
            game_mode: GameMode::Classic,
            queue_type: QueueType::Normal,
            map_id: 11,
            team: Team::Blue,
            team_score: TeamScore::default(),
            player_state: PlayerState::default(),
        }
    }
}

// ============================================================================
// Ids from paths
// ============================================================================

/// The stem of a file name, as `Path::file_stem` gives it: the part before the
/// last `.`, or the whole name when it has no `.` but a leading one.
pub open spec fn name_stem(name: Seq<char>) -> Seq<char> {
    let k = last_dot(name);
    if k <= 0 {
        name
    } else {
        name.subrange(0, k)
    }
}

/// The clip id of a path: the stem of its file name, `unknown` without one.
pub open spec fn clip_id_of(path: Seq<char>) -> Seq<char> {
    match file_name(path_tail(path)) {
        Some(n) => name_stem(n),
        None => "unknown"@,
    }
}

impl ClipMetadataV2 {
/// Generate a clip id from a file path.
pub fn generate_clip_id(file_path: &str) -> (r: String)
    ensures
        r@ == clip_id_of(file_path@),
{
    let whole = chars_of(file_path);
    let p = prefix_len_exec(whole.as_slice());
    let v = slice_to_vec(whole.as_slice(), p, whole.len());
    assert(v@ == path_tail(file_path@));
    let n = v.len();
    assert(v@.subrange(0, n as int) =~= v@);
    match file_name_range(v.as_slice(), n) {
        None => owned("unknown"),
        Some((a, b)) => {
            let ghost name = v@.subrange(a as int, b as int);
            match last_dot_exec(v.as_slice(), a, b) {
                Some(d) => {
                    if d > a {
                        assert(name.subrange(0, d - a) =~= v@.subrange(a as int, d as int));
                        string_from_chars(&v.as_slice()[a..d])
                    } else {
                        string_from_chars(&v.as_slice()[a..b])
                    }
                },
                None => string_from_chars(&v.as_slice()[a..b]),
            }
        },
    }
}
}

/// Position of the first separator in `s` at or after `i`, or its length.
pub open spec fn next_sep(s: Seq<char>, i: int) -> int
    decreases s.len() - i,
{
    if i < 0 || i >= s.len() {
        s.len() as int
    } else if is_sep(s[i]) {
        i
    } else {
        next_sep(s, i + 1)
    }
}

/// A component worth keeping: not empty and not `.`.
pub open spec fn kept_component(c: Seq<char>) -> bool {
    c.len() > 0 && c != seq!['.']
}

/// The components of `s` from `i` on: the pieces between separators, empty
/// pieces and `.` dropped.
pub open spec fn components_from(s: Seq<char>, i: int) -> Seq<Seq<char>>
    decreases s.len() - i,
{
    if i < 0 || i >= s.len() {
        Seq::empty()
    } else {
        proof {
            lemma_next_sep_bounds(s, i);
        }
        let k = next_sep(s, i);
        let piece = s.subrange(i, k);
        let rest = if k < s.len() {
            components_from(s, k + 1)
        } else {
            Seq::empty()
        };
        if kept_component(piece) {
            seq![piece] + rest
        } else {
            rest
        }
    }
}

/// The component after the first `clips` component that has one.
pub open spec fn game_id_after_clips(comps: Seq<Seq<char>>) -> Option<Seq<char>>
    decreases comps.len(),
{
    if comps.len() < 2 {
        None
    } else if comps[0] == "clips"@ {
        Some(comps[1])
    } else {
        game_id_after_clips(comps.drop_first())
    }
}

/// The game id of a path `.../clips/<game_id>/...`, `unknown` otherwise. The
/// prefix of a path is a component of its own, never `clips`.
pub open spec fn game_id_of(path: Seq<char>) -> Seq<char> {
    match game_id_after_clips(components_from(path_tail(path), 0)) {
        Some(g) => g,
        None => "unknown"@,
    }
}

/// The next separator from `i` lies between `i` and the end of `s`.
pub proof fn lemma_next_sep_bounds(s: Seq<char>, i: int)
    requires
        0 <= i <= s.len(),
    ensures
        i <= next_sep(s, i) <= s.len(),
    decreases s.len() - i,
{
    if i < s.len() && !is_sep(s[i]) {
        lemma_next_sep_bounds(s, i + 1);
    }
}

fn path_components(v: &[char]) -> (r: Vec<Vec<char>>)
    ensures
        r@.map_values(|c: Vec<char>| c@) == components_from(v@, 0),
{
    let n = v.len();
    let mut out: Vec<Vec<char>> = Vec::new();
    let mut i: usize = 0;
    while i < n
        invariant
            n == v@.len(),
            i <= n,
            out@.map_values(|c: Vec<char>| c@) + components_from(v@, i as int) == components_from(
                v@,
                0,
            ),
        decreases n - i,
    {
        let mut k = i;
        while k < n && !is_sep_exec(v[k])
            invariant
                i <= k <= n,
                n == v@.len(),
                next_sep(v@, i as int) == next_sep(v@, k as int),
            decreases n - k,
        {
            k += 1;
        }
        let ghost piece = v@.subrange(i as int, k as int);
        let ghost prev = out@.map_values(|c: Vec<char>| c@);
        let keep = k > i && !(k == i + 1 && v[i] == '.');
        assert(keep == kept_component(piece)) by {
            if piece == seq!['.'] {
                assert(piece.len() == 1 && piece[0] == '.');
            }
            if k == i + 1 && v@[i as int] == '.' {
                assert(piece =~= seq!['.']);
            }
        }
        if keep {
            let mut c: Vec<char> = Vec::new();
            let mut j = i;
            while j < k
                invariant
                    i <= j <= k <= n,
                    n == v@.len(),
                    c@ == v@.subrange(i as int, j as int),
                decreases k - j,
            {
                c.push(v[j]);
                j += 1;
                assert(c@ =~= v@.subrange(i as int, j as int));
            }
            out.push(c);
            assert(out@.map_values(|c: Vec<char>| c@) =~= prev.push(piece));
        }
        proof {
            let rest = if k < n {
                components_from(v@, k + 1)
            } else {
                Seq::<Seq<char>>::empty()
            };
            if keep {
                assert(prev.push(piece) + rest =~= prev + (seq![piece] + rest));
            }
            if k >= n {
                assert(components_from(v@, n as int) =~= Seq::<Seq<char>>::empty());
                assert(out@.map_values(|c: Vec<char>| c@) + Seq::<Seq<char>>::empty() =~= out@.map_values(|c: Vec<char>| c@));
            }
        }
        if k < n {
            i = k + 1;
        } else {
            i = n;
        }
    }
    assert(out@.map_values(|c: Vec<char>| c@) + components_from(v@, n as int) =~= out@.map_values(
        |c: Vec<char>| c@,
    ));
    out
}

impl ClipMetadataV2 {
/// Extract the game id from a clip path `.../clips/<game_id>/...`.
pub fn extract_game_id(file_path: &str) -> (r: String)
    ensures
        r@ == game_id_of(file_path@),
{
    let whole = chars_of(file_path);
    let p = prefix_len_exec(whole.as_slice());
    let v = slice_to_vec(whole.as_slice(), p, whole.len());
    assert(v@ == path_tail(file_path@));
    let comps = path_components(v.as_slice());
    let ghost cv = comps@.map_values(|c: Vec<char>| c@);
    let mut i: usize = 0;
    assert(cv.subrange(0, cv.len() as int) =~= cv);
    while comps.len() >= 2 && i < comps.len() - 1
        invariant
            cv == comps@.map_values(|c: Vec<char>| c@),
            cv == components_from(path_tail(file_path@), 0),
            i <= cv.len(),
            game_id_after_clips(cv) == game_id_after_clips(cv.subrange(i as int, cv.len() as int)),
        decreases cv.len() - i,
    {
        let ghost tail = cv.subrange(i as int, cv.len() as int);
        let name = string_from_chars(comps[i].as_slice());
        if str_eq(name.as_str(), "clips") {
            assert(tail[0] == cv[i as int]);
            assert(tail[1] == cv[i + 1]);
            return string_from_chars(comps[i + 1].as_slice());
        }
        assert(tail.drop_first() =~= cv.subrange(i + 1, cv.len() as int));
        i += 1;
    }
    owned("unknown")
}
}

// ============================================================================
// Ratings, tags, priorities
// ============================================================================

/// A rating clamped to one to five stars.
pub fn clamp_rating(rating: u8) -> (r: u8)
    ensures
        r == (if rating < 1 {
            1
        } else if rating > 5 {
            5
        } else {
            rating
        }),
{
    if rating < 1 {
        1
    } else if rating > 5 {
        5
    } else {
        rating
    }
}

/// The views of a list of strings.
pub open spec fn tag_views(tags: Seq<String>) -> Seq<Seq<char>> {
    tags.map_values(|t: String| t@)
}


/// Adding tags never keeps a tag twice: a list without repeated tags stays
/// without them.
pub proof fn law_tags_stay_distinct(tags: Seq<String>, tag: String)
    requires
        forall|i: int, j: int| 0 <= i < j < tags.len() ==> (#[trigger] tags[i])@ != (#[trigger] tags[j])@,
    ensures
        ({
            let after = if tag_views(tags).contains(tag@) {
                tags
            } else {
                tags.push(tag)
            };
            forall|i: int, j: int| 0 <= i < j < after.len() ==> (#[trigger] after[i])@ != (#[trigger] after[j])@
        }),
{
    if !tag_views(tags).contains(tag@) {
        let after = tags.push(tag);
        assert forall|i: int, j: int| 0 <= i < j < after.len() implies (#[trigger] after[i])@ != (
        #[trigger] after[j])@ by {
            if j == tags.len() {
                assert(tag_views(tags)[i] == tags[i]@);
            }
        }
    }
}

/// Sum of the priorities of a clip's events.
pub open spec fn priority_sum(primary: u8, merged: Seq<u8>) -> nat
    decreases merged.len(),
{
    if merged.len() == 0 {
        primary as nat
    } else {
        priority_sum(primary, merged.drop_last()) + merged.last() as nat
    }
}

proof fn lemma_priority_sum_prefix(primary: u8, merged: Seq<u8>, k: int)
    requires
        0 <= k <= merged.len(),
    ensures
        priority_sum(primary, merged.subrange(0, k)) <= priority_sum(primary, merged),
    decreases merged.len(),
{
    if k < merged.len() {
        assert(merged.drop_last().subrange(0, k) =~= merged.subrange(0, k));
        lemma_priority_sum_prefix(primary, merged.drop_last(), k);
    } else {
        assert(merged.subrange(0, k) =~= merged);
    }
}



// ============================================================================
// The clip record
// ============================================================================

/// A JSON value as `serde_json` holds it; carried through unread.
#[verifier::external_type_specification]
#[verifier::external_body]
pub struct ExJsonValue(serde_json::Value);

/// One event in a clip. Times are in milliseconds.
#[derive(Debug)]
pub struct EventInfo {
    pub event_id: u64,
    pub event_type: EventType,
    /// Game time of the event.
    pub timestamp_ms: u64,
    /// Time of the event within the clip.
    pub clip_timestamp_ms: u64,
    pub priority: u8,
    pub killer: Option<String>,
    pub victim: Option<String>,
    pub assisters: Vec<String>,
    pub gold_earned: Option<u32>,
    pub shutdown_bounty: Option<u32>,
    pub details: Option<serde_json::Value>,
}

/// How the events of a clip were merged. Times are in milliseconds.
#[derive(Debug, Clone, Copy, PartialEq, Eq, Structural)]
pub struct EventWindow {
    pub merge_strategy: MergeStrategy,
    /// Events closer than this were merged (15 s by default).
    pub time_threshold_ms: u64,
    /// How many events the clip combines.
    pub events_merged: usize,
    /// Recorded before the first event.
    pub pre_duration_ms: u64,
    /// Recorded after the last event.
    pub post_duration_ms: u64,
}

/// A marker on the clip's timeline, at a time within the clip.
#[derive(Debug)]
pub struct TimelineMarker {
    pub timestamp_ms: u64,
    pub marker_type: MarkerType,
    pub label: String,
    /// Hex colour for the editor.
    pub color: Option<String>,
}

/// A chapter of the clip's timeline.
#[derive(Debug)]
pub struct Chapter {
    pub start_ms: u64,
    pub end_ms: u64,
    pub title: String,
    pub description: Option<String>,
}

/// Markers and chapters for the editor.
#[derive(Debug)]
pub struct ClipTimeline {
    pub markers: Vec<TimelineMarker>,
    pub chapters: Vec<Chapter>,
}

impl Default for ClipTimeline {
    fn default() -> (r: Self)
        ensures
            r.markers@.len() == 0,
            r.chapters@.len() == 0,
    {
        ClipTimeline { markers: Vec::new(), chapters: Vec::new() }
    }
}

/// A note the user left at a time within the clip.
#[derive(Debug)]
pub struct Note {
    pub timestamp_ms: u64,
    pub text: String,
    /// When the note was written (RFC 3339).
    pub created_at: String,
}

/// What the user added to a clip.
#[derive(Debug)]
pub struct UserAnnotations {
    pub title: Option<String>,
    pub description: Option<String>,
    /// One to five stars.
    pub rating: Option<u8>,
    pub favorite: bool,
    pub notes: Vec<Note>,
    pub custom_tags: Vec<String>,
}

/// No title, description or custom tags.
pub open spec fn blank_annotations(a: UserAnnotations) -> bool {
    &&& a.title is None
    &&& a.description is None
    &&& a.custom_tags@.len() == 0
}

/// Annotations a clip starts with when the user first adds something.
pub open spec fn fresh_annotations(a: UserAnnotations, favorite: bool) -> bool {
    &&& blank_annotations(a)
    &&& a.rating is None
    &&& a.favorite == favorite
    &&& a.notes@.len() == 0
}

fn new_annotations(favorite: bool) -> (r: UserAnnotations)
    ensures
        fresh_annotations(r, favorite),
{
    UserAnnotations {
        title: None,
        description: None,
        rating: None,
        favorite,
        notes: Vec::new(),
        custom_tags: Vec::new(),
    }
}

/// Everything recorded about a clip for the editor. Times are in milliseconds.
#[derive(Debug)]
pub struct ClipMetadataV2 {
    pub clip_id: String,
    pub game_id: String,
    pub file_path: String,
    pub thumbnail_path: Option<String>,
    /// When the clip was made (RFC 3339).
    pub created_at: String,
    pub game_time_start_ms: u64,
    pub game_time_end_ms: u64,
    pub clip_duration_ms: u64,
    /// The event that triggered the clip.
    pub primary_event: EventInfo,
    /// Further events merged into the clip.
    pub merged_events: Vec<EventInfo>,
    pub event_window: EventWindow,
    /// 1-5 (5 = pentakill).
    pub priority: u8,
    pub tags: Vec<String>,
    pub video_info: VideoInfo,
    pub audio_info: AudioInfo,
    pub timeline: ClipTimeline,
    pub game_context: GameContext,
    pub annotations: Option<UserAnnotations>,
}

/// `c` with other tags.
pub open spec fn with_tags(c: ClipMetadataV2, tags: Vec<String>) -> ClipMetadataV2 {
    ClipMetadataV2 { tags, ..c }
}

/// `c` with another timeline.
pub open spec fn with_timeline(c: ClipMetadataV2, timeline: ClipTimeline) -> ClipMetadataV2 {
    ClipMetadataV2 { timeline, ..c }
}

/// `c` with other annotations.
pub open spec fn with_annotations(
    c: ClipMetadataV2,
    annotations: Option<UserAnnotations>,
) -> ClipMetadataV2 {
    ClipMetadataV2 { annotations, ..c }
}

/// `b` is `a` apart from the notes.
pub open spec fn same_but_notes(a: UserAnnotations, b: UserAnnotations) -> bool {
    a.title == b.title && a.description == b.description && a.rating == b.rating && a.favorite
        == b.favorite && a.custom_tags == b.custom_tags
}

/// `b` is `a` apart from the rating.
pub open spec fn same_but_rating(a: UserAnnotations, b: UserAnnotations) -> bool {
    a.title == b.title && a.description == b.description && a.favorite == b.favorite && a.notes
        == b.notes && a.custom_tags == b.custom_tags
}

/// `b` is `a` apart from the favourite flag.
pub open spec fn same_but_favorite(a: UserAnnotations, b: UserAnnotations) -> bool {
    a.title == b.title && a.description == b.description && a.rating == b.rating && a.notes
        == b.notes && a.custom_tags == b.custom_tags
}

/// The primary event followed by the merged events.
pub open spec fn all_events(c: ClipMetadataV2) -> Seq<EventInfo> {
    seq![c.primary_event] + c.merged_events@
}

/// The times within the clip of a list of events.
pub open spec fn clip_times(events: Seq<EventInfo>) -> Seq<u64> {
    events.map_values(|e: EventInfo| e.clip_timestamp_ms)
}

/// The priorities of a list of events.
pub open spec fn event_priorities(events: Seq<EventInfo>) -> Seq<u8> {
    events.map_values(|e: EventInfo| e.priority)
}

/// Position where entry `x` goes into the ordered indices `s`, searching from
/// `j`: before the first entry with a strictly later time.
pub open spec fn time_insert_position(times: Seq<u64>, s: Seq<int>, x: int, j: int) -> int
    decreases s.len() - j,
{
    if j < 0 || j >= s.len() {
        s.len() as int
    } else if times[x] < times[s[j]] {
        j
    } else {
        time_insert_position(times, s, x, j + 1)
    }
}

/// The first `k` entries ordered by time, as indices; entries with equal times
/// keep their order (a stable sort).
pub open spec fn time_sorted_prefix(times: Seq<u64>, k: nat) -> Seq<int>
    decreases k,
{
    if k == 0 {
        Seq::empty()
    } else {
        let s = time_sorted_prefix(times, (k - 1) as nat);
        s.insert(time_insert_position(times, s, k - 1, 0), k - 1)
    }
}

/// All entries ordered by time, as indices.
pub open spec fn time_order(times: Seq<u64>) -> Seq<int> {
    time_sorted_prefix(times, times.len())
}

proof fn lemma_time_insert_position(times: Seq<u64>, s: Seq<int>, x: int, j: int)
    requires
        0 <= j <= s.len(),
    ensures
        ({
            let p = time_insert_position(times, s, x, j);
            &&& j <= p <= s.len()
            &&& forall|i: int| j <= i < p ==> !(times[x] < #[trigger] times[s[i]])
            &&& p < s.len() ==> times[x] < times[s[p]]
        }),
    decreases s.len() - j,
{
    if j < s.len() && !(times[x] < times[s[j]]) {
        lemma_time_insert_position(times, s, x, j + 1);
    }
}

/// The first `k` entries in time order are `k` distinct positions below `k`,
/// with times that never decrease.
pub proof fn lemma_time_sorted_prefix(times: Seq<u64>, k: nat)
    requires
        k <= times.len(),
    ensures
        time_sorted_prefix(times, k).len() == k,
        forall|i: int| 0 <= i < k ==> 0 <= #[trigger] time_sorted_prefix(times, k)[i] < k,
        forall|i: int, j: int|
            0 <= i < j < k ==> #[trigger] time_sorted_prefix(times, k)[i] != #[trigger] time_sorted_prefix(
                times,
                k,
            )[j],
        forall|i: int, j: int|
            0 <= i < j < k ==> times[#[trigger] time_sorted_prefix(times, k)[i]] <= times[#[trigger] time_sorted_prefix(
                times,
                k,
            )[j]],
    decreases k,
{
    if k > 0 {
        lemma_time_sorted_prefix(times, (k - 1) as nat);
        let s = time_sorted_prefix(times, (k - 1) as nat);
        let x = k - 1;
        lemma_time_insert_position(times, s, x, 0);
        let p = time_insert_position(times, s, x, 0);
        let t = s.insert(p, x);
        assert(t == time_sorted_prefix(times, k));
        assert forall|i: int| 0 <= i < k implies 0 <= #[trigger] t[i] < k by {
            if i > p {
                assert(t[i] == s[i - 1]);
            }
        }
        assert forall|i: int, j: int| 0 <= i < j < k implies #[trigger] t[i] != #[trigger] t[j] by {
            if j < p {
                assert(t[i] == s[i] && t[j] == s[j]);
            } else if j == p {
                assert(t[i] == s[i]);
            } else if i > p {
                assert(t[i] == s[i - 1] && t[j] == s[j - 1]);
            } else if i == p {
                assert(t[j] == s[j - 1]);
            } else {
                assert(t[i] == s[i] && t[j] == s[j - 1]);
            }
        }
        assert forall|i: int, j: int| 0 <= i < j < k implies times[#[trigger] t[i]] <= times[#[trigger] t[j]] by {
            if j < p {
                assert(t[i] == s[i] && t[j] == s[j]);
            } else if j == p {
                assert(t[i] == s[i]);
            } else if i > p {
                assert(t[i] == s[i - 1] && t[j] == s[j - 1]);
            } else if i == p {
                assert(t[j] == s[j - 1]);
                if p < j - 1 {
                    assert(times[s[p]] <= times[s[j - 1]]);
                }
            } else {
                assert(t[i] == s[i] && t[j] == s[j - 1]);
            }
        }
    }
}

/// The events of a clip ordered by their time within the clip: every event
/// appears exactly once, and the times never decrease.
pub proof fn law_events_in_clip_order(c: ClipMetadataV2)
    ensures
        ({
            let times = clip_times(all_events(c));
            let order = time_order(times);
            &&& order.len() == all_events(c).len()
            &&& forall|i: int| 0 <= i < order.len() ==> 0 <= #[trigger] order[i] < order.len()
            &&& forall|i: int, j: int|
                0 <= i < j < order.len() ==> #[trigger] order[i] != #[trigger] order[j]
            &&& forall|i: int, j: int|
                0 <= i < j < order.len() ==> times[#[trigger] order[i]] <= times[#[trigger] order[j]]
        }),
{
    lemma_time_sorted_prefix(clip_times(all_events(c)), all_events(c).len());
}

/// The positions of `times` in time order; equal times keep their order (a
/// stable sort).
pub fn order_by_time(times: &Vec<u64>) -> (r: Vec<usize>)
    ensures
        r@.len() == times@.len(),
        forall|i: int| 0 <= i < r@.len() ==> (#[trigger] r@[i]) as int == time_order(times@)[i],
{
    let n = times.len();
    let mut order: Vec<usize> = Vec::new();
    let mut k: usize = 0;
    while k < n
        invariant
            n == times@.len(),
            k <= n,
            order@.len() == k,
            forall|i: int| 0 <= i < k ==> (#[trigger] order@[i]) as int == time_sorted_prefix(
                times@,
                k as nat,
            )[i],
        decreases n - k,
    {
        let ghost s = time_sorted_prefix(times@, k as nat);
        proof {
            lemma_time_sorted_prefix(times@, k as nat);
        }
        let key = times[k];
        let mut j: usize = 0;
        while j < order.len() && !(key < times[order[j]])
            invariant
                n == times@.len(),
                key == times@[k as int],
                k < n,
                order@.len() == k,
                s.len() == k,
                forall|i: int| 0 <= i < k ==> (#[trigger] order@[i]) as int == s[i],
                forall|i: int| 0 <= i < k ==> 0 <= #[trigger] s[i] < k,
                j <= k,
                time_insert_position(times@, s, k as int, 0) == time_insert_position(
                    times@,
                    s,
                    k as int,
                    j as int,
                ),
            decreases k - j,
        {
            j += 1;
        }
        let ghost old_order = order@;
        order.insert(j, k);
        proof {
            let t = time_sorted_prefix(times@, (k + 1) as nat);
            assert(t == s.insert(j as int, k as int));
            assert forall|i: int| 0 <= i < k + 1 implies (#[trigger] order@[i]) as int == t[i] by {
                if i < j {
                    assert(order@[i] == old_order[i]);
                } else if i > j {
                    assert(order@[i] == old_order[i - 1]);
                }
            }
        }
        k += 1;
    }
    order
}

impl ClipMetadataV2 {
    /// Adds a marker to the timeline.
    pub fn add_marker(&mut self, marker: TimelineMarker)
        ensures
            final(self).timeline.markers@ == old(self).timeline.markers@.push(marker),
            final(self).timeline.chapters == old(self).timeline.chapters,
            *final(self) == with_timeline(*old(self), final(self).timeline),
    {
        self.timeline.markers.push(marker);
    }

    /// Adds a chapter to the timeline.
    pub fn add_chapter(&mut self, chapter: Chapter)
        ensures
            final(self).timeline.chapters@ == old(self).timeline.chapters@.push(chapter),
            final(self).timeline.markers == old(self).timeline.markers,
            *final(self) == with_timeline(*old(self), final(self).timeline),
    {
        self.timeline.chapters.push(chapter);
    }

    /// Adds a note written at `created_at`, starting the annotations if there
    /// are none yet.
    pub fn add_note(&mut self, timestamp_ms: u64, text: String, created_at: String)
        ensures
            *final(self) == with_annotations(*old(self), final(self).annotations),
            final(self).annotations matches Some(a) && ({
                let note = Note { timestamp_ms, text, created_at };
                match old(self).annotations {
                    Some(b) => same_but_notes(a, b) && a.notes@ == b.notes@.push(note),
                    None => blank_annotations(a) && a.rating is None && !a.favorite && a.notes@
                        == seq![note],
                }
            }),
    {
        if self.annotations.is_none() {
            self.annotations = Some(new_annotations(false));
        }
        let note = Note { timestamp_ms, text, created_at };
        match &mut self.annotations {
            Some(a) => a.notes.push(note),
            None => {},
        }
    }

    /// Sets the rating, clamped to one to five stars, starting the annotations
    /// if there are none yet.
    pub fn set_rating(&mut self, rating: u8)
        ensures
            *final(self) == with_annotations(*old(self), final(self).annotations),
            final(self).annotations matches Some(a) && a.rating == Some(clamp_spec(rating)) && (
            match old(self).annotations {
                Some(b) => same_but_rating(a, b),
                None => blank_annotations(a) && !a.favorite && a.notes@.len() == 0,
            }),
    {
        if self.annotations.is_none() {
            self.annotations = Some(new_annotations(false));
        }
        match &mut self.annotations {
            Some(a) => a.rating = Some(clamp_rating(rating)),
            None => {},
        }
    }

    /// Flips the favourite flag; a clip without annotations becomes a favourite.
    pub fn toggle_favorite(&mut self)
        ensures
            *final(self) == with_annotations(*old(self), final(self).annotations),
            final(self).annotations matches Some(a) && (match old(self).annotations {
                Some(b) => same_but_favorite(a, b) && a.favorite == !b.favorite,
                None => fresh_annotations(a, true),
            }),
    {
        if self.annotations.is_none() {
            self.annotations = Some(new_annotations(true));
        } else {
            match &mut self.annotations {
                Some(a) => a.favorite = !a.favorite,
                None => {},
            }
        }
    }

    /// Adds a tag unless the clip already has it.
    pub fn add_tag(&mut self, tag: String)
        ensures
            tag_views(old(self).tags@).contains(tag@) ==> final(self).tags@ == old(self).tags@,
            !tag_views(old(self).tags@).contains(tag@) ==> final(self).tags@ == old(
                self,
            ).tags@.push(tag),
            *final(self) == with_tags(*old(self), final(self).tags),
    {
        let mut i: usize = 0;
        while i < self.tags.len()
            invariant
                i <= self.tags@.len(),
                forall|j: int| 0 <= j < i ==> (#[trigger] self.tags@[j])@ != tag@,
            decreases self.tags@.len() - i,
        {
            if str_eq(self.tags[i].as_str(), tag.as_str()) {
                assert(tag_views(self.tags@)[i as int] == tag@);
                return;
            }
            i += 1;
        }
        assert(!tag_views(self.tags@).contains(tag@)) by {
            if tag_views(self.tags@).contains(tag@) {
                let j = choose|j: int|
                    0 <= j < tag_views(self.tags@).len() && tag_views(self.tags@)[j] == tag@;
                assert(self.tags@[j]@ == tag@);
            }
        }
        self.tags.push(tag);
    }

    fn event_at(&self, k: usize) -> (r: &EventInfo)
        requires
            k < all_events(*self).len(),
        ensures
            *r == all_events(*self)[k as int],
    {
        if k == 0 {
            &self.primary_event
        } else {
            &self.merged_events[k - 1]
        }
    }

    /// All events, the primary one and the merged ones, ordered by their time
    /// within the clip (events at the same time keep their order).
    pub fn get_all_events(&self) -> (r: Vec<&EventInfo>)
        requires
            self.merged_events@.len() < usize::MAX,
        ensures
            r@.len() == all_events(*self).len(),
            forall|i: int|
                0 <= i < r@.len() ==> *(#[trigger] r@[i]) == all_events(*self)[time_order(
                    clip_times(all_events(*self)),
                )[i]],
    {
        let ghost all = all_events(*self);
        let n = self.merged_events.len() + 1;
        let mut times: Vec<u64> = Vec::new();
        let mut k: usize = 0;
        while k < n
            invariant
                n == all.len(),
                all == all_events(*self),
                k <= n,
                times@ == clip_times(all).subrange(0, k as int),
            decreases n - k,
        {
            times.push(self.event_at(k).clip_timestamp_ms);
            k += 1;
            assert(times@ =~= clip_times(all).subrange(0, k as int));
        }
        assert(times@ =~= clip_times(all));
        let order = order_by_time(&times);
        proof {
            lemma_time_sorted_prefix(times@, n as nat);
        }
        let mut r: Vec<&EventInfo> = Vec::new();
        let mut i: usize = 0;
        while i < n
            invariant
                n == all.len(),
                all == all_events(*self),
                times@ == clip_times(all),
                order@.len() == n,
                forall|m: int| 0 <= m < n ==> (#[trigger] order@[m]) as int == time_order(times@)[m],
                forall|m: int| 0 <= m < n ==> 0 <= #[trigger] time_order(times@)[m] < n,
                i <= n,
                r@.len() == i,
                forall|m: int| 0 <= m < i ==> *(#[trigger] r@[m]) == all[time_order(times@)[m]],
            decreases n - i,
        {
            assert(0 <= time_order(times@)[i as int] < n);
            r.push(self.event_at(order[i]));
            i += 1;
        }
        r
    }

    /// Total priority of the clip: its primary event's and its merged events'.
    pub fn total_priority(&self) -> (r: u32)
        requires
            priority_sum(self.primary_event.priority, event_priorities(self.merged_events@))
                <= u32::MAX,
        ensures
            r == priority_sum(self.primary_event.priority, event_priorities(self.merged_events@)),
    {
        let ghost pr = event_priorities(self.merged_events@);
        let mut total: u32 = self.primary_event.priority as u32;
        let mut i: usize = 0;
        while i < self.merged_events.len()
            invariant
                pr == event_priorities(self.merged_events@),
                i <= self.merged_events@.len(),
                priority_sum(self.primary_event.priority, pr) <= u32::MAX,
                total == priority_sum(self.primary_event.priority, pr.subrange(0, i as int)),
            decreases self.merged_events@.len() - i,
        {
            assert(pr.subrange(0, i + 1).drop_last() =~= pr.subrange(0, i as int));
            proof {
                lemma_priority_sum_prefix(self.primary_event.priority, pr, i + 1);
            }
            total = total + self.merged_events[i].priority as u32;
            i += 1;
        }
        assert(pr.subrange(0, pr.len() as int) =~= pr);
        total
    }

    /// The rich record of a basic clip: ids from its path, its event as the
    /// primary one (assumed ten seconds into the clip), a single-event window of
    /// ten seconds before and three after, and default details elsewhere.
    pub fn from_v1(v1: ClipMetadata) -> (r: Self)
        requires
            v1.event_time_ms + v1.duration_ms <= u64::MAX,
        ensures
            r.clip_id@ == clip_id_of(v1.file_path@),
            r.game_id@ == game_id_of(v1.file_path@),
            r.file_path == v1.file_path,
            r.thumbnail_path == v1.thumbnail_path,
            r.created_at == v1.created_at,
            r.game_time_start_ms == v1.event_time_ms,
            r.game_time_end_ms == v1.event_time_ms + v1.duration_ms,
            r.clip_duration_ms == v1.duration_ms,
            r.primary_event.event_id == 0,
            r.primary_event.event_type == v1.event_type,
            r.primary_event.timestamp_ms == v1.event_time_ms,
            r.primary_event.clip_timestamp_ms == 10000,
            r.primary_event.priority == v1.priority,
            r.primary_event.killer is None,
            r.primary_event.victim is None,
            r.primary_event.assisters@.len() == 0,
            r.primary_event.gold_earned is None,
            r.primary_event.shutdown_bounty is None,
            r.primary_event.details is None,
            r.merged_events@.len() == 0,
            r.event_window == (EventWindow {
                merge_strategy: MergeStrategy::SingleEvent,
                time_threshold_ms: 0,
                events_merged: 1,
                pre_duration_ms: 10000,
                post_duration_ms: 3000,
            }),
            r.priority == v1.priority,
            r.tags@.len() == 0,
            default_video_info(r.video_info),
            default_audio_info(r.audio_info),
            r.timeline.markers@.len() == 0,
            r.timeline.chapters@.len() == 0,
            default_game_context(r.game_context),
            r.annotations is None,
    {
        let clip_id = Self::generate_clip_id(v1.file_path.as_str());
        let game_id = Self::extract_game_id(v1.file_path.as_str());
        ClipMetadataV2 {
            clip_id,
            game_id,
            game_time_start_ms: v1.event_time_ms,
            game_time_end_ms: v1.event_time_ms + v1.duration_ms,
            clip_duration_ms: v1.duration_ms,
            primary_event: EventInfo {
                event_id: 0,
                event_type: v1.event_type,
                timestamp_ms: v1.event_time_ms,
                clip_timestamp_ms: 10000,
                priority: v1.priority,
                killer: None,
                victim: None,
                assisters: Vec::new(),
                gold_earned: None,
                shutdown_bounty: None,
                details: None,
            },
            merged_events: Vec::new(),
            event_window: EventWindow {
                merge_strategy: MergeStrategy::SingleEvent,
                time_threshold_ms: 0,
                events_merged: 1,
                pre_duration_ms: 10000,
                post_duration_ms: 3000,
            },
            priority: v1.priority,
            tags: Vec::new(),
            video_info: VideoInfo::default(),
            audio_info: AudioInfo::default(),
            timeline: ClipTimeline::default(),
            game_context: GameContext::default(),
            annotations: None,
            file_path: v1.file_path,
            thumbnail_path: v1.thumbnail_path,
            created_at: v1.created_at,
        }
    }
}

/// The spec of clamping a rating to one to five stars.
pub open spec fn clamp_spec(rating: u8) -> u8 {
    if rating < 1 {
        1
    } else if rating > 5 {
        5
    } else {
        rating
    }
}

} // verus!
