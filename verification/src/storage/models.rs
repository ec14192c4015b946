//! Games, events and clips as the recorder stores them.
use crate::text::{decimal, owned, push_all, push_decimal, str_eq};
use vstd::prelude::*;

verus! {

/// Outcome of a game.
#[derive(Debug, Clone, Copy, PartialEq, Eq, Structural)]
pub enum GameResult {
    Win,
    Loss,
    Remake,
}

/// Kills, deaths and assists.
#[derive(Debug, Clone, Copy, PartialEq, Eq, Structural)]
pub struct KDA {
    pub kills: u32,
    pub deaths: u32,
    pub assists: u32,
}

/// Recorded event types.
#[derive(Debug)]
pub enum EventType {
    ChampionKill,
    /// 2 = double, 3 = triple, 4 = quadra, 5 = penta.
    Multikill(u8),
    TurretKill,
    InhibitorKill,
    DragonKill,
    BaronKill,
    Ace,
    FirstBlood,
    Custom(String),
}

/// Default priority of an event type (1-5).
pub open spec fn event_priority(e: EventType) -> u8 {
    match e {
        EventType::ChampionKill => 1,
        EventType::Multikill(n) => if 2 <= n <= 5 {
            n
        } else {
            3
        },
        EventType::TurretKill => 2,
        EventType::InhibitorKill => 3,
        EventType::DragonKill => 3,
        EventType::BaronKill => 4,
        EventType::Ace => 4,
        EventType::FirstBlood => 3,
        EventType::Custom(_) => 2,
    }
}

/// Name of an event type in the auto-editor's clip list.
pub open spec fn event_label(e: EventType) -> Seq<char> {
    match e {
        EventType::ChampionKill => "ChampionKill"@,
        EventType::Multikill(n) => if n == 2 {
            "DoubleKill"@
        } else if n == 3 {
            "TripleKill"@
        } else if n == 4 {
            "QuadraKill"@
        } else if n == 5 {
            "PentaKill"@
        } else {
            "Multikill("@ + decimal(n as nat) + ")"@
        },
        EventType::TurretKill => "TurretKill"@,
        EventType::InhibitorKill => "InhibitorKill"@,
        EventType::DragonKill => "DragonKill"@,
        EventType::BaronKill => "BaronKill"@,
        EventType::Ace => "Ace"@,
        EventType::FirstBlood => "FirstBlood"@,
        EventType::Custom(s) => s@,
    }
}

impl EventType {
    /// Default priority (1-5).
    pub fn default_priority(&self) -> (p: u8)
        ensures
            p == event_priority(*self),
            1 <= p <= 5,
    {
        match self {
            EventType::ChampionKill => 1,
            EventType::Multikill(2) => 2,
            EventType::Multikill(3) => 3,
            EventType::Multikill(4) => 4,
            EventType::Multikill(5) => 5,
            EventType::Multikill(_) => 3,
            EventType::TurretKill => 2,
            EventType::InhibitorKill => 3,
            EventType::DragonKill => 3,
            EventType::BaronKill => 4,
            EventType::Ace => 4,
            EventType::FirstBlood => 3,
            EventType::Custom(_) => 2,
        }
    }

    /// Name of the event in the auto-editor's clip list.
    pub fn clip_label(&self) -> (r: String)
        ensures
            r@ == event_label(*self),
    {
        match self {
            EventType::ChampionKill => owned("ChampionKill"),
            EventType::Multikill(n) => {
                if *n == 2 {
                    owned("DoubleKill")
                } else if *n == 3 {
                    owned("TripleKill")
                } else if *n == 4 {
                    owned("QuadraKill")
                } else if *n == 5 {
                    owned("PentaKill")
                } else {
                    let mut s = owned("Multikill(");
                    push_decimal(&mut s, *n as u64);
                    push_all(&mut s, ")");
                    s
                }
            },
            EventType::TurretKill => owned("TurretKill"),
            EventType::InhibitorKill => owned("InhibitorKill"),
            EventType::DragonKill => owned("DragonKill"),
            EventType::BaronKill => owned("BaronKill"),
            EventType::Ace => owned("Ace"),
            EventType::FirstBlood => owned("FirstBlood"),
            EventType::Custom(s) => owned(s.as_str()),
        }
    }

    /// A copy of the event type.
    pub fn copy(&self) -> (r: EventType)
        ensures
            same_event_type(r, *self),
    {
        match self {
            EventType::ChampionKill => EventType::ChampionKill,
            EventType::Multikill(n) => EventType::Multikill(*n),
            EventType::TurretKill => EventType::TurretKill,
            EventType::InhibitorKill => EventType::InhibitorKill,
            EventType::DragonKill => EventType::DragonKill,
            EventType::BaronKill => EventType::BaronKill,
            EventType::Ace => EventType::Ace,
            EventType::FirstBlood => EventType::FirstBlood,
            EventType::Custom(s) => EventType::Custom(owned(s.as_str())),
        }
    }
}

/// Two event types are the same kind (custom ones with the same name).
pub open spec fn same_event_type(a: EventType, b: EventType) -> bool {
    match (a, b) {
        (EventType::Custom(x), EventType::Custom(y)) => x@ == y@,
        (EventType::Custom(_), _) => false,
        (x, y) => x == y,
    }
}

/// Metadata of a saved clip (times in milliseconds, creation time as RFC 3339
/// text).
#[derive(Debug)]
pub struct ClipMetadata {
    pub file_path: String,
    pub thumbnail_path: Option<String>,
    pub event_type: EventType,
    /// Game time of the event.
    pub event_time_ms: u64,
    pub priority: u8,
    pub duration_ms: u64,
    pub created_at: String,
    /// Times the clip went into an auto-edit.
    pub usage_count: u32,
}

/// Position of the first clip stored under `path`, if any.
pub open spec fn clip_position(clips: Seq<ClipMetadata>, path: Seq<char>) -> Option<int>
    decreases clips.len(),
{
    if clips.len() == 0 {
        None
    } else {
        match clip_position(clips.drop_last(), path) {
            Some(i) => Some(i),
            None => if clips.last().file_path@ == path {
                Some(clips.len() - 1)
            } else {
                None
            },
        }
    }
}

fn find_clip(clips: &Vec<ClipMetadata>, path: &str) -> (r: Option<usize>)
    ensures
        r matches Some(i) ==> i < clips@.len(),
        match clip_position(clips@, path@) {
            Some(i) => r matches Some(j) && j as int == i,
            None => r is None,
        },
{
    let mut i: usize = 0;
    while i < clips.len()
        invariant
            i <= clips@.len(),
            clip_position(clips@.subrange(0, i as int), path@) is None,
        decreases clips@.len() - i,
    {
        assert(clips@.subrange(0, i + 1).drop_last() =~= clips@.subrange(0, i as int));
        if str_eq(clips[i].file_path.as_str(), path) {
            proof {
                lemma_position_prefix(clips@, path@, i as int + 1, i as int);
            }
            return Some(i);
        }
        i += 1;
    }
    assert(clips@.subrange(0, clips@.len() as int) =~= clips@);
    None
}

proof fn lemma_position_prefix(clips: Seq<ClipMetadata>, path: Seq<char>, k: int, j: int)
    requires
        0 <= k <= clips.len(),
        clip_position(clips.subrange(0, k), path) == Some(j),
    ensures
        clip_position(clips, path) == Some(j),
    decreases clips.len() - k,
{
    if k < clips.len() {
        assert(clips.subrange(0, k + 1).drop_last() =~= clips.subrange(0, k));
        assert(clip_position(clips.subrange(0, k + 1), path) == Some(j));
        lemma_position_prefix(clips, path, k + 1, j);
    } else {
        assert(clips.subrange(0, k) =~= clips);
    }
}

/// Store `clip`: it replaces the first clip with the same file path, or is
/// added at the end.
pub fn upsert_clip(clips: &mut Vec<ClipMetadata>, clip: ClipMetadata)
    ensures
        match clip_position(old(clips)@, clip.file_path@) {
            Some(i) => final(clips)@ == old(clips)@.update(i, clip),
            None => final(clips)@ == old(clips)@.push(clip),
        },
{
    proof {
        lemma_position_facts(old(clips)@, clip.file_path@);
    }
    let ghost c = clip;
    let found = find_clip(clips, clip.file_path.as_str());
    match found {
        Some(i) => {
            assert(clip_position(old(clips)@, c.file_path@) == Some(i as int));
            clips.set(i, clip);
            assert(clips@ == old(clips)@.update(i as int, c));
        },
        None => {
            clips.push(clip);
        },
    }
}

/// The clips not stored under `path`, in order.
pub open spec fn without_path(clips: Seq<ClipMetadata>, path: Seq<char>) -> Seq<ClipMetadata>
    decreases clips.len(),
{
    if clips.len() == 0 {
        Seq::empty()
    } else {
        let rest = without_path(clips.drop_last(), path);
        if clips.last().file_path@ == path {
            rest
        } else {
            rest.push(clips.last())
        }
    }
}

/// Remove every clip stored under `path`; returns whether one was found.
pub fn remove_clip(clips: &mut Vec<ClipMetadata>, path: &str) -> (found: bool)
    ensures
        final(clips)@ == without_path(old(clips)@, path@),
        found == (final(clips)@.len() != old(clips)@.len()),
{
    let mut rest: Vec<ClipMetadata> = Vec::new();
    std::mem::swap(&mut rest, clips);
    let ghost all = rest@;
    let n = rest.len();
    let mut kept: Vec<ClipMetadata> = Vec::new();
    let mut i: usize = 0;
    assert(all.subrange(0, n as int) =~= all);
    while i < n
        invariant
            n == all.len(),
            i <= n,
            rest@ == all.subrange(i as int, n as int),
            kept@ == without_path(all.subrange(0, i as int), path@),
            kept@.len() <= i,
        decreases n - i,
    {
        assert(all.subrange(0, i + 1).drop_last() =~= all.subrange(0, i as int));
        let c = rest.remove(0);
        assert(rest@ =~= all.subrange(i + 1, n as int));
        if !str_eq(c.file_path.as_str(), path) {
            kept.push(c);
        }
        i += 1;
    }
    let found = kept.len() != n;
    *clips = kept;
    found
}

/// Storing a clip makes it the one found under its path, and leaves the other
/// clips in place.
pub proof fn law_upsert_then_find(clips: Seq<ClipMetadata>, clip: ClipMetadata)
    ensures
        ({
            let after = match clip_position(clips, clip.file_path@) {
                Some(i) => clips.update(i, clip),
                None => clips.push(clip),
            };
            &&& clip_position(after, clip.file_path@) matches Some(j) && after[j] == clip
            &&& after.len() == clips.len() + (if clip_position(clips, clip.file_path@) is Some {
                0int
            } else {
                1int
            })
        }),
{
    lemma_position_facts(clips, clip.file_path@);
    match clip_position(clips, clip.file_path@) {
        Some(i) => {
            let after = clips.update(i, clip);
            lemma_position_update(clips, clip.file_path@, i, clip);
        },
        None => {
            let after = clips.push(clip);
            assert(after.drop_last() =~= clips);
        },
    }
}

/// Where the first clip stored under `path` is: in range, under that path, and
/// after every clip stored elsewhere; without one, no clip is stored there.
pub proof fn lemma_position_facts(clips: Seq<ClipMetadata>, path: Seq<char>)
    ensures
        clip_position(clips, path) matches Some(i) ==> 0 <= i < clips.len() && clips[i].file_path@
            == path && forall|k: int| 0 <= k < i ==> (#[trigger] clips[k]).file_path@ != path,
        clip_position(clips, path) is None ==> forall|k: int|
            0 <= k < clips.len() ==> (#[trigger] clips[k]).file_path@ != path,
    decreases clips.len(),
{
    if clips.len() > 0 {
        lemma_position_facts(clips.drop_last(), path);
        assert forall|k: int| 0 <= k < clips.len() - 1 implies (#[trigger] clips[k]) == clips.drop_last()[k] by {}
    }
}

proof fn lemma_position_update(clips: Seq<ClipMetadata>, path: Seq<char>, i: int, clip: ClipMetadata)
    requires
        0 <= i < clips.len(),
        clips[i].file_path@ == path,
        clip.file_path@ == path,
        forall|k: int| 0 <= k < i ==> (#[trigger] clips[k]).file_path@ != path,
    ensures
        clip_position(clips.update(i, clip), path) == Some(i),
    decreases clips.len(),
{
    let after = clips.update(i, clip);
    if i < clips.len() - 1 {
        assert(after.drop_last() =~= clips.drop_last().update(i, clip));
        lemma_position_update(clips.drop_last(), path, i, clip);
    } else {
        assert(after.drop_last() =~= clips.drop_last());
        lemma_no_position(clips.drop_last(), path);
    }
}

proof fn lemma_no_position(clips: Seq<ClipMetadata>, path: Seq<char>)
    requires
        forall|k: int| 0 <= k < clips.len() ==> (#[trigger] clips[k]).file_path@ != path,
    ensures
        clip_position(clips, path) is None,
    decreases clips.len(),
{
    if clips.len() > 0 {
        assert forall|k: int| 0 <= k < clips.len() - 1 implies (#[trigger] clips.drop_last()[k]).file_path@ != path by {
            assert(clips.drop_last()[k] == clips[k]);
        }
        lemma_no_position(clips.drop_last(), path);
    }
}

/// After removing a path, no clip is stored under it.
pub proof fn law_remove_clears_path(clips: Seq<ClipMetadata>, path: Seq<char>)
    ensures
        clip_position(without_path(clips, path), path) is None,
        without_path(clips, path).len() <= clips.len(),
    decreases clips.len(),
{
    if clips.len() > 0 {
        law_remove_clears_path(clips.drop_last(), path);
        let rest = without_path(clips.drop_last(), path);
        if clips.last().file_path@ != path {
            assert(rest.push(clips.last()).drop_last() =~= rest);
        }
    }
}


/// Counts one more use of the clip stored under `path` (the first such clip),
/// as an auto-edit does for each clip it includes; returns whether one was found.
pub fn mark_clip_used(clips: &mut Vec<ClipMetadata>, path: &str) -> (found: bool)
    requires
        clip_position(old(clips)@, path@) matches Some(i) ==> old(clips)@[i].usage_count
            < u32::MAX,
    ensures
        match clip_position(old(clips)@, path@) {
            Some(i) => found && final(clips)@ == old(clips)@.update(
                i,
                ClipMetadata { usage_count: (old(clips)@[i].usage_count + 1) as u32, ..old(clips)@[i] },
            ),
            None => !found && final(clips)@ == old(clips)@,
        },
{
    proof {
        lemma_position_facts(clips@, path@);
    }
    match find_clip(clips, path) {
        Some(i) => {
            let mut c = clips.remove(i);
            c.usage_count = c.usage_count + 1;
            clips.insert(i, c);
            true
        },
        None => false,
    }
}

} // verus!
