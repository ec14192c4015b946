//! Where the recorder keeps games, clips and templates, and the records it
//! keeps about them. Paths are joined with `/`.

pub mod models;
pub mod models_v2;
pub mod commands;

use crate::storage::models::{
    clip_position, lemma_position_facts, same_event_type, upsert_clip, ClipMetadata,
};
use crate::storage::models_v2::{tag_views, ClipMetadataV2};
use crate::security::{join_path, joined};
use crate::text::{owned, push_all, str_eq};
use vstd::prelude::*;

verus! {

/// Storage errors.
#[derive(Debug)]
pub enum StorageError {
    /// A file operation failed (its message).
    Io(String),
    /// A file could not be read or written as JSON (the reason).
    Json(String),
    /// No such game (its id).
    GameNotFound(String),
}

/// File storage rooted at a directory.
pub struct Storage {
    base_path: String,
}

impl Storage {
    /// The root directory.
    pub closed spec fn base(&self) -> Seq<char> {
        self.base_path@
    }

    /// Storage rooted at `base_path` (its directories are created by the
    /// caller).
    pub fn new(base_path: String) -> (s: Self)
        ensures
            s.base() == base_path@,
    {
        Storage { base_path }
    }

    /// The root directory.
    pub fn base_path(&self) -> (r: &str)
        ensures
            r@ == self.base(),
    {
        self.base_path.as_str()
    }

    /// Directory of a game: `clips/<game_id>` under the root.
    pub fn game_path(&self, game_id: &str) -> (r: String)
        ensures
            r@ == joined(joined(self.base(), "clips"@), game_id@),
    {
        let clips = join_path(self.base_path.as_str(), "clips");
        join_path(clips.as_str(), game_id)
    }

    /// The directories created under the root.
    pub fn subdirectories(&self) -> (r: Vec<String>)
        ensures
            r@.len() == 3,
            r@[0]@ == joined(self.base(), "clips"@),
            r@[1]@ == joined(self.base(), "recordings"@),
            r@[2]@ == joined(self.base(), "replays"@),
    {
        let mut v: Vec<String> = Vec::new();
        v.push(join_path(self.base_path.as_str(), "clips"));
        v.push(join_path(self.base_path.as_str(), "recordings"));
        v.push(join_path(self.base_path.as_str(), "replays"));
        v
    }

    /// A file of a game: `metadata.json`, `events.json` or `clips.json`.
    pub fn game_file(&self, game_id: &str, file: &str) -> (r: String)
        ensures
            r@ == joined(joined(joined(self.base(), "clips"@), game_id@), file@),
    {
        let game = self.game_path(game_id);
        join_path(game.as_str(), file)
    }

    /// File of a canvas template: `templates/<id>.json` under the root.
    pub fn template_path(&self, template_id: &str) -> (r: String)
        ensures
            r@ == joined(joined(self.base(), "templates"@), template_id@ + ".json"@),
    {
        let dir = join_path(self.base_path.as_str(), "templates");
        let mut name = owned(template_id);
        push_all(&mut name, ".json");
        join_path(dir.as_str(), name.as_str())
    }
}

/// Storage statistics.
#[derive(Debug, Clone, Copy, PartialEq, Eq, Structural)]
pub struct StorageStats {
    pub total_games: usize,
    pub total_clips: usize,
    pub total_size_bytes: u64,
}

/// The clip count of each game, summed.
pub open spec fn total_count(counts: Seq<usize>) -> nat
    decreases counts.len(),
{
    if counts.len() == 0 {
        0
    } else {
        total_count(counts.drop_last()) + (counts.last() as nat)
    }
}

/// The sizes of the clip files, summed; a file that could not be read counts
/// as nothing.
pub open spec fn total_size(sizes: Seq<Option<u64>>) -> nat
    decreases sizes.len(),
{
    if sizes.len() == 0 {
        0
    } else {
        total_size(sizes.drop_last()) + match sizes.last() {
            Some(n) => n as nat,
            None => 0,
        }
    }
}

/// Storage statistics from what was read: the number of games, the number of
/// clips listed for each game, and the size of each clip file (`None` where
/// the file could not be read).
pub fn storage_stats(total_games: usize, clip_counts: &Vec<usize>, sizes: &Vec<Option<u64>>) -> (r:
    StorageStats)
    requires
        total_count(clip_counts@) <= usize::MAX,
        total_size(sizes@) <= u64::MAX,
    ensures
        r.total_games == total_games,
        r.total_clips == total_count(clip_counts@),
        r.total_size_bytes == total_size(sizes@),
{
    let mut clips: usize = 0;
    let mut i: usize = 0;
    while i < clip_counts.len()
        invariant
            i <= clip_counts@.len(),
            clips == total_count(clip_counts@.subrange(0, i as int)),
            total_count(clip_counts@) <= usize::MAX,
        decreases clip_counts@.len() - i,
    {
        proof {
            assert(clip_counts@.subrange(0, i as int + 1).drop_last() =~= clip_counts@.subrange(0, i as int));
            lemma_count_prefix(clip_counts@, i as int + 1);
        }
        clips = clips + clip_counts[i];
        i += 1;
    }
    assert(clip_counts@.subrange(0, clip_counts@.len() as int) =~= clip_counts@);
    let mut bytes: u64 = 0;
    let mut j: usize = 0;
    while j < sizes.len()
        invariant
            j <= sizes@.len(),
            bytes == total_size(sizes@.subrange(0, j as int)),
            total_size(sizes@) <= u64::MAX,
        decreases sizes@.len() - j,
    {
        proof {
            assert(sizes@.subrange(0, j as int + 1).drop_last() =~= sizes@.subrange(0, j as int));
            lemma_size_prefix(sizes@, j as int + 1);
        }
        match sizes[j] {
            Some(n) => {
                bytes = bytes + n;
            },
            None => {},
        }
        j += 1;
    }
    assert(sizes@.subrange(0, sizes@.len() as int) =~= sizes@);
    StorageStats { total_games, total_clips: clips, total_size_bytes: bytes }
}

proof fn lemma_count_prefix(s: Seq<usize>, k: int)
    requires
        0 <= k <= s.len(),
    ensures
        total_count(s.subrange(0, k)) <= total_count(s),
    decreases s.len(),
{
    if k < s.len() {
        assert(s.drop_last().subrange(0, k) =~= s.subrange(0, k));
        lemma_count_prefix(s.drop_last(), k);
    } else {
        assert(s.subrange(0, k) =~= s);
    }
}

proof fn lemma_size_prefix(s: Seq<Option<u64>>, k: int)
    requires
        0 <= k <= s.len(),
    ensures
        total_size(s.subrange(0, k)) <= total_size(s),
    decreases s.len(),
{
    if k < s.len() {
        assert(s.drop_last().subrange(0, k) =~= s.subrange(0, k));
        lemma_size_prefix(s.drop_last(), k);
    } else {
        assert(s.subrange(0, k) =~= s);
    }
}

/// A canvas template in the library listing.
#[derive(Debug)]
pub struct CanvasTemplateInfo {
    pub id: String,
    pub name: String,
    pub element_count: usize,
}


// ============================================================================
// Choosing clips
// ============================================================================

/// The clips of `s` that satisfy `p`, in order.
pub open spec fn clips_where(s: Seq<ClipMetadataV2>, p: spec_fn(ClipMetadataV2) -> bool) -> Seq<
    ClipMetadataV2,
>
    decreases s.len(),
{
    if s.len() == 0 {
        Seq::empty()
    } else if p(s.last()) {
        clips_where(s.drop_last(), p).push(s.last())
    } else {
        clips_where(s.drop_last(), p)
    }
}

/// The clip has at least one of the tags.
pub open spec fn has_any_tag(c: ClipMetadataV2, tags: Seq<Seq<char>>) -> bool {
    exists|i: int| 0 <= i < tags.len() && tag_views(c.tags@).contains(#[trigger] tags[i])
}

/// The clip's priority reaches `min`.
pub open spec fn reaches_priority(c: ClipMetadataV2, min: u8) -> bool {
    c.priority >= min
}

/// The user marked the clip as a favourite.
pub open spec fn is_favorite(c: ClipMetadataV2) -> bool {
    c.annotations matches Some(a) && a.favorite
}

proof fn lemma_clips_where_prefix(
    s: Seq<ClipMetadataV2>,
    p: spec_fn(ClipMetadataV2) -> bool,
    i: int,
)
    requires
        0 <= i < s.len(),
    ensures
        clips_where(s.subrange(0, i + 1), p) == if p(s[i]) {
            clips_where(s.subrange(0, i), p).push(s[i])
        } else {
            clips_where(s.subrange(0, i), p)
        },
{
    assert(s.subrange(0, i + 1).drop_last() =~= s.subrange(0, i));
}

fn keep_clips(
    clips: Vec<ClipMetadataV2>,
    keep: Vec<bool>,
    Ghost(p): Ghost<spec_fn(ClipMetadataV2) -> bool>,
) -> (r: Vec<ClipMetadataV2>)
    requires
        keep@.len() == clips@.len(),
        forall|i: int| 0 <= i < clips@.len() ==> keep@[i] == p(#[trigger] clips@[i]),
    ensures
        r@ == clips_where(clips@, p),
{
    let ghost orig = clips@;
    let mut rest = clips;
    let mut out: Vec<ClipMetadataV2> = Vec::new();
    let mut i: usize = 0;
    let n = rest.len();
    assert(orig.subrange(0, 0) =~= Seq::<ClipMetadataV2>::empty());
    while i < n
        invariant
            n == orig.len(),
            keep@.len() == n,
            forall|j: int| 0 <= j < n ==> keep@[j] == p(#[trigger] orig[j]),
            i <= n,
            rest@ == orig.subrange(i as int, n as int),
            out@ == clips_where(orig.subrange(0, i as int), p),
        decreases n - i,
    {
        let c = rest.remove(0);
        assert(c == orig[i as int]);
        if keep[i] {
            out.push(c);
        }
        proof {
            lemma_clips_where_prefix(orig, p, i as int);
            assert(keep@[i as int] == p(orig[i as int]));
            assert(rest@ =~= orig.subrange(i + 1, n as int));
        }
        i += 1;
    }
    assert(orig.subrange(0, n as int) =~= orig);
    out
}

fn clip_has_tag(c: &ClipMetadataV2, tag: &String) -> (r: bool)
    ensures
        r == tag_views(c.tags@).contains(tag@),
{
    let mut i: usize = 0;
    while i < c.tags.len()
        invariant
            i <= c.tags@.len(),
            forall|j: int| 0 <= j < i ==> (#[trigger] c.tags@[j])@ != tag@,
        decreases c.tags@.len() - i,
    {
        if str_eq(c.tags[i].as_str(), tag.as_str()) {
            assert(tag_views(c.tags@)[i as int] == tag@);
            return true;
        }
        i += 1;
    }
    assert(!tag_views(c.tags@).contains(tag@)) by {
        if tag_views(c.tags@).contains(tag@) {
            let j = choose|j: int| 0 <= j < tag_views(c.tags@).len() && tag_views(c.tags@)[j] == tag@;
            assert(c.tags@[j]@ == tag@);
        }
    }
    false
}

/// The views of a list of tags.
pub open spec fn wanted_tags(tags: Seq<String>) -> Seq<Seq<char>> {
    tags.map_values(|t: String| t@)
}

/// The clips that carry at least one of `tags`, in order.
pub fn search_clips_by_tags(clips: Vec<ClipMetadataV2>, tags: &[String]) -> (r: Vec<ClipMetadataV2>)
    ensures
        r@ == clips_where(clips@, |c: ClipMetadataV2| has_any_tag(c, wanted_tags(tags@))),
{
    let ghost p = |c: ClipMetadataV2| has_any_tag(c, wanted_tags(tags@));
    let mut keep: Vec<bool> = Vec::new();
    let mut i: usize = 0;
    while i < clips.len()
        invariant
            p == (|c: ClipMetadataV2| has_any_tag(c, wanted_tags(tags@))),
            i <= clips@.len(),
            keep@.len() == i,
            forall|j: int| 0 <= j < i ==> keep@[j] == p(#[trigger] clips@[j]),
        decreases clips@.len() - i,
    {
        let mut found = false;
        let mut k: usize = 0;
        while k < tags.len() && !found
            invariant
                k <= tags@.len(),
                i < clips@.len(),
                found ==> has_any_tag(clips@[i as int], wanted_tags(tags@)),
                !found ==> forall|m: int|
                    0 <= m < k ==> !tag_views(clips@[i as int].tags@).contains(
                        #[trigger] wanted_tags(tags@)[m],
                    ),
            decreases tags@.len() - k + if found { 0int } else { 1int },
        {
            if clip_has_tag(&clips[i], &tags[k]) {
                assert(wanted_tags(tags@)[k as int] == tags@[k as int]@);
                found = true;
            } else {
                k += 1;
            }
        }
        proof {
            if !found {
                assert(!has_any_tag(clips@[i as int], wanted_tags(tags@)));
            }
        }
        keep.push(found);
        i += 1;
    }
    keep_clips(clips, keep, Ghost(p))
}

/// The clips whose priority reaches `min_priority`, in order.
pub fn get_clips_by_priority(clips: Vec<ClipMetadataV2>, min_priority: u8) -> (r: Vec<
    ClipMetadataV2,
>)
    ensures
        r@ == clips_where(clips@, |c: ClipMetadataV2| reaches_priority(c, min_priority)),
{
    let ghost p = |c: ClipMetadataV2| reaches_priority(c, min_priority);
    let mut keep: Vec<bool> = Vec::new();
    let mut i: usize = 0;
    while i < clips.len()
        invariant
            p == (|c: ClipMetadataV2| reaches_priority(c, min_priority)),
            i <= clips@.len(),
            keep@.len() == i,
            forall|j: int| 0 <= j < i ==> keep@[j] == p(#[trigger] clips@[j]),
        decreases clips@.len() - i,
    {
        keep.push(clips[i].priority >= min_priority);
        i += 1;
    }
    keep_clips(clips, keep, Ghost(p))
}

/// The clips the user marked as favourites, in order.
pub fn get_favorite_clips(clips: Vec<ClipMetadataV2>) -> (r: Vec<ClipMetadataV2>)
    ensures
        r@ == clips_where(clips@, |c: ClipMetadataV2| is_favorite(c)),
{
    let ghost p = |c: ClipMetadataV2| is_favorite(c);
    let mut keep: Vec<bool> = Vec::new();
    let mut i: usize = 0;
    while i < clips.len()
        invariant
            p == (|c: ClipMetadataV2| is_favorite(c)),
            i <= clips@.len(),
            keep@.len() == i,
            forall|j: int| 0 <= j < i ==> keep@[j] == p(#[trigger] clips@[j]),
        decreases clips@.len() - i,
    {
        let fav = match &clips[i].annotations {
            Some(a) => a.favorite,
            None => false,
        };
        keep.push(fav);
        i += 1;
    }
    keep_clips(clips, keep, Ghost(p))
}


/// The index entry of a rich clip record: its path, thumbnail, event kind,
/// start time, priority, duration and creation time, not yet used.
pub open spec fn is_index_entry(e: ClipMetadata, c: ClipMetadataV2) -> bool {
    &&& e.file_path@ == c.file_path@
    &&& e.thumbnail_path == c.thumbnail_path
    &&& same_event_type(e.event_type, c.primary_event.event_type)
    &&& e.event_time_ms == c.game_time_start_ms
    &&& e.priority == c.priority
    &&& e.duration_ms == c.clip_duration_ms
    &&& e.created_at@ == c.created_at@
    &&& e.usage_count == 0
}

fn copy_opt(o: &Option<String>) -> (r: Option<String>)
    ensures
        r == *o,
{
    match o {
        Some(s) => Some(s.clone()),
        None => None,
    }
}

/// Records a rich clip in the game's clip index: its entry replaces the one
/// with the same path, or is added at the end.
pub fn update_clips_index_v2(index: &mut Vec<ClipMetadata>, clip: &ClipMetadataV2)
    ensures
        match clip_position(old(index)@, clip.file_path@) {
            Some(i) => final(index)@ == old(index)@.update(i, final(index)@[i]) && is_index_entry(
                final(index)@[i],
                *clip,
            ),
            None => final(index)@ == old(index)@.push(final(index)@.last()) && is_index_entry(
                final(index)@.last(),
                *clip,
            ),
        },
{
    proof {
        lemma_position_facts(index@, clip.file_path@);
    }
    let entry = ClipMetadata {
        file_path: owned(clip.file_path.as_str()),
        thumbnail_path: copy_opt(&clip.thumbnail_path),
        event_type: clip.primary_event.event_type.copy(),
        event_time_ms: clip.game_time_start_ms,
        priority: clip.priority,
        duration_ms: clip.clip_duration_ms,
        created_at: owned(clip.created_at.as_str()),
        usage_count: 0,
    };
    let ghost e = entry;
    assert(is_index_entry(e, *clip));
    upsert_clip(index, entry);
}

} // verus!
