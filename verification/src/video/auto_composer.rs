//! Auto-edit: which clips go into a short. Clips are ordered by how often they
//! were used (unless duplicates are allowed) and then by priority, and taken
//! greedily while they fit in nine tenths of the target length. Durations are
//! in milliseconds.
use crate::text::owned;
use crate::video::VideoError;
use vstd::prelude::*;

verus! {

/// Background of a canvas template.
#[derive(Debug)]
pub enum BackgroundLayer {
    Color { value: String },
    Gradient { value: String },
    Image { path: String },
}

/// Background music of an auto-edit.
#[derive(Debug)]
pub struct BackgroundMusic {
    /// MP3 file path.
    pub file_path: String,
    /// Repeat the music when it is shorter than the video.
    pub loop_music: bool,
}

/// Audio mixing levels (0-100).
#[derive(Debug, Clone, Copy, PartialEq, Eq, Structural)]
pub struct AudioLevels {
    pub game_audio: u32,
    pub background_music: u32,
}

impl Default for AudioLevels {
    fn default() -> (r: Self)
        ensures
            r == (AudioLevels { game_audio: 60, background_music: 80 }),
    {
        AudioLevels { game_audio: 60, background_music: 80 }
    }
}

/// State of an auto-edit job.
#[derive(Debug, Clone, Copy, PartialEq, Eq, Structural)]
pub enum AutoEditStatus {
    Queued,
    Processing,
    Completed,
    Failed,
}

/// A clip that can go into an auto-edit.
#[derive(Debug)]
pub struct ClipInfo {
    pub id: i64,
    pub game_id: String,
    pub event_type: String,
    /// Game time of the event, in milliseconds.
    pub event_time_ms: u64,
    pub priority: i32,
    pub file_path: String,
    pub thumbnail_path: Option<String>,
    /// Length in milliseconds, when known.
    pub duration_ms: Option<u64>,
    pub usage_count: u32,
}

/// Length counted for a clip: its duration, ten seconds when unknown.
pub open spec fn clip_duration(c: ClipInfo) -> nat {
    match c.duration_ms {
        Some(d) => d as nat,
        None => 10_000,
    }
}

/// `a` comes strictly before `b`: fewer uses first (unless duplicates are
/// allowed), then higher priority first. Clips equal on both keep their order
/// (the sort is stable).
pub open spec fn precedes(a: ClipInfo, b: ClipInfo, allow_duplicates: bool) -> bool {
    if !allow_duplicates && a.usage_count != b.usage_count {
        a.usage_count < b.usage_count
    } else {
        a.priority > b.priority
    }
}

/// Position where clip `x` goes into the ordered indices `s`, searching from
/// `j`: before the first clip it strictly precedes.
pub open spec fn insert_position(
    clips: Seq<ClipInfo>,
    s: Seq<int>,
    x: int,
    j: int,
    allow: bool,
) -> int
    decreases s.len() - j,
{
    if j < 0 || j >= s.len() {
        s.len() as int
    } else if precedes(clips[x], clips[s[j]], allow) {
        j
    } else {
        insert_position(clips, s, x, j + 1, allow)
    }
}

/// The first `k` clips in order, as indices: each clip inserted after every
/// clip it does not strictly precede (a stable sort).
pub open spec fn sorted_prefix(clips: Seq<ClipInfo>, k: nat, allow: bool) -> Seq<int>
    decreases k,
{
    if k == 0 {
        Seq::empty()
    } else {
        let s = sorted_prefix(clips, (k - 1) as nat, allow);
        s.insert(insert_position(clips, s, k - 1, 0, allow), k - 1)
    }
}

/// All clips in order, as indices.
pub open spec fn sorted_order(clips: Seq<ClipInfo>, allow: bool) -> Seq<int> {
    sorted_prefix(clips, clips.len(), allow)
}

/// Greedy choice over the ordered clips `order`: a clip is taken when it still
/// fits the budget, and the choice stops as soon as the total reaches it.
pub open spec fn greedy(clips: Seq<ClipInfo>, order: Seq<int>, budget: nat, total: nat) -> Seq<int>
    decreases order.len(),
{
    if order.len() == 0 {
        Seq::empty()
    } else {
        let d = clip_duration(clips[order[0]]);
        if total + d <= budget {
            if total + d >= budget {
                seq![order[0]]
            } else {
                seq![order[0]] + greedy(clips, order.drop_first(), budget, total + d)
            }
        } else if total >= budget {
            Seq::empty()
        } else {
            greedy(clips, order.drop_first(), budget, total)
        }
    }
}

/// Budget of an auto-edit: nine tenths of the target length.
pub open spec fn budget_ms(target_duration_secs: u32) -> nat {
    (target_duration_secs * 900) as nat
}

/// Clips chosen by hand: those whose id was selected, in their order.
pub open spec fn manual_choice(clips: Seq<ClipInfo>, ids: Seq<i64>, k: nat) -> Seq<int>
    decreases k,
{
    if k == 0 || k > clips.len() {
        Seq::empty()
    } else {
        let rest = manual_choice(clips, ids, (k - 1) as nat);
        if ids.contains(clips[k - 1].id) {
            rest.push(k - 1)
        } else {
            rest
        }
    }
}

/// The clips, as indices, an automatic selection makes: the greedy choice, or
/// the first clip in order when none fits; `None` without clips.
pub open spec fn automatic_choice(clips: Seq<ClipInfo>, target_duration_secs: u32, allow: bool) -> Option<
    Seq<int>,
> {
    let order = sorted_order(clips, allow);
    let g = greedy(clips, order, budget_ms(target_duration_secs), 0);
    if g.len() > 0 {
        Some(g)
    } else if order.len() > 0 {
        Some(seq![order[0]])
    } else {
        None
    }
}

/// Two clips with the same fields.
pub open spec fn same_clip(a: ClipInfo, b: ClipInfo) -> bool {
    &&& a.id == b.id
    &&& a.game_id@ == b.game_id@
    &&& a.event_type@ == b.event_type@
    &&& a.event_time_ms == b.event_time_ms
    &&& a.priority == b.priority
    &&& a.file_path@ == b.file_path@
    &&& a.duration_ms == b.duration_ms
    &&& a.usage_count == b.usage_count
    &&& match (a.thumbnail_path, b.thumbnail_path) {
        (Some(x), Some(y)) => x@ == y@,
        (None, None) => true,
        _ => false,
    }
}

/// `r` holds copies of the clips at `indices`.
pub open spec fn copies_of(r: Seq<ClipInfo>, clips: Seq<ClipInfo>, indices: Seq<int>) -> bool {
    &&& r.len() == indices.len()
    &&& forall|k: int|
        0 <= k < r.len() ==> 0 <= #[trigger] indices[k] < clips.len() && same_clip(
            r[k],
            clips[indices[k]],
        )
}

fn copy_clip(c: &ClipInfo) -> (r: ClipInfo)
    ensures
        same_clip(r, *c),
{
    ClipInfo {
        id: c.id,
        game_id: owned(c.game_id.as_str()),
        event_type: owned(c.event_type.as_str()),
        event_time_ms: c.event_time_ms,
        priority: c.priority,
        file_path: owned(c.file_path.as_str()),
        thumbnail_path: match &c.thumbnail_path {
            Some(t) => Some(owned(t.as_str())),
            None => None,
        },
        duration_ms: c.duration_ms,
        usage_count: c.usage_count,
    }
}

fn precedes_exec(a: &ClipInfo, b: &ClipInfo, allow_duplicates: bool) -> (r: bool)
    ensures
        r == precedes(*a, *b, allow_duplicates),
{
    if !allow_duplicates && a.usage_count != b.usage_count {
        a.usage_count < b.usage_count
    } else {
        a.priority > b.priority
    }
}

proof fn lemma_sorted_prefix_indices(clips: Seq<ClipInfo>, k: nat, allow: bool)
    ensures
        sorted_prefix(clips, k, allow).len() == k,
        forall|i: int|
            0 <= i < k ==> 0 <= #[trigger] sorted_prefix(clips, k, allow)[i] < k,
    decreases k,
{
    if k > 0 {
        lemma_sorted_prefix_indices(clips, (k - 1) as nat, allow);
        let s = sorted_prefix(clips, (k - 1) as nat, allow);
        lemma_insert_position_bounds(clips, s, k - 1, 0, allow);
        let p = insert_position(clips, s, k - 1, 0, allow);
        assert forall|i: int| 0 <= i < k implies 0 <= #[trigger] sorted_prefix(clips, k, allow)[i]
            < k by {
            if i < p {
            } else if i == p {
            } else {
                assert(s.insert(p, k - 1)[i] == s[i - 1]);
            }
        }
    }
}

proof fn lemma_insert_position_bounds(clips: Seq<ClipInfo>, s: Seq<int>, x: int, j: int, allow: bool)
    requires
        0 <= j <= s.len(),
    ensures
        j <= insert_position(clips, s, x, j, allow) <= s.len(),
    decreases s.len() - j,
{
    if j < s.len() && !precedes(clips[x], clips[s[j]], allow) {
        lemma_insert_position_bounds(clips, s, x, j + 1, allow);
    }
}

/// The indices of the clips in order: fewer uses first (unless duplicates are
/// allowed), then higher priority first, ties in their original order.
pub fn order_clips(clips: &Vec<ClipInfo>, allow_duplicates: bool) -> (r: Vec<usize>)
    ensures
        r@.len() == clips@.len(),
        forall|i: int| 0 <= i < r@.len() ==> (#[trigger] r@[i]) as int == sorted_order(
            clips@,
            allow_duplicates,
        )[i],
{
    let n = clips.len();
    let mut order: Vec<usize> = Vec::new();
    let mut k: usize = 0;
    while k < n
        invariant
            n == clips@.len(),
            k <= n,
            order@.len() == k,
            forall|i: int| 0 <= i < k ==> (#[trigger] order@[i]) as int == sorted_prefix(
                clips@,
                k as nat,
                allow_duplicates,
            )[i],
        decreases n - k,
    {
        let ghost s = sorted_prefix(clips@, k as nat, allow_duplicates);
        proof {
            lemma_sorted_prefix_indices(clips@, k as nat, allow_duplicates);
        }
        let mut j: usize = 0;
        while j < order.len() && !precedes_exec(&clips[k], &clips[order[j]], allow_duplicates)
            invariant
                n == clips@.len(),
                k < n,
                order@.len() == k,
                s.len() == k,
                forall|i: int| 0 <= i < k ==> (#[trigger] order@[i]) as int == s[i],
                forall|i: int| 0 <= i < k ==> 0 <= #[trigger] s[i] < k,
                j <= k,
                insert_position(clips@, s, k as int, 0, allow_duplicates) == insert_position(
                    clips@,
                    s,
                    k as int,
                    j as int,
                    allow_duplicates,
                ),
            decreases k - j,
        {
            j += 1;
        }
        proof {
            assert(insert_position(clips@, s, k as int, j as int, allow_duplicates) == j);
        }
        let ghost old_order = order@;
        order.insert(j, k);
        proof {
            let t = sorted_prefix(clips@, (k + 1) as nat, allow_duplicates);
            assert(t == s.insert(j as int, k as int));
            assert forall|i: int| 0 <= i < k + 1 implies (#[trigger] order@[i]) as int == t[i] by {
                if i < j {
                    assert(order@[i] == old_order[i]);
                } else if i > j {
                    assert(order@[i] == old_order[i - 1]);
                }
            }
        }
        k += 1;
    }
    order
}

/// Select the clips of an auto-edit. Clips chosen by hand are taken as they
/// are (an error when none of the ids is found); otherwise the clips are
/// ordered and taken greedily within nine tenths of the target length, the
/// first clip in order standing in when none fits (an error without clips).
pub fn select_clips(
    all_clips: &Vec<ClipInfo>,
    target_duration: u32,
    selected_clip_ids: &Option<Vec<i64>>,
    allow_duplicates: bool,
) -> (r: Result<Vec<ClipInfo>, VideoError>)
    ensures
        match *selected_clip_ids {
            Some(ids) => {
                let chosen = manual_choice(all_clips@, ids@, all_clips@.len());
                if chosen.len() == 0 {
                    r matches Err(VideoError::NoClipsFound)
                } else {
                    r matches Ok(v) && copies_of(v@, all_clips@, chosen)
                }
            },
            None => match automatic_choice(all_clips@, target_duration, allow_duplicates) {
                None => r matches Err(VideoError::NoClipsFound),
                Some(chosen) => r matches Ok(v) && copies_of(v@, all_clips@, chosen),
            },
        },
{
    match selected_clip_ids {
        Some(ids) => {
            let mut selected: Vec<ClipInfo> = Vec::new();
            let ghost mut chosen: Seq<int> = Seq::empty();
            let mut i: usize = 0;
            while i < all_clips.len()
                invariant
                    i <= all_clips@.len(),
                    chosen == manual_choice(all_clips@, ids@, i as nat),
                    copies_of(selected@, all_clips@, chosen),
                    forall|k: int| 0 <= k < chosen.len() ==> 0 <= #[trigger] chosen[k] < i,
                decreases all_clips@.len() - i,
            {
                let id = all_clips[i].id;
                let mut found = false;
                let mut j: usize = 0;
                while j < ids.len()
                    invariant
                        j <= ids@.len(),
                        found == (exists|m: int| 0 <= m < j && ids@[m] == id),
                    decreases ids@.len() - j,
                {
                    if ids[j] == id {
                        found = true;
                    }
                    j += 1;
                }
                proof {
                    if found {
                        let m = choose|m: int| 0 <= m < ids@.len() && ids@[m] == id;
                        assert(ids@.contains(id));
                    } else {
                        assert(!ids@.contains(id));
                    }
                }
                let ghost c0 = chosen;
                let ghost s0 = selected@;
                if found {
                    let c = copy_clip(&all_clips[i]);
                    selected.push(c);
                    proof {
                        chosen = chosen.push(i as int);
                        assert forall|k: int| 0 <= k < selected@.len() implies 0 <= #[trigger] chosen[k]
                            < all_clips@.len() && same_clip(selected@[k], all_clips@[chosen[k]]) by {
                            if k < s0.len() {
                                assert(chosen[k] == c0[k]);
                                assert(selected@[k] == s0[k]);
                            }
                        }
                    }
                }
                i += 1;
            }
            if selected.len() == 0 {
                return Err(VideoError::NoClipsFound);
            }
            Ok(selected)
        },
        None => {
            let order = order_clips(all_clips, allow_duplicates);
            let ghost sorted = sorted_order(all_clips@, allow_duplicates);
            proof {
                lemma_sorted_prefix_indices(all_clips@, all_clips@.len(), allow_duplicates);
            }
            let budget: u64 = (target_duration as u64) * 900;
            let mut selected: Vec<ClipInfo> = Vec::new();
            let ghost mut chosen: Seq<int> = Seq::empty();
            let mut total: u64 = 0;
            let mut i: usize = 0;
            assert(sorted.subrange(0, sorted.len() as int) =~= sorted);
            assert(chosen + greedy(all_clips@, sorted, budget as nat, 0) =~= greedy(
                all_clips@,
                sorted,
                budget as nat,
                0,
            ));
            while i < order.len()
                invariant_except_break
                    i <= order@.len(),
                    order@.len() == all_clips@.len(),
                    sorted.len() == order@.len(),
                    forall|m: int| 0 <= m < order@.len() ==> (#[trigger] order@[m]) as int
                        == sorted[m],
                    forall|m: int| 0 <= m < sorted.len() ==> 0 <= #[trigger] sorted[m]
                        < all_clips@.len(),
                    budget == budget_ms(target_duration),
                    total <= budget,
                    chosen + greedy(all_clips@, sorted.subrange(i as int, sorted.len() as int), budget as nat, total as nat)
                        == greedy(all_clips@, sorted, budget as nat, 0),
                    copies_of(selected@, all_clips@, chosen),
                ensures
                    copies_of(selected@, all_clips@, chosen),
                    chosen == greedy(all_clips@, sorted, budget as nat, 0),
                decreases order@.len() - i,
            {
                let ghost rest = sorted.subrange(i as int, sorted.len() as int);
                assert(rest.drop_first() =~= sorted.subrange(i + 1, sorted.len() as int));
                assert(rest[0] == sorted[i as int]);
                let idx = order[i];
                let d: u64 = match all_clips[idx].duration_ms {
                    Some(d) => d,
                    None => 10_000,
                };
                let ghost t0 = total;
                let ghost c0 = chosen;
                let ghost s0 = selected@;
                if d <= budget - total {
                    let c = copy_clip(&all_clips[idx]);
                    selected.push(c);
                    total = total + d;
                    proof {
                        chosen = chosen.push(idx as int);
                        assert forall|k: int| 0 <= k < selected@.len() implies 0 <= #[trigger] chosen[k]
                            < all_clips@.len() && same_clip(selected@[k], all_clips@[chosen[k]]) by {
                            if k < s0.len() {
                                assert(chosen[k] == c0[k]);
                                assert(selected@[k] == s0[k]);
                            }
                        }
                    }
                }
                if total >= budget {
                    proof {
                        if t0 + d <= budget {
                            assert(chosen =~= c0 + seq![idx as int]);
                        } else {
                            assert(c0 + Seq::<int>::empty() =~= c0);
                        }
                    }
                    break;
                }
                proof {
                    if t0 + d <= budget {
                        assert(chosen + greedy(all_clips@, rest.drop_first(), budget as nat, total as nat)
                            =~= c0 + (seq![idx as int] + greedy(all_clips@, rest.drop_first(), budget as nat, total as nat)));
                    }
                }
                i += 1;
                proof {
                    assert(sorted.subrange(i as int, sorted.len() as int) =~= rest.drop_first());
                    if i == order@.len() {
                        assert(sorted.subrange(i as int, sorted.len() as int).len() == 0);
                        assert(chosen + Seq::<int>::empty() =~= chosen);
                    }
                }
            }
            if selected.len() == 0 {
                if order.len() > 0 {
                    let c = copy_clip(&all_clips[order[0]]);
                    selected.push(c);
                    assert(seq![sorted[0]][0] == sorted[0]);
                } else {
                    return Err(VideoError::NoClipsFound);
                }
            }
            Ok(selected)
        },
    }
}

/// Total length of the clips at `indices`.
pub open spec fn total_duration(clips: Seq<ClipInfo>, indices: Seq<int>) -> nat
    decreases indices.len(),
{
    if indices.len() == 0 {
        0
    } else {
        clip_duration(clips[indices[0]]) + total_duration(clips, indices.drop_first())
    }
}

proof fn lemma_greedy_extend(clips: Seq<ClipInfo>, order: Seq<int>, budget: nat, t: nat, x: int)
    ensures
        ({
            let g = greedy(clips, order, budget, t);
            let s = t + total_duration(clips, g);
            greedy(clips, order.push(x), budget, t) == (if (order.len() == 0 || s < budget) && s
                + clip_duration(clips[x]) <= budget {
                g.push(x)
            } else {
                g
            })
        }),
    decreases order.len(),
{
    let o2 = order.push(x);
    let dx = clip_duration(clips[x]);
    assert(greedy(clips, Seq::<int>::empty(), budget, t + dx) =~= Seq::<int>::empty());
    assert(total_duration(clips, Seq::<int>::empty()) == 0);
    if order.len() == 0 {
        assert(o2 =~= seq![x]);
        assert(o2[0] == x);
        assert(o2.drop_first() =~= Seq::<int>::empty());
        assert(greedy(clips, order, budget, t) =~= Seq::<int>::empty());
        assert(Seq::<int>::empty().push(x) =~= seq![x]);
        assert(seq![x] + Seq::<int>::empty() =~= seq![x]);
        if t + dx <= budget {
            assert(greedy(clips, o2, budget, t) =~= seq![x]);
        } else {
            assert(greedy(clips, o2.drop_first(), budget, t) =~= Seq::<int>::empty());
            assert(greedy(clips, o2, budget, t) =~= Seq::<int>::empty());
        }
    } else {
        let y = order[0];
        let dy = clip_duration(clips[y]);
        let rest = order.drop_first();
        assert(o2[0] == y);
        assert(o2.drop_first() =~= rest.push(x));
        if t + dy <= budget {
            if t + dy >= budget {
                let g = seq![y];
                assert(g[0] == y);
                assert(g.drop_first() =~= Seq::<int>::empty());
                assert(total_duration(clips, g.drop_first()) == 0);
                assert(total_duration(clips, g) == dy);
                assert(greedy(clips, order, budget, t) == g);
                assert(greedy(clips, o2, budget, t) == g);
            } else {
                lemma_greedy_extend(clips, rest, budget, t + dy, x);
                let gr = greedy(clips, rest, budget, t + dy);
                let g = seq![y] + gr;
                assert(g[0] == y);
                assert(g.drop_first() =~= gr);
                assert(total_duration(clips, g) == dy + total_duration(clips, gr));
                assert((seq![y] + gr).push(x) =~= seq![y] + gr.push(x));
                assert(greedy(clips, order, budget, t) == g);
            }
        } else if t >= budget {
        } else {
            lemma_greedy_extend(clips, rest, budget, t, x);
        }
    }
}

/// The greedy choice looks at every clip in order: a clip added at the end of
/// the order is chosen exactly when the choice is still open (it is the first
/// clip, or those chosen before total less than the budget) and it fits in
/// what is left of the budget; otherwise the choice stays as it was. A clip
/// that does not fit is skipped, and the clips after it are still considered.
pub proof fn law_greedy_skips_only_what_does_not_fit(
    clips: Seq<ClipInfo>,
    order: Seq<int>,
    budget: nat,
    x: int,
)
    ensures
        ({
            let g = greedy(clips, order, budget, 0);
            let s = total_duration(clips, g);
            greedy(clips, order.push(x), budget, 0) == (if (order.len() == 0 || s < budget) && s
                + clip_duration(clips[x]) <= budget {
                g.push(x)
            } else {
                g
            })
        }),
{
    lemma_greedy_extend(clips, order, budget, 0, x);
}

proof fn lemma_greedy_within(clips: Seq<ClipInfo>, order: Seq<int>, budget: nat, total: nat)
    requires
        total <= budget,
    ensures
        total + total_duration(clips, greedy(clips, order, budget, total)) <= budget,
    decreases order.len(),
{
    if order.len() > 0 {
        let d = clip_duration(clips[order[0]]);
        if total + d <= budget {
            if total + d >= budget {
                let g = seq![order[0]];
                assert(g[0] == order[0]);
                assert(g.drop_first() =~= Seq::<int>::empty());
                assert(total_duration(clips, g.drop_first()) == 0);
                assert(total_duration(clips, g) == d);
            } else {
                let rest = greedy(clips, order.drop_first(), budget, total + d);
                lemma_greedy_within(clips, order.drop_first(), budget, total + d);
                let g = seq![order[0]] + rest;
                assert(g[0] == order[0]);
                assert(g.drop_first() =~= rest);
                assert(total_duration(clips, g) == d + total_duration(clips, rest));
            }
        } else if total < budget {
            lemma_greedy_within(clips, order.drop_first(), budget, total);
        }
    }
}

/// When some clips fit, the clips an automatic selection takes last at most
/// nine tenths of the target length.
pub proof fn law_selection_fits_budget(clips: Seq<ClipInfo>, target_duration_secs: u32, allow: bool)
    ensures
        total_duration(
            clips,
            greedy(clips, sorted_order(clips, allow), budget_ms(target_duration_secs), 0),
        ) <= budget_ms(target_duration_secs),
{
    lemma_greedy_within(clips, sorted_order(clips, allow), budget_ms(target_duration_secs), 0);
}

/// The indices `s` are in order: no clip strictly precedes one placed before it.
pub open spec fn in_order(clips: Seq<ClipInfo>, s: Seq<int>, allow: bool) -> bool {
    forall|i: int, j: int|
        0 <= i < j < s.len() ==> !precedes(#[trigger] clips[s[j]], #[trigger] clips[s[i]], allow)
}

proof fn lemma_insert_position_spec(clips: Seq<ClipInfo>, s: Seq<int>, x: int, j: int, allow: bool)
    requires
        0 <= j <= s.len(),
    ensures
        ({
            let p = insert_position(clips, s, x, j, allow);
            &&& j <= p <= s.len()
            &&& forall|i: int| j <= i < p ==> !precedes(clips[x], #[trigger] clips[s[i]], allow)
            &&& p < s.len() ==> precedes(clips[x], clips[s[p]], allow)
        }),
    decreases s.len() - j,
{
    if j < s.len() && !precedes(clips[x], clips[s[j]], allow) {
        lemma_insert_position_spec(clips, s, x, j + 1, allow);
    }
}

proof fn lemma_sorted_prefix_in_order(clips: Seq<ClipInfo>, k: nat, allow: bool)
    requires
        k <= clips.len(),
    ensures
        in_order(clips, sorted_prefix(clips, k, allow), allow),
    decreases k,
{
    if k > 0 {
        lemma_sorted_prefix_in_order(clips, (k - 1) as nat, allow);
        lemma_sorted_prefix_indices(clips, (k - 1) as nat, allow);
        let s = sorted_prefix(clips, (k - 1) as nat, allow);
        let x = k - 1;
        lemma_insert_position_spec(clips, s, x, 0, allow);
        let p = insert_position(clips, s, x, 0, allow);
        let t = s.insert(p, x);
        assert forall|i: int, j: int| 0 <= i < j < t.len() implies !precedes(
            #[trigger] clips[t[j]],
            #[trigger] clips[t[i]],
            allow,
        ) by {
            if j < p {
                assert(t[i] == s[i] && t[j] == s[j]);
            } else if j == p {
                assert(t[i] == s[i]);
            } else if i > p {
                assert(t[i] == s[i - 1] && t[j] == s[j - 1]);
            } else if i == p {
                assert(t[j] == s[j - 1]);
                assert(precedes(clips[x], clips[s[p]], allow));
                if p < j - 1 {
                    assert(!precedes(clips[s[j - 1]], clips[s[p]], allow));
                }
            } else {
                assert(t[i] == s[i] && t[j] == s[j - 1]);
            }
        }
    }
}

/// An automatic selection considers the clips in order: fewer uses first
/// (unless duplicates are allowed), and higher priority first among clips used
/// equally often.
pub proof fn law_clip_order(clips: Seq<ClipInfo>, allow: bool)
    ensures
        in_order(clips, sorted_order(clips, allow), allow),
        sorted_order(clips, allow).len() == clips.len(),
{
    lemma_sorted_prefix_in_order(clips, clips.len(), allow);
    lemma_sorted_prefix_indices(clips, clips.len(), allow);
}


/// Clips already used in an edit come after fresher ones (unless duplicates are
/// allowed), and among clips used equally often the higher priority comes
/// first: a pentakill before a quadrakill.
pub proof fn law_fresh_and_best_clips_first(clips: Seq<ClipInfo>, allow: bool)
    ensures
        ({
            let s = sorted_order(clips, allow);
            &&& !allow ==> forall|i: int, j: int|
                0 <= i < j < s.len() ==> (#[trigger] clips[s[i]]).usage_count <= (
                #[trigger] clips[s[j]]).usage_count
            &&& forall|i: int, j: int|
                0 <= i < j < s.len() && (allow || clips[s[i]].usage_count == clips[s[j]].usage_count)
                    ==> (#[trigger] clips[s[i]]).priority >= (#[trigger] clips[s[j]]).priority
        }),
{
    lemma_sorted_prefix_in_order(clips, clips.len(), allow);
    lemma_sorted_prefix_indices(clips, clips.len(), allow);
}

/// The order keeps clips that do not strictly precede one another in their
/// input order: a later clip comes first only when it strictly precedes.
pub open spec fn stable_order(clips: Seq<ClipInfo>, s: Seq<int>, allow: bool) -> bool {
    forall|i: int, j: int|
        0 <= i < j < s.len() && s[i] > s[j] ==> precedes(
            #[trigger] clips[s[i]],
            #[trigger] clips[s[j]],
            allow,
        )
}

proof fn lemma_sorted_prefix_stable(clips: Seq<ClipInfo>, k: nat, allow: bool)
    requires
        k <= clips.len(),
    ensures
        stable_order(clips, sorted_prefix(clips, k, allow), allow),
    decreases k,
{
    if k > 0 {
        lemma_sorted_prefix_stable(clips, (k - 1) as nat, allow);
        lemma_sorted_prefix_in_order(clips, (k - 1) as nat, allow);
        lemma_sorted_prefix_indices(clips, (k - 1) as nat, allow);
        let s = sorted_prefix(clips, (k - 1) as nat, allow);
        let x = k - 1;
        lemma_insert_position_spec(clips, s, x, 0, allow);
        let p = insert_position(clips, s, x, 0, allow);
        let t = s.insert(p, x);
        assert forall|i: int, j: int| 0 <= i < j < t.len() && t[i] > t[j] implies precedes(
            #[trigger] clips[t[i]],
            #[trigger] clips[t[j]],
            allow,
        ) by {
            if j < p {
                assert(t[i] == s[i] && t[j] == s[j]);
            } else if j == p {
                assert(t[i] == s[i]);
                assert(s[i] < x);
            } else if i > p {
                assert(t[i] == s[i - 1] && t[j] == s[j - 1]);
            } else if i == p {
                assert(t[j] == s[j - 1]);
                assert(precedes(clips[x], clips[s[p]], allow));
                if p < j - 1 {
                    assert(!precedes(clips[s[j - 1]], clips[s[p]], allow));
                }
            } else {
                assert(t[i] == s[i] && t[j] == s[j - 1]);
            }
        }
    }
}

/// The order is stable: clips equal in use count (or when duplicates are
/// allowed) and priority keep the order they were given in.
pub proof fn law_equal_clips_keep_input_order(clips: Seq<ClipInfo>, allow: bool)
    ensures
        stable_order(clips, sorted_order(clips, allow), allow),
{
    lemma_sorted_prefix_stable(clips, clips.len(), allow);
}

} // verus!
