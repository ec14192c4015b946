//! Automatic clips: which detected events are recorded, how events close in
//! time are merged into one window, how long each clip runs, and how clips
//! and events are named and stored. Times are in milliseconds of game time.
use crate::recording::audio::views;
use crate::recording::live_client::{trigger_priority, EventTrigger};
use crate::settings::models::{timing_for, ClipTimingSettings, EventFilterSettings, EventTiming};
use crate::storage::models::EventType;
use crate::text::{decimal, owned, push_all, push_decimal};
use vstd::prelude::*;

verus! {

/// The filter switch of a trigger.
pub open spec fn trigger_enabled(t: EventTrigger, f: EventFilterSettings) -> bool {
    match t {
        EventTrigger::ChampionKill => f.record_kills,
        EventTrigger::Multikill(_) => f.record_multikills,
        EventTrigger::DragonKill => f.record_dragon,
        EventTrigger::BaronKill => f.record_baron,
        EventTrigger::TurretKill => f.record_turret,
        EventTrigger::InhibitorKill => f.record_inhibitor,
        EventTrigger::Ace => f.record_ace,
        EventTrigger::Steal => f.record_steal,
    }
}

/// An event is recorded when its priority reaches the filter's minimum and its
/// kind is switched on.
pub open spec fn records(t: EventTrigger, f: EventFilterSettings) -> bool {
    trigger_priority(t) >= f.min_priority && trigger_enabled(t, f)
}

/// Check if an event should be recorded under the filter settings.
pub fn should_record_event(trigger: &EventTrigger, filter: &EventFilterSettings) -> (r: bool)
    ensures
        r == records(*trigger, *filter),
{
    if trigger.priority() < filter.min_priority {
        return false;
    }
    match trigger {
        EventTrigger::ChampionKill => filter.record_kills,
        EventTrigger::Multikill(_) => filter.record_multikills,
        EventTrigger::DragonKill => filter.record_dragon,
        EventTrigger::BaronKill => filter.record_baron,
        EventTrigger::TurretKill => filter.record_turret,
        EventTrigger::InhibitorKill => filter.record_inhibitor,
        EventTrigger::Ace => filter.record_ace,
        EventTrigger::Steal => filter.record_steal,
    }
}

/// Each kind of event is governed by its own switch of the filter: an event
/// whose priority reaches the minimum is recorded exactly when the switch of
/// its kind is on (kills, multikills, dragons, barons, turrets, inhibitors,
/// aces, steals), whatever the other switches say; below the minimum nothing
/// is recorded.
pub proof fn law_each_kind_has_its_own_switch(t: EventTrigger, f: EventFilterSettings)
    ensures
        trigger_priority(t) < f.min_priority ==> !records(t, f),
        trigger_priority(t) >= f.min_priority ==> (records(t, f) <==> match t {
            EventTrigger::ChampionKill => f.record_kills,
            EventTrigger::Multikill(_) => f.record_multikills,
            EventTrigger::DragonKill => f.record_dragon,
            EventTrigger::BaronKill => f.record_baron,
            EventTrigger::TurretKill => f.record_turret,
            EventTrigger::InhibitorKill => f.record_inhibitor,
            EventTrigger::Ace => f.record_ace,
            EventTrigger::Steal => f.record_steal,
        }),
        forall|g: EventFilterSettings|
            g.min_priority == f.min_priority && g.record_inhibitor == f.record_inhibitor
                ==> (records(EventTrigger::InhibitorKill, g) == records(
                EventTrigger::InhibitorKill,
                f,
            )),
        forall|g: EventFilterSettings|
            g.min_priority == f.min_priority && g.record_turret == f.record_turret ==> (records(
                EventTrigger::TurretKill,
                g,
            ) == records(EventTrigger::TurretKill, f)),
{
}

/// A queued event: its trigger and when it happened.
#[derive(Debug, Clone, Copy, PartialEq, Eq, Structural)]
pub struct QueuedEvent {
    pub trigger: EventTrigger,
    /// Game time of the event.
    pub event_time_ms: u64,
}

/// Consecutive events merged into one window.
#[derive(Debug, Clone, PartialEq, Eq)]
pub struct EventWindow {
    /// Trigger of the highest-priority event (the last among equals).
    pub primary_trigger: EventTrigger,
    /// The events merged, in the order they came.
    pub events: Vec<QueuedEvent>,
    /// Earliest event time.
    pub start_ms: u64,
    /// Latest event time.
    pub end_ms: u64,
    /// Highest priority in the window.
    pub priority: u8,
}

/// Index of the last event of highest priority among the first `k`.
pub open spec fn primary_index(events: Seq<QueuedEvent>, k: nat) -> int
    decreases k,
{
    if k <= 1 {
        0
    } else {
        let p = primary_index(events, (k - 1) as nat);
        if trigger_priority(events[k - 1].trigger) >= trigger_priority(events[p].trigger) {
            k - 1
        } else {
            p
        }
    }
}

/// Earliest event time among the first `k` (`k` > 0).
pub open spec fn min_time(events: Seq<QueuedEvent>, k: nat) -> u64
    decreases k,
{
    if k <= 1 {
        events[0].event_time_ms
    } else {
        let m = min_time(events, (k - 1) as nat);
        if events[k - 1].event_time_ms < m {
            events[k - 1].event_time_ms
        } else {
            m
        }
    }
}

/// Latest event time among the first `k` (`k` > 0).
pub open spec fn max_time(events: Seq<QueuedEvent>, k: nat) -> u64
    decreases k,
{
    if k <= 1 {
        events[0].event_time_ms
    } else {
        let m = max_time(events, (k - 1) as nat);
        if events[k - 1].event_time_ms > m {
            events[k - 1].event_time_ms
        } else {
            m
        }
    }
}

proof fn lemma_primary_in_range(events: Seq<QueuedEvent>, k: nat)
    requires
        0 < k <= events.len(),
    ensures
        0 <= primary_index(events, k) < k,
        forall|j: int|
            0 <= j < k ==> trigger_priority(#[trigger] events[j].trigger) <= trigger_priority(
                events[primary_index(events, k)].trigger,
            ),
    decreases k,
{
    if k > 1 {
        lemma_primary_in_range(events, (k - 1) as nat);
    }
}

/// `w` is the window of the non-empty `events`: it holds them, its primary
/// trigger is that of the highest-priority event (the last among equals), with
/// that priority, and it spans their earliest to latest time.
pub open spec fn window_matches(w: EventWindow, events: Seq<QueuedEvent>) -> bool {
    &&& w.events@ == events
    &&& w.primary_trigger == events[primary_index(events, events.len())].trigger
    &&& w.priority == trigger_priority(w.primary_trigger)
    &&& w.start_ms == min_time(events, events.len())
    &&& w.end_ms == max_time(events, events.len())
}

/// Merge consecutive events into one window: the events themselves, the
/// highest priority (the last such event gives the primary trigger), and the
/// span of their times.
pub fn merge_events(events: &Vec<QueuedEvent>) -> (w: EventWindow)
    requires
        events@.len() > 0,
    ensures
        window_matches(w, events@),
        forall|j: int|
            0 <= j < events@.len() ==> trigger_priority(#[trigger] events@[j].trigger) <= w.priority,
        w.start_ms <= w.end_ms,
{
    let mut p: usize = 0;
    let mut lo = events[0].event_time_ms;
    let mut hi = events[0].event_time_ms;
    let mut i: usize = 1;
    while i < events.len()
        invariant
            1 <= i <= events@.len(),
            p as int == primary_index(events@, i as nat),
            lo == min_time(events@, i as nat),
            hi == max_time(events@, i as nat),
            lo <= hi,
        decreases events@.len() - i,
    {
        proof {
            lemma_primary_in_range(events@, i as nat);
        }
        if events[i].trigger.priority() >= events[p].trigger.priority() {
            p = i;
        }
        if events[i].event_time_ms < lo {
            lo = events[i].event_time_ms;
        }
        if events[i].event_time_ms > hi {
            hi = events[i].event_time_ms;
        }
        i += 1;
    }
    proof {
        lemma_primary_in_range(events@, events@.len());
    }
    let primary = events[p].trigger;
    let mut kept: Vec<QueuedEvent> = Vec::new();
    let mut j: usize = 0;
    while j < events.len()
        invariant
            j <= events@.len(),
            kept@ == events@.subrange(0, j as int),
        decreases events@.len() - j,
    {
        kept.push(events[j]);
        j += 1;
        assert(kept@ =~= events@.subrange(0, j as int));
    }
    assert(kept@ =~= events@);
    EventWindow {
        primary_trigger: primary,
        events: kept,
        start_ms: lo,
        end_ms: hi,
        priority: primary.priority(),
    }
}

/// The merge window has closed once the oldest queued event is at least the
/// threshold old.
pub fn merge_window_closed(oldest_age_secs: u64, threshold_secs: u32) -> (r: bool)
    ensures
        r == (oldest_age_secs >= threshold_secs),
{
    oldest_age_secs >= threshold_secs as u64
}

/// Timing key of a trigger in the clip timing settings.
pub open spec fn timing_key(t: EventTrigger) -> Seq<char> {
    match t {
        EventTrigger::Multikill(_) => "multikill"@,
        EventTrigger::Steal => "steal"@,
        _ => "kill"@,
    }
}

/// Clip window (seconds before and after) of a trigger: the timing set for
/// its kind, or the defaults.
pub fn calculate_clip_window(trigger: &EventTrigger, timing: &ClipTimingSettings) -> (w: EventTiming)
    ensures
        w == timing_for(*timing, timing_key(*trigger)),
{
    let key = match trigger {
        EventTrigger::Multikill(_) => "multikill",
        EventTrigger::Steal => "steal",
        _ => "kill",
    };
    timing.get_timing_for_event(key)
}

/// Length of the clip of one event: its window before and after.
pub fn single_clip_duration_ms(w: &EventTiming) -> (d: u64)
    ensures
        d == (w.pre_duration + w.post_duration) * 1000,
{
    (w.pre_duration as u64 + w.post_duration as u64) * 1000
}

/// Length of the clip of a merged window: the window before the first event,
/// the span of the events, and the window after the last.
pub fn merged_clip_duration_ms(w: &EventTiming, window: &EventWindow) -> (d: u64)
    requires
        window.start_ms <= window.end_ms,
        window.end_ms - window.start_ms + (w.pre_duration + w.post_duration) * 1000 <= u64::MAX,
    ensures
        d == w.pre_duration * 1000 + (window.end_ms - window.start_ms) + w.post_duration * 1000,
{
    w.pre_duration as u64 * 1000 + (window.end_ms - window.start_ms) + w.post_duration as u64 * 1000
}

/// Whole seconds of a game time, as a 32-bit count (saturating).
pub open spec fn whole_secs(ms: u64) -> u32 {
    if ms / 1000 > u32::MAX {
        u32::MAX
    } else {
        (ms / 1000) as u32
    }
}

fn secs_u32(ms: u64) -> (r: u32)
    ensures
        r == whole_secs(ms),
{
    let s = ms / 1000;
    if s > u32::MAX as u64 {
        u32::MAX
    } else {
        s as u32
    }
}

/// Id of the clip of one event: its name and the second it happened.
pub fn single_clip_id(event_name: &str, event_time_ms: u64) -> (r: String)
    ensures
        r@ == event_name@ + "_"@ + decimal(whole_secs(event_time_ms) as nat),
{
    let mut s = owned(event_name);
    push_all(&mut s, "_");
    push_decimal(&mut s, secs_u32(event_time_ms) as u64);
    s
}

/// Id of the clip of a merged window: its first and last second.
pub fn merged_clip_id(window: &EventWindow) -> (r: String)
    ensures
        r@ == "merged_"@ + decimal(whole_secs(window.start_ms) as nat) + "_"@ + decimal(
            whole_secs(window.end_ms) as nat,
        ),
{
    let mut s = owned("merged_");
    push_decimal(&mut s, secs_u32(window.start_ms) as u64);
    push_all(&mut s, "_");
    push_decimal(&mut s, secs_u32(window.end_ms) as u64);
    s
}

/// The stored event type of a trigger.
pub fn trigger_to_event_type(trigger: &EventTrigger) -> (e: EventType)
    ensures
        match *trigger {
            EventTrigger::ChampionKill => e == EventType::ChampionKill,
            EventTrigger::Multikill(n) => e == EventType::Multikill(n),
            EventTrigger::DragonKill => e == EventType::DragonKill,
            EventTrigger::BaronKill => e == EventType::BaronKill,
            EventTrigger::TurretKill => e == EventType::TurretKill,
            EventTrigger::InhibitorKill => e == EventType::InhibitorKill,
            EventTrigger::Ace => e == EventType::Ace,
            EventTrigger::Steal => e matches EventType::Custom(s) && s@ == "Steal"@,
        },
{
    match trigger {
        EventTrigger::ChampionKill => EventType::ChampionKill,
        EventTrigger::Multikill(n) => EventType::Multikill(*n),
        EventTrigger::DragonKill => EventType::DragonKill,
        EventTrigger::BaronKill => EventType::BaronKill,
        EventTrigger::TurretKill => EventType::TurretKill,
        EventTrigger::InhibitorKill => EventType::InhibitorKill,
        EventTrigger::Ace => EventType::Ace,
        EventTrigger::Steal => EventType::Custom(owned("Steal")),
    }
}

/// Participants of an event: the killer, then the assisters.
pub fn participants(killer: &Option<String>, assisters: &Vec<String>) -> (r: Vec<String>)
    ensures
        views(r@) == (match *killer {
            Some(k) => seq![k@],
            None => Seq::<Seq<char>>::empty(),
        }) + views(assisters@),
{
    let mut r: Vec<String> = Vec::new();
    match killer {
        Some(k) => r.push(owned(k.as_str())),
        None => {},
    }
    let ghost head = views(r@);
    assert(head =~= (match *killer {
        Some(k) => seq![k@],
        None => Seq::<Seq<char>>::empty(),
    }));
    let mut i: usize = 0;
    while i < assisters.len()
        invariant
            i <= assisters@.len(),
            views(r@) == head + views(assisters@).subrange(0, i as int),
        decreases assisters@.len() - i,
    {
        let ghost prev = r@;
        let item = owned(assisters[i].as_str());
        r.push(item);
        assert(views(r@) =~= views(prev).push(item@));
        i += 1;
        assert(views(r@) =~= head + views(assisters@).subrange(0, i as int));
    }
    assert(views(assisters@).subrange(0, assisters@.len() as int) =~= views(assisters@));
    r
}


// ============================================================================
// The event queue
// ============================================================================

/// A queued event with the instant (milliseconds) it arrived.
#[derive(Debug, Clone, Copy, PartialEq, Eq, Structural)]
pub struct PendingEvent {
    pub event: QueuedEvent,
    pub received_ms: u64,
}

/// What to do after an event arrives.
#[derive(Debug, Clone, PartialEq, Eq)]
pub enum ClipAction {
    /// The filter drops the event.
    Skip,
    /// Save a clip of this event alone.
    SaveSingle(QueuedEvent),
    /// Save one clip of these merged events.
    SaveMerged(EventWindow),
    /// Keep the event queued until the merge window closes.
    Wait,
}

/// The decision after an event arrives, with a merge given by its events.
pub enum ClipDecision {
    Skip,
    SaveSingle(QueuedEvent),
    SaveMerged(Seq<QueuedEvent>),
    Wait,
}

/// `a` carries out the decision `d`: the same kind, the same event, or the
/// window of the merged events.
pub open spec fn action_matches(a: ClipAction, d: ClipDecision) -> bool {
    match d {
        ClipDecision::Skip => a is Skip,
        ClipDecision::SaveSingle(e) => a == ClipAction::SaveSingle(e),
        ClipDecision::SaveMerged(es) => a matches ClipAction::SaveMerged(w) && window_matches(w, es),
        ClipDecision::Wait => a is Wait,
    }
}

/// Whole seconds from `since` to `now`, zero when `now` is earlier (as
/// `Instant::elapsed().as_secs()` gives them).
pub open spec fn age_secs(since: u64, now: u64) -> nat {
    if now >= since {
        ((now - since) / 1000) as nat
    } else {
        0
    }
}

/// The events of a queue.
pub open spec fn queued_events(q: Seq<PendingEvent>) -> Seq<QueuedEvent> {
    q.map_values(|p: PendingEvent| p.event)
}

/// The queue and the action after an event arrives: a dropped event changes
/// nothing; otherwise it joins the queue, and is saved at once when merging is
/// off; with merging on, the whole queue is merged into one clip once its
/// oldest event is `threshold_secs` old, and waits before that.
pub open spec fn queue_step(
    q: Seq<PendingEvent>,
    e: QueuedEvent,
    filter: EventFilterSettings,
    merge: bool,
    threshold_secs: u32,
    now: u64,
) -> (Seq<PendingEvent>, ClipDecision) {
    if !records(e.trigger, filter) {
        (q, ClipDecision::Skip)
    } else {
        let q2 = q.push(PendingEvent { event: e, received_ms: now });
        if !merge {
            (q2, ClipDecision::SaveSingle(e))
        } else if age_secs(q2[0].received_ms, now) >= threshold_secs {
            (Seq::empty(), ClipDecision::SaveMerged(queued_events(q2)))
        } else {
            (q2, ClipDecision::Wait)
        }
    }
}

/// The automatic clip pipeline's state: the queue of events waiting to be
/// merged and the game the clips belong to.
pub struct AutoClipManager {
    queue: Vec<PendingEvent>,
    current_game_id: Option<String>,
}

impl AutoClipManager {
    /// The queued events.
    pub closed spec fn pending(&self) -> Seq<PendingEvent> {
        self.queue@
    }

    /// The game tracked.
    pub closed spec fn game(&self) -> Option<String> {
        self.current_game_id
    }

    /// No game tracked, nothing queued.
    pub fn new() -> (r: Self)
        ensures
            r.pending().len() == 0,
            r.game() is None,
    {
        AutoClipManager { queue: Vec::new(), current_game_id: None }
    }

    /// Tracks a game; when the game ends (`None`) the queue is cleared.
    pub fn set_current_game(&mut self, game_id: Option<String>)
        ensures
            final(self).game() == game_id,
            game_id is Some ==> final(self).pending() == old(self).pending(),
            game_id is None ==> final(self).pending().len() == 0,
    {
        if game_id.is_none() {
            self.queue = Vec::new();
        }
        self.current_game_id = game_id;
    }

    /// The tracked game's id.
    pub fn current_game(&self) -> (r: &Option<String>)
        ensures
            *r == self.game(),
    {
        &self.current_game_id
    }

    /// Handles an event that arrived at `now_ms` under the filter and merge
    /// settings, and says which clip to save, if any.
    pub fn process_event(
        &mut self,
        event: QueuedEvent,
        filter: &EventFilterSettings,
        merge_consecutive_events: bool,
        merge_time_threshold: u32,
        now_ms: u64,
    ) -> (r: ClipAction)
        requires
            old(self).pending().len() + 1 < usize::MAX,
        ensures
            final(self).pending() == queue_step(
                old(self).pending(),
                event,
                *filter,
                merge_consecutive_events,
                merge_time_threshold,
                now_ms,
            ).0,
            action_matches(
                r,
                queue_step(
                    old(self).pending(),
                    event,
                    *filter,
                    merge_consecutive_events,
                    merge_time_threshold,
                    now_ms,
                ).1,
            ),
            final(self).game() == old(self).game(),
    {
        if !should_record_event(&event.trigger, filter) {
            return ClipAction::Skip;
        }
        self.queue.push(PendingEvent { event, received_ms: now_ms });
        if !merge_consecutive_events {
            return ClipAction::SaveSingle(event);
        }
        let oldest = self.queue[0].received_ms;
        let age = if now_ms >= oldest {
            (now_ms - oldest) / 1000
        } else {
            0
        };
        if !merge_window_closed(age, merge_time_threshold) {
            return ClipAction::Wait;
        }
        let mut events: Vec<QueuedEvent> = Vec::new();
        let mut i: usize = 0;
        while i < self.queue.len()
            invariant
                i <= self.queue@.len(),
                events@ == queued_events(self.queue@).subrange(0, i as int),
            decreases self.queue@.len() - i,
        {
            events.push(self.queue[i].event);
            i += 1;
            assert(events@ =~= queued_events(self.queue@).subrange(0, i as int));
        }
        assert(events@ =~= queued_events(self.queue@));
        let w = merge_events(&events);
        self.queue = Vec::new();
        assert(self.queue@ =~= Seq::<PendingEvent>::empty());
        ClipAction::SaveMerged(w)
    }
}

/// Every queued event passed the filter, and the queue is empty right after a
/// merged clip is saved: events are merged at most once.
pub proof fn law_queue_holds_recorded_events(
    q: Seq<PendingEvent>,
    e: QueuedEvent,
    filter: EventFilterSettings,
    merge: bool,
    threshold_secs: u32,
    now: u64,
)
    requires
        forall|i: int| 0 <= i < q.len() ==> records(#[trigger] q[i].event.trigger, filter),
    ensures
        ({
            let (q2, action) = queue_step(q, e, filter, merge, threshold_secs, now);
            &&& forall|i: int| 0 <= i < q2.len() ==> records(#[trigger] q2[i].event.trigger, filter)
            &&& action is SaveMerged ==> q2.len() == 0
            &&& action is Skip ==> q2 == q
        }),
{
    if records(e.trigger, filter) {
        let q2 = q.push(PendingEvent { event: e, received_ms: now });
        assert forall|i: int| 0 <= i < q2.len() implies records(#[trigger] q2[i].event.trigger, filter) by {
            if i < q.len() {
                assert(q2[i] == q[i]);
            }
        }
    }
}

} // verus!
