//! Game events reported by the Live Client API and the triggers they raise.
use crate::text::str_eq;
use vstd::prelude::*;

verus! {

/// Event types that trigger automatic recording.
#[derive(Debug, Clone, Copy, PartialEq, Eq, Structural)]
pub enum EventTrigger {
    ChampionKill,
    /// Double, triple, quadra or penta kill (2-5).
    Multikill(u8),
    DragonKill,
    BaronKill,
    TurretKill,
    InhibitorKill,
    Ace,
    /// Dragon or Baron steal.
    Steal,
}

/// Clip priority of a trigger (1-5).
pub open spec fn trigger_priority(t: EventTrigger) -> u8 {
    match t {
        EventTrigger::ChampionKill => 1,
        EventTrigger::Multikill(n) => if 2 <= n <= 5 {
            n
        } else {
            1
        },
        EventTrigger::DragonKill => 2,
        EventTrigger::BaronKill => 3,
        EventTrigger::TurretKill => 1,
        EventTrigger::InhibitorKill => 2,
        EventTrigger::Ace => 4,
        EventTrigger::Steal => 4,
    }
}

impl EventTrigger {
    /// Get clip priority (1-5).
    pub fn priority(&self) -> (p: u8)
        ensures
            p == trigger_priority(*self),
            1 <= p <= 5,
    {
        match self {
            EventTrigger::ChampionKill => 1,
            EventTrigger::Multikill(2) => 2,
            EventTrigger::Multikill(3) => 3,
            EventTrigger::Multikill(4) => 4,
            EventTrigger::Multikill(5) => 5,
            EventTrigger::DragonKill => 2,
            EventTrigger::BaronKill => 3,
            EventTrigger::TurretKill => 1,
            EventTrigger::InhibitorKill => 2,
            EventTrigger::Ace => 4,
            EventTrigger::Steal => 4,
            _ => 1,
        }
    }

    /// Recommended clip duration before the event (seconds).
    pub fn pre_duration(&self) -> (d: u32)
        ensures
            d == (match *self {
                EventTrigger::Multikill(_) => 15u32,
                EventTrigger::Steal => 20u32,
                _ => 10u32,
            }),
    {
        match self {
            EventTrigger::Multikill(_) => 15,
            EventTrigger::Steal => 20,
            _ => 10,
        }
    }

    /// Recommended clip duration after the event (seconds).
    pub fn post_duration(&self) -> (d: u32)
        ensures
            d == (match *self {
                EventTrigger::Ace => 10u32,
                EventTrigger::BaronKill => 5u32,
                EventTrigger::Multikill(_) => 5u32,
                _ => 3u32,
            }),
    {
        match self {
            EventTrigger::Ace => 10,
            EventTrigger::BaronKill => 5,
            EventTrigger::Multikill(_) => 5,
            _ => 3,
        }
    }
}

/// Per-player scores.
#[derive(Debug, Clone, Copy, PartialEq, Eq, Structural, Default)]
pub struct Scores {
    pub kills: u32,
    pub deaths: u32,
    pub assists: u32,
    pub creep_score: u32,
}

/// A player in the current game.
#[derive(Debug)]
pub struct Player {
    pub champion_name: String,
    pub summoner_name: String,
    pub team: String,
    pub level: u32,
    pub scores: Scores,
    pub is_dead: bool,
}

/// Event streaming configuration (durations in milliseconds).
#[derive(Debug, Clone, Copy, PartialEq, Eq, Structural)]
pub struct EventStreamConfig {
    /// Polling interval of the event-only endpoint.
    pub event_poll_interval: u64,
    /// Polling interval of the full game data.
    pub full_data_interval: u64,
    /// Cache TTL of the game state.
    pub cache_ttl: u64,
    /// Connection timeout.
    pub connection_timeout: u64,
}

impl Default for EventStreamConfig {
    fn default() -> (c: Self)
        ensures
            c == (EventStreamConfig {
                event_poll_interval: 250,
                full_data_interval: 2000,
                cache_ttl: 500,
                connection_timeout: 1000,
            }),
    {
        EventStreamConfig {
            event_poll_interval: 250,
            full_data_interval: 2000,
            cache_ttl: 500,
            connection_timeout: 1000,
        }
    }
}

// ============================================================================
// Multikill tracking
// ============================================================================

/// A kill and the instant (milliseconds) it was seen.
#[derive(Debug)]
pub struct KillRecord {
    pub killer: String,
    pub timestamp: u64,
}

/// Length of the multikill window in milliseconds.
pub open spec fn multikill_window() -> int {
    10_000
}

/// A kill seen at `t` still counts at `now`: less than ten seconds ago, and not
/// in the future.
pub open spec fn within_window(t: u64, now: u64) -> bool {
    now >= t && now - t < multikill_window()
}

/// The kills of `kills` that are still within the window at `now`, in order.
pub open spec fn recent_kills(kills: Seq<(Seq<char>, u64)>, now: u64) -> Seq<(Seq<char>, u64)>
    decreases kills.len(),
{
    if kills.len() == 0 {
        Seq::empty()
    } else {
        let rest = recent_kills(kills.drop_last(), now);
        if within_window(kills.last().1, now) {
            rest.push(kills.last())
        } else {
            rest
        }
    }
}

/// Number of kills by `killer` in `kills`.
pub open spec fn kills_by(kills: Seq<(Seq<char>, u64)>, killer: Seq<char>) -> nat
    decreases kills.len(),
{
    if kills.len() == 0 {
        0
    } else {
        kills_by(kills.drop_last(), killer) + if kills.last().0 == killer {
            1nat
        } else {
            0nat
        }
    }
}

/// Multikill level of a kill count taken modulo 256: 5 and above is a pentakill,
/// below 2 a single kill.
pub open spec fn multikill_level(count: nat) -> u8 {
    let c = count % 256;
    if c >= 5 {
        5
    } else if c >= 2 {
        c as u8
    } else {
        1
    }
}

/// Remembers recent kills to recognise multikills.
pub struct KillTracker {
    kills: Vec<KillRecord>,
}

/// Abstract view of a kill record.
pub open spec fn record_view(k: KillRecord) -> (Seq<char>, u64) {
    (k.killer@, k.timestamp)
}

impl View for KillTracker {
    type V = Seq<(Seq<char>, u64)>;

    closed spec fn view(&self) -> Seq<(Seq<char>, u64)> {
        self.kills@.map_values(|k: KillRecord| record_view(k))
    }
}

impl KillTracker {
    /// A tracker with no kills.
    pub fn new() -> (t: Self)
        ensures
            t@ == Seq::<(Seq<char>, u64)>::empty(),
    {
        let t = KillTracker { kills: Vec::new() };
        assert(t@ =~= Seq::<(Seq<char>, u64)>::empty());
        t
    }

    /// Record a kill by `killer` at `now`, forget kills older than ten seconds,
    /// and return the multikill level of `killer` (1-5).
    pub fn check_multikill(&mut self, killer: &str, now: u64) -> (level: u8)
        ensures
            final(self)@ == recent_kills(old(self)@.push((killer@, now)), now),
            level == multikill_level(kills_by(final(self)@, killer@)),
    {
        let ghost all = self@.push((killer@, now));
        self.kills.push(KillRecord { killer: String::from_str(killer), timestamp: now });
        assert(self.kills@.map_values(|k: KillRecord| record_view(k)) =~= all);
        let mut kept: Vec<KillRecord> = Vec::new();
        let mut count: usize = 0;
        let n = self.kills.len();
        let mut i: usize = 0;
        while i < n
            invariant
                n == self.kills@.len(),
                i <= n,
                all == self.kills@.map_values(|k: KillRecord| record_view(k)),
                kept@.map_values(|k: KillRecord| record_view(k)) == recent_kills(
                    all.subrange(0, i as int),
                    now,
                ),
                count == kills_by(kept@.map_values(|k: KillRecord| record_view(k)), killer@),
                count <= i,
            decreases n - i,
        {
            let ghost prefix = all.subrange(0, i as int);
            let ghost prev = kept@.map_values(|k: KillRecord| record_view(k));
            assert(all.subrange(0, i + 1).drop_last() =~= prefix);
            assert(all.subrange(0, i + 1).last() == record_view(self.kills@[i as int]));
            let t = self.kills[i].timestamp;
            if now >= t && now - t < 10_000 {
                let same = str_eq(self.kills[i].killer.as_str(), killer);
                let rec = KillRecord {
                    killer: self.kills[i].killer.clone(),
                    timestamp: t,
                };
                kept.push(rec);
                assert(kept@.map_values(|k: KillRecord| record_view(k)) =~= prev.push(
                    record_view(self.kills@[i as int]),
                ));
                assert(kept@.map_values(|k: KillRecord| record_view(k)).drop_last() =~= prev);
                if same {
                    count = count + 1;
                }
            }
            i += 1;
        }
        assert(all.subrange(0, n as int) =~= all);
        self.kills = kept;
        let c: u8 = (count % 256) as u8;
        if c >= 5 {
            5
        } else if c >= 2 {
            c
        } else {
            1
        }
    }
}

// ============================================================================
// Trigger detection
// ============================================================================

/// `name` occurs in `names`.
pub open spec fn names_contain(names: Seq<String>, name: Seq<char>) -> bool {
    exists|i: int| 0 <= i < names.len() && (#[trigger] names[i])@ == name
}

/// The killer is the player.
pub open spec fn killed_by(killer: Option<String>, player: Seq<char>) -> bool {
    killer matches Some(k) && k@ == player
}

/// The trigger an event raises for `player`, given the multikill level the kill
/// tracker reports when the player gets a champion kill.
pub open spec fn trigger_for(
    event_name: Seq<char>,
    killer: Option<String>,
    assisters: Option<Vec<String>>,
    player: Seq<char>,
    level: u8,
) -> Option<EventTrigger> {
    if event_name == "ChampionKill"@ {
        if killer is None {
            None
        } else if killed_by(killer, player) {
            if level >= 2 {
                Some(EventTrigger::Multikill(level))
            } else {
                Some(EventTrigger::ChampionKill)
            }
        } else if assisters matches Some(a) && names_contain(a@, player) {
            Some(EventTrigger::ChampionKill)
        } else {
            None
        }
    } else if event_name == "DragonKill"@ {
        if killed_by(killer, player) {
            Some(EventTrigger::DragonKill)
        } else {
            None
        }
    } else if event_name == "BaronKill"@ {
        if killed_by(killer, player) {
            Some(EventTrigger::BaronKill)
        } else {
            None
        }
    } else if event_name == "TurretKilled"@ {
        if killed_by(killer, player) {
            Some(EventTrigger::TurretKill)
        } else {
            None
        }
    } else if event_name == "InhibKilled"@ {
        if killed_by(killer, player) {
            Some(EventTrigger::InhibitorKill)
        } else {
            None
        }
    } else if event_name == "Ace"@ {
        Some(EventTrigger::Ace)
    } else {
        None
    }
}

/// Objectives count only when the player takes them: a dragon, baron, turret
/// or inhibitor trigger is raised only when the event's killer is the player,
/// and then it is the trigger of that very objective; a champion kill triggers
/// only when the player is the killer or among the assisters, and a kill by the
/// player is a multikill from level two up; an ace always triggers; an event
/// with no killer triggers only when it is an ace, and other events never.
pub proof fn law_objectives_need_the_player_as_killer(
    event_name: Seq<char>,
    killer: Option<String>,
    assisters: Option<Vec<String>>,
    player: Seq<char>,
    level: u8,
)
    ensures
        ({
            let r = trigger_for(event_name, killer, assisters, player, level);
            let player_killed = killer matches Some(k) && k@ == player;
            &&& (r matches Some(t) && (t is DragonKill || t is BaronKill || t is TurretKill
                || t is InhibitorKill)) ==> player_killed
            &&& r == Some(EventTrigger::DragonKill) ==> event_name == "DragonKill"@
            &&& r == Some(EventTrigger::BaronKill) ==> event_name == "BaronKill"@
            &&& r == Some(EventTrigger::TurretKill) ==> event_name == "TurretKilled"@
            &&& r == Some(EventTrigger::InhibitorKill) ==> event_name == "InhibKilled"@
            &&& (r matches Some(t) && (t is ChampionKill || t is Multikill)) ==> (player_killed || (
                assisters matches Some(a) && exists|i: int|
                    0 <= i < a@.len() && (#[trigger] a@[i])@ == player))
            &&& (killer is None && r is Some) ==> r == Some(EventTrigger::Ace)
            &&& player_killed ==> (event_name == "DragonKill"@ ==> r == Some(
                EventTrigger::DragonKill,
            )) && (event_name == "BaronKill"@ ==> r == Some(EventTrigger::BaronKill)) && (
            event_name == "TurretKilled"@ ==> r == Some(EventTrigger::TurretKill)) && (event_name
                == "InhibKilled"@ ==> r == Some(EventTrigger::InhibitorKill))
            &&& (player_killed && event_name == "ChampionKill"@) ==> r == (if level >= 2 {
                Some(EventTrigger::Multikill(level))
            } else {
                Some(EventTrigger::ChampionKill)
            })
            &&& (!player_killed && event_name == "ChampionKill"@) ==> r == (if killer is Some && (
            assisters matches Some(a) && exists|i: int|
                0 <= i < a@.len() && (#[trigger] a@[i])@ == player) {
                Some(EventTrigger::ChampionKill)
            } else {
                None
            })
            &&& event_name == "Ace"@ ==> r == Some(EventTrigger::Ace)
            &&& r == Some(EventTrigger::Ace) ==> event_name == "Ace"@
            &&& (event_name != "ChampionKill"@ && event_name != "DragonKill"@ && event_name
                != "BaronKill"@ && event_name != "TurretKilled"@ && event_name != "InhibKilled"@
                && event_name != "Ace"@) ==> r is None
        }),
{
    reveal_strlit("ChampionKill");
    reveal_strlit("DragonKill");
    reveal_strlit("BaronKill");
    reveal_strlit("TurretKilled");
    reveal_strlit("InhibKilled");
    reveal_strlit("Ace");
    assert("Ace"@ != "ChampionKill"@) by {
        assert("Ace"@[0] != "ChampionKill"@[0]);
    }
    assert("Ace"@ != "DragonKill"@) by {
        assert("Ace"@[0] != "DragonKill"@[0]);
    }
    assert("Ace"@ != "BaronKill"@) by {
        assert("Ace"@[0] != "BaronKill"@[0]);
    }
    assert("Ace"@ != "TurretKilled"@) by {
        assert("Ace"@[0] != "TurretKilled"@[0]);
    }
    assert("Ace"@ != "InhibKilled"@) by {
        assert("Ace"@[0] != "InhibKilled"@[0]);
    }
    assert("DragonKill"@ != "ChampionKill"@) by {
        assert("DragonKill"@[0] != "ChampionKill"@[0]);
    }
    assert("BaronKill"@ != "ChampionKill"@) by {
        assert("BaronKill"@[0] != "ChampionKill"@[0]);
    }
    assert("BaronKill"@ != "DragonKill"@) by {
        assert("BaronKill"@[0] != "DragonKill"@[0]);
    }
    assert("TurretKilled"@ != "ChampionKill"@) by {
        assert("TurretKilled"@[0] != "ChampionKill"@[0]);
    }
    assert("TurretKilled"@ != "DragonKill"@) by {
        assert("TurretKilled"@[0] != "DragonKill"@[0]);
    }
    assert("TurretKilled"@ != "BaronKill"@) by {
        assert("TurretKilled"@[0] != "BaronKill"@[0]);
    }
    assert("InhibKilled"@ != "ChampionKill"@) by {
        assert("InhibKilled"@[0] != "ChampionKill"@[0]);
    }
    assert("InhibKilled"@ != "DragonKill"@) by {
        assert("InhibKilled"@[0] != "DragonKill"@[0]);
    }
    assert("InhibKilled"@ != "BaronKill"@) by {
        assert("InhibKilled"@[0] != "BaronKill"@[0]);
    }
    assert("InhibKilled"@ != "TurretKilled"@) by {
        assert("InhibKilled"@[0] != "TurretKilled"@[0]);
    }
}

fn is_killer(killer: &Option<String>, player: &str) -> (r: bool)
    ensures
        r == killed_by(*killer, player@),
{
    match killer {
        Some(k) => str_eq(k.as_str(), player),
        None => false,
    }
}

fn contains_name(names: &Vec<String>, name: &str) -> (r: bool)
    ensures
        r == names_contain(names@, name@),
{
    let mut i: usize = 0;
    while i < names.len()
        invariant
            i <= names@.len(),
            forall|j: int| 0 <= j < i ==> (#[trigger] names@[j])@ != name@,
        decreases names@.len() - i,
    {
        if str_eq(names[i].as_str(), name) {
            return true;
        }
        i += 1;
    }
    false
}

/// Detect whether an event should trigger recording for `player_name`.
///
/// A champion kill by the player is recorded in the kill tracker and raises a
/// multikill when the player has two or more kills within ten seconds.
pub fn detect_trigger(
    tracker: &mut KillTracker,
    event_name: &str,
    killer_name: &Option<String>,
    assisters: &Option<Vec<String>>,
    player_name: &str,
    now: u64,
) -> (r: Option<EventTrigger>)
    ensures
        ({
            let kill = event_name@ == "ChampionKill"@ && killed_by(*killer_name, player_name@);
            &&& kill ==> final(tracker)@ == recent_kills(old(tracker)@.push((player_name@, now)), now)
            &&& kill ==> r == trigger_for(
                event_name@,
                *killer_name,
                *assisters,
                player_name@,
                multikill_level(kills_by(final(tracker)@, player_name@)),
            )
            &&& !kill ==> final(tracker)@ == old(tracker)@
            &&& !kill ==> r == trigger_for(event_name@, *killer_name, *assisters, player_name@, 1)
        }),
{
    if str_eq(event_name, "ChampionKill") {
        match killer_name {
            Some(killer) => {
                if str_eq(killer.as_str(), player_name) {
                    let level = tracker.check_multikill(killer.as_str(), now);
                    if level >= 2 {
                        Some(EventTrigger::Multikill(level))
                    } else {
                        Some(EventTrigger::ChampionKill)
                    }
                } else {
                    match assisters {
                        Some(a) => {
                            if contains_name(a, player_name) {
                                Some(EventTrigger::ChampionKill)
                            } else {
                                None
                            }
                        },
                        None => None,
                    }
                }
            },
            None => None,
        }
    } else if str_eq(event_name, "DragonKill") {
        if is_killer(killer_name, player_name) {
            Some(EventTrigger::DragonKill)
        } else {
            None
        }
    } else if str_eq(event_name, "BaronKill") {
        if is_killer(killer_name, player_name) {
            Some(EventTrigger::BaronKill)
        } else {
            None
        }
    } else if str_eq(event_name, "TurretKilled") {
        if is_killer(killer_name, player_name) {
            Some(EventTrigger::TurretKill)
        } else {
            None
        }
    } else if str_eq(event_name, "InhibKilled") {
        if is_killer(killer_name, player_name) {
            Some(EventTrigger::InhibitorKill)
        } else {
            None
        }
    } else if str_eq(event_name, "Ace") {
        Some(EventTrigger::Ace)
    } else {
        None
    }
}

/// Whether the session is a replay rather than a live game: the active player's
/// name is empty or "Spectator", or is not among the game's participants.
pub fn is_replay_session(active_player_name: &str, participants: &Vec<String>) -> (r: bool)
    ensures
        r == (active_player_name@.len() == 0 || active_player_name@ == "Spectator"@
            || !names_contain(participants@, active_player_name@)),
{
    if active_player_name.unicode_len() == 0 || str_eq(active_player_name, "Spectator") {
        return true;
    }
    !contains_name(participants, active_player_name)
}


// ============================================================================
// Event lists
// ============================================================================

/// An event of the Live Client API. The event time is in milliseconds.
#[derive(Debug)]
pub struct GameEvent {
    pub event_id: u32,
    pub event_name: String,
    pub event_time_ms: u64,
    pub killer_name: Option<String>,
    pub victim_name: Option<String>,
    pub assisters: Option<Vec<String>>,
}

/// One event read with the last event id seen and the recent kills: an event
/// already seen changes nothing; a new one becomes the last seen, a kill by the
/// player is recorded, and the event's trigger (if any) is raised.
pub open spec fn event_step(
    last_id: u32,
    kills: Seq<(Seq<char>, u64)>,
    e: GameEvent,
    player: Seq<char>,
    now: u64,
) -> (u32, Seq<(Seq<char>, u64)>, Option<EventTrigger>) {
    if e.event_id <= last_id {
        (last_id, kills, None)
    } else {
        let kill = e.event_name@ == "ChampionKill"@ && killed_by(e.killer_name, player);
        let after = if kill {
            recent_kills(kills.push((player, now)), now)
        } else {
            kills
        };
        let level = if kill {
            multikill_level(kills_by(after, player))
        } else {
            1
        };
        (e.event_id, after, trigger_for(e.event_name@, e.killer_name, e.assisters, player, level))
    }
}

/// The last id, the recent kills, and the triggers raised (each with the
/// position of its event) after reading `events` in order.
pub open spec fn event_scan(
    last_id: u32,
    kills: Seq<(Seq<char>, u64)>,
    events: Seq<GameEvent>,
    player: Seq<char>,
    now: u64,
) -> (u32, Seq<(Seq<char>, u64)>, Seq<(EventTrigger, int)>)
    decreases events.len(),
{
    if events.len() == 0 {
        (last_id, kills, Seq::empty())
    } else {
        let prev = event_scan(last_id, kills, events.drop_last(), player, now);
        let step = event_step(prev.0, prev.1, events.last(), player, now);
        match step.2 {
            Some(t) => (step.0, step.1, prev.2.push((t, events.len() - 1))),
            None => (step.0, step.1, prev.2),
        }
    }
}

/// Where event processing stands: the last event id handled and the kills
/// remembered for multikills.
pub struct EventCursor {
    pub last_event_id: u32,
    pub kills: KillTracker,
}

/// The triggers of a list as pairs of trigger and event position.
pub open spec fn trigger_views(v: Seq<(EventTrigger, usize)>) -> Seq<(EventTrigger, int)> {
    v.map_values(|p: (EventTrigger, usize)| (p.0, p.1 as int))
}

impl EventCursor {
    /// No event handled yet.
    pub fn new() -> (r: Self)
        ensures
            r.last_event_id == 0,
            r.kills@ == Seq::<(Seq<char>, u64)>::empty(),
    {
        EventCursor { last_event_id: 0, kills: KillTracker::new() }
    }

    /// Handles the events newer than the last one handled, in order, for the
    /// player (all at the instant `now`), and returns the triggers raised with
    /// the positions of their events. Without a player name nothing happens.
    pub fn process_event_list(
        &mut self,
        events: &Vec<GameEvent>,
        player_name: &Option<String>,
        now: u64,
    ) -> (r: Vec<(EventTrigger, usize)>)
        ensures
            match player_name {
                Some(p) => {
                    let scan = event_scan(
                        old(self).last_event_id,
                        old(self).kills@,
                        events@,
                        p@,
                        now,
                    );
                    &&& final(self).last_event_id == scan.0
                    &&& final(self).kills@ == scan.1
                    &&& trigger_views(r@) == scan.2
                },
                None => r@.len() == 0 && final(self).last_event_id == old(self).last_event_id
                    && final(self).kills@ == old(self).kills@,
            },
    {
        let player = match player_name {
            Some(p) => p,
            None => return Vec::new(),
        };
        let mut out: Vec<(EventTrigger, usize)> = Vec::new();
        let mut i: usize = 0;
        let ghost start_id = self.last_event_id;
        let ghost start_kills = self.kills@;
        assert(events@.take(0) =~= Seq::<GameEvent>::empty());
        assert(trigger_views(out@) =~= Seq::<(EventTrigger, int)>::empty());
        while i < events.len()
            invariant
                i <= events@.len(),
                ({
                    let scan = event_scan(start_id, start_kills, events@.take(i as int), player@, now);
                    &&& self.last_event_id == scan.0
                    &&& self.kills@ == scan.1
                    &&& trigger_views(out@) == scan.2
                }),
                forall|j: int| 0 <= j < out@.len() ==> (#[trigger] out@[j]).1 < i,
            decreases events@.len() - i,
        {
            proof {
                assert(events@.take(i + 1).drop_last() =~= events@.take(i as int));
                assert(events@.take(i + 1).last() == events@[i as int]);
            }
            let e = &events[i];
            if e.event_id > self.last_event_id {
                let trigger = detect_trigger(
                    &mut self.kills,
                    e.event_name.as_str(),
                    &e.killer_name,
                    &e.assisters,
                    player.as_str(),
                    now,
                );
                self.last_event_id = e.event_id;
                match trigger {
                    Some(t) => {
                        let ghost prev = out@;
                        out.push((t, i));
                        assert(trigger_views(out@) =~= trigger_views(prev).push((t, i as int)));
                    },
                    None => {},
                }
            }
            i += 1;
        }
        assert(events@.take(events@.len() as int) =~= events@);
        out
    }
}


proof fn lemma_scan_covers_ids(
    last_id: u32,
    kills: Seq<(Seq<char>, u64)>,
    events: Seq<GameEvent>,
    player: Seq<char>,
    now: u64,
)
    ensures
        event_scan(last_id, kills, events, player, now).0 >= last_id,
        forall|i: int|
            0 <= i < events.len() ==> (#[trigger] events[i]).event_id <= event_scan(
                last_id,
                kills,
                events,
                player,
                now,
            ).0,
    decreases events.len(),
{
    if events.len() > 0 {
        lemma_scan_covers_ids(last_id, kills, events.drop_last(), player, now);
        let prev = event_scan(last_id, kills, events.drop_last(), player, now);
        assert forall|i: int| 0 <= i < events.len() implies (#[trigger] events[i]).event_id
            <= event_scan(last_id, kills, events, player, now).0 by {
            if i < events.len() - 1 {
                assert(events.drop_last()[i] == events[i]);
            }
        }
    }
}

proof fn lemma_scan_all_seen(
    last_id: u32,
    kills: Seq<(Seq<char>, u64)>,
    events: Seq<GameEvent>,
    player: Seq<char>,
    now: u64,
)
    requires
        forall|i: int| 0 <= i < events.len() ==> (#[trigger] events[i]).event_id <= last_id,
    ensures
        event_scan(last_id, kills, events, player, now) == (last_id, kills, Seq::<
            (EventTrigger, int),
        >::empty()),
    decreases events.len(),
{
    if events.len() > 0 {
        assert forall|i: int| 0 <= i < events.drop_last().len() implies (
        #[trigger] events.drop_last()[i]).event_id <= last_id by {
            assert(events.drop_last()[i] == events[i]);
        }
        lemma_scan_all_seen(last_id, kills, events.drop_last(), player, now);
        assert(events.last() == events[events.len() - 1]);
    }
}

/// Events are handled once: reading the same list again, at any later
/// instant, raises no trigger and changes nothing.
pub proof fn law_events_handled_once(
    last_id: u32,
    kills: Seq<(Seq<char>, u64)>,
    events: Seq<GameEvent>,
    player: Seq<char>,
    now: u64,
    later: u64,
)
    ensures
        ({
            let first = event_scan(last_id, kills, events, player, now);
            event_scan(first.0, first.1, events, player, later) == (first.0, first.1, Seq::<
                (EventTrigger, int),
            >::empty())
        }),
{
    lemma_scan_covers_ids(last_id, kills, events, player, now);
    let first = event_scan(last_id, kills, events, player, now);
    lemma_scan_all_seen(first.0, first.1, events, player, later);
}

} // verus!
