use lolshorts::recording::live_client::{
    detect_trigger, is_replay_session, EventCursor, EventStreamConfig, EventTrigger, GameEvent,
    KillTracker,
};

#[test]
fn test_event_trigger_priority() {
    assert_eq!(EventTrigger::ChampionKill.priority(), 1);
    assert_eq!(EventTrigger::Multikill(2).priority(), 2);
    assert_eq!(EventTrigger::Multikill(5).priority(), 5);
    assert_eq!(EventTrigger::BaronKill.priority(), 3);
    assert_eq!(EventTrigger::Ace.priority(), 4);
}

#[test]
fn test_event_trigger_duration() {
    let trigger = EventTrigger::Multikill(3);
    assert_eq!(trigger.pre_duration(), 15);
    assert_eq!(trigger.post_duration(), 5);

    let trigger = EventTrigger::Steal;
    assert_eq!(trigger.pre_duration(), 20);
    assert_eq!(trigger.post_duration(), 3);
}

#[test]
fn trigger_priority_edge_values() {
    assert_eq!(EventTrigger::Multikill(1).priority(), 1);
    assert_eq!(EventTrigger::Multikill(9).priority(), 1);
    assert_eq!(EventTrigger::Steal.priority(), 4);
    assert_eq!(EventTrigger::Ace.post_duration(), 10);
    assert_eq!(EventTrigger::DragonKill.pre_duration(), 10);
}

#[test]
fn stream_config_defaults() {
    let c = EventStreamConfig::default();
    assert_eq!(c.event_poll_interval, 250);
    assert_eq!(c.full_data_interval, 2000);
    assert_eq!(c.cache_ttl, 500);
    assert_eq!(c.connection_timeout, 1000);
}

#[test]
fn multikill_window_of_ten_seconds() {
    let mut tracker = KillTracker::new();
    assert_eq!(tracker.check_multikill("Me", 1_000), 1);
    assert_eq!(tracker.check_multikill("Other", 2_000), 1);
    assert_eq!(tracker.check_multikill("Me", 5_000), 2);
    assert_eq!(tracker.check_multikill("Me", 10_999), 3);
    // The first kill has left the window.
    assert_eq!(tracker.check_multikill("Me", 11_000), 3);
    assert_eq!(tracker.check_multikill("Me", 11_001), 4);
    assert_eq!(tracker.check_multikill("Me", 11_002), 5);
    assert_eq!(tracker.check_multikill("Me", 11_003), 5);
}

#[test]
fn triggers_for_the_player() {
    let mut tracker = KillTracker::new();
    let me = Some("Me".to_string());
    let other = Some("Other".to_string());
    assert_eq!(detect_trigger(&mut tracker, "ChampionKill", &me, &None, "Me", 0), Some(EventTrigger::ChampionKill));
    assert_eq!(
        detect_trigger(&mut tracker, "ChampionKill", &me, &None, "Me", 3_000),
        Some(EventTrigger::Multikill(2))
    );
    let assist = Some(vec!["Me".to_string()]);
    assert_eq!(
        detect_trigger(&mut tracker, "ChampionKill", &other, &assist, "Me", 4_000),
        Some(EventTrigger::ChampionKill)
    );
    assert_eq!(detect_trigger(&mut tracker, "ChampionKill", &other, &None, "Me", 4_000), None);
    assert_eq!(detect_trigger(&mut tracker, "ChampionKill", &None, &assist, "Me", 4_000), None);
    assert_eq!(detect_trigger(&mut tracker, "DragonKill", &me, &None, "Me", 0), Some(EventTrigger::DragonKill));
    assert_eq!(detect_trigger(&mut tracker, "BaronKill", &other, &None, "Me", 0), None);
    assert_eq!(detect_trigger(&mut tracker, "TurretKilled", &me, &None, "Me", 0), Some(EventTrigger::TurretKill));
    assert_eq!(detect_trigger(&mut tracker, "InhibKilled", &me, &None, "Me", 0), Some(EventTrigger::InhibitorKill));
    assert_eq!(detect_trigger(&mut tracker, "Ace", &None, &None, "Me", 0), Some(EventTrigger::Ace));
    assert_eq!(detect_trigger(&mut tracker, "GameStart", &me, &None, "Me", 0), None);
}

#[test]
fn replay_sessions() {
    let players = vec!["Alice".to_string(), "Bob".to_string()];
    assert!(is_replay_session("", &players));
    assert!(is_replay_session("Spectator", &players));
    assert!(is_replay_session("Carol", &players));
    assert!(!is_replay_session("Bob", &players));
}

fn event(id: u32, name: &str, killer: Option<&str>) -> GameEvent {
    GameEvent {
        event_id: id,
        event_name: name.to_string(),
        event_time_ms: id as u64 * 1000,
        killer_name: killer.map(|k| k.to_string()),
        victim_name: None,
        assisters: None,
    }
}

#[test]
fn event_list_processed_once() {
    let mut cursor = EventCursor::new();
    let me = Some("Me".to_string());
    let events = vec![
        event(1, "GameStart", None),
        event(2, "ChampionKill", Some("Me")),
        event(3, "ChampionKill", Some("Me")),
        event(4, "DragonKill", Some("Other")),
        event(5, "Ace", None),
    ];
    let triggers = cursor.process_event_list(&events, &me, 100_000);
    assert_eq!(
        triggers,
        vec![(EventTrigger::ChampionKill, 1), (EventTrigger::Multikill(2), 2), (EventTrigger::Ace, 4)]
    );
    assert_eq!(cursor.last_event_id, 5);
    // The same list again raises nothing.
    assert!(cursor.process_event_list(&events, &me, 200_000).is_empty());
    // Without a player name nothing happens.
    let mut fresh = EventCursor::new();
    assert!(fresh.process_event_list(&events, &None, 0).is_empty());
    assert_eq!(fresh.last_event_id, 0);
}
