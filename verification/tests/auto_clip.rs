use lolshorts::recording::auto_clip_manager::{
    calculate_clip_window, merge_events, merge_window_closed, merged_clip_duration_ms,
    merged_clip_id, participants, should_record_event, single_clip_duration_ms, single_clip_id,
    trigger_to_event_type, QueuedEvent,
};
use lolshorts::recording::live_client::EventTrigger;
use lolshorts::settings::models::{ClipTimingSettings, EventFilterSettings, RecordingSettings};
use lolshorts::storage::models::EventType;

#[test]
fn test_merge_events() {
    let events = vec![
        QueuedEvent { trigger: EventTrigger::ChampionKill, event_time_ms: 100_000 },
        QueuedEvent { trigger: EventTrigger::Multikill(2), event_time_ms: 105_000 },
        QueuedEvent { trigger: EventTrigger::Multikill(3), event_time_ms: 108_000 },
    ];

    let window = merge_events(&events);

    assert_eq!(window.events.len(), 3);
    assert_eq!(window.events, events);
    assert_eq!(window.start_ms, 100_000);
    assert_eq!(window.end_ms, 108_000);
    assert_eq!(window.priority, 3); // Triple kill priority
    assert_eq!(window.primary_trigger, EventTrigger::Multikill(3));
}

#[test]
fn merge_keeps_last_of_equal_priority() {
    let events = vec![
        QueuedEvent { trigger: EventTrigger::BaronKill, event_time_ms: 50_000 },
        QueuedEvent { trigger: EventTrigger::Multikill(3), event_time_ms: 40_000 },
        QueuedEvent { trigger: EventTrigger::ChampionKill, event_time_ms: 45_000 },
    ];
    let window = merge_events(&events);
    assert_eq!(window.primary_trigger, EventTrigger::Multikill(3));
    assert_eq!((window.start_ms, window.end_ms), (40_000, 50_000));
    assert_eq!(merged_clip_id(&window), "merged_40_50");
}

#[test]
fn test_event_filtering() {
    let mut settings = RecordingSettings::default();
    settings.event_filter.record_kills = false; // Disable kills
    settings.event_filter.record_multikills = true;
    settings.event_filter.min_priority = 2;

    // Single kill should be filtered out
    assert!(!should_record_event(&EventTrigger::ChampionKill, &settings.event_filter));
    // Double kill should pass (multikills enabled, priority 2)
    assert!(should_record_event(&EventTrigger::Multikill(2), &settings.event_filter));
}

#[test]
fn default_filter_decisions() {
    let filter = EventFilterSettings::default();
    assert!(!should_record_event(&EventTrigger::ChampionKill, &filter)); // priority 1 < 2
    assert!(should_record_event(&EventTrigger::BaronKill, &filter));
    assert!(should_record_event(&EventTrigger::Ace, &filter));
}

#[test]
fn clip_windows_and_ids() {
    let timing = ClipTimingSettings::default();
    let w = calculate_clip_window(&EventTrigger::Multikill(4), &timing);
    assert_eq!((w.pre_duration, w.post_duration), (15, 5));
    assert_eq!(single_clip_duration_ms(&w), 20_000);
    let s = calculate_clip_window(&EventTrigger::Steal, &timing);
    assert_eq!((s.pre_duration, s.post_duration), (20, 5));
    let k = calculate_clip_window(&EventTrigger::ChampionKill, &timing);
    assert_eq!((k.pre_duration, k.post_duration), (10, 3));
    let events = vec![
        QueuedEvent { trigger: EventTrigger::ChampionKill, event_time_ms: 100_000 },
        QueuedEvent { trigger: EventTrigger::Multikill(2), event_time_ms: 105_500 },
    ];
    let window = merge_events(&events);
    assert_eq!(merged_clip_duration_ms(&w, &window), 15_000 + 5_500 + 5_000);
    assert_eq!(single_clip_id("ChampionKill", 125_900), "ChampionKill_125");
    assert!(merge_window_closed(15, 15));
    assert!(!merge_window_closed(14, 15));
}

#[test]
fn triggers_map_to_event_types() {
    assert!(matches!(trigger_to_event_type(&EventTrigger::Multikill(5)), EventType::Multikill(5)));
    assert!(matches!(trigger_to_event_type(&EventTrigger::DragonKill), EventType::DragonKill));
    let p = participants(&Some("Me".to_string()), &vec!["A".to_string(), "B".to_string()]);
    assert_eq!(p, vec!["Me".to_string(), "A".to_string(), "B".to_string()]);
    assert_eq!(participants(&None, &vec![]).len(), 0);
}
