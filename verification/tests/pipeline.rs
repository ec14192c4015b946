use lolshorts::recording::auto_clip_manager::{AutoClipManager, ClipAction, QueuedEvent};
use lolshorts::recording::commands::{disk_usage_report, GIB};
use lolshorts::recording::integration_backend::{segment_files, sorted_segments};
use lolshorts::recording::live_client::EventTrigger;
use lolshorts::settings::models::EventFilterSettings;
use lolshorts::storage::models_v2::order_by_time;

fn ev(trigger: EventTrigger, t: u64) -> QueuedEvent {
    QueuedEvent { trigger, event_time_ms: t }
}

#[test]
fn events_merge_once_the_window_closes() {
    let filter = EventFilterSettings::default();
    let mut m = AutoClipManager::new();
    m.set_current_game(Some("g".to_string()));
    // Filtered out: a single kill is below the minimum priority.
    assert_eq!(m.process_event(ev(EventTrigger::ChampionKill, 1_000), &filter, true, 15, 0), ClipAction::Skip);
    assert_eq!(m.process_event(ev(EventTrigger::Multikill(2), 2_000), &filter, true, 15, 1_000), ClipAction::Wait);
    assert_eq!(m.process_event(ev(EventTrigger::Multikill(3), 5_000), &filter, true, 15, 10_000), ClipAction::Wait);
    match m.process_event(ev(EventTrigger::BaronKill, 9_000), &filter, true, 15, 16_000) {
        ClipAction::SaveMerged(w) => {
            assert_eq!(w.events.len(), 3);
            assert_eq!(w.primary_trigger, EventTrigger::BaronKill);
            assert_eq!(w.priority, 3);
            assert_eq!((w.start_ms, w.end_ms), (2_000, 9_000));
        }
        other => panic!("unexpected {:?}", other),
    }
    // The queue was emptied: the next event waits again.
    assert_eq!(m.process_event(ev(EventTrigger::Ace, 20_000), &filter, true, 15, 17_000), ClipAction::Wait);
    // The game ending clears the queue.
    m.set_current_game(None);
    assert_eq!(m.current_game(), &None);
    assert_eq!(m.process_event(ev(EventTrigger::Ace, 30_000), &filter, true, 15, 18_000), ClipAction::Wait);
}

#[test]
fn events_saved_at_once_without_merging() {
    let filter = EventFilterSettings::default();
    let mut m = AutoClipManager::new();
    let e = ev(EventTrigger::DragonKill, 3_000);
    assert_eq!(m.process_event(e, &filter, false, 15, 0), ClipAction::SaveSingle(e));
}

#[test]
fn segments_sorted_by_modification_time() {
    let paths = vec![
        "/seg/segment_0002.mp4".to_string(),
        "/seg/notes.txt".to_string(),
        "/seg/segment_0000.mp4".to_string(),
        "/seg/segment_0001.MP4".to_string(),
        "/seg/segment_0003.mp4".to_string(),
    ];
    let modified = vec![300, 100, 100, 200, 300];
    assert_eq!(
        sorted_segments(&paths, &modified),
        vec!["/seg/segment_0000.mp4", "/seg/segment_0002.mp4", "/seg/segment_0003.mp4"]
    );
    assert_eq!(
        segment_files(&paths),
        vec!["/seg/segment_0002.mp4", "/seg/segment_0000.mp4", "/seg/segment_0003.mp4"]
    );
}

#[test]
fn stable_time_order() {
    assert_eq!(order_by_time(&vec![5, 1, 5, 0, 1]), vec![3, 1, 4, 0, 2]);
    assert!(order_by_time(&vec![]).is_empty());
}

#[test]
fn disk_usage_figures() {
    let r = disk_usage_report(500 * GIB, 8 * GIB, 21 * GIB, 2 * GIB + 1, GIB - 1);
    assert_eq!((r.total_space_gb, r.free_space_gb, r.used_space_gb), (500, 8, 492));
    assert_eq!((r.recordings_gb, r.temp_files_gb, r.logs_gb), (21, 2, 0));
    assert!(r.cleanup_needed && r.cleanup_temp && r.archive_old_recordings && r.low_disk_space);
    let quiet = disk_usage_report(100 * GIB, 50 * GIB, 20 * GIB, 0, 0);
    assert!(!quiet.cleanup_needed && !quiet.cleanup_temp && !quiet.archive_old_recordings && !quiet.low_disk_space);
}
