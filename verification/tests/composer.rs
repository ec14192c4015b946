use lolshorts::video::auto_composer::{order_clips, select_clips, ClipInfo};
use lolshorts::video::VideoError;

fn create_test_clip(id: i64, priority: i32, duration_ms: u64, event_type: &str) -> ClipInfo {
    ClipInfo {
        id,
        game_id: "game1".to_string(),
        event_type: event_type.to_string(),
        event_time_ms: 100_000,
        priority,
        file_path: format!("/tmp/clip_{}.mp4", id),
        thumbnail_path: None,
        duration_ms: Some(duration_ms),
        usage_count: 0,
    }
}

fn total(clips: &[ClipInfo]) -> u64 {
    clips.iter().map(|c| c.duration_ms.unwrap()).sum()
}

#[test]
fn test_clip_selection_by_priority() {
    let clips = vec![
        create_test_clip(1, 1, 10_000, "Kill"),
        create_test_clip(2, 3, 15_000, "Triple Kill"),
        create_test_clip(3, 5, 12_000, "Pentakill"),
        create_test_clip(4, 2, 8_000, "Double Kill"),
        create_test_clip(5, 4, 10_000, "Quadrakill"),
    ];
    let selected = select_clips(&clips, 60, &None, false).unwrap();

    assert!(!selected.is_empty());
    assert_eq!(selected[0].priority, 5);
    assert!(selected.iter().all(|c| c.priority >= 2));
    assert!(total(&selected) <= 54_000);
    let ids: Vec<i64> = selected.iter().map(|c| c.id).collect();
    assert_eq!(ids, vec![3, 5, 2, 4]);
}

#[test]
fn test_clip_selection_fits_duration() {
    let clips = vec![
        create_test_clip(1, 5, 20_000, "Pentakill"),
        create_test_clip(2, 4, 25_000, "Quadrakill"),
        create_test_clip(3, 3, 30_000, "Triple Kill"),
    ];
    let selected = select_clips(&clips, 60, &None, false).unwrap();
    assert!(total(&selected) <= 54_000);
    assert_eq!(selected.len(), 2);
}

#[test]
fn test_manual_clip_selection() {
    let clips = vec![
        create_test_clip(1, 1, 10_000, "Kill"),
        create_test_clip(2, 3, 15_000, "Triple Kill"),
        create_test_clip(3, 5, 12_000, "Pentakill"),
    ];
    let selected = select_clips(&clips, 60, &Some(vec![1, 3]), false).unwrap();
    assert_eq!(selected.len(), 2);
    assert!(selected.iter().any(|c| c.id == 1));
    assert!(selected.iter().any(|c| c.id == 3));
    assert!(matches!(select_clips(&clips, 60, &Some(vec![9]), false), Err(VideoError::NoClipsFound)));
}

#[test]
fn selection_without_clips_fails() {
    assert!(matches!(select_clips(&vec![], 60, &None, false), Err(VideoError::NoClipsFound)));
}

#[test]
fn oversized_first_clip_stands_in() {
    let clips = vec![create_test_clip(7, 5, 200_000, "Long"), create_test_clip(8, 1, 100_000, "Longer")];
    let selected = select_clips(&clips, 60, &None, false).unwrap();
    assert_eq!(selected.len(), 1);
    assert_eq!(selected[0].id, 7);
}

#[test]
fn less_used_clips_come_first() {
    let mut a = create_test_clip(1, 5, 10_000, "A");
    a.usage_count = 2;
    let b = create_test_clip(2, 1, 10_000, "B");
    let c = create_test_clip(3, 3, 10_000, "C");
    let clips = vec![a, b, c];
    assert_eq!(order_clips(&clips, false), vec![2, 1, 0]);
    // With duplicates allowed, only priority counts.
    assert_eq!(order_clips(&clips, true), vec![0, 2, 1]);
}

#[test]
fn equal_clips_keep_their_input_order() {
    let mut late = create_test_clip(1, 50, 5_000, "kill");
    late.event_time_ms = 900_000;
    let mut early = create_test_clip(2, 50, 5_000, "kill");
    early.event_time_ms = 120_000;
    let best = create_test_clip(3, 100, 5_000, "pentakill");
    let clips = vec![late, early, best];
    // The sort is stable: equal usage and priority keep the input order,
    // whatever the event times.
    assert_eq!(order_clips(&clips, false), vec![2, 0, 1]);
    assert_eq!(order_clips(&clips, true), vec![2, 0, 1]);
}
