use lolshorts::auth::SubscriptionTier;
use lolshorts::storage::commands::auto_edit_quota;
use lolshorts::storage::models::{remove_clip, upsert_clip, ClipMetadata, EventType};
use lolshorts::storage::models_v2::{
    AudioInfo, ClipMetadataV2, ClipTimeline, EventInfo, EventWindow, GameContext, MarkerType,
    MergeStrategy, TimelineMarker, VideoInfo,
};
use lolshorts::storage::{
    get_clips_by_priority, get_favorite_clips, search_clips_by_tags, update_clips_index_v2, Storage,
};

#[test]
fn test_storage_creation() {
    let temp_dir = "/tmp/lolshorts_test";
    let storage = Storage::new(temp_dir.to_string());
    assert_eq!(storage.base_path(), temp_dir);
    let dirs = storage.subdirectories();
    assert_eq!(dirs.len(), 3);
    assert!(dirs[0].ends_with("\\clips"));
}

#[test]
fn storage_layout() {
    let storage = Storage::new("C:\\data".to_string());
    assert_eq!(storage.game_path("123"), "C:\\data\\clips\\123");
    assert_eq!(storage.game_file("123", "metadata.json"), "C:\\data\\clips\\123\\metadata.json");
    assert_eq!(storage.template_path("t1"), "C:\\data\\templates\\t1.json");
}

#[test]
fn test_clip_id_extraction() {
    let path = "C:/LoLShorts/clips/1234567890/clips/clip_20250110_143052_pentakill.mp4";
    let id = ClipMetadataV2::generate_clip_id(path);
    assert_eq!(id, "clip_20250110_143052_pentakill");
}

#[test]
fn test_game_id_extraction() {
    let path = "C:/LoLShorts/clips/1234567890/clips/clip_20250110_143052_pentakill.mp4";
    let game_id = ClipMetadataV2::extract_game_id(path);
    assert_eq!(game_id, "1234567890");
}

#[test]
fn ids_without_a_match() {
    assert_eq!(ClipMetadataV2::generate_clip_id(""), "unknown");
    assert_eq!(ClipMetadataV2::generate_clip_id("/a/.hidden"), ".hidden");
    assert_eq!(ClipMetadataV2::extract_game_id("/a/b/c.mp4"), "unknown");
    assert_eq!(ClipMetadataV2::extract_game_id("/x/clips"), "unknown");
}

fn event(id: u64, clip_ms: u64, priority: u8) -> EventInfo {
    EventInfo {
        event_id: id,
        event_type: EventType::ChampionKill,
        timestamp_ms: 100_000 + clip_ms,
        clip_timestamp_ms: clip_ms,
        priority,
        killer: None,
        victim: None,
        assisters: vec![],
        gold_earned: None,
        shutdown_bounty: None,
        details: None,
    }
}

fn create_test_clip() -> ClipMetadataV2 {
    ClipMetadataV2 {
        clip_id: "test_clip".to_string(),
        game_id: "12345".to_string(),
        file_path: "test.mp4".to_string(),
        thumbnail_path: None,
        created_at: "2025-01-10T14:30:52Z".to_string(),
        game_time_start_ms: 100_000,
        game_time_end_ms: 130_000,
        clip_duration_ms: 30_000,
        primary_event: EventInfo {
            event_id: 1,
            event_type: EventType::Multikill(5),
            timestamp_ms: 115_000,
            clip_timestamp_ms: 15_000,
            priority: 5,
            killer: Some("Player1".to_string()),
            victim: None,
            assisters: vec![],
            gold_earned: Some(1500),
            shutdown_bounty: None,
            details: None,
        },
        merged_events: vec![],
        event_window: EventWindow {
            merge_strategy: MergeStrategy::SingleEvent,
            time_threshold_ms: 0,
            events_merged: 1,
            pre_duration_ms: 15_000,
            post_duration_ms: 5_000,
        },
        priority: 5,
        tags: vec!["pentakill".to_string()],
        video_info: VideoInfo::default(),
        audio_info: AudioInfo::default(),
        timeline: ClipTimeline::default(),
        game_context: GameContext::default(),
        annotations: None,
    }
}

#[test]
fn test_add_marker() {
    let mut clip = create_test_clip();

    clip.add_marker(TimelineMarker {
        timestamp_ms: 15_000,
        marker_type: MarkerType::EventPeak,
        label: "Pentakill".to_string(),
        color: Some("#FFD700".to_string()),
    });

    assert_eq!(clip.timeline.markers.len(), 1);
    assert_eq!(clip.timeline.markers[0].label, "Pentakill");
}

#[test]
fn test_rating() {
    let mut clip = create_test_clip();

    clip.set_rating(5);
    assert_eq!(clip.annotations.as_ref().unwrap().rating, Some(5));

    // Test clamping
    clip.set_rating(10);
    assert_eq!(clip.annotations.as_ref().unwrap().rating, Some(5));
    clip.set_rating(0);
    assert_eq!(clip.annotations.as_ref().unwrap().rating, Some(1));
}

#[test]
fn annotations_start_on_first_use() {
    let mut clip = create_test_clip();
    clip.toggle_favorite();
    assert!(clip.annotations.as_ref().unwrap().favorite);
    clip.toggle_favorite();
    assert!(!clip.annotations.as_ref().unwrap().favorite);

    let mut other = create_test_clip();
    other.add_note(3_000, "nice".to_string(), "2025-01-10T15:00:00Z".to_string());
    let a = other.annotations.as_ref().unwrap();
    assert!(!a.favorite);
    assert_eq!(a.rating, None);
    assert_eq!(a.notes.len(), 1);
    assert_eq!(a.notes[0].text, "nice");
    assert_eq!(a.notes[0].timestamp_ms, 3_000);
}

#[test]
fn tags_are_kept_once() {
    let mut clip = create_test_clip();
    clip.add_tag("yasuo".to_string());
    clip.add_tag("pentakill".to_string());
    clip.add_tag("yasuo".to_string());
    assert_eq!(clip.tags, vec!["pentakill".to_string(), "yasuo".to_string()]);
}

#[test]
fn events_in_clip_order_and_priority_total() {
    let mut clip = create_test_clip();
    clip.merged_events = vec![event(2, 20_000, 2), event(3, 5_000, 1), event(4, 15_000, 3)];
    let ids: Vec<u64> = clip.get_all_events().iter().map(|e| e.event_id).collect();
    // Equal times keep their order: the primary event (15 s) before event 4.
    assert_eq!(ids, vec![3, 1, 4, 2]);
    assert_eq!(clip.total_priority(), 5 + 2 + 1 + 3);
}

#[test]
fn basic_clip_upgrade() {
    let v1 = ClipMetadata {
        file_path: "C:/LoLShorts/clips/42/clips/clip_1.mp4".to_string(),
        thumbnail_path: None,
        event_type: EventType::BaronKill,
        event_time_ms: 600_000,
        priority: 3,
        duration_ms: 13_000,
        created_at: "2025-01-01T00:00:00Z".to_string(),
        usage_count: 0,
    };
    let v2 = ClipMetadataV2::from_v1(v1);
    assert_eq!(v2.clip_id, "clip_1");
    assert_eq!(v2.game_id, "42");
    assert_eq!(v2.game_time_end_ms, 613_000);
    assert_eq!(v2.primary_event.clip_timestamp_ms, 10_000);
    assert_eq!(v2.event_window.post_duration_ms, 3_000);
    assert!(v2.annotations.is_none());
    assert_eq!(v2.video_info.encoder, "unknown");
}

fn clip(path: &str, priority: u8) -> ClipMetadata {
    ClipMetadata {
        file_path: path.to_string(),
        thumbnail_path: None,
        event_type: EventType::ChampionKill,
        event_time_ms: 0,
        priority,
        duration_ms: 1_000,
        created_at: "t".to_string(),
        usage_count: 0,
    }
}

#[test]
fn clip_index_upsert_and_remove() {
    let mut clips = vec![clip("a.mp4", 1), clip("b.mp4", 2)];
    upsert_clip(&mut clips, clip("a.mp4", 5));
    assert_eq!(clips.len(), 2);
    assert_eq!(clips[0].priority, 5);
    upsert_clip(&mut clips, clip("c.mp4", 1));
    assert_eq!(clips.len(), 3);
    assert!(remove_clip(&mut clips, "b.mp4"));
    assert!(!remove_clip(&mut clips, "b.mp4"));
    let paths: Vec<&str> = clips.iter().map(|c| c.file_path.as_str()).collect();
    assert_eq!(paths, vec!["a.mp4", "c.mp4"]);
}

#[test]
fn auto_edit_quota_by_tier() {
    let free = auto_edit_quota(SubscriptionTier::Free, 3, "2025-01".to_string());
    assert_eq!((free.tier.as_str(), free.is_pro, free.limit, free.remaining), ("FREE", false, 5, 2));
    let spent = auto_edit_quota(SubscriptionTier::Free, 9, "2025-01".to_string());
    assert_eq!(spent.remaining, 0);
    let pro = auto_edit_quota(SubscriptionTier::Pro, 3, "2025-01".to_string());
    assert_eq!((pro.tier.as_str(), pro.is_pro, pro.limit), ("PRO", true, u32::MAX));
    assert_eq!(pro.month, "2025-01");
}

#[test]
fn clip_searches() {
    let mut a = create_test_clip();
    a.clip_id = "a".to_string();
    a.priority = 2;
    a.tags = vec!["yasuo".to_string()];
    let mut b = create_test_clip();
    b.clip_id = "b".to_string();
    b.toggle_favorite();
    let mut c = create_test_clip();
    c.clip_id = "c".to_string();
    c.priority = 4;
    c.tags = vec!["ranked".to_string(), "yasuo".to_string()];

    let ids = |v: Vec<ClipMetadataV2>| v.into_iter().map(|c| c.clip_id).collect::<Vec<_>>();
    let found = search_clips_by_tags(vec![a, b, c], &["yasuo".to_string(), "nothing".to_string()]);
    assert_eq!(ids(found), vec!["a", "c"]);

    let mut p1 = create_test_clip();
    p1.clip_id = "p1".to_string();
    p1.priority = 2;
    let mut p2 = create_test_clip();
    p2.clip_id = "p2".to_string();
    p2.priority = 5;
    assert_eq!(ids(get_clips_by_priority(vec![p1, p2], 3)), vec!["p2"]);

    let mut f1 = create_test_clip();
    f1.clip_id = "f1".to_string();
    f1.toggle_favorite();
    let mut f2 = create_test_clip();
    f2.clip_id = "f2".to_string();
    f2.set_rating(3);
    assert_eq!(ids(get_favorite_clips(vec![f1, f2])), vec!["f1"]);
}

#[test]
fn clip_index_entries() {
    let mut index = vec![clip("test.mp4", 1), clip("other.mp4", 2)];
    let v2 = create_test_clip();
    update_clips_index_v2(&mut index, &v2);
    assert_eq!(index.len(), 2);
    assert_eq!(index[0].priority, 5);
    assert_eq!(index[0].duration_ms, 30_000);
    assert_eq!(index[0].event_time_ms, 100_000);
    let mut fresh = Vec::new();
    update_clips_index_v2(&mut fresh, &v2);
    assert_eq!(fresh.len(), 1);
    assert_eq!(fresh[0].file_path, "test.mp4");
}

#[test]
fn clips_used_in_an_edit_are_counted() {
    let mut clips = vec![clip("a.mp4", 1), clip("b.mp4", 2)];
    assert!(lolshorts::storage::models::mark_clip_used(&mut clips, "b.mp4"));
    assert!(lolshorts::storage::models::mark_clip_used(&mut clips, "b.mp4"));
    assert!(!lolshorts::storage::models::mark_clip_used(&mut clips, "c.mp4"));
    assert_eq!((clips[0].usage_count, clips[1].usage_count), (0, 2));
    assert_eq!(clips[1].file_path, "b.mp4");
}

#[test]
fn stats_sum_clips_and_readable_sizes() {
    let stats = lolshorts::storage::storage_stats(2, &vec![3, 4], &vec![Some(100), None, Some(50)]);
    assert_eq!(stats.total_games, 2);
    assert_eq!(stats.total_clips, 7);
    assert_eq!(stats.total_size_bytes, 150);
    let empty = lolshorts::storage::storage_stats(0, &Vec::new(), &Vec::new());
    assert_eq!(empty, lolshorts::storage::StorageStats { total_games: 0, total_clips: 0, total_size_bytes: 0 });
}

#[test]
fn game_paths_join_as_path_join_does_on_windows() {
    let trailing = Storage::new("C:\\data\\".to_string());
    assert_eq!(trailing.game_path("123"), "C:\\data\\clips\\123");
    let slash = Storage::new("C:/data/".to_string());
    assert_eq!(slash.game_path("123"), "C:/data/clips\\123");
    let storage = Storage::new("C:\\data".to_string());
    // A part with a prefix replaces the base; a rooted part keeps the drive.
    assert_eq!(storage.game_path("D:\\games\\7"), "D:\\games\\7");
    assert_eq!(storage.game_path("\\games\\7"), "C:\\games\\7");
    // A bare drive takes no separator; an empty base none either.
    assert_eq!(Storage::new("C:".to_string()).game_path("7"), "C:clips\\7");
    assert_eq!(Storage::new(String::new()).game_path("7"), "clips\\7");
}
