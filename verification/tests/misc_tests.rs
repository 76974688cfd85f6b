use stache_tiling::config::choose_gaps_entry;
use stache_tiling::constants::{animation, cache, timing};
use stache_tiling::drag_state::{
    DragOperation, DragTracker, cancel_operation, finish_operation, get_operation,
    is_operation_in_progress, operation_drag_sequence, start_operation,
};
use stache_tiling::manager::WorkspaceSwitchInfo;
use stache_tiling::manager::helpers::{is_lock_contention, track_lock_time};
use stache_tiling::screen::{ScreenCache, invalidate_screen_cache};
use stache_tiling::state::LayoutCache;

#[test]
fn test_timing_constants_are_reasonable() {
    assert!(timing::FOCUS_COOLDOWN_MS > 0);
    assert!(timing::FOCUS_COOLDOWN_MS < 100);

    assert!(timing::WORKSPACE_SWITCH_COOLDOWN_MS > 0);
    assert!(timing::WORKSPACE_SWITCH_COOLDOWN_MS < 100);

    assert!(timing::HIDE_SHOW_DELAY_MS < 50);
    assert!(timing::SCREEN_CHANGE_DELAY_MS <= 200);

    assert!(timing::WINDOW_READY_POLL_INTERVAL_MS < timing::WINDOW_READY_TIMEOUT_MS);

    assert!(timing::EVENT_COALESCE_MS >= 2);
    assert!(timing::EVENT_COALESCE_MS <= 16);
}

#[test]
fn test_screen_cache_constant() {
    assert!(cache::SCREEN_TTL_MS >= 100);
    assert!(cache::SCREEN_TTL_MS <= 10000);
}

#[test]
fn test_operation_types() {
    assert_ne!(DragOperation::Move, DragOperation::Resize);
}

#[test]
fn test_no_operation_initially() {
    let tracker: DragTracker<(DragOperation, i32)> = DragTracker::new();
    assert!(!is_operation_in_progress(&tracker));
    assert!(get_operation(&tracker).is_none());
}

#[test]
fn test_start_and_finish_operation() {
    let mut tracker = DragTracker::new();
    start_operation(&mut tracker, (DragOperation::Move, 456, "workspace-1"), 1);
    assert!(is_operation_in_progress(&tracker));
    assert_eq!(operation_drag_sequence(&tracker), 1);
    assert_eq!(get_operation(&tracker), Some(&(DragOperation::Move, 456, "workspace-1")));
    let info = finish_operation(&mut tracker);
    assert_eq!(info, Some((DragOperation::Move, 456, "workspace-1")));
    assert!(!is_operation_in_progress(&tracker));
    assert_eq!(finish_operation(&mut tracker), None);
}

#[test]
fn test_cancel_operation() {
    let mut tracker = DragTracker::new();
    start_operation(&mut tracker, (DragOperation::Resize, 111, "test"), 2);
    assert!(is_operation_in_progress(&tracker));
    cancel_operation(&mut tracker);
    assert!(!is_operation_in_progress(&tracker));
    assert!(finish_operation(&mut tracker).is_none());
    assert_eq!(operation_drag_sequence(&tracker), 2);
}

#[test]
fn test_track_lock_time_returns_value() {
    let result = track_lock_time("test", || 42);
    assert_eq!(result, 42);
}

#[test]
fn test_track_lock_time_executes_closure() {
    let mut executed = false;
    track_lock_time("test", || {
        executed = true;
    });
    assert!(executed);
}

#[test]
fn test_module_compiles() {
    let info = WorkspaceSwitchInfo {
        workspace: "coding".to_string(),
        screen: "main".to_string(),
        previous_workspace: None,
    };
    assert_eq!(info.workspace, "coding");
}

#[test]
fn test_layout_cache_new() {
    let cache: LayoutCache<(u32, (f64, f64, f64, f64))> = LayoutCache::new();
    assert_eq!(cache.input_hash, 0);
    assert!(cache.positions.is_empty());
}

#[test]
fn test_layout_cache_is_valid_empty() {
    let cache: LayoutCache<(u32, (f64, f64, f64, f64))> = LayoutCache::new();
    assert!(!cache.is_valid(0));
    assert!(!cache.is_valid(12345));
}

#[test]
fn test_layout_cache_update_and_is_valid() {
    let mut cache = LayoutCache::new();
    let positions = vec![(1u32, (0.0, 0.0, 100.0, 100.0)), (2u32, (100.0, 0.0, 100.0, 100.0))];
    cache.update(12345, positions.clone());
    assert_eq!(cache.input_hash, 12345);
    assert_eq!(cache.positions.len(), 2);
    assert!(cache.is_valid(12345));
    assert!(!cache.is_valid(99999));
}

#[test]
fn test_layout_cache_invalidate() {
    let mut cache = LayoutCache::new();
    cache.update(12345, vec![(1u32, (0.0, 0.0, 100.0, 100.0))]);
    assert!(cache.is_valid(12345));
    cache.invalidate();
    assert!(!cache.is_valid(12345));
    assert_eq!(cache.input_hash, 0);
    assert!(cache.positions.is_empty());
}

#[test]
fn test_layout_cache_is_valid_requires_positions() {
    let mut cache: LayoutCache<(u32, (f64, f64, f64, f64))> = LayoutCache::new();
    cache.input_hash = 12345;
    assert!(!cache.is_valid(12345));
}

#[test]
fn layout_cache_hash_zero_never_valid() {
    let mut cache = LayoutCache::new();
    cache.update(0, vec![1u8]);
    assert!(!cache.is_valid(0));
}

#[test]
fn screen_cache_lifetime() {
    let mut screens: ScreenCache<&str> = ScreenCache::new(1000);
    assert!(!screens.is_valid(0));
    assert!(screens.get(0).is_none());
    screens.update(vec!["Built-in"], 500);
    assert!(screens.is_valid(500));
    assert!(screens.is_valid(1499));
    assert!(!screens.is_valid(1500));
    assert_eq!(screens.get(600), Some(&vec!["Built-in"]));
    invalidate_screen_cache(&mut screens);
    assert!(!screens.is_valid(600));
    screens.update(Vec::new(), 700);
    assert!(!screens.is_valid(700));
}

#[test]
fn per_screen_gaps_entries_are_chosen_by_name_then_role() {
    let entries: Vec<String> = vec!["DELL U2720Q".to_string(), "main".to_string(), "secondary".to_string()];
    assert_eq!(choose_gaps_entry(&entries, "dell u2720q", false), Some(0));
    assert_eq!(choose_gaps_entry(&entries, "Built-in Retina Display", true), Some(1));
    assert_eq!(choose_gaps_entry(&entries, "Projector", false), Some(2));
    let only_named: Vec<String> = vec!["LG".to_string()];
    assert_eq!(choose_gaps_entry(&only_named, "Projector", true), Some(0));
    assert_eq!(choose_gaps_entry(&Vec::new(), "Projector", true), None);
}

#[test]
fn drag_sequence_survives_repeated_endings() {
    let mut tracker: DragTracker<DragOperation> = DragTracker::new();
    start_operation(&mut tracker, DragOperation::Resize, 7);
    cancel_operation(&mut tracker);
    assert_eq!(finish_operation(&mut tracker), None);
    cancel_operation(&mut tracker);
    assert_eq!(finish_operation(&mut tracker), None);
    assert_eq!(operation_drag_sequence(&tracker), 7);
    assert!(!is_operation_in_progress(&tracker));
    start_operation(&mut tracker, DragOperation::Move, 8);
    assert_eq!(operation_drag_sequence(&tracker), 8);
}

#[test]
fn test_animation_constants_are_reasonable() {
    assert!(animation::MIN_DURATION_MS < animation::MAX_DURATION_MS);
    assert!(animation::MIN_DYNAMIC_DURATION_MS < u64::from(animation::MAX_DURATION_MS));
    assert!(animation::DEFAULT_FPS >= 30);
    assert!(animation::DEFAULT_FPS <= 240);
}

#[test]
fn lock_contention_starts_above_threshold() {
    assert!(!is_lock_contention(0));
    assert!(!is_lock_contention(5));
    assert!(is_lock_contention(6));
}
