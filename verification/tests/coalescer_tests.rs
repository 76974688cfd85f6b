use stache_tiling::event_coalescer::{
    CoalesceEntry, EVENT_COALESCE_MS, EventCoalescer, clear_app, make_key, should_process_move,
    should_process_resize,
};
use stache_tiling::observer::WindowEventType;

#[test]
fn test_coalesce_entry_new() {
    let now = 10_000;
    let entry = CoalesceEntry::new(now);
    assert!(!entry.should_process(1000, now));
    assert!(entry.should_process(0, now));
}

#[test]
fn test_coalesce_entry_mark_processed() {
    let mut entry = CoalesceEntry::new(100);
    entry.mark_processed(105);
    assert!(!entry.should_process(10, 105));
    assert!(entry.should_process(10, 115));
    assert!(!entry.should_process(10, 50));
}

#[test]
fn test_make_key_different_events() {
    let key1 = make_key(123, WindowEventType::Moved);
    let key2 = make_key(123, WindowEventType::Resized);
    assert_ne!(key1, key2);
}

#[test]
fn test_make_key_different_pids() {
    let key1 = make_key(123, WindowEventType::Moved);
    let key2 = make_key(456, WindowEventType::Moved);
    assert_ne!(key1, key2);
}

#[test]
fn test_make_key_same_inputs() {
    let key1 = make_key(123, WindowEventType::Moved);
    let key2 = make_key(123, WindowEventType::Moved);
    assert_eq!(key1, key2);
}

#[test]
fn test_event_coalescer_first_event_always_processed() {
    let mut coalescer = EventCoalescer::new(100);
    assert!(coalescer.should_process(999, WindowEventType::Moved, 0));
}

#[test]
fn test_event_coalescer_rapid_events_coalesced() {
    let mut coalescer = EventCoalescer::new(100);
    assert!(coalescer.should_process(888, WindowEventType::Moved, 5));
    assert!(!coalescer.should_process(888, WindowEventType::Moved, 5));
}

#[test]
fn test_event_coalescer_different_pids_independent() {
    let mut coalescer = EventCoalescer::new(100);
    assert!(coalescer.should_process(1, WindowEventType::Moved, 5));
    assert!(coalescer.should_process(2, WindowEventType::Moved, 5));
}

#[test]
fn test_event_coalescer_different_events_independent() {
    let mut coalescer = EventCoalescer::new(100);
    assert!(coalescer.should_process(777, WindowEventType::Moved, 5));
    assert!(coalescer.should_process(777, WindowEventType::Resized, 5));
}

#[test]
fn test_event_coalescer_zero_window_no_coalescing() {
    let mut coalescer = EventCoalescer::new(0);
    assert!(coalescer.should_process(666, WindowEventType::Moved, 5));
    assert!(coalescer.should_process(666, WindowEventType::Moved, 5));
    assert!(coalescer.should_process(666, WindowEventType::Moved, 5));
}

#[test]
fn test_event_coalescer_clear_pid() {
    let mut coalescer = EventCoalescer::new(1000);
    assert!(coalescer.should_process(555, WindowEventType::Moved, 5));
    assert!(!coalescer.should_process(555, WindowEventType::Moved, 5));
    coalescer.clear_pid(555);
    assert!(coalescer.should_process(555, WindowEventType::Moved, 5));
}

#[test]
fn test_event_coalescer_clear() {
    let mut coalescer = EventCoalescer::new(1000);
    assert!(coalescer.should_process(111, WindowEventType::Moved, 5));
    assert!(coalescer.should_process(222, WindowEventType::Moved, 5));
    assert!(!coalescer.should_process(111, WindowEventType::Moved, 5));
    assert!(!coalescer.should_process(222, WindowEventType::Moved, 5));
    coalescer.clear();
    assert!(coalescer.should_process(111, WindowEventType::Moved, 5));
    assert!(coalescer.should_process(222, WindowEventType::Moved, 5));
}

#[test]
fn test_coalesce_constant() {
    assert!(EVENT_COALESCE_MS >= 2);
    assert!(EVENT_COALESCE_MS <= 16);
}

#[test]
fn events_after_the_window_are_processed() {
    let mut coalescer = EventCoalescer::new(4);
    assert!(should_process_move(&mut coalescer, 42, 100));
    assert!(!should_process_move(&mut coalescer, 42, 103));
    assert!(should_process_move(&mut coalescer, 42, 104));
    assert!(!should_process_move(&mut coalescer, 42, 107));
    // A clock reading earlier than the last event counts as no time passed.
    assert!(!should_process_move(&mut coalescer, 42, 50));
    assert!(should_process_resize(&mut coalescer, 42, 107));
}

#[test]
fn clear_app_leaves_other_processes() {
    let mut coalescer = EventCoalescer::new(1000);
    assert!(should_process_move(&mut coalescer, 1, 0));
    assert!(should_process_resize(&mut coalescer, 1, 0));
    assert!(should_process_move(&mut coalescer, 2, 0));
    clear_app(&mut coalescer, 1);
    assert!(should_process_move(&mut coalescer, 1, 1));
    assert!(should_process_resize(&mut coalescer, 1, 1));
    assert!(!should_process_move(&mut coalescer, 2, 1));
}

#[test]
fn make_key_discriminants() {
    assert_eq!(make_key(1, WindowEventType::Created), (1, 0));
    assert_eq!(make_key(1, WindowEventType::Moved), (1, 4));
    assert_eq!(make_key(-3, WindowEventType::AppShown), (-3, 12));
}
