use stache_tiling::borders::mach_ipc::{
    ConnectionSlot, FirstAttempt, JankyConnection, SendStep, connect, encode_message, invalidate, is_connected,
    next_send_step, reconnect, send, send_batch, send_one,
};
use stache_tiling::borders::manager::BorderAction;
use stache_tiling::borders::{BorderManager, BorderState};
use stache_tiling::config::{BordersConfig, WindowRule};

fn enabled_manager() -> BorderManager {
    let config = BordersConfig { enabled: true, ..Default::default() };
    BorderManager::new(&config)
}

#[test]
fn test_border_manager_default() {
    let manager = BorderManager::default();
    assert!(!manager.is_enabled());
    assert_eq!(manager.window_count(), 0);
}

#[test]
fn test_border_manager_from_config() {
    let config = BordersConfig { enabled: true, ..Default::default() };
    let manager = BorderManager::new(&config);
    assert!(manager.is_enabled());
}

#[test]
fn test_set_enabled() {
    let mut manager = BorderManager::default();
    assert!(!manager.is_enabled());

    manager.enabled = true;
    assert!(manager.is_enabled());

    manager.enabled = false;
    assert!(!manager.is_enabled());
}

#[test]
fn test_track_window() {
    let mut manager = enabled_manager();
    assert!(manager.track_window(123, BorderState::Focused, "workspace1", true));
    assert!(manager.is_tracked(123));
    assert_eq!(manager.window_count(), 1);
    assert!(!manager.track_window(123, BorderState::Unfocused, "workspace1", true));
}

#[test]
fn test_untrack_window() {
    let mut manager = enabled_manager();
    manager.track_window(123, BorderState::Focused, "workspace1", true);
    assert!(manager.untrack_window(123));
    assert!(!manager.is_tracked(123));
    assert!(!manager.untrack_window(123));
}

#[test]
fn test_get_window_state() {
    let mut manager = enabled_manager();
    manager.track_window(123, BorderState::Monocle, "workspace1", true);
    assert_eq!(manager.get_window_state(123), Some(BorderState::Monocle));
    assert_eq!(manager.get_window_state(999), None);
}

#[test]
fn test_update_window_state() {
    let mut manager = enabled_manager();
    manager.track_window(123, BorderState::Unfocused, "workspace1", true);
    manager.update_window_state(123, BorderState::Focused);
    assert_eq!(manager.get_window_state(123), Some(BorderState::Focused));
}

#[test]
fn test_should_have_border_when_disabled() {
    let manager = BorderManager::default();
    let window = "com.test.app";
    assert!(!manager.should_have_border(&window, &|rule: &WindowRule, w: &&str| {
        rule.app_id.as_deref() == Some(*w)
    }));
}

#[test]
fn test_should_have_border_with_ignore_rule() {
    let config = BordersConfig {
        enabled: true,
        ignore: vec![WindowRule { app_id: Some("com.test.ignored".to_string()), ..Default::default() }],
    };
    let manager = BorderManager::new(&config);
    let matches = |rule: &WindowRule, w: &&str| rule.app_id.as_deref() == Some(*w);
    assert!(!manager.should_have_border(&"com.test.ignored", &matches));
    assert!(manager.should_have_border(&"com.test.normal", &matches));
}

#[test]
fn test_border_state_default() {
    assert_eq!(BorderState::default(), BorderState::Unfocused);
}

#[test]
fn test_border_state_equality() {
    assert_eq!(BorderState::Focused, BorderState::Focused);
    assert_ne!(BorderState::Focused, BorderState::Unfocused);
    assert_ne!(BorderState::Monocle, BorderState::Floating);
}

#[test]
fn disabled_manager_tracks_nothing() {
    let mut manager = BorderManager::default();
    assert!(!manager.track_window(1, BorderState::Focused, "ws", true));
    assert_eq!(manager.window_count(), 0);
    assert!(manager.take_actions().is_empty());
}

#[test]
fn focused_visible_window_queues_colors() {
    let mut manager = enabled_manager();
    manager.track_window(1, BorderState::Focused, "ws", true);
    manager.track_window(2, BorderState::Focused, "ws", false);
    manager.track_window(3, BorderState::Unfocused, "ws", true);
    assert_eq!(
        manager.take_actions(),
        vec![BorderAction::UpdateColors { is_monocle: false, is_floating: false }]
    );
    assert!(manager.take_actions().is_empty());
}

#[test]
fn state_changes_update_layout_colors() {
    let mut manager = enabled_manager();
    manager.track_window(1, BorderState::Unfocused, "ws", true);
    manager.track_window(2, BorderState::Unfocused, "other", false);
    manager.update_window_state(1, BorderState::Monocle);
    manager.update_window_state(1, BorderState::Monocle);
    manager.update_window_state(2, BorderState::Floating);
    manager.update_window_state(1, BorderState::Unfocused);
    manager.update_window_state(9, BorderState::Focused);
    assert_eq!(
        manager.take_actions(),
        vec![BorderAction::UpdateColors { is_monocle: true, is_floating: false }]
    );
    assert_eq!(manager.get_window_state(2), Some(BorderState::Floating));
    manager.set_layout_state(true, false);
    assert!(manager.take_actions().is_empty());
    manager.set_layout_state(false, true);
    assert_eq!(
        manager.take_actions(),
        vec![BorderAction::UpdateColors { is_monocle: false, is_floating: true }]
    );
}

#[test]
fn workspace_visibility_and_unfocus() {
    let mut manager = enabled_manager();
    manager.track_window(1, BorderState::Focused, "a", false);
    manager.track_window(2, BorderState::Focused, "b", true);
    manager.set_all_unfocused();
    assert_eq!(manager.get_window_state(1), Some(BorderState::Focused));
    assert_eq!(manager.get_window_state(2), Some(BorderState::Unfocused));
    manager.show_workspace("a");
    manager.hide_workspace("b");
    manager.set_all_unfocused();
    assert_eq!(manager.get_window_state(1), Some(BorderState::Unfocused));
    manager.update_window_workspace(2, "a");
    manager.hide_workspace("a");
    manager.update_window_state(2, BorderState::Focused);
    let actions = manager.take_actions();
    assert_eq!(actions, vec![BorderAction::UpdateColors { is_monocle: false, is_floating: false }]);
}

#[test]
fn enabling_and_refresh_queue_refresh() {
    let mut manager = BorderManager::default();
    manager.refresh();
    manager.set_enabled(false);
    manager.set_enabled(true);
    manager.set_enabled(true);
    manager.refresh();
    assert_eq!(manager.take_actions(), vec![BorderAction::Refresh, BorderAction::Refresh]);
}

#[test]
fn track_then_untrack_restores_count() {
    let mut manager = enabled_manager();
    manager.track_window(5, BorderState::Unfocused, "ws", true);
    let before = manager.window_count();
    manager.track_window(6, BorderState::Unfocused, "ws", true);
    manager.untrack_window(6);
    assert_eq!(manager.window_count(), before);
    assert!(manager.is_tracked(5));
    assert!(!manager.is_tracked(6));
}

#[test]
fn test_is_connected_when_not_running() {
    let slot = ConnectionSlot::new(None);
    assert!(!is_connected(&slot));
}

#[test]
fn test_send_when_not_connected() {
    let mut slot = ConnectionSlot::new(Some(JankyConnection { port: 7 }));
    invalidate(&mut slot);
    assert!(send(&slot, &["test=value"]).is_none());
}

#[test]
fn test_send_empty_args() {
    let slot = ConnectionSlot::new(Some(JankyConnection { port: 7 }));
    let t = send(&slot, &[]).unwrap();
    assert_eq!(t.port, 7);
    assert_eq!(t.message, vec![0u8]);
}

#[test]
fn test_invalidate_and_reconnect() {
    let mut slot = ConnectionSlot::new(Some(JankyConnection { port: 3 }));
    invalidate(&mut slot);
    // After invalidation, connect attempts a new connection.
    assert!(!connect(&mut slot, None));
    assert!(!is_connected(&slot));
    assert!(connect(&mut slot, Some(JankyConnection { port: 5 })));
    assert!(is_connected(&slot));
    // A cached connection is kept.
    assert!(connect(&mut slot, Some(JankyConnection { port: 6 })));
    assert_eq!(slot.connection.unwrap().port, 5);
    assert!(reconnect(&mut slot, Some(JankyConnection { port: 4 })));
    assert!(is_connected(&slot));
}

#[test]
fn null_port_is_not_connected() {
    let mut slot = ConnectionSlot::new(Some(JankyConnection { port: 0 }));
    assert!(connect(&mut slot, None));
    assert!(!is_connected(&slot));
    assert!(send_one(&slot, "width=4.0").is_none());
}

#[test]
fn message_framing() {
    assert_eq!(
        encode_message(&["active_color=0xffff0000", "width=4.0"]),
        b"active_color=0xffff0000\0width=4.0\0\0".to_vec()
    );
    let slot = ConnectionSlot::new(Some(JankyConnection { port: 9 }));
    let one = send_one(&slot, "a=b").unwrap();
    assert_eq!(one.message, b"a=b\0\0".to_vec());
    let batch = send_batch(&slot, &["x=1".to_string(), "y=é".to_string()]).unwrap();
    assert_eq!(batch.port, 9);
    assert_eq!(batch.message, "x=1\0y=é\0\0".as_bytes().to_vec());
}

#[test]
fn delivered_send_keeps_connection() {
    let mut slot = ConnectionSlot::new(Some(JankyConnection { port: 3 }));
    assert!(matches!(next_send_step(&mut slot, &["width=4.0"], FirstAttempt::Delivered), SendStep::Done));
    assert_eq!(slot.connection.map(|c| c.port), Some(3));
}

#[test]
fn send_after_invalidate_retries_once_on_found_port() {
    let mut slot = ConnectionSlot::new(Some(JankyConnection { port: 3 }));
    invalidate(&mut slot);
    assert!(send(&slot, &["a=1", "b=2"]).is_none());
    match next_send_step(&mut slot, &["a=1", "b=2"], FirstAttempt::Failed(Some(JankyConnection { port: 9 }))) {
        SendStep::Retry(t) => {
            assert_eq!(t.port, 9);
            assert_eq!(t.message, b"a=1\0b=2\0\0".to_vec());
        }
        _ => panic!("expected a retry"),
    }
    assert_eq!(slot.connection.map(|c| c.port), Some(9));
}

#[test]
fn failed_send_without_service_gives_up() {
    let mut slot = ConnectionSlot::new(Some(JankyConnection { port: 3 }));
    assert!(matches!(next_send_step(&mut slot, &["a=1"], FirstAttempt::Failed(None)), SendStep::GiveUp));
    assert!(slot.connection.is_none());
    let mut null_slot = ConnectionSlot::new(None);
    let step = next_send_step(&mut null_slot, &["a=1"], FirstAttempt::Failed(Some(JankyConnection { port: 0 })));
    assert!(matches!(step, SendStep::GiveUp));
    assert!(!is_connected(&null_slot));
}
