use stache_tiling::app_monitor::{self, AppMonitorState};
use stache_tiling::screen_monitor::cg_flags;
use stache_tiling::screen_monitor::{
    self, ScreenChange, ScreenMonitorState, classify_reconfiguration, set_processing,
};

#[test]
fn app_monitor_test_not_initialized_by_default() {
    let state = AppMonitorState::new();
    assert!(!app_monitor::is_initialized(&state));
}

#[test]
fn test_initialized_flag() {
    let mut state = AppMonitorState::new();
    let flag = app_monitor::is_initialized(&state);
    assert!(!flag || flag);
    assert!(!state.mark_initialized());
    assert!(app_monitor::is_initialized(&state));
    assert!(state.mark_initialized());
    state.clear_initialized();
    assert!(!app_monitor::is_initialized(&state));
}

#[test]
fn screen_monitor_test_not_initialized_by_default() {
    let state = ScreenMonitorState::new();
    assert!(!screen_monitor::is_initialized(&state));
}

#[test]
fn test_cg_flags() {
    assert_eq!(cg_flags::kCGDisplayAddFlag, 0x10);
    assert_eq!(cg_flags::kCGDisplayRemoveFlag, 0x20);
    assert_eq!(cg_flags::kCGDisplayBeginConfigurationFlag, 0x01);
}

#[test]
fn reconfiguration_callbacks() {
    assert_eq!(classify_reconfiguration(0x10, false), Some(ScreenChange::Connected));
    assert_eq!(classify_reconfiguration(0x20, false), Some(ScreenChange::Disconnected));
    assert_eq!(classify_reconfiguration(0x30, false), Some(ScreenChange::Connected));
    assert_eq!(classify_reconfiguration(0x11, false), None);
    assert_eq!(classify_reconfiguration(0x04, false), None);
    assert_eq!(classify_reconfiguration(0x10, true), None);
}

#[test]
fn one_screen_change_at_a_time() {
    let mut state = ScreenMonitorState::new();
    assert!(!state.mark_initialized());
    assert!(screen_monitor::is_initialized(&state));
    assert_eq!(state.on_reconfiguration(0x20), Some(ScreenChange::Disconnected));
    assert_eq!(state.on_reconfiguration(0x10), None);
    set_processing(&mut state, false);
    assert_eq!(state.on_reconfiguration(0x10), Some(ScreenChange::Connected));
    state.clear_initialized();
    assert!(!screen_monitor::is_initialized(&state));
}
