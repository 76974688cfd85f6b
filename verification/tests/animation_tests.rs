use stache_tiling::animation::{
    AnimationConfig, AnimationSystem, WaitingCommands, begin_animation, cancel_animation,
    should_cancel,
};
use stache_tiling::config::EasingType;

#[test]
fn test_animation_config_default() {
    let config = AnimationConfig::default();
    assert!(!config.enabled);
    assert_eq!(config.duration, 200);
    assert_eq!(config.easing, EasingType::EaseOut);
}

#[test]
fn test_animation_system_new() {
    let system = AnimationSystem::new();
    assert!(!system.is_enabled());
}

#[test]
fn test_animation_system_accessors() {
    let system = AnimationSystem::new();
    assert!(!system.is_enabled());
    assert_eq!(system.duration(), 200);
    assert_eq!(system.easing(), EasingType::EaseOut);
}

#[test]
fn test_cancel_increments_waiting_counter() {
    let mut waiting = WaitingCommands::new();
    let before = waiting.waiting_commands();
    cancel_animation(&mut waiting);
    let after = waiting.waiting_commands();
    assert_eq!(after, before + 1);
    begin_animation(&mut waiting);
}

#[test]
fn test_begin_animation_decrements_counter() {
    let mut waiting = WaitingCommands::new();
    cancel_animation(&mut waiting);
    let before = waiting.waiting_commands();
    assert!(before > 0);
    begin_animation(&mut waiting);
    let after = waiting.waiting_commands();
    assert!(after < before);
}

#[test]
fn test_should_cancel_when_commands_waiting() {
    let mut waiting = WaitingCommands::new();
    while waiting.waiting_commands() > 0 {
        begin_animation(&mut waiting);
    }
    assert!(!should_cancel(&waiting));
    cancel_animation(&mut waiting);
    assert!(should_cancel(&waiting));
    begin_animation(&mut waiting);
}

#[test]
fn begin_without_cancel_stays_at_zero() {
    let mut waiting = WaitingCommands::new();
    begin_animation(&mut waiting);
    assert_eq!(waiting.waiting_commands(), 0);
    assert!(!should_cancel(&waiting));
}

#[test]
fn two_waiting_commands_need_two_sign_offs() {
    let mut waiting = WaitingCommands::new();
    cancel_animation(&mut waiting);
    cancel_animation(&mut waiting);
    begin_animation(&mut waiting);
    assert!(should_cancel(&waiting));
    begin_animation(&mut waiting);
    assert!(!should_cancel(&waiting));
}

#[test]
fn configured_duration_is_clamped() {
    assert_eq!(AnimationConfig::from_config(true, 50, EasingType::Linear).duration, 100);
    assert_eq!(AnimationConfig::from_config(true, 5000, EasingType::Linear).duration, 1000);
    let config = AnimationConfig::from_config(true, 300, EasingType::Spring);
    assert!(config.enabled);
    assert_eq!(config.duration, 300);
    assert_eq!(config.easing, EasingType::Spring);
    let system = AnimationSystem::from_config(true, 1000, EasingType::EaseInOut);
    assert!(system.is_enabled());
    assert_eq!(system.duration(), 1000);
    assert_eq!(system.easing(), EasingType::EaseInOut);
    assert_eq!(AnimationSystem::default().duration(), 200);
}
