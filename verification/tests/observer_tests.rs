use stache_tiling::observer::notifications;
use stache_tiling::observer::{
    ObserverRegistry, WindowEvent, WindowEventType, is_initialized, observer_count,
    remove_observer, shutdown,
};

#[test]
fn test_window_event_type_notification_names() {
    assert_eq!(WindowEventType::Created.notification_name(), "AXWindowCreated");
    assert_eq!(WindowEventType::Destroyed.notification_name(), "AXUIElementDestroyed");
    assert_eq!(WindowEventType::Focused.notification_name(), "AXFocusedWindowChanged");
    assert_eq!(WindowEventType::Moved.notification_name(), "AXWindowMoved");
    assert_eq!(WindowEventType::Resized.notification_name(), "AXWindowResized");
    assert_eq!(WindowEventType::Minimized.notification_name(), "AXWindowMiniaturized");
    assert_eq!(WindowEventType::Unminimized.notification_name(), "AXWindowDeminiaturized");
    assert_eq!(WindowEventType::TitleChanged.notification_name(), "AXTitleChanged");
    assert_eq!(WindowEventType::AppActivated.notification_name(), "AXApplicationActivated");
    assert_eq!(WindowEventType::AppDeactivated.notification_name(), "AXApplicationDeactivated");
    assert_eq!(WindowEventType::AppHidden.notification_name(), "AXApplicationHidden");
    assert_eq!(WindowEventType::AppShown.notification_name(), "AXApplicationShown");
}

#[test]
fn test_window_event_type_from_notification() {
    assert_eq!(WindowEventType::from_notification("AXWindowCreated"), Some(WindowEventType::Created));
    assert_eq!(WindowEventType::from_notification("AXUIElementDestroyed"), Some(WindowEventType::Destroyed));
    assert_eq!(WindowEventType::from_notification("AXFocusedWindowChanged"), Some(WindowEventType::Focused));
    assert_eq!(WindowEventType::from_notification("AXWindowMoved"), Some(WindowEventType::Moved));
    assert_eq!(WindowEventType::from_notification("AXWindowResized"), Some(WindowEventType::Resized));
    assert_eq!(WindowEventType::from_notification("AXWindowMiniaturized"), Some(WindowEventType::Minimized));
    assert_eq!(WindowEventType::from_notification("AXWindowDeminiaturized"), Some(WindowEventType::Unminimized));
    assert_eq!(WindowEventType::from_notification("AXTitleChanged"), Some(WindowEventType::TitleChanged));
    assert_eq!(WindowEventType::from_notification("Unknown"), None);
}

#[test]
fn test_window_event_type_all() {
    let all = WindowEventType::all();
    assert!(all.len() >= 10);
    assert!(all.contains(&WindowEventType::Created));
    assert!(all.contains(&WindowEventType::Destroyed));
    assert!(all.contains(&WindowEventType::Focused));
    assert!(all.contains(&WindowEventType::Moved));
    assert!(all.contains(&WindowEventType::Resized));
}

#[test]
fn test_window_event_new() {
    let event = WindowEvent::new(WindowEventType::Created, 1234, 0x1234_5678);
    assert_eq!(event.event_type, WindowEventType::Created);
    assert_eq!(event.pid, 1234);
    assert_eq!(event.element, 0x1234_5678);
}

#[test]
fn notification_names_round_trip() {
    let every = [
        WindowEventType::Created,
        WindowEventType::Destroyed,
        WindowEventType::Focused,
        WindowEventType::Unfocused,
        WindowEventType::Moved,
        WindowEventType::Resized,
        WindowEventType::Minimized,
        WindowEventType::Unminimized,
        WindowEventType::TitleChanged,
        WindowEventType::AppActivated,
        WindowEventType::AppDeactivated,
        WindowEventType::AppHidden,
        WindowEventType::AppShown,
    ];
    for e in every {
        assert_eq!(WindowEventType::from_notification(e.notification_name()), Some(e));
    }
    assert_eq!(WindowEventType::Unfocused.notification_name(), notifications::FOCUSED_UI_ELEMENT_CHANGED);
    assert!(!WindowEventType::all().contains(&WindowEventType::Unfocused));
    assert_eq!(WindowEventType::all().len(), 12);
    assert_eq!(WindowEventType::from_notification("axwindowcreated"), None);
}

#[test]
fn observer_registry_lifecycle() {
    let mut registry: ObserverRegistry<&str> = ObserverRegistry::new();
    assert!(!is_initialized(&registry));
    assert_eq!(registry.insert(1, "early"), Err("early"));
    assert_eq!(observer_count(&registry), 0);
    assert!(registry.start());
    assert!(!registry.start());
    assert!(is_initialized(&registry));
    assert_eq!(registry.insert(10, "ten"), Ok(()));
    assert_eq!(registry.insert(20, "twenty"), Ok(()));
    assert_eq!(registry.insert(10, "again"), Err("again"));
    assert!(registry.is_observing(10));
    assert_eq!(observer_count(&registry), 2);
    assert_eq!(remove_observer(&mut registry, 10), Some("ten"));
    assert_eq!(remove_observer(&mut registry, 10), None);
    assert_eq!(observer_count(&registry), 1);
    assert_eq!(shutdown(&mut registry), vec![(20, "twenty")]);
    assert!(!is_initialized(&registry));
    assert_eq!(observer_count(&registry), 0);
    assert!(shutdown(&mut registry).is_empty());
    assert_eq!(remove_observer(&mut registry, 20), None);
}
