use stache_tiling::config::LayoutType;
use stache_tiling::manager::TilingManager;
use stache_tiling::manager::setup::{create_default_workspaces, refresh_screens};
use stache_tiling::screen::ScreenCache;
use stache_tiling::state::{Screen, TilingState, TrackedWindow, Workspace};

fn screen(id: u32, name: &str, is_main: bool, is_builtin: bool) -> Screen {
    Screen::new(id, name.to_string(), is_main, is_builtin)
}

fn window(id: u32, pid: i32, app: &str, workspace: &str) -> TrackedWindow {
    TrackedWindow::new(
        id,
        pid,
        app.to_lowercase(),
        app.to_string(),
        format!("Title{id}"),
        workspace.to_string(),
        false,
    )
}

#[test]
fn test_screen_new() {
    let screen = Screen::new(1, "Main Display".to_string(), true, false);
    assert_eq!(screen.id, 1);
    assert_eq!(screen.name, "Main Display");
    assert!(screen.is_main);
    assert!(!screen.is_builtin);
}

#[test]
fn test_workspace_new() {
    let ws = Workspace::new("coding".to_string(), 1, LayoutType::Dwindle);
    assert_eq!(ws.name, "coding");
    assert_eq!(ws.screen_id, 1);
    assert_eq!(ws.layout, LayoutType::Dwindle);
    assert!(!ws.is_visible);
    assert!(!ws.is_focused);
    assert!(ws.is_empty());
}

#[test]
fn test_workspace_window_count() {
    let mut ws = Workspace::new("test".to_string(), 1, LayoutType::Dwindle);
    assert_eq!(ws.window_count(), 0);
    ws.window_ids.push(1);
    ws.window_ids.push(2);
    assert_eq!(ws.window_count(), 2);
}

#[test]
fn test_workspace_focused_window_id() {
    let mut ws = Workspace::new("test".to_string(), 1, LayoutType::Dwindle);
    ws.window_ids = vec![10, 20, 30];
    assert!(ws.focused_window_id().is_none());

    ws.focused_window_index = Some(1);
    assert_eq!(ws.focused_window_id(), Some(20));

    ws.focused_window_index = Some(10);
    assert!(ws.focused_window_id().is_none());
}

#[test]
fn test_tracked_window_new() {
    let window = TrackedWindow::new(
        123,
        456,
        "com.apple.Safari".to_string(),
        "Safari".to_string(),
        "Apple".to_string(),
        "browser".to_string(),
        false,
    );
    assert_eq!(window.id, 123);
    assert_eq!(window.pid, 456);
    assert_eq!(window.app_id, "com.apple.Safari");
    assert!(!window.is_minimized);
    assert!(!window.is_hidden);
    assert!(!window.is_floating);
}

#[test]
fn test_tiling_state_screen_by_id() {
    let mut state = TilingState::new();
    state.screens.push(screen(1, "Main", true, false));
    state.screens.push(screen(2, "Secondary", false, false));

    assert!(state.screen_by_id(1).is_some());
    assert_eq!(state.screen_by_id(1).unwrap().name, "Main");
    assert!(state.screen_by_id(2).is_some());
    assert!(state.screen_by_id(99).is_none());
}

#[test]
fn test_tiling_state_screen_by_name() {
    let mut state = TilingState::new();
    state.screens.push(screen(1, "Main Display", true, false));
    state.screens.push(screen(2, "Built-in", false, true));

    assert!(state.screen_by_name("main").is_some());
    assert_eq!(state.screen_by_name("main").unwrap().id, 1);

    assert!(state.screen_by_name("builtin").is_some());
    assert_eq!(state.screen_by_name("builtin").unwrap().id, 2);

    assert!(state.screen_by_name("Main Display").is_some());
    assert!(state.screen_by_name("main display").is_some());
}

#[test]
fn test_screen_by_name_special_names() {
    let mut state = TilingState::new();
    state.screens.push(screen(1, "Studio Display", false, false));
    state.screens.push(screen(2, "Color LCD", true, true));

    assert_eq!(state.screen_by_name("PRIMARY").unwrap().id, 2);
    assert_eq!(state.screen_by_name("Secondary").unwrap().id, 1);
    assert_eq!(state.screen_by_name("color lcd").unwrap().id, 2);
    assert!(state.screen_by_name("Unknown").is_none());

    state.screens.push(screen(3, "Projector", false, false));
    assert!(state.screen_by_name("secondary").is_none());
    assert_eq!(state.main_screen().unwrap().id, 2);
}

#[test]
fn test_tiling_state_workspace_by_name() {
    let mut state = TilingState::new();
    state.add_workspace(Workspace::new("coding".to_string(), 1, LayoutType::Dwindle));
    state.add_workspace(Workspace::new("browser".to_string(), 1, LayoutType::Monocle));

    assert!(state.workspace_by_name("coding").is_some());
    assert!(state.workspace_by_name("Coding").is_some());
    assert!(state.workspace_by_name("unknown").is_none());
}

#[test]
fn test_tiling_state_workspace_index_o1_lookup() {
    let mut state = TilingState::new();
    for i in 0..100 {
        state.add_workspace(Workspace::new(format!("ws{i}"), 1, LayoutType::Dwindle));
    }

    assert!(state.workspace_by_name("ws0").is_some());
    assert!(state.workspace_by_name("ws50").is_some());
    assert!(state.workspace_by_name("ws99").is_some());
    assert!(state.workspace_by_name("WS50").is_some());
}

#[test]
fn test_tiling_state_workspace_index_rebuild() {
    let mut state = TilingState::new();
    state.workspaces.push(Workspace::new("test1".to_string(), 1, LayoutType::Dwindle));
    state.workspaces.push(Workspace::new("test2".to_string(), 1, LayoutType::Monocle));

    assert!(state.workspace_by_name("test1").is_some());

    state.rebuild_workspace_index();

    assert!(state.workspace_by_name("test1").is_some());
    assert!(state.workspace_by_name("test2").is_some());
}

#[test]
fn test_tiling_state_workspace_by_name_mut_with_index() {
    let mut state = TilingState::new();
    state.add_workspace(Workspace::new("coding".to_string(), 1, LayoutType::Dwindle));

    if let Some(ws) = state.workspace_by_name_mut("coding") {
        ws.is_focused = true;
    }

    assert!(state.workspace_by_name("coding").unwrap().is_focused);
}

#[test]
fn test_stale_index_falls_back_to_scan() {
    let mut state = TilingState::new();
    state.add_workspace(Workspace::new("first".to_string(), 1, LayoutType::Dwindle));
    state.add_workspace(Workspace::new("second".to_string(), 2, LayoutType::Grid));
    // The index still says "second" is at position 1.
    state.workspaces.swap(0, 1);

    assert_eq!(state.workspace_by_name("second").unwrap().screen_id, 2);
    assert_eq!(state.workspace_by_name("FIRST").unwrap().screen_id, 1);
}

#[test]
fn test_lookup_after_add_and_rebuild_with_duplicates() {
    let mut state = TilingState::new();
    state.add_workspace(Workspace::new("Dev".to_string(), 1, LayoutType::Dwindle));
    state.add_workspace(Workspace::new("dev".to_string(), 2, LayoutType::Dwindle));
    // The index points at the workspace added last.
    assert_eq!(state.workspace_by_name("DEV").unwrap().screen_id, 2);

    state.workspaces.push(Workspace::new("DEV".to_string(), 3, LayoutType::Dwindle));
    // Not indexed yet: the index still answers with the second one.
    assert_eq!(state.workspace_by_name("dev").unwrap().screen_id, 2);

    state.rebuild_workspace_index();
    // Rebuilding keeps the last workspace of each name.
    assert_eq!(state.workspace_by_name("dev").unwrap().screen_id, 3);
}

#[test]
fn test_tiling_state_focused_workspace() {
    let mut state = TilingState::new();
    state.add_workspace(Workspace::new("coding".to_string(), 1, LayoutType::Dwindle));

    assert!(state.focused_workspace().is_none());

    state.focused_workspace = Some("coding".to_string());
    assert!(state.focused_workspace().is_some());
    assert_eq!(state.focused_workspace().unwrap().name, "coding");
}

#[test]
fn test_tiling_state_workspaces_for_screen() {
    let mut state = TilingState::new();
    state.add_workspace(Workspace::new("ws1".to_string(), 1, LayoutType::Dwindle));
    state.add_workspace(Workspace::new("ws2".to_string(), 1, LayoutType::Dwindle));
    state.add_workspace(Workspace::new("ws3".to_string(), 2, LayoutType::Dwindle));

    let screen1_ws = state.workspaces_for_screen(1);
    assert_eq!(screen1_ws.len(), 2);

    let screen2_ws = state.workspaces_for_screen(2);
    assert_eq!(screen2_ws.len(), 1);
}

#[test]
fn test_tiling_state_windows_for_workspace() {
    let mut state = TilingState::new();
    state.windows.push(window(1, 100, "App1", "coding"));
    state.windows.push(window(2, 100, "App2", "coding"));
    state.windows.push(window(3, 100, "App3", "browser"));

    let coding_windows = state.windows_for_workspace("coding");
    assert_eq!(coding_windows.len(), 2);

    let browser_windows = state.windows_for_workspace("browser");
    assert_eq!(browser_windows.len(), 1);
    assert_eq!(browser_windows[0].id, 3);
    assert_eq!(state.windows_for_workspace("CODING").len(), 2);
}

#[test]
fn test_window_by_id_mut_updates_in_place() {
    let mut state = TilingState::new();
    state.windows.push(window(1, 100, "App1", "coding"));
    state.windows.push(window(2, 100, "App2", "coding"));

    if let Some(w) = state.window_by_id_mut(2) {
        w.title = "Renamed".to_string();
    }
    assert_eq!(state.window_by_id(2).unwrap().title, "Renamed");
    assert_eq!(state.window_by_id(1).unwrap().title, "Title1");
    assert!(state.window_by_id_mut(9).is_none());
}

#[test]
fn test_workspace_original_screen_id_none_by_default() {
    let ws = Workspace::new("test".to_string(), 1, LayoutType::Dwindle);
    assert!(ws.original_screen_id.is_none());
}

#[test]
fn test_workspace_original_screen_id_can_be_set() {
    let mut ws = Workspace::new("test".to_string(), 1, LayoutType::Dwindle);
    ws.original_screen_id = Some(2);
    assert_eq!(ws.original_screen_id, Some(2));
}

#[test]
fn test_workspace_original_screen_id_cleared_when_returning_home() {
    let mut ws = Workspace::new("test".to_string(), 1, LayoutType::Dwindle);
    ws.original_screen_id = Some(1);
    ws.screen_id = 2;

    ws.screen_id = 1;
    ws.original_screen_id = None;

    assert!(ws.original_screen_id.is_none());
    assert_eq!(ws.screen_id, 1);
}

#[test]
fn test_workspace_with_screen_has_no_original_screen() {
    let ws = Workspace::new_with_screen(
        "test".to_string(),
        1,
        "main".to_string(),
        LayoutType::Dwindle,
    );
    assert!(ws.original_screen_id.is_none());
    assert_eq!(ws.configured_screen, "main");
}

fn test_screens() -> Vec<Screen> {
    vec![Screen::new(1, "Test Screen".to_string(), true, false)]
}

#[test]
fn test_screen_cache_new() {
    let cache: ScreenCache<Screen> = ScreenCache::new(1000);
    assert!(!cache.is_valid(0), "New cache should be invalid");
    assert!(cache.get(0).is_none(), "New cache should return None");
}

#[test]
fn test_screen_cache_update_and_get() {
    let mut cache = ScreenCache::new(1000);
    cache.update(test_screens(), 5);

    assert!(cache.is_valid(5), "Cache should be valid after update");
    let cached = cache.get(5);
    assert!(cached.is_some(), "Cache should return data");
    assert_eq!(cached.unwrap().len(), 1);
}

#[test]
fn test_screen_cache_invalidate() {
    let mut cache = ScreenCache::new(1000);
    cache.update(test_screens(), 5);
    assert!(cache.is_valid(5));

    cache.invalidate();
    assert!(!cache.is_valid(5), "Cache should be invalid after invalidate");
    assert!(cache.get(5).is_none(), "Invalidated cache should return None");
}

#[test]
fn test_screen_cache_ttl_expiration() {
    let mut cache = ScreenCache::new(0);
    cache.update(test_screens(), 5);

    assert!(!cache.is_valid(5), "Cache with 0 TTL should be invalid");
    assert!(cache.get(5).is_none(), "Expired cache should return None");
}

#[test]
fn test_screen_cache_empty_screens_invalid() {
    let mut cache: ScreenCache<Screen> = ScreenCache::new(1000);
    cache.update(Vec::new(), 5);

    assert!(!cache.is_valid(5), "Cache with empty screens should be invalid");
    assert!(cache.get(5).is_none(), "Empty cache should return None");
}

/// The screens that detection reports on a desk with a laptop and a monitor.
fn detected_screens() -> Vec<Screen> {
    vec![
        Screen::new(1, "Built-in Retina Display".to_string(), true, true),
        Screen::new(2, "DELL U2720Q".to_string(), false, false),
    ]
}

fn detected_state() -> TilingState {
    let mut state = TilingState::new();
    refresh_screens(&mut state, detected_screens());
    state
}

#[test]
fn test_manager_refresh_screens() {
    let mut manager = TilingManager::new();
    refresh_screens(manager.state_mut(), detected_screens());
    assert!(!manager.state().screens.is_empty());
    let main_count = manager.state().screens.iter().filter(|s| s.is_main).count();
    assert_eq!(main_count, 1);
}

#[test]
fn test_manager_get_screens() {
    let mut manager = TilingManager::new();
    refresh_screens(manager.state_mut(), detected_screens());
    let screens = manager.get_screens();
    assert!(!screens.is_empty());
}

#[test]
fn test_manager_get_main_screen() {
    let mut manager = TilingManager::new();
    refresh_screens(manager.state_mut(), detected_screens());
    let main = manager.get_main_screen();
    assert!(main.is_some());
    assert!(main.unwrap().is_main);
}

#[test]
fn test_manager_create_default_workspaces() {
    let mut manager = TilingManager::new();
    refresh_screens(manager.state_mut(), detected_screens());
    create_default_workspaces(manager.state_mut(), LayoutType::Dwindle);
    assert_eq!(manager.state().workspaces.len(), manager.state().screens.len());
}

#[test]
fn test_screen_by_name_main() {
    let state = detected_state();
    let main = state.screen_by_name("main");
    assert!(main.is_some(), "Should find main screen by name 'main'");
    assert!(main.unwrap().is_main);
}

#[test]
fn test_screen_by_name_primary() {
    let state = detected_state();
    let primary = state.screen_by_name("primary");
    assert!(primary.is_some(), "Should find main screen by name 'primary'");
    assert!(primary.unwrap().is_main);
    let main = state.screen_by_name("main").unwrap();
    let primary = state.screen_by_name("primary").unwrap();
    assert_eq!(main.id, primary.id, "'main' and 'primary' should return the same screen");
}

#[test]
fn test_screen_by_name_case_insensitive() {
    let state = detected_state();
    assert!(state.screen_by_name("MAIN").is_some());
    assert!(state.screen_by_name("Main").is_some());
    assert!(state.screen_by_name("main").is_some());
}

#[test]
fn test_screen_by_name_secondary() {
    let state = detected_state();
    let secondary = state.screen_by_name("secondary");
    assert!(secondary.is_some(), "Should find secondary screen with 2 screens");
    assert!(!secondary.unwrap().is_main, "Secondary should not be main screen");
    let mut three = detected_state();
    three.screens.push(Screen::new(3, "Projector".to_string(), false, false));
    assert!(three.screen_by_name("secondary").is_none(), "Should not find 'secondary' with 3 screens");
}

#[test]
fn created_default_workspaces_are_found_by_name() {
    let mut state = detected_state();
    state.add_workspace(Workspace::new("Workspace-2".to_string(), 7, LayoutType::Grid));
    create_default_workspaces(&mut state, LayoutType::Dwindle);
    assert_eq!(state.workspaces.len(), 3);
    let found = state.workspace_by_name("WORKSPACE-2").unwrap();
    assert_eq!((found.name.as_str(), found.screen_id), ("workspace-2", 2));
    assert_eq!(state.workspace_by_name("workspace-1").unwrap().screen_id, 1);
}
