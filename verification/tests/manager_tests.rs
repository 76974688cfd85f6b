use stache_tiling::borders::manager::BorderState;
use stache_tiling::manager::border_states::{
    border_states_for_layout, determine_border_state, focus_border_states, layout_border_state,
    set_workspace_layout,
};
use stache_tiling::config::{LayoutType, WorkspaceConfig};
use stache_tiling::manager::TilingManager;
use stache_tiling::manager::focus::FocusHistory;
use stache_tiling::manager::screens::{
    ensure_visible_workspaces, reassign_removed_screens, resolve_command_screen,
    restore_configured_screens, screen_changes, send_workspace_to_screen, window_ids_in_workspace,
};
use stache_tiling::manager::setup::{
    create_default_workspaces, create_workspaces_from_config, ensure_screen_workspaces,
    refresh_screens,
};
use stache_tiling::manager::windows::{
    add_window_to_state, focus_cycle_target, send_window_to_workspace, set_focused_index,
    set_focused_window, swap_window_id, swap_windows_by_id, untrack_window,
};
use stache_tiling::manager::workspaces::{
    complete_workspace_switch, plan_workspace_switch, set_initial_workspace_visibility,
};
use stache_tiling::state::{Screen, TilingState, TrackedWindow, Workspace};

fn window(id: u32, pid: i32, workspace: &str) -> TrackedWindow {
    TrackedWindow::new(
        id,
        pid,
        format!("app.{pid}"),
        format!("App{pid}"),
        format!("Window {id}"),
        workspace.to_string(),
        false,
    )
}

/// Two screens; "code" and "mail" on the main screen 1, "web" on screen 2.
fn two_screen_state() -> TilingState {
    let mut state = TilingState::new();
    state.screens.push(Screen::new(1, "Built-in Retina".to_string(), true, true));
    state.screens.push(Screen::new(2, "LG UltraFine".to_string(), false, false));
    state.add_workspace(Workspace::new_with_screen(
        "code".to_string(),
        1,
        "main".to_string(),
        LayoutType::Dwindle,
    ));
    state.add_workspace(Workspace::new_with_screen(
        "mail".to_string(),
        1,
        "main".to_string(),
        LayoutType::Monocle,
    ));
    state.add_workspace(Workspace::new_with_screen(
        "web".to_string(),
        2,
        "secondary".to_string(),
        LayoutType::Dwindle,
    ));
    for (id, pid, ws) in [(10, 100, "code"), (11, 101, "code"), (20, 200, "mail"), (30, 101, "web")]
    {
        add_window_to_state(&mut state, window(id, pid, ws));
    }
    state
}

fn visible(state: &TilingState) -> Vec<&str> {
    state.workspaces.iter().filter(|w| w.is_visible).map(|w| w.name.as_str()).collect()
}

fn focused(state: &TilingState) -> Vec<&str> {
    state.workspaces.iter().filter(|w| w.is_focused).map(|w| w.name.as_str()).collect()
}

#[test]
fn test_initial_visibility_follows_focused_window() {
    let mut state = two_screen_state();
    set_initial_workspace_visibility(&mut state, Some(20));
    assert_eq!(visible(&state), vec!["mail", "web"]);
    assert_eq!(focused(&state), vec!["mail"]);
    assert_eq!(state.focused_workspace.as_deref(), Some("mail"));
    assert_eq!(state.focused_screen_id, Some(1));
}

#[test]
fn test_initial_visibility_without_focused_window() {
    let mut state = two_screen_state();
    set_initial_workspace_visibility(&mut state, None);
    assert_eq!(visible(&state), vec!["code", "web"]);
    assert_eq!(focused(&state), vec!["code"]);
    assert_eq!(state.focused_workspace.as_deref(), Some("code"));
    assert_eq!(state.focused_screen_id, Some(1));

    // An untracked window counts as none.
    let mut other = two_screen_state();
    set_initial_workspace_visibility(&mut other, Some(999));
    assert_eq!(visible(&other), vec!["code", "web"]);
    assert_eq!(other.focused_workspace.as_deref(), Some("code"));
}

#[test]
fn test_plan_switch_hides_only_apps_absent_from_target() {
    let mut state = two_screen_state();
    set_initial_workspace_visibility(&mut state, Some(10));
    // "code" is shown on screen 1; switch to "mail".
    let plan = plan_workspace_switch(&state, "mail").unwrap();
    assert_eq!(plan.screen_id, 1);
    assert_eq!(plan.info.workspace, "mail");
    assert_eq!(plan.info.screen, "Built-in Retina");
    assert_eq!(plan.info.previous_workspace.as_deref(), Some("code"));
    assert!(!plan.already_active);
    assert!(plan.leaves_previous);
    assert_eq!(plan.windows_to_hide, vec![10, 11]);

    // Once app 100 also has a window in "mail", its window in "code" stays.
    state.windows.push(window(21, 100, "mail"));
    let plan = plan_workspace_switch(&state, "MAIL").unwrap();
    assert_eq!(plan.windows_to_hide, vec![11]);

    assert!(plan_workspace_switch(&state, "nope").is_none());
}

#[test]
fn test_plan_switch_to_active_workspace() {
    let mut state = two_screen_state();
    set_initial_workspace_visibility(&mut state, Some(10));
    let plan = plan_workspace_switch(&state, "code").unwrap();
    assert!(plan.already_active);
    assert!(!plan.leaves_previous);
    assert!(plan.windows_to_hide.is_empty());
    assert_eq!(plan.info.previous_workspace.as_deref(), Some("code"));
}

#[test]
fn test_plan_switch_names_unknown_screen() {
    let mut state = two_screen_state();
    state.add_workspace(Workspace::new("lost".to_string(), 42, LayoutType::Grid));
    let plan = plan_workspace_switch(&state, "lost").unwrap();
    assert_eq!(plan.info.screen, "screen-42");
    assert!(plan.info.previous_workspace.is_none());
}

#[test]
fn test_complete_switch_updates_visibility_and_focus() {
    let mut state = two_screen_state();
    set_initial_workspace_visibility(&mut state, Some(30));
    assert_eq!(focused(&state), vec!["web"]);
    complete_workspace_switch(&mut state, "Mail", 1);
    assert_eq!(visible(&state), vec!["mail", "web"]);
    assert_eq!(focused(&state), vec!["mail"]);
    assert_eq!(state.focused_workspace.as_deref(), Some("Mail"));
    assert_eq!(state.focused_screen_id, Some(1));
}

#[test]
fn test_focus_history_records_and_forgets() {
    let mut history = FocusHistory::new();
    assert_eq!(history.get("code"), None);
    history.record("code", 10);
    history.record("mail", 20);
    history.record("code", 11);
    assert_eq!(history.get("code"), Some(11));
    assert_eq!(history.get("mail"), Some(20));

    history.swap_window_id(20, 21);
    assert_eq!(history.get("mail"), Some(21));

    history.remove_window(11);
    assert_eq!(history.get("code"), None);
    assert_eq!(history.get("mail"), Some(21));
}

#[test]
fn test_add_window_to_state() {
    let mut state = two_screen_state();
    set_initial_workspace_visibility(&mut state, Some(10));
    assert!(add_window_to_state(&mut state, window(12, 102, "code")));
    assert!(!add_window_to_state(&mut state, window(22, 102, "mail")));
    assert!(!add_window_to_state(&mut state, window(99, 102, "nowhere")));
    // Already listed: nothing added to the workspace.
    assert!(!add_window_to_state(&mut state, window(12, 102, "code")));
    assert_eq!(state.workspace_by_name("code").unwrap().window_ids, vec![10, 11, 12]);
    assert_eq!(state.workspace_by_name("mail").unwrap().window_ids, vec![20, 22]);
    assert_eq!(state.windows.len(), 8);
}

#[test]
fn test_untrack_window_clamps_focus() {
    let mut state = two_screen_state();
    set_initial_workspace_visibility(&mut state, Some(10));
    state.workspace_by_name_mut("code").unwrap().focused_window_index = Some(1);
    let removed = untrack_window(&mut state, 11).unwrap();
    assert_eq!(removed.window.id, 11);
    assert!(removed.workspace_is_visible);
    let code = state.workspace_by_name("code").unwrap();
    assert_eq!(code.window_ids, vec![10]);
    assert_eq!(code.focused_window_index, Some(0));

    let removed = untrack_window(&mut state, 10).unwrap();
    assert!(removed.workspace_is_visible);
    assert_eq!(state.workspace_by_name("code").unwrap().focused_window_index, None);
    assert!(untrack_window(&mut state, 10).is_none());
    assert!(state.window_by_id(10).is_none());
}

#[test]
fn test_swap_window_id() {
    let mut state = two_screen_state();
    assert!(swap_window_id(&mut state, 11, 111));
    assert!(state.window_by_id(11).is_none());
    assert_eq!(state.window_by_id(111).unwrap().workspace_name, "code");
    assert_eq!(state.workspace_by_name("code").unwrap().window_ids, vec![10, 111]);
    assert!(!swap_window_id(&mut state, 11, 5));
}

#[test]
fn test_set_focused_window() {
    let mut state = two_screen_state();
    set_initial_workspace_visibility(&mut state, Some(10));
    state.workspace_by_name_mut("code").unwrap().focused_window_index = Some(0);
    let change = set_focused_window(&mut state, "code", 11).unwrap();
    assert_eq!(change.previous, Some(10));
    assert_eq!(state.workspace_by_name("code").unwrap().focused_window_id(), Some(11));

    let change = set_focused_window(&mut state, "web", 30).unwrap();
    assert_eq!(change.previous, None);
    assert_eq!(focused(&state), vec!["web"]);
    assert_eq!(state.focused_screen_id, Some(2));
    assert_eq!(state.focused_workspace.as_deref(), Some("web"));

    // A window the workspace does not list changes nothing.
    assert!(set_focused_window(&mut state, "web", 10).is_none());
    assert_eq!(state.focused_workspace.as_deref(), Some("web"));
}

#[test]
fn test_focus_cycle_wraps_around() {
    let mut state = two_screen_state();
    set_initial_workspace_visibility(&mut state, Some(10));
    let next = focus_cycle_target(&state, true).unwrap();
    assert_eq!((next.workspace.as_str(), next.index, next.window_id), ("code", 1, 11));
    set_focused_index(&mut state, &next.workspace, next.index);
    let next = focus_cycle_target(&state, true).unwrap();
    assert_eq!((next.index, next.window_id), (0, 10));

    set_focused_index(&mut state, "code", 0);
    let prev = focus_cycle_target(&state, false).unwrap();
    assert_eq!((prev.index, prev.window_id), (1, 11));

    state.focused_workspace = None;
    assert!(focus_cycle_target(&state, true).is_none());
}

#[test]
fn test_swap_windows_by_id_keeps_focus_on_window() {
    let mut state = two_screen_state();
    add_window_to_state(&mut state, window(12, 102, "code"));
    state.workspace_by_name_mut("code").unwrap().focused_window_index = Some(0);
    let swap = swap_windows_by_id(&mut state, 10, 12).unwrap();
    assert_eq!((swap.workspace.as_str(), swap.index_a, swap.index_b), ("code", 0, 2));
    let code = state.workspace_by_name("code").unwrap();
    assert_eq!(code.window_ids, vec![12, 11, 10]);
    assert_eq!(code.focused_window_index, Some(2));

    assert!(swap_windows_by_id(&mut state, 10, 10).is_none());
    assert!(swap_windows_by_id(&mut state, 10, 20).is_none());
    assert!(swap_windows_by_id(&mut state, 10, 77).is_none());
}

#[test]
fn test_send_window_to_workspace() {
    let mut state = two_screen_state();
    set_initial_workspace_visibility(&mut state, Some(11));
    state.workspace_by_name_mut("code").unwrap().focused_window_index = Some(1);
    let moved = send_window_to_workspace(&mut state, "mail").unwrap();
    assert_eq!(moved.window_id, 11);
    assert_eq!(moved.source_workspace, "code");
    let code = state.workspace_by_name("code").unwrap();
    assert_eq!(code.window_ids, vec![10]);
    assert_eq!(code.focused_window_index, Some(0));
    let mail = state.workspace_by_name("mail").unwrap();
    assert_eq!(mail.window_ids, vec![20, 11]);
    assert_eq!(mail.focused_window_index, Some(1));
    assert_eq!(state.window_by_id(11).unwrap().workspace_name, "mail");

    assert!(send_window_to_workspace(&mut state, "missing").is_none());
    let moved = send_window_to_workspace(&mut state, "web").unwrap();
    assert_eq!(moved.window_id, 10);
    assert!(state.workspace_by_name("code").unwrap().window_ids.is_empty());
    assert_eq!(state.workspace_by_name("code").unwrap().focused_window_index, None);
}

#[test]
fn test_send_window_to_same_workspace_is_refused() {
    let mut state = two_screen_state();
    set_initial_workspace_visibility(&mut state, Some(10));
    assert!(send_window_to_workspace(&mut state, "code").is_none());
    assert_eq!(state.workspace_by_name("code").unwrap().window_ids, vec![10, 11]);
}

#[test]
fn test_resolve_command_screen() {
    let state = two_screen_state();
    assert_eq!(resolve_command_screen(&state, "main").unwrap().id, 1);
    assert_eq!(resolve_command_screen(&state, "secondary").unwrap().id, 2);
    assert_eq!(resolve_command_screen(&state, "lg ultrafine").unwrap().id, 2);
    assert!(resolve_command_screen(&state, "tv").is_none());
}

#[test]
fn test_send_workspace_to_screen_and_back() {
    let mut state = two_screen_state();
    set_initial_workspace_visibility(&mut state, Some(10));
    let mv = send_workspace_to_screen(&mut state, "secondary").unwrap();
    assert_eq!(mv.workspace, "code");
    assert_eq!((mv.source_screen_id, mv.target_screen_id), (1, 2));
    assert_eq!(mv.windows_to_hide, vec![10, 11]);
    assert_eq!(mv.fallback_workspace.as_deref(), Some("mail"));
    assert!(!mv.returning_home);
    let code = state.workspace_by_name("code").unwrap();
    assert_eq!(code.screen_id, 2);
    assert_eq!(code.original_screen_id, Some(1));
    assert_eq!(visible(&state), vec!["code", "mail"]);
    assert_eq!(focused(&state), vec!["code"]);
    assert_eq!(state.focused_screen_id, Some(2));

    let back = send_workspace_to_screen(&mut state, "main").unwrap();
    assert!(back.returning_home);
    let code = state.workspace_by_name("code").unwrap();
    assert_eq!(code.screen_id, 1);
    assert_eq!(code.original_screen_id, None);
    assert_eq!(visible(&state), vec!["code", "web"]);

    assert!(send_workspace_to_screen(&mut state, "main").is_none());
    assert!(send_workspace_to_screen(&mut state, "projector").is_none());
}

#[test]
fn test_window_ids_in_workspace_is_exact() {
    let state = two_screen_state();
    assert_eq!(window_ids_in_workspace(&state, "code"), vec![10, 11]);
    assert!(window_ids_in_workspace(&state, "Code").is_empty());
}

#[test]
fn test_screen_changes() {
    let changes = screen_changes(&vec![1, 2, 3], &vec![3, 4, 4, 5]);
    assert_eq!(changes.added, vec![4, 5]);
    assert_eq!(changes.removed, vec![1, 2]);
    let none = screen_changes(&vec![1], &vec![1]);
    assert!(none.added.is_empty() && none.removed.is_empty());
}

#[test]
fn test_reassign_removed_screens() {
    let mut state = two_screen_state();
    set_initial_workspace_visibility(&mut state, Some(10));
    state.screens.pop();
    let removed = reassign_removed_screens(&mut state, &vec![2]).unwrap();
    assert_eq!(removed.main_screen_id, 1);
    assert_eq!(removed.windows_to_move, vec![30]);
    assert_eq!(removed.main_visible_workspace.as_deref(), Some("code"));
    let web = state.workspace_by_name("web").unwrap();
    assert_eq!(web.screen_id, 1);
    assert!(!web.is_visible);

    assert!(reassign_removed_screens(&mut state, &vec![2]).is_none());
}

#[test]
fn test_restore_configured_screens() {
    let mut state = two_screen_state();
    state.workspace_by_name_mut("web").unwrap().screen_id = 1;
    let restored = restore_configured_screens(&mut state);
    assert_eq!(restored.len(), 1);
    assert_eq!(restored[0].name, "web");
    assert_eq!(restored[0].screen_id, 2);
    assert_eq!(restored[0].window_ids, vec![30]);
    assert_eq!(state.workspace_by_name("web").unwrap().screen_id, 2);
    assert!(restore_configured_screens(&mut state).is_empty());
}

#[test]
fn test_ensure_visible_workspaces() {
    let mut state = two_screen_state();
    state.workspace_by_name_mut("mail").unwrap().is_visible = true;
    let shown = ensure_visible_workspaces(&mut state);
    assert_eq!(shown, vec!["web".to_string()]);
    assert_eq!(visible(&state), vec!["mail", "web"]);
    assert!(ensure_visible_workspaces(&mut state).is_empty());
}

#[test]
fn test_refresh_screens_sets_focused_screen() {
    let mut state = TilingState::new();
    refresh_screens(
        &mut state,
        vec![Screen::new(7, "Side".to_string(), false, false), Screen::new(3, "Main".to_string(), true, false)],
    );
    assert_eq!(state.focused_screen_id, Some(3));
    state.focused_screen_id = Some(7);
    refresh_screens(&mut state, vec![Screen::new(3, "Main".to_string(), true, false)]);
    assert_eq!(state.focused_screen_id, Some(7));
}

#[test]
fn test_create_default_and_screen_workspaces() {
    let mut state = TilingState::new();
    state.screens.push(Screen::new(5, "A".to_string(), true, false));
    state.screens.push(Screen::new(9, "B".to_string(), false, false));
    create_default_workspaces(&mut state, LayoutType::Grid);
    let names: Vec<&str> = state.workspaces.iter().map(|w| w.name.as_str()).collect();
    assert_eq!(names, vec!["workspace-1", "workspace-2"]);
    assert_eq!(state.workspace_by_name("workspace-2").unwrap().screen_id, 9);

    state.screens.push(Screen::new(12, "C".to_string(), false, false));
    state.screens.push(Screen::new(12, "C again".to_string(), false, false));
    ensure_screen_workspaces(&mut state, LayoutType::Master);
    let names: Vec<&str> = state.workspaces.iter().map(|w| w.name.as_str()).collect();
    assert_eq!(names, vec!["workspace-1", "workspace-2", "default-12"]);
    assert_eq!(state.workspace_by_name("default-12").unwrap().layout, LayoutType::Master);
}

#[test]
fn test_create_workspaces_from_config() {
    let mut state = TilingState::new();
    state.screens.push(Screen::new(1, "Built-in".to_string(), true, true));
    state.screens.push(Screen::new(2, "Dell".to_string(), false, false));
    state.screens.push(Screen::new(3, "TV".to_string(), false, false));
    let configs = vec![
        WorkspaceConfig { name: "code".to_string(), screen: "dell".to_string(), layout: LayoutType::Split },
        WorkspaceConfig { name: "chat".to_string(), screen: "gone".to_string(), layout: LayoutType::Floating },
    ];
    create_workspaces_from_config(&mut state, &configs, LayoutType::Dwindle);
    let summary: Vec<(&str, u32, &str)> = state
        .workspaces
        .iter()
        .map(|w| (w.name.as_str(), w.screen_id, w.configured_screen.as_str()))
        .collect();
    assert_eq!(summary, vec![("code", 2, "dell"), ("chat", 1, "gone"), ("default-3", 3, "")]);

    let mut plain = TilingState::new();
    plain.screens.push(Screen::new(4, "Only".to_string(), true, false));
    create_workspaces_from_config(&mut plain, &Vec::new(), LayoutType::Dwindle);
    assert_eq!(plain.workspaces.len(), 1);
    assert_eq!(plain.workspaces[0].name, "workspace-1");
}

#[test]
fn test_manager_new() {
    let manager = TilingManager::new();
    assert!(!manager.is_enabled());
    assert!(manager.state().screens.is_empty());
    assert!(manager.state().workspaces.is_empty());
}

#[test]
fn test_manager_state_access() {
    let mut manager = TilingManager::new();

    let _state = manager.state();

    let state_mut = manager.state_mut();
    state_mut.focused_workspace = Some("test".to_string());

    assert_eq!(manager.state().focused_workspace, Some("test".to_string()));
}

fn manager_with_two_screens() -> TilingManager {
    let mut manager = TilingManager::new();
    manager.set_enabled(true);
    *manager.state_mut() = two_screen_state();
    set_initial_workspace_visibility(manager.state_mut(), Some(11));
    manager
}

#[test]
fn test_manager_queries() {
    let mut manager = manager_with_two_screens();
    assert!(manager.is_enabled());
    assert!(!manager.is_initialized());
    manager.mark_initialized();
    assert!(manager.is_initialized());
    assert_eq!(manager.get_screens().len(), 2);
    assert_eq!(manager.get_screen(2).unwrap().name, "LG UltraFine");
    assert_eq!(manager.get_screen_by_name("primary").unwrap().id, 1);
    assert_eq!(manager.get_main_screen().unwrap().id, 1);
    assert_eq!(manager.get_focused_screen().unwrap().id, 1);
    assert_eq!(manager.get_workspaces().len(), 3);
    assert_eq!(manager.get_workspaces_for_screen(1).len(), 2);
    assert_eq!(manager.get_focused_workspace().unwrap().name, "code");
    assert_eq!(manager.get_workspace("WEB").unwrap().screen_id, 2);
    assert_eq!(manager.get_windows().len(), 4);
    assert_eq!(manager.get_windows_for_workspace("code").len(), 2);
    assert_eq!(manager.get_window(30).unwrap().pid, 101);
    manager.set_focused_workspace_name("mail");
    assert_eq!(manager.get_focused_workspace().unwrap().name, "mail");
}

#[test]
fn test_manager_debounces_focus_and_switches() {
    let mut manager = TilingManager::new();
    assert!(!manager.should_skip_focus_event(5, 1000));
    manager.record_programmatic_focus(5, 1000);
    assert!(!manager.should_skip_focus_event(5, 1001));
    assert!(manager.should_skip_focus_event(6, 1010));
    assert!(!manager.should_skip_focus_event(6, 1025));

    assert!(!manager.should_skip_workspace_switch("code", 2000));
    manager.record_workspace_switch(2000);
    assert!(manager.should_skip_workspace_switch("code", 2024));
    assert!(!manager.should_skip_workspace_switch("code", 2025));
}

#[test]
fn test_manager_switch_records_focus_history() {
    let mut manager = manager_with_two_screens();
    manager.state_mut().workspace_by_name_mut("code").unwrap().focused_window_index = Some(1);
    let plan = manager.begin_workspace_switch("mail").unwrap();
    assert!(plan.leaves_previous);
    assert_eq!(plan.windows_to_hide, vec![10, 11]);
    manager.finish_workspace_switch("mail", plan.screen_id, 500);
    assert_eq!(manager.get_focused_workspace().unwrap().name, "mail");
    assert_eq!(manager.switch_focus_target("mail"), Some(20));

    // Coming back focuses the window that was focused when "code" was left.
    let plan = manager.begin_workspace_switch("code").unwrap();
    manager.finish_workspace_switch("code", plan.screen_id, 900);
    assert_eq!(manager.switch_focus_target("code"), Some(11));
    assert!(manager.begin_workspace_switch("missing").is_none());
}

#[test]
fn test_manager_window_updates() {
    let mut manager = manager_with_two_screens();
    manager.state_mut().workspace_by_name_mut("code").unwrap().focused_window_index = Some(1);
    manager.begin_workspace_switch("mail").unwrap();
    assert_eq!(manager.switch_focus_target("code"), Some(11));

    manager.update_window_title(11, "Renamed".to_string());
    assert_eq!(manager.get_window(11).unwrap().title, "Renamed");

    assert!(manager.swap_window_id(11, 12));
    assert_eq!(manager.switch_focus_target("code"), Some(12));
    assert!(!manager.swap_window_id(11, 13));

    let removed = manager.untrack_window(12).unwrap();
    assert_eq!(removed.window.title, "Renamed");
    // The history forgot the window; the workspace's first window is next.
    assert_eq!(manager.switch_focus_target("code"), Some(10));
    assert!(manager.untrack_window(12).is_none());
}

#[test]
fn test_border_states_follow_layout_and_focus() {
    assert_eq!(layout_border_state(LayoutType::Monocle, false), BorderState::Monocle);
    assert_eq!(layout_border_state(LayoutType::Floating, true), BorderState::Floating);
    assert_eq!(layout_border_state(LayoutType::Grid, true), BorderState::Focused);
    assert_eq!(layout_border_state(LayoutType::Split, false), BorderState::Unfocused);

    let states = border_states_for_layout(&vec![7, 8, 9], Some(1), LayoutType::Dwindle);
    assert_eq!(
        states,
        vec![(7, BorderState::Unfocused), (8, BorderState::Focused), (9, BorderState::Unfocused)]
    );

    let mut state = two_screen_state();
    state.workspace_by_name_mut("code").unwrap().focused_window_index = Some(1);
    assert_eq!(determine_border_state(&state, 11, "code"), BorderState::Focused);
    assert_eq!(determine_border_state(&state, 10, "code"), BorderState::Unfocused);
    assert_eq!(determine_border_state(&state, 20, "mail"), BorderState::Monocle);
    assert_eq!(determine_border_state(&state, 20, "missing"), BorderState::Unfocused);

    let focus = focus_border_states(&state, "mail");
    assert!(focus.is_monocle && !focus.is_floating);
    assert_eq!((focus.focused, focus.unfocused), (BorderState::Monocle, BorderState::Monocle));
    let focus = focus_border_states(&state, "code");
    assert_eq!((focus.focused, focus.unfocused), (BorderState::Focused, BorderState::Unfocused));

    let change = set_workspace_layout(&mut state, "CODE", LayoutType::Floating).unwrap();
    assert_eq!(change.window_ids, vec![10, 11]);
    assert_eq!(change.focused_index, Some(1));
    assert_eq!(state.workspace_by_name("code").unwrap().layout, LayoutType::Floating);
    assert!(set_workspace_layout(&mut state, "missing", LayoutType::Grid).is_none());
}
