use stache_tiling::config::LayoutType;
use stache_tiling::error::TilingError;
use stache_tiling::manager::commands::{
    parse_direction, parse_dimension, parse_focus_request, parse_window_id, preset_target,
    resize_target, send_window_to_screen, swap_focused_window, Dimension, Direction, FocusRequest,
};
use stache_tiling::borders::manager::BorderState;
use stache_tiling::manager::resize::{
    adjacent_index, layout_target, plan_ratio_update, split_is_vertical, RatioUpdate,
};
use stache_tiling::manager::windows::{
    add_window_to_state, fallback_workspace, set_focused_window, swap_window_id, swap_windows_by_id,
    track_new_window, untrack_window,
};
use stache_tiling::manager::windows::send_window_to_workspace;
use stache_tiling::manager::workspaces::complete_workspace_switch;
use stache_tiling::manager::TilingManager;
use stache_tiling::query::{
    layout_name_of, query_screen_filter, query_windows, query_workspaces, windows_to_move,
};
use stache_tiling::state::{Screen, TilingState, TrackedWindow, Workspace};

fn make_window(id: u32, pid: i32, workspace: &str) -> TrackedWindow {
    TrackedWindow::new(
        id,
        pid,
        format!("app.{pid}"),
        format!("App{pid}"),
        format!("Window {id}"),
        workspace.to_string(),
        false,
    )
}

/// Screens 1 (main) and 2; "code" and "mail" on screen 1, "web" on screen 2.
/// "code" is focused and visible, as is "web".
fn desk() -> TilingState {
    let mut state = TilingState::new();
    state.screens.push(Screen::new(1, "Built-in Retina".to_string(), true, true));
    state.screens.push(Screen::new(2, "LG UltraFine".to_string(), false, false));
    let mut code = Workspace::new_with_screen("code".to_string(), 1, "main".to_string(), LayoutType::Dwindle);
    code.is_visible = true;
    code.is_focused = true;
    state.add_workspace(code);
    state.add_workspace(Workspace::new_with_screen(
        "mail".to_string(),
        1,
        "main".to_string(),
        LayoutType::Floating,
    ));
    let mut web = Workspace::new_with_screen("web".to_string(), 2, "secondary".to_string(), LayoutType::Grid);
    web.is_visible = true;
    state.add_workspace(web);
    for (id, pid, ws) in [(10, 100, "code"), (11, 101, "code"), (12, 102, "code"), (20, 200, "mail"), (30, 101, "web")] {
        add_window_to_state(&mut state, make_window(id, pid, ws));
    }
    state.focused_workspace = Some("code".to_string());
    state.focused_screen_id = Some(1);
    state
}

fn ids(state: &TilingState, name: &str) -> Vec<u32> {
    state.workspace_by_name(name).unwrap().window_ids.clone()
}

#[test]
fn directions_are_read_without_regard_to_case() {
    assert_eq!(parse_direction("next"), Some(Direction::Next));
    assert_eq!(parse_direction("PREV"), Some(Direction::Previous));
    assert_eq!(parse_direction("Previous"), Some(Direction::Previous));
    assert_eq!(parse_direction("uP"), Some(Direction::Up));
    assert_eq!(parse_direction("down"), Some(Direction::Down));
    assert_eq!(parse_direction("LEFT"), Some(Direction::Left));
    assert_eq!(parse_direction("right"), Some(Direction::Right));
    assert_eq!(parse_direction("forward"), None);
    assert_eq!(parse_direction(""), None);
}

#[test]
fn window_ids_parse_as_unsigned_decimal() {
    assert_eq!(parse_window_id("42"), Some(42));
    assert_eq!(parse_window_id("+7"), Some(7));
    assert_eq!(parse_window_id("007"), Some(7));
    assert_eq!(parse_window_id("4294967295"), Some(u32::MAX));
    assert_eq!(parse_window_id("4294967296"), None);
    assert_eq!(parse_window_id("99999999999999999999x"), None);
    assert_eq!(parse_window_id("-1"), None);
    assert_eq!(parse_window_id("+"), None);
    assert_eq!(parse_window_id(""), None);
    assert_eq!(parse_window_id("12a"), None);
    assert_eq!(parse_window_id(" 1"), None);
    for id in [0u32, 9, 10, 12345, u32::MAX] {
        assert_eq!(parse_window_id(&id.to_string()), Some(id));
        assert_eq!(parse_window_id(&id.to_string()), id.to_string().parse::<u32>().ok());
    }
}

#[test]
fn focus_requests_name_a_direction_or_a_window() {
    assert_eq!(parse_focus_request("Next"), Some(FocusRequest::Toward(Direction::Next)));
    assert_eq!(parse_focus_request("right"), Some(FocusRequest::Toward(Direction::Right)));
    assert_eq!(parse_focus_request("1234"), Some(FocusRequest::Window(1234)));
    assert_eq!(parse_focus_request("sideways"), None);
}

#[test]
fn dimensions_are_width_or_height() {
    assert_eq!(parse_dimension("Width"), Some(Dimension::Width));
    assert_eq!(parse_dimension("HEIGHT"), Some(Dimension::Height));
    assert_eq!(parse_dimension("depth"), None);
}

#[test]
fn swapping_with_next_and_previous_cycles() {
    let mut state = desk();
    // Focus on the last window of "code": next wraps to the first.
    state.workspace_by_name_mut("code").unwrap().focused_window_index = Some(2);
    let sw = swap_focused_window(&mut state, Direction::Next, None).unwrap();
    assert_eq!((sw.workspace.as_str(), sw.index_a, sw.index_b), ("code", 2, 0));
    assert_eq!(ids(&state, "code"), vec![12, 11, 10]);
    assert_eq!(state.workspace_by_name("code").unwrap().focused_window_index, Some(0));
    // Previous from the first wraps back to the last and restores the order.
    let sw = swap_focused_window(&mut state, Direction::Previous, None).unwrap();
    assert_eq!((sw.index_a, sw.index_b), (0, 2));
    assert_eq!(ids(&state, "code"), vec![10, 11, 12]);
    assert_eq!(state.workspace_by_name("code").unwrap().focused_window_index, Some(2));
}

#[test]
fn swapping_spatially_uses_the_given_position() {
    let mut state = desk();
    // No focused position: the first window is the one that moves.
    assert!(swap_focused_window(&mut state, Direction::Left, None).is_none());
    assert!(swap_focused_window(&mut state, Direction::Right, Some(3)).is_none());
    assert_eq!(ids(&state, "code"), vec![10, 11, 12]);
    let sw = swap_focused_window(&mut state, Direction::Right, Some(1)).unwrap();
    assert_eq!((sw.index_a, sw.index_b), (0, 1));
    assert_eq!(ids(&state, "code"), vec![11, 10, 12]);
    assert_eq!(state.workspace_by_name("code").unwrap().focused_window_index, Some(1));
}

#[test]
fn swapping_needs_two_windows_and_a_focused_workspace() {
    let mut state = desk();
    state.focused_workspace = Some("mail".to_string());
    assert!(swap_focused_window(&mut state, Direction::Next, None).is_none());
    state.focused_workspace = None;
    assert!(swap_focused_window(&mut state, Direction::Next, None).is_none());
    let mut state = desk();
    state.workspace_by_name_mut("code").unwrap().focused_window_index = Some(5);
    assert!(swap_focused_window(&mut state, Direction::Next, None).is_none());
}

#[test]
fn sending_a_window_to_a_screen_targets_its_visible_workspace() {
    let mut state = desk();
    let mv = send_window_to_screen(&mut state, "secondary").unwrap();
    assert_eq!(mv.window_id, 10);
    assert_eq!(mv.source_workspace, "code");
    assert_eq!(ids(&state, "web"), vec![30, 10]);
    assert_eq!(ids(&state, "code"), vec![11, 12]);
    assert_eq!(state.window_by_id(10).unwrap().workspace_name, "web");
    // The main screen's visible workspace is the source itself: nothing moves.
    assert!(send_window_to_screen(&mut state, "main").is_none());
    assert!(send_window_to_screen(&mut state, "Projector").is_none());
    assert_eq!(ids(&state, "code"), vec![11, 12]);
}

#[test]
fn resizing_needs_two_windows_and_a_dimension() {
    let state = desk();
    let t = resize_target(&state, "width").unwrap();
    assert_eq!((t.workspace.as_str(), t.window_id, t.dimension), ("code", 10, Dimension::Width));
    assert!(resize_target(&state, "diagonal").is_none());
    let mut state = desk();
    state.focused_workspace = Some("mail".to_string());
    assert!(resize_target(&state, "height").is_none());
}

#[test]
fn presets_apply_only_to_floating_workspaces() {
    let mut state = desk();
    assert!(preset_target(&state).is_none());
    state.focused_workspace = Some("mail".to_string());
    let t = preset_target(&state).unwrap();
    assert_eq!((t.window_id, t.screen_id), (20, 1));
    state.screens.clear();
    assert!(preset_target(&state).is_none());
}

#[test]
fn workspace_queries_filter_by_screen() {
    let state = desk();
    let all = query_workspaces(&state, None, false).unwrap();
    let names: Vec<&str> = all.iter().map(|e| e.workspace.name.as_str()).collect();
    assert_eq!(names, vec!["code", "mail", "web"]);
    assert_eq!(all[2].screen_name, "LG UltraFine");
    assert_eq!(all[1].layout, "floating");
    let focused = query_workspaces(&state, None, true).unwrap();
    assert_eq!(focused.len(), 2);
    let web = query_workspaces(&state, Some("lg ultrafine"), false).unwrap();
    assert_eq!(web.len(), 1);
    assert_eq!(web[0].workspace.name, "web");
    match query_workspaces(&state, Some("Projector"), false) {
        Err(TilingError::ScreenNotFound(name)) => assert_eq!(name, "Projector"),
        _ => panic!("expected a missing screen"),
    }
    let mut orphan = desk();
    orphan.workspaces[1].screen_id = 9;
    let all = query_workspaces(&orphan, None, false).unwrap();
    assert_eq!(all[1].screen_name, "unknown");
}

#[test]
fn window_queries_filter_by_screen_and_workspace() {
    let state = desk();
    let all = query_windows(&state, None, None, false, false, Some(11)).unwrap();
    let listed: Vec<(u32, bool)> = all.iter().map(|e| (e.window.id, e.is_focused)).collect();
    assert_eq!(listed, vec![(10, false), (11, true), (12, false), (20, false), (30, false)]);
    let secondary = query_windows(&state, Some("secondary"), None, false, false, None).unwrap();
    assert_eq!(secondary.iter().map(|e| e.window.id).collect::<Vec<_>>(), vec![30]);
    let code = query_windows(&state, None, Some("CODE"), false, false, None).unwrap();
    assert_eq!(code.iter().map(|e| e.window.id).collect::<Vec<_>>(), vec![10, 11, 12]);
    let focused = query_windows(&state, None, Some("web"), true, true, None).unwrap();
    assert_eq!(focused.iter().map(|e| e.window.id).collect::<Vec<_>>(), vec![10, 11, 12]);
    let none = query_windows(&state, Some("main"), Some("web"), false, false, None).unwrap();
    assert!(none.is_empty());
    match query_windows(&state, None, Some("games"), false, false, None) {
        Err(TilingError::WorkspaceNotFound(name)) => assert_eq!(name, "games"),
        _ => panic!("expected a missing workspace"),
    }
    match query_windows(&state, Some("nowhere"), Some("games"), false, false, None) {
        Err(TilingError::ScreenNotFound(name)) => assert_eq!(name, "nowhere"),
        _ => panic!("expected a missing screen"),
    }
}

#[test]
fn screen_filters_follow_the_focused_screen() {
    let mut state = desk();
    assert!(matches!(query_screen_filter(&state, None, true), Ok(Some(1))));
    assert!(matches!(query_screen_filter(&state, Some("Projector"), true), Ok(Some(1))));
    state.focused_screen_id = Some(7);
    assert!(matches!(query_screen_filter(&state, None, true), Ok(None)));
    assert!(matches!(query_screen_filter(&state, None, false), Ok(None)));
    assert!(matches!(query_screen_filter(&state, Some("builtin"), false), Ok(Some(1))));
}

#[test]
fn misplaced_windows_are_listed_with_their_screens() {
    let state = desk();
    // Window 11 is on screen 2 and window 30 on no known screen; window 20's
    // workspace is on screen 1 where it already is.
    let current = vec![Some(1), Some(2), Some(1), Some(1), None];
    assert_eq!(windows_to_move(&state, &current), vec![(11, 1, Some(2)), (30, 2, None)]);
    let settled = vec![Some(1), Some(1), Some(1), Some(1), Some(2)];
    assert!(windows_to_move(&state, &settled).is_empty());
}

#[test]
fn layouts_are_reported_in_lower_case() {
    assert_eq!(layout_name_of(LayoutType::SplitVertical), "splitvertical");
    assert_eq!(layout_name_of(LayoutType::Dwindle), "dwindle");
    assert_eq!(layout_name_of(LayoutType::Master), "master");
}

#[test]
fn ratio_updates_follow_the_layout() {
    let mut state = desk();
    // "code" tiles with Dwindle: no ratios, the layout is applied again.
    assert_eq!(plan_ratio_update(&state, "code", 10), RatioUpdate::Reapply);
    assert_eq!(plan_ratio_update(&state, "missing", 10), RatioUpdate::Keep);
    state.workspace_by_name_mut("code").unwrap().layout = LayoutType::SplitVertical;
    assert_eq!(
        plan_ratio_update(&state, "CODE", 11),
        RatioUpdate::Adjust { resized: 1, count: 3, screen_id: 1 }
    );
    assert_eq!(plan_ratio_update(&state, "code", 99), RatioUpdate::Reapply);
    state.workspace_by_name_mut("mail").unwrap().layout = LayoutType::Split;
    assert_eq!(plan_ratio_update(&state, "mail", 20), RatioUpdate::Keep);
    state.screens.clear();
    assert_eq!(plan_ratio_update(&state, "code", 11), RatioUpdate::Keep);
}

#[test]
fn split_direction_and_neighbours() {
    assert_eq!(split_is_vertical(LayoutType::SplitVertical, false), Some(true));
    assert_eq!(split_is_vertical(LayoutType::SplitHorizontal, true), Some(false));
    assert_eq!(split_is_vertical(LayoutType::Split, true), Some(true));
    assert_eq!(split_is_vertical(LayoutType::Split, false), Some(false));
    assert_eq!(split_is_vertical(LayoutType::Grid, true), None);
    assert_eq!(adjacent_index(1, 3, true, false), 0);
    assert_eq!(adjacent_index(1, 3, false, true), 2);
    assert_eq!(adjacent_index(0, 3, true, false), 1);
    assert_eq!(adjacent_index(2, 3, false, true), 1);
    assert_eq!(adjacent_index(2, 3, false, false), 1);
    assert_eq!(adjacent_index(0, 2, false, false), 1);
}

#[test]
fn layout_passes_need_a_tiled_workspace_with_windows() {
    let mut state = desk();
    let t = layout_target(&state, "code").unwrap();
    assert_eq!((t.window_ids, t.screen_id, t.layout), (vec![10, 11, 12], 1, LayoutType::Dwindle));
    assert!(layout_target(&state, "mail").is_none());
    assert!(layout_target(&state, "missing").is_none());
    state.add_workspace(Workspace::new("empty".to_string(), 2, LayoutType::Grid));
    assert!(layout_target(&state, "empty").is_none());
    state.screens.truncate(1);
    assert!(layout_target(&state, "web").is_none());
}

#[test]
fn new_windows_are_tracked_once_with_their_border() {
    let mut state = desk();
    assert_eq!(fallback_workspace(&state), "code");
    let added = track_new_window(&mut state, make_window(13, 103, "code")).unwrap();
    assert!(added.workspace_is_visible);
    assert_eq!(added.border, BorderState::Unfocused);
    assert_eq!(ids(&state, "code"), vec![10, 11, 12, 13]);
    assert!(track_new_window(&mut state, make_window(13, 103, "web")).is_none());
    assert_eq!(state.windows.len(), 6);
    let floating = track_new_window(&mut state, make_window(21, 201, "mail")).unwrap();
    assert!(!floating.workspace_is_visible);
    assert_eq!(floating.border, BorderState::Floating);
    state.focused_workspace = None;
    assert_eq!(fallback_workspace(&state), "workspace-1");
}

#[test]
fn a_command_focus_is_recorded_and_debounced() {
    let mut manager = TilingManager::new();
    *manager.state_mut() = desk();
    assert!(manager.focus_window_by_id(99, 1_000).is_none());
    let change = manager.focus_window_by_id(30, 1_000).unwrap();
    assert_eq!(change.previous, None);
    assert_eq!(manager.state().focused_workspace.as_deref(), Some("web"));
    assert_eq!(manager.state().focused_screen_id, Some(2));
    assert_eq!(manager.state().workspace_by_name("web").unwrap().focused_window_index, Some(0));
    assert!(manager.should_skip_focus_event(10, 1_010));
    assert!(!manager.should_skip_focus_event(30, 1_010));
    assert!(!manager.should_skip_focus_event(10, 1_100));
}

/// Whether every listed window is tracked, under a workspace name that finds
/// the workspace listing it, and no two tracked windows share an ID.
fn lists_agree(state: &TilingState) -> bool {
    let unique = state.windows.iter().enumerate().all(|(m, a)| {
        state.windows.iter().enumerate().all(|(n, b)| m == n || a.id != b.id)
    });
    let listed = state.workspaces.iter().all(|ws| {
        ws.window_ids.iter().all(|id| {
            state.windows.iter().any(|w| {
                w.id == *id
                    && state.workspace_by_name(&w.workspace_name).is_some_and(|found| found.name == ws.name)
            })
        })
    });
    unique && listed
}

#[test]
fn window_lists_stay_in_agreement_with_tracked_windows() {
    let mut state = desk();
    assert!(lists_agree(&state));
    track_new_window(&mut state, make_window(40, 400, "WEB")).unwrap();
    assert!(lists_agree(&state));
    send_window_to_workspace(&mut state, "mail").unwrap();
    assert!(lists_agree(&state));
    swap_focused_window(&mut state, Direction::Next, None).unwrap();
    assert!(lists_agree(&state));
    assert!(swap_windows_by_id(&mut state, 30, 40).is_none());
    swap_windows_by_id(&mut state, 20, 10).unwrap();
    assert!(lists_agree(&state));
    set_focused_window(&mut state, "web", 40).unwrap();
    assert!(lists_agree(&state));
    complete_workspace_switch(&mut state, "mail", 1);
    assert!(lists_agree(&state));
    assert!(swap_window_id(&mut state, 12, 50));
    assert!(lists_agree(&state));
    assert!(!swap_window_id(&mut state, 12, 51));
    untrack_window(&mut state, 11).unwrap();
    assert!(lists_agree(&state));
    untrack_window(&mut state, 10).unwrap();
    assert!(lists_agree(&state));
    assert_eq!(ids(&state, "code"), vec![50]);
    assert_eq!(ids(&state, "mail"), vec![20]);
    assert_eq!(ids(&state, "web"), vec![30, 40]);
}

#[test]
fn manager_commands_act_on_its_state() {
    let mut manager = TilingManager::new();
    *manager.state_mut() = desk();
    let next = manager.focus_next_window().unwrap();
    assert_eq!((next.workspace.as_str(), next.index, next.window_id), ("code", 1, 11));
    let previous = manager.focus_previous_window().unwrap();
    assert_eq!((previous.index, previous.window_id), (2, 12));
    let t = manager.apply_layout("code").unwrap();
    assert_eq!(t.window_ids, vec![10, 11, 12]);
    assert!(manager.apply_layout("mail").is_none());
    assert_eq!(manager.calculate_and_apply_ratios_for_window("code", 11), RatioUpdate::Reapply);
    assert!(manager.resize_focused_window("height").is_some());
    assert!(manager.apply_preset().is_none());
    let added = manager.track_window(make_window(13, 103, "code")).unwrap();
    assert!(added.workspace_is_visible);
    let swap = manager.swap_window_in_direction(Direction::Previous, None).unwrap();
    assert_eq!((swap.index_a, swap.index_b), (0, 3));
    assert_eq!(ids(manager.state(), "code"), vec![13, 11, 12, 10]);
    let swap = manager.swap_windows_by_id(13, 10).unwrap();
    assert_eq!((swap.index_a, swap.index_b), (0, 3));
    let focus = manager.set_focused_window("code", 12).unwrap();
    assert_eq!(focus.previous, Some(10));
    let moved = manager.send_window_to_workspace("mail").unwrap();
    assert_eq!(moved.window_id, 12);
    // The focus stayed at position 2 of "code", which now holds window 13.
    let moved = manager.send_window_to_screen("secondary").unwrap();
    assert_eq!(moved.window_id, 13);
    assert_eq!(ids(manager.state(), "web"), vec![30, 13]);
    let change = manager.set_workspace_layout("web", LayoutType::Monocle).unwrap();
    assert_eq!(change.window_ids, vec![30, 13]);
    manager.set_initial_workspace_visibility(Some(30));
    assert_eq!(manager.state().focused_workspace.as_deref(), Some("web"));
    let mv = manager.send_workspace_to_screen("main").unwrap();
    assert_eq!((mv.workspace.as_str(), mv.source_screen_id, mv.target_screen_id), ("web", 2, 1));
}
