//! Answers to the questions that the command line asks of the tiling state:
//! which workspaces and which windows a filter selects, and which windows
//! sit on another screen than the one their workspace is assigned to.
//!
//! The caller serializes the answers and moves the windows.

use vstd::prelude::*;

use crate::config::LayoutType;
use crate::error::TilingError;
use crate::search::{any_match, first_match, lemma_filter_keeps_all};
use crate::state::{screen_has_id, TilingState, TrackedWindow, Workspace};
use crate::text::{eq_ignore_ascii_case, eq_ignore_case, opt_chars, owned};

verus! {

/// The name under which a query reports a layout: its variant name in lower
/// case.
pub open spec fn layout_name(layout: LayoutType) -> Seq<char> {
    match layout {
        LayoutType::Dwindle => "dwindle"@,
        LayoutType::Monocle => "monocle"@,
        LayoutType::Split => "split"@,
        LayoutType::SplitVertical => "splitvertical"@,
        LayoutType::SplitHorizontal => "splithorizontal"@,
        LayoutType::Master => "master"@,
        LayoutType::Grid => "grid"@,
        LayoutType::Floating => "floating"@,
    }
}

/// Returns the name under which a query reports a layout.
pub fn layout_name_of(layout: LayoutType) -> (r: String)
    ensures
        r@ == layout_name(layout),
{
    match layout {
        LayoutType::Dwindle => owned("dwindle"),
        LayoutType::Monocle => owned("monocle"),
        LayoutType::Split => owned("split"),
        LayoutType::SplitVertical => owned("splitvertical"),
        LayoutType::SplitHorizontal => owned("splithorizontal"),
        LayoutType::Master => owned("master"),
        LayoutType::Grid => owned("grid"),
        LayoutType::Floating => owned("floating"),
    }
}

/// The screen that a query is restricted to: the focused screen when asked
/// for (no restriction when it is unknown), else the screen named, looked up
/// as `TilingState::screen_named` does. `Err` carries a name that no screen
/// answers to.
pub open spec fn screen_filter(state: TilingState, screen: Option<Seq<char>>, focused_screen: bool) -> Result<
    Option<u32>,
    Seq<char>,
> {
    if focused_screen {
        match state.focused_screen_id {
            Some(id) => match first_match(state.screens@, screen_has_id(id)) {
                Some(s) => Ok(Some(s.id)),
                None => Ok(None),
            },
            None => Ok(None),
        }
    } else {
        match screen {
            Some(n) => match state.screen_named(n) {
                Some(s) => Ok(Some(s.id)),
                None => Err(n),
            },
            None => Ok(None),
        }
    }
}

/// The characters of an optional string slice.
pub open spec fn opt_str(o: Option<&str>) -> Option<Seq<char>> {
    match o {
        Some(s) => Some(s@),
        None => None,
    }
}

/// Reads the screen restriction of a query, as `screen_filter` describes;
/// an unknown name gives `TilingError::ScreenNotFound` with that name.
pub fn query_screen_filter(state: &TilingState, screen: Option<&str>, focused_screen: bool) -> (r: Result<
    Option<u32>,
    TilingError,
>)
    ensures
        match screen_filter(*state, opt_str(screen), focused_screen) {
            Ok(f) => r == Ok::<Option<u32>, TilingError>(f),
            Err(n) => r matches Err(TilingError::ScreenNotFound(m)) && m@ == n,
        },
{
    if focused_screen {
        match state.focused_screen_id {
            Some(id) => match state.screen_by_id(id) {
                Some(s) => Ok(Some(s.id)),
                None => Ok(None),
            },
            None => Ok(None),
        }
    } else {
        match screen {
            Some(n) => match state.screen_by_name(n) {
                Some(s) => Ok(Some(s.id)),
                None => Err(TilingError::ScreenNotFound(owned(n))),
            },
            None => Ok(None),
        }
    }
}

/// Workspaces that a screen restriction keeps.
pub open spec fn workspace_kept(screen_id: Option<u32>) -> spec_fn(Workspace) -> bool {
    |w: Workspace|
        match screen_id {
            Some(id) => w.screen_id == id,
            None => true,
        }
}

/// The name under which a query reports the screen `id`: the screen's name,
/// or "unknown" when no screen has that ID.
pub open spec fn reported_screen_name(state: TilingState, id: u32) -> Seq<char> {
    match first_match(state.screens@, screen_has_id(id)) {
        Some(s) => s.name@,
        None => "unknown"@,
    }
}

/// A workspace as a query reports it.
pub struct WorkspaceReport<'a> {
    /// The workspace.
    pub workspace: &'a Workspace,
    /// The name of its screen.
    pub screen_name: String,
    /// The name of its layout.
    pub layout: String,
}

/// Lists the workspaces on the screen that the query names (all of them
/// without a restriction), in order, with their screen and layout names.
pub fn query_workspaces<'a>(state: &'a TilingState, screen: Option<&str>, focused_screen: bool) -> (r:
    Result<Vec<WorkspaceReport<'a>>, TilingError>)
    ensures
        match screen_filter(*state, opt_str(screen), focused_screen) {
            Ok(f) => r matches Ok(v) && v@.map_values(|e: WorkspaceReport<'a>| *e.workspace)
                == state.workspaces@.filter(workspace_kept(f)) && forall|k: int|
                0 <= k < v@.len() ==> (#[trigger] v@[k]).screen_name@ == reported_screen_name(
                    *state,
                    v@[k].workspace.screen_id,
                ) && v@[k].layout@ == layout_name(v@[k].workspace.layout),
            Err(n) => r matches Err(TilingError::ScreenNotFound(m)) && m@ == n,
        },
{
    let filter = match query_screen_filter(state, screen, focused_screen) {
        Ok(f) => f,
        Err(e) => return Err(e),
    };
    let ghost p = workspace_kept(filter);
    let ws = &state.workspaces;
    let mut r: Vec<WorkspaceReport<'a>> = Vec::new();
    let mut i: usize = 0;
    while i < ws.len()
        invariant
            i <= ws@.len(),
            ws == &state.workspaces,
            p == workspace_kept(filter),
            r@.map_values(|e: WorkspaceReport<'a>| *e.workspace) == ws@.take(i as int).filter(p),
            forall|k: int|
                0 <= k < r@.len() ==> (#[trigger] r@[k]).screen_name@ == reported_screen_name(
                    *state,
                    r@[k].workspace.screen_id,
                ) && r@[k].layout@ == layout_name(r@[k].workspace.layout),
        decreases ws@.len() - i,
    {
        let ghost before = r@;
        proof {
            assert(ws@.take(i as int + 1) =~= ws@.take(i as int).push(ws@[i as int]));
            ws@.take(i as int).lemma_filter_push(ws@[i as int], p);
        }
        let w = &ws[i];
        let kept = match filter {
            Some(id) => w.screen_id == id,
            None => true,
        };
        if kept {
            let screen_name = match state.screen_by_id(w.screen_id) {
                Some(s) => s.name.clone(),
                None => owned("unknown"),
            };
            r.push(WorkspaceReport { workspace: w, screen_name, layout: layout_name_of(w.layout) });
            assert(r@.map_values(|e: WorkspaceReport<'a>| *e.workspace) =~= before.map_values(
                |e: WorkspaceReport<'a>| *e.workspace,
            ).push(ws@[i as int]));
        }
        i = i + 1;
    }
    assert(ws@.take(ws@.len() as int) =~= ws@);
    Ok(r)
}

/// Windows that a query keeps: those of workspace `workspace` (up to ASCII
/// case) when one is named, and those whose workspace name matches (up to
/// ASCII case) a workspace on screen `screen_id` when the query is
/// restricted to a screen.
pub open spec fn window_kept(state: TilingState, screen_id: Option<u32>, workspace: Option<Seq<char>>) -> spec_fn(
    TrackedWindow,
) -> bool {
    |w: TrackedWindow|
        (match workspace {
            Some(n) => eq_ignore_case(w.workspace_name@, n),
            None => true,
        }) && (match screen_id {
            Some(id) => exists|k: int|
                0 <= k < state.workspaces@.len() && (#[trigger] state.workspaces@[k]).screen_id == id
                    && eq_ignore_case(state.workspaces@[k].name@, w.workspace_name@),
            None => true,
        })
}

/// The workspace that a window query is restricted to: the focused one when
/// asked for (none when there is none), else the one named.
pub open spec fn workspace_filter(state: TilingState, workspace: Option<Seq<char>>, focused_workspace: bool) -> Option<
    Seq<char>,
> {
    if focused_workspace {
        opt_chars(state.focused_workspace)
    } else {
        workspace
    }
}

/// A window as a query reports it.
pub struct WindowReport<'a> {
    /// The window.
    pub window: &'a TrackedWindow,
    /// Whether it is the window that has the focus.
    pub is_focused: bool,
}

/// Whether some workspace on screen `id` has a name equal (up to ASCII case)
/// to `name`.
fn on_screen_named(workspaces: &Vec<Workspace>, id: u32, name: &str) -> (r: bool)
    ensures
        r == exists|k: int|
            0 <= k < workspaces@.len() && (#[trigger] workspaces@[k]).screen_id == id && eq_ignore_case(
                workspaces@[k].name@,
                name@,
            ),
{
    let mut i: usize = 0;
    while i < workspaces.len()
        invariant
            i <= workspaces@.len(),
            forall|k: int|
                0 <= k < i ==> !((#[trigger] workspaces@[k]).screen_id == id && eq_ignore_case(
                    workspaces@[k].name@,
                    name@,
                )),
        decreases workspaces@.len() - i,
    {
        if workspaces[i].screen_id == id && eq_ignore_ascii_case(workspaces[i].name.as_str(), name) {
            return true;
        }
        i = i + 1;
    }
    false
}

/// Lists the tracked windows that the query selects, in order, each with
/// whether it is `focused_window_id`.
///
/// A screen restriction is read as `query_screen_filter` reads it, and its
/// error comes first. A workspace restriction that names no workspace gives
/// `TilingError::WorkspaceNotFound` with that name.
pub fn query_windows<'a>(
    state: &'a TilingState,
    screen: Option<&str>,
    workspace: Option<&str>,
    focused_screen: bool,
    focused_workspace: bool,
    focused_window_id: Option<u32>,
) -> (r: Result<Vec<WindowReport<'a>>, TilingError>)
    ensures
        match screen_filter(*state, opt_str(screen), focused_screen) {
            Ok(f) => {
                let wf = workspace_filter(*state, opt_str(workspace), focused_workspace);
                if wf is Some && state.workspace_lookup(wf.unwrap()) is None {
                    r matches Err(TilingError::WorkspaceNotFound(m)) && m@ == wf.unwrap()
                } else {
                    r matches Ok(v) && v@.map_values(|e: WindowReport<'a>| *e.window)
                        == state.windows@.filter(window_kept(*state, f, wf)) && forall|k: int|
                        0 <= k < v@.len() ==> (#[trigger] v@[k]).is_focused == (focused_window_id
                            == Some(v@[k].window.id))
                }
            },
            Err(n) => r matches Err(TilingError::ScreenNotFound(m)) && m@ == n,
        },
{
    let filter = match query_screen_filter(state, screen, focused_screen) {
        Ok(f) => f,
        Err(e) => return Err(e),
    };
    let wanted: Option<String> = if focused_workspace {
        state.focused_workspace.clone()
    } else {
        match workspace {
            Some(n) => Some(owned(n)),
            None => None,
        }
    };
    if let Some(n) = &wanted {
        if state.workspace_by_name(n.as_str()).is_none() {
            return Err(TilingError::WorkspaceNotFound(n.clone()));
        }
    }
    let ghost wf = opt_chars(wanted);
    let ghost p = window_kept(*state, filter, wf);
    let wins = &state.windows;
    let mut r: Vec<WindowReport<'a>> = Vec::new();
    let mut i: usize = 0;
    while i < wins.len()
        invariant
            i <= wins@.len(),
            wins == &state.windows,
            wf == opt_chars(wanted),
            p == window_kept(*state, filter, wf),
            r@.map_values(|e: WindowReport<'a>| *e.window) == wins@.take(i as int).filter(p),
            forall|k: int|
                0 <= k < r@.len() ==> (#[trigger] r@[k]).is_focused == (focused_window_id == Some(
                    r@[k].window.id,
                )),
        decreases wins@.len() - i,
    {
        let ghost before = r@;
        proof {
            assert(wins@.take(i as int + 1) =~= wins@.take(i as int).push(wins@[i as int]));
            wins@.take(i as int).lemma_filter_push(wins@[i as int], p);
        }
        let w = &wins[i];
        let in_workspace = match &wanted {
            Some(n) => eq_ignore_ascii_case(w.workspace_name.as_str(), n.as_str()),
            None => true,
        };
        let on_screen = match filter {
            Some(id) => on_screen_named(&state.workspaces, id, w.workspace_name.as_str()),
            None => true,
        };
        if in_workspace && on_screen {
            let is_focused = match focused_window_id {
                Some(f) => f == w.id,
                None => false,
            };
            r.push(WindowReport { window: w, is_focused });
            assert(r@.map_values(|e: WindowReport<'a>| *e.window) =~= before.map_values(
                |e: WindowReport<'a>| *e.window,
            ).push(wins@[i as int]));
        }
        i = i + 1;
    }
    assert(wins@.take(wins@.len() as int) =~= wins@);
    Ok(r)
}

/// A query with no restriction lists every workspace and every tracked
/// window, in order.
pub proof fn law_unrestricted_query_lists_everything(state: TilingState)
    ensures
        screen_filter(state, None, false) == Ok::<Option<u32>, Seq<char>>(None),
        workspace_filter(state, None, false) is None,
        state.workspaces@.filter(workspace_kept(None)) == state.workspaces@,
        state.windows@.filter(window_kept(state, None, None)) == state.windows@,
{
    lemma_filter_keeps_all(state.workspaces@, workspace_kept(None));
    lemma_filter_keeps_all(state.windows@, window_kept(state, None, None));
}

/// The screen that window `w` belongs on: the screen of its workspace
/// (looked up by the window's workspace name), when a screen has that ID.
pub open spec fn assigned_screen(state: TilingState, w: TrackedWindow) -> Option<u32> {
    match state.workspace_lookup(w.workspace_name@) {
        Some(ws) => if any_match(state.screens@, screen_has_id(ws.screen_id)) {
            Some(ws.screen_id)
        } else {
            None
        },
        None => None,
    }
}

/// Among the first `n` windows, those that are not on the screen they
/// belong on, in order: each with its ID, the screen it belongs on and the
/// screen it is on (`current[k]` for the window at `k`).
pub open spec fn misplaced_windows(state: TilingState, current: Seq<Option<u32>>, n: nat) -> Seq<
    (u32, u32, Option<u32>),
>
    decreases n,
{
    if n == 0 {
        Seq::empty()
    } else {
        let prev = misplaced_windows(state, current, (n - 1) as nat);
        let w = state.windows@[n - 1];
        match assigned_screen(state, w) {
            Some(t) => if current[n - 1] != Some(t) {
                prev.push((w.id, t, current[n - 1]))
            } else {
                prev
            },
            None => prev,
        }
    }
}

/// Lists the windows that are not on the screen their workspace is assigned
/// to, given the screen each tracked window is on now (`current_screens[k]`
/// for the window at position `k`, `None` when it is on no known screen).
/// Windows whose workspace or screen is unknown stay where they are.
pub fn windows_to_move(state: &TilingState, current_screens: &Vec<Option<u32>>) -> (r: Vec<
    (u32, u32, Option<u32>),
>)
    requires
        current_screens@.len() == state.windows@.len(),
    ensures
        r@ == misplaced_windows(*state, current_screens@, state.windows@.len()),
{
    let mut r: Vec<(u32, u32, Option<u32>)> = Vec::new();
    let mut i: usize = 0;
    while i < state.windows.len()
        invariant
            i <= state.windows@.len(),
            current_screens@.len() == state.windows@.len(),
            r@ == misplaced_windows(*state, current_screens@, i as nat),
        decreases state.windows@.len() - i,
    {
        let w = &state.windows[i];
        let current = current_screens[i];
        if let Some(ws) = state.workspace_by_name(w.workspace_name.as_str()) {
            let target = ws.screen_id;
            match state.screen_by_id(target) {
                Some(_) => {
                    proof {
                        let k = crate::search::first_index(state.screens@, screen_has_id(target)).unwrap();
                        crate::search::lemma_first_index_is(state.screens@, screen_has_id(target), k);
                    }
                    let moves = match current {
                        Some(c) => c != target,
                        None => true,
                    };
                    if moves {
                        r.push((w.id, target, current));
                    }
                },
                None => {
                    proof {
                        crate::search::lemma_first_index_none(state.screens@, screen_has_id(target));
                    }
                },
            }
        }
        i = i + 1;
    }
    r
}


/// Distinct layouts are reported under distinct names, each a non-empty
/// word of lower-case ASCII letters.
pub proof fn law_layout_names_are_distinct(a: LayoutType, b: LayoutType)
    ensures
        layout_name(a) == layout_name(b) ==> a == b,
        layout_name(a).len() > 0,
        forall|i: int| 0 <= i < layout_name(a).len() ==> 'a' <= #[trigger] layout_name(a)[i] <= 'z',
{
    reveal_strlit("dwindle");
    reveal_strlit("monocle");
    reveal_strlit("split");
    reveal_strlit("splitvertical");
    reveal_strlit("splithorizontal");
    reveal_strlit("master");
    reveal_strlit("grid");
    reveal_strlit("floating");
    if layout_name(a) == layout_name(b) {
        assert(layout_name(a).len() == layout_name(b).len());
        assert(layout_name(a)[0] == layout_name(b)[0]);
        assert(layout_name(a)[5] == layout_name(b)[5]);
    }
}

} // verus!
