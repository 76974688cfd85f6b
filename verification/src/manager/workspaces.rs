//! Workspace visibility and focus decisions of the tiling manager.
//!
//! Each function here changes the tiling state the way the manager does
//! around a user command or a startup step, and returns what the caller has
//! to do on screen (which windows to hide, which workspace to show). Hiding,
//! showing and positioning windows are left to the caller.

use vstd::prelude::*;

use crate::manager::WorkspaceSwitchInfo;
use crate::search::{
    any_match, first_index, first_match, lemma_first_index_none, position_first,
};
use crate::state::{
    screen_has_id, screen_is_main, window_has_id, window_in_workspace, workspace_on_screen,
    TilingState, TrackedWindow, Workspace,
};
use crate::text::{
    decimal, eq_ignore_ascii_case, eq_ignore_case, opt_chars, owned, push_decimal, str_equal,
};

verus! {

// ============================================================================
// Initial visibility
// ============================================================================

/// The name and screen of the workspace that holds window `id`, as lookups
/// find them: the window by ID, then its workspace by name.
pub open spec fn workspace_of_window(state: TilingState, id: Option<u32>) -> Option<(Seq<char>, u32)> {
    match id {
        Some(id) => match first_match(state.windows@, window_has_id(id)) {
            Some(w) => match state.workspace_lookup(w.workspace_name@) {
                Some(ws) => Some((ws.name@, ws.screen_id)),
                None => None,
            },
            None => None,
        },
        None => None,
    }
}

/// The workspace to show first on screen `screen_id`: the workspace of the
/// focused window on its own screen, and the first workspace of a screen on
/// the others. Nothing is chosen for an ID that no screen has.
pub open spec fn initial_visible_name(
    state: TilingState,
    focused: Option<(Seq<char>, u32)>,
    screen_id: u32,
) -> Option<Seq<char>> {
    if !any_match(state.screens@, screen_has_id(screen_id)) {
        None
    } else {
        match focused {
            Some(f) => if f.1 == screen_id {
                Some(f.0)
            } else {
                match first_match(state.workspaces@, workspace_on_screen(screen_id)) {
                    Some(w) => Some(w.name@),
                    None => None,
                }
            },
            None => match first_match(state.workspaces@, workspace_on_screen(screen_id)) {
                Some(w) => Some(w.name@),
                None => None,
            },
        }
    }
}

/// A workspace after the initial visibility pass: shown exactly when it is
/// the one chosen for its screen; unchanged where no screen chose one.
pub open spec fn initially_visible(
    state: TilingState,
    focused: Option<(Seq<char>, u32)>,
    w: Workspace,
) -> Workspace {
    match initial_visible_name(state, focused, w.screen_id) {
        Some(t) => Workspace { is_visible: eq_ignore_case(w.name@, t), ..w },
        None => w,
    }
}

/// The workspaces after the initial visibility pass.
pub open spec fn initial_visibility(state: TilingState, focused: Option<(Seq<char>, u32)>) -> Seq<
    Workspace,
> {
    state.workspaces@.map_values(|w: Workspace| initially_visible(state, focused, w))
}

/// Visible workspaces on screen `screen_id`.
pub open spec fn visible_on_screen(screen_id: u32) -> spec_fn(Workspace) -> bool {
    |w: Workspace| w.screen_id == screen_id && w.is_visible
}

/// Whether everything but the workspaces and the focus is unchanged.
pub open spec fn same_screens_and_windows(a: TilingState, b: TilingState) -> bool {
    &&& a.screens@ == b.screens@
    &&& a.windows@ == b.windows@
    &&& a.workspace_index@ == b.workspace_index@
}

/// The workspace that holds window `id`: its name and screen.
fn find_workspace_of_window(state: &TilingState, id: Option<u32>) -> (r: Option<(String, u32)>)
    ensures
        match r {
            Some(p) => workspace_of_window(*state, id) == Some((p.0@, p.1)),
            None => workspace_of_window(*state, id) is None,
        },
{
    match id {
        Some(id) => match state.window_by_id(id) {
            Some(w) => match state.workspace_by_name(w.workspace_name.as_str()) {
                Some(ws) => Some((ws.name.clone(), ws.screen_id)),
                None => None,
            },
            None => None,
        },
        None => None,
    }
}

/// The name of the first workspace on screen `screen_id`.
fn first_workspace_name_on(state: &TilingState, screen_id: u32) -> (r: Option<String>)
    ensures
        opt_chars(r) == match first_match(state.workspaces@, workspace_on_screen(screen_id)) {
            Some(w) => Some(w.name@),
            None => None,
        },
{
    let f = |w: &Workspace| -> (b: bool)
        ensures
            b == (w.screen_id == screen_id),
        {
            let b = w.screen_id == screen_id;
            b
        };
    match position_first(&state.workspaces, &f, Ghost(workspace_on_screen(screen_id))) {
        Some(i) => Some(state.workspaces[i].name.clone()),
        None => None,
    }
}

/// The name of the workspace to show first on screen `screen_id`.
fn initial_target(state: &TilingState, focused: &Option<(String, u32)>, screen_id: u32) -> (r:
    Option<String>)
    ensures
        opt_chars(r) == initial_visible_name(
            *state,
            match focused {
                Some(p) => Some((p.0@, p.1)),
                None => None,
            },
            screen_id,
        ),
{
    let f = |s: &crate::state::Screen| -> (b: bool)
        ensures
            b == (s.id == screen_id),
        {
            let b = s.id == screen_id;
            b
        };
    let found = position_first(&state.screens, &f, Ghost(screen_has_id(screen_id)));
    proof {
        lemma_first_index_none(state.screens@, screen_has_id(screen_id));
    }
    if found.is_none() {
        return None;
    }
    match focused {
        Some(p) => if p.1 == screen_id {
            Some(p.0.clone())
        } else {
            first_workspace_name_on(state, screen_id)
        },
        None => first_workspace_name_on(state, screen_id),
    }
}

/// Whether `after` is what the initial visibility pass makes of `before`,
/// as `set_initial_workspace_visibility` describes.
pub open spec fn initial_visibility_set(before: TilingState, after: TilingState, focused_window_id: Option<u32>) -> bool {
    &&& same_screens_and_windows(after, before)
    &&& {
        let focused = workspace_of_window(before, focused_window_id);
        let shown = initial_visibility(before, focused);
        match focused {
            Some(f) => {
                &&& after.workspaces@ =~= shown.map_values(
                    |w: Workspace| (Workspace { is_focused: eq_ignore_case(w.name@, f.0), ..w }),
                )
                &&& opt_chars(after.focused_workspace) == Some(f.0)
                &&& after.focused_screen_id == Some(f.1)
            },
            None => match first_match(before.screens@, screen_is_main()) {
                Some(m) => {
                    &&& after.focused_screen_id == Some(m.id)
                    &&& match first_index(shown, visible_on_screen(m.id)) {
                        Some(j) => {
                            &&& after.workspaces@ =~= shown.update(
                                j,
                                (Workspace { is_focused: true, ..shown[j] }),
                            )
                            &&& opt_chars(after.focused_workspace) == Some(shown[j].name@)
                        },
                        None => {
                            &&& after.workspaces@ =~= shown
                            &&& after.focused_workspace == before.focused_workspace
                        },
                    }
                },
                None => {
                    &&& after.workspaces@ =~= shown
                    &&& after.focused_workspace == before.focused_workspace
                    &&& after.focused_screen_id == before.focused_screen_id
                },
            },
        }
    }
}

/// Sets which workspace is visible on each screen, and which is focused, at
/// startup.
///
/// The workspace holding the focused window is shown on its screen and
/// focused; every other screen shows its first workspace. Without a tracked
/// focused window, each screen shows its first workspace and the visible
/// workspace of the main screen is focused.
pub fn set_initial_workspace_visibility(state: &mut TilingState, focused_window_id: Option<u32>)
    ensures
        initial_visibility_set(*old(state), *final(state), focused_window_id),
{
    let ghost before = *state;
    let focused = find_workspace_of_window(state, focused_window_id);
    let ghost fv = workspace_of_window(before, focused_window_id);
    let n = state.workspaces.len();

    // Decide every workspace's visibility from the state as it was.
    let mut targets: Vec<Option<String>> = Vec::new();
    let mut i: usize = 0;
    while i < n
        invariant
            i <= n,
            n == before.workspaces@.len(),
            *state == before,
            fv == match focused {
                Some(p) => Some((p.0@, p.1)),
                None => None,
            },
            targets@.len() == i,
            forall|j: int|
                0 <= j < i ==> opt_chars(#[trigger] targets@[j]) == initial_visible_name(
                    before,
                    fv,
                    before.workspaces@[j].screen_id,
                ),
        decreases n - i,
    {
        let t = initial_target(state, &focused, state.workspaces[i].screen_id);
        targets.push(t);
        i = i + 1;
    }

    // Apply them.
    let mut i: usize = 0;
    while i < n
        invariant
            i <= n,
            n == before.workspaces@.len(),
            state.workspaces@.len() == n,
            same_screens_and_windows(*state, before),
            state.focused_workspace == before.focused_workspace,
            state.focused_screen_id == before.focused_screen_id,
            targets@.len() == n,
            forall|j: int|
                0 <= j < n ==> opt_chars(#[trigger] targets@[j]) == initial_visible_name(
                    before,
                    fv,
                    before.workspaces@[j].screen_id,
                ),
            forall|j: int|
                0 <= j < i ==> #[trigger] state.workspaces@[j] == initially_visible(
                    before,
                    fv,
                    before.workspaces@[j],
                ),
            forall|j: int| i <= j < n ==> #[trigger] state.workspaces@[j] == before.workspaces@[j],
        decreases n - i,
    {
        match &targets[i] {
            Some(t) => {
                let v = eq_ignore_ascii_case(state.workspaces[i].name.as_str(), t.as_str());
                state.workspaces[i].is_visible = v;
            },
            None => {},
        }
        i = i + 1;
    }
    let ghost shown = initial_visibility(before, fv);
    assert(state.workspaces@ =~= shown);

    // Set the focus.
    match focused {
        Some(p) => {
            let (name, screen_id) = p;
            let mut i: usize = 0;
            while i < n
                invariant
                    i <= n,
                    state.workspaces@.len() == n,
                    shown.len() == n,
                    same_screens_and_windows(*state, before),
                    forall|j: int|
                        0 <= j < i ==> #[trigger] state.workspaces@[j] == (Workspace {
                            is_focused: eq_ignore_case(shown[j].name@, name@),
                            ..shown[j]
                        }),
                    forall|j: int| i <= j < n ==> #[trigger] state.workspaces@[j] == shown[j],
                decreases n - i,
            {
                let v = eq_ignore_ascii_case(state.workspaces[i].name.as_str(), name.as_str());
                state.workspaces[i].is_focused = v;
                i = i + 1;
            }
            assert(state.workspaces@ =~= shown.map_values(
                |w: Workspace| (Workspace { is_focused: eq_ignore_case(w.name@, name@), ..w }),
            ));
            state.focused_workspace = Some(name);
            state.focused_screen_id = Some(screen_id);
        },
        None => {
            let main_id = match state.main_screen() {
                Some(m) => Some(m.id),
                None => None,
            };
            if let Some(main_id) = main_id {
                let f = |w: &Workspace| -> (b: bool)
                    ensures
                        b == (w.screen_id == main_id && w.is_visible),
                    {
                        let b = w.screen_id == main_id && w.is_visible;
                        b
                    };
                let found = position_first(&state.workspaces, &f, Ghost(visible_on_screen(main_id)));
                if let Some(j) = found {
                    state.workspaces[j].is_focused = true;
                    let name = state.workspaces[j].name.clone();
                    state.focused_workspace = Some(name);
                }
                state.focused_screen_id = Some(main_id);
            }
        },
    }
}

// ============================================================================
// Switching workspaces
// ============================================================================

/// The name under which a switch reports screen `id`: its name, or
/// `screen-` and the ID when no screen has that ID.
pub open spec fn screen_label(state: TilingState, id: u32) -> Seq<char> {
    match first_match(state.screens@, screen_has_id(id)) {
        Some(s) => s.name@,
        None => "screen-"@ + decimal(id as nat),
    }
}

/// The name of the first visible workspace on screen `screen_id`.
pub open spec fn visible_workspace_name(state: TilingState, screen_id: u32) -> Option<Seq<char>> {
    match first_match(state.workspaces@, visible_on_screen(screen_id)) {
        Some(w) => Some(w.name@),
        None => None,
    }
}

/// Whether the application `pid` has a window in workspace `name`.
pub open spec fn has_app_window_in(state: TilingState, name: Seq<char>, pid: i32) -> bool {
    exists|k: int|
        0 <= k < state.windows@.len() && window_in_workspace(name)(#[trigger] state.windows@[k])
            && state.windows@[k].pid == pid
}

/// Windows whose application has no window in workspace `name`.
pub open spec fn app_absent_from(state: TilingState, name: Seq<char>) -> spec_fn(TrackedWindow) -> bool {
    |w: TrackedWindow| !has_app_window_in(state, name, w.pid)
}

/// The windows to hide when workspace `current` is left for `target`: those
/// of `current` whose application has no window in `target`. Hiding works on
/// whole applications, so an application with windows in both stays shown.
pub open spec fn windows_to_hide_on_switch(
    state: TilingState,
    current: Seq<char>,
    target: Seq<char>,
) -> Seq<u32> {
    state.windows@.filter(window_in_workspace(current)).filter(app_absent_from(state, target)).map_values(
        |w: TrackedWindow| w.id,
    )
}

/// What switching to a workspace asks of the caller.
pub struct WorkspaceSwitchPlan {
    /// What the switch reports.
    pub info: WorkspaceSwitchInfo,
    /// The screen of the target workspace.
    pub screen_id: u32,
    /// Whether the target is already visible and focused; nothing else is done then.
    pub already_active: bool,
    /// Whether the workspace shown on that screen is left: its focused window is
    /// recorded and its borders are hidden.
    pub leaves_previous: bool,
    /// Windows to hide, those of the workspace that is left whose application has
    /// no window in the target.
    pub windows_to_hide: Vec<u32>,
}

/// Whether a window list holds a window of application `pid`.
fn holds_app(windows: &Vec<&TrackedWindow>, pid: i32) -> (r: bool)
    ensures
        r == exists|k: int| 0 <= k < windows@.len() && (#[trigger] windows@[k]).pid == pid,
{
    let mut i: usize = 0;
    while i < windows.len()
        invariant
            i <= windows@.len(),
            forall|k: int| 0 <= k < i ==> (#[trigger] windows@[k]).pid != pid,
        decreases windows@.len() - i,
    {
        if windows[i].pid == pid {
            return true;
        }
        i = i + 1;
    }
    false
}

/// A window of the filtered list has application `pid` exactly when the
/// application has a window in that workspace.
proof fn lemma_filtered_app(state: TilingState, name: Seq<char>, pid: i32)
    ensures
        (exists|k: int|
            0 <= k < state.windows@.filter(window_in_workspace(name)).len() && (#[trigger] state.windows@.filter(
                window_in_workspace(name),
            )[k]).pid == pid) <==> has_app_window_in(state, name, pid),
{
    let s = state.windows@;
    let p = window_in_workspace(name);
    let t = s.filter(p);
    if exists|k: int| 0 <= k < t.len() && (#[trigger] t[k]).pid == pid {
        let k = choose|k: int| 0 <= k < t.len() && (#[trigger] t[k]).pid == pid;
        s.lemma_filter_pred(p, k);
        assert(p(t[k]));
        s.lemma_filter_contains_rev(p, t[k]);
        let m = choose|m: int| 0 <= m < s.len() && s[m] == t[k];
        assert(p(s[m]) && s[m].pid == pid);
    }
    if has_app_window_in(state, name, pid) {
        let m = choose|m: int| 0 <= m < s.len() && p(#[trigger] s[m]) && s[m].pid == pid;
        s.lemma_filter_contains(p, m);
        assert(t.contains(s[m]));
        let k = choose|k: int| 0 <= k < t.len() && t[k] == s[m];
        assert(t[k].pid == pid);
    }
}

/// The windows of `current` whose application has no window in `target`.
fn collect_windows_to_hide(state: &TilingState, current: &str, target: &str) -> (r: Vec<u32>)
    ensures
        r@ == windows_to_hide_on_switch(*state, current@, target@),
{
    let shown = state.windows_for_workspace(target);
    let source = state.windows_for_workspace(current);
    let ghost sv = source@.map_values(|x: &TrackedWindow| *x);
    let ghost q = app_absent_from(*state, target@);
    let mut r: Vec<u32> = Vec::new();
    let mut i: usize = 0;
    while i < source.len()
        invariant
            i <= source@.len(),
            sv == source@.map_values(|x: &TrackedWindow| *x),
            q == app_absent_from(*state, target@),
            shown@.map_values(|x: &TrackedWindow| *x) == state.windows@.filter(
                window_in_workspace(target@),
            ),
            r@ == sv.take(i as int).filter(q).map_values(|w: TrackedWindow| w.id),
        decreases source@.len() - i,
    {
        let pid = source[i].pid;
        let found = holds_app(&shown, pid);
        proof {
            lemma_filtered_app(*state, target@, pid);
            let sh = shown@.map_values(|x: &TrackedWindow| *x);
            if found {
                let k = choose|k: int| 0 <= k < shown@.len() && (#[trigger] shown@[k]).pid == pid;
                assert(sh[k] == *shown@[k]);
            } else {
                assert forall|k: int| 0 <= k < sh.len() implies (#[trigger] sh[k]).pid != pid by {
                    assert(sh[k] == *shown@[k]);
                }
            }
            assert(found == has_app_window_in(*state, target@, pid));
            assert(sv.take(i as int + 1) =~= sv.take(i as int).push(sv[i as int]));
            sv.take(i as int).lemma_filter_push(sv[i as int], q);
        }
        if !found {
            r.push(source[i].id);
        }
        proof {
            assert(r@ =~= sv.take(i as int + 1).filter(q).map_values(|w: TrackedWindow| w.id));
        }
        i = i + 1;
    }
    assert(sv.take(source@.len() as int) =~= sv);
    r
}

/// The name under which a switch reports screen `id`.
fn screen_label_of(state: &TilingState, id: u32) -> (r: String)
    ensures
        r@ == screen_label(*state, id),
{
    match state.screen_by_id(id) {
        Some(s) => s.name.clone(),
        None => {
            let mut label = owned("screen-");
            push_decimal(&mut label, id as u64);
            label
        },
    }
}

/// The name of the first visible workspace on a screen.
fn visible_workspace_on(state: &TilingState, screen_id: u32) -> (r: Option<String>)
    ensures
        opt_chars(r) == visible_workspace_name(*state, screen_id),
{
    let f = |w: &Workspace| -> (b: bool)
        ensures
            b == (w.screen_id == screen_id && w.is_visible),
        {
            let b = w.screen_id == screen_id && w.is_visible;
            b
        };
    match position_first(&state.workspaces, &f, Ghost(visible_on_screen(screen_id))) {
        Some(i) => Some(state.workspaces[i].name.clone()),
        None => None,
    }
}

/// Plans a switch to the workspace named `name`; `None` when no workspace has
/// that name.
///
/// The plan names the target's screen and the workspace visible there. When
/// the target is not already visible and focused, and that workspace is
/// another one, the plan leaves it and lists the windows to hide.
pub fn plan_workspace_switch(state: &TilingState, name: &str) -> (r: Option<WorkspaceSwitchPlan>)
    ensures
        r is None <==> state.workspace_lookup(name@) is None,
        r matches Some(p) ==> {
            let t = state.workspace_lookup(name@).unwrap();
            let previous = visible_workspace_name(*state, t.screen_id);
            &&& p.screen_id == t.screen_id
            &&& p.info.workspace@ == name@
            &&& p.info.screen@ == screen_label(*state, t.screen_id)
            &&& opt_chars(p.info.previous_workspace) == previous
            &&& p.already_active == (t.is_visible && t.is_focused)
            &&& p.leaves_previous == (!p.already_active && previous is Some && previous.unwrap()
                != name@)
            &&& p.windows_to_hide@ == if p.leaves_previous {
                windows_to_hide_on_switch(*state, previous.unwrap(), name@)
            } else {
                Seq::<u32>::empty()
            }
        },
{
    let (screen_id, is_visible, is_focused) = match state.workspace_by_name(name) {
        Some(ws) => (ws.screen_id, ws.is_visible, ws.is_focused),
        None => return None,
    };
    let screen = screen_label_of(state, screen_id);
    let previous = visible_workspace_on(state, screen_id);
    let already_active = is_visible && is_focused;
    let (leaves_previous, windows_to_hide) = match &previous {
        Some(current) => if !already_active && !str_equal(current.as_str(), name) {
            (true, collect_windows_to_hide(state, current.as_str(), name))
        } else {
            (false, Vec::new())
        },
        None => (false, Vec::new()),
    };
    Some(
        WorkspaceSwitchPlan {
            info: WorkspaceSwitchInfo { workspace: owned(name), screen, previous_workspace: previous },
            screen_id,
            already_active,
            leaves_previous,
            windows_to_hide,
        },
    )
}

/// A workspace after a switch to `name` on screen `screen_id`: the workspaces
/// of that screen are shown and focused exactly when they have that name; the
/// others lose focus.
pub open spec fn switched(w: Workspace, name: Seq<char>, screen_id: u32) -> Workspace {
    if w.screen_id == screen_id {
        Workspace { is_visible: eq_ignore_case(w.name@, name), is_focused: eq_ignore_case(w.name@, name), ..w }
    } else {
        Workspace { is_focused: false, ..w }
    }
}

/// Records a completed switch to workspace `name` on screen `screen_id`.
pub fn complete_workspace_switch(state: &mut TilingState, name: &str, screen_id: u32)
    ensures
        same_screens_and_windows(*final(state), *old(state)),
        final(state).workspaces@ == old(state).workspaces@.map_values(
            |w: Workspace| switched(w, name@, screen_id),
        ),
        opt_chars(final(state).focused_workspace) == Some(name@),
        final(state).focused_screen_id == Some(screen_id),
{
    let ghost before = *state;
    let n = state.workspaces.len();
    let mut i: usize = 0;
    while i < n
        invariant
            i <= n,
            n == before.workspaces@.len(),
            state.workspaces@.len() == n,
            same_screens_and_windows(*state, before),
            forall|j: int|
                0 <= j < i ==> #[trigger] state.workspaces@[j] == switched(
                    before.workspaces@[j],
                    name@,
                    screen_id,
                ),
            forall|j: int| i <= j < n ==> #[trigger] state.workspaces@[j] == before.workspaces@[j],
        decreases n - i,
    {
        if state.workspaces[i].screen_id == screen_id {
            let v = eq_ignore_ascii_case(state.workspaces[i].name.as_str(), name);
            state.workspaces[i].is_visible = v;
            state.workspaces[i].is_focused = v;
        } else {
            state.workspaces[i].is_focused = false;
        }
        i = i + 1;
    }
    assert(state.workspaces@ =~= before.workspaces@.map_values(
        |w: Workspace| switched(w, name@, screen_id),
    ));
    state.focused_workspace = Some(owned(name));
    state.focused_screen_id = Some(screen_id);
}

} // verus!
