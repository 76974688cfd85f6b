//! Screen-level decisions of the tiling manager: sending a workspace to
//! another screen, and reassigning workspaces when screens come and go.

use vstd::prelude::*;

use crate::manager::windows::focused_workspace_spec;
use crate::manager::workspaces::same_screens_and_windows;
use crate::manager::workspaces::visible_on_screen;
use crate::search::{
    any_match, first_match, last_index, lemma_first_index_none,
    lemma_last_index_empty, lemma_last_index_push, position_first, same_option,
};
use crate::state::{
    lemma_lookup_by_found_name, screen_is_main, screen_not_main,
    window_in_workspace, workspace_on_screen, Screen, TilingState, TrackedWindow, Workspace,
};
use crate::text::{opt_chars, str_equal};

verus! {

/// The screen that a command names: "main" is the main screen, "secondary"
/// the first screen that is not the main one, and any other name is looked
/// up as `TilingState::screen_named` does.
pub open spec fn command_screen(state: TilingState, name: Seq<char>) -> Option<Screen> {
    if name == "main"@ {
        first_match(state.screens@, screen_is_main())
    } else if name == "secondary"@ {
        first_match(state.screens@, screen_not_main())
    } else {
        state.screen_named(name)
    }
}

/// Finds the screen that a command names.
pub fn resolve_command_screen<'a>(state: &'a TilingState, name: &str) -> (r: Option<&'a Screen>)
    ensures
        same_option(r, command_screen(*state, name@)),
{
    if str_equal(name, "main") {
        state.main_screen()
    } else if str_equal(name, "secondary") {
        let f = |s: &Screen| -> (b: bool)
            ensures
                b == !s.is_main,
            {
                let b = !s.is_main;
                b
            };
        crate::search::find_first(&state.screens, &f, Ghost(screen_not_main()))
    } else {
        state.screen_by_name(name)
    }
}

/// Windows whose workspace name is exactly `name`.
pub open spec fn window_named_exactly(name: Seq<char>) -> spec_fn(TrackedWindow) -> bool {
    |w: TrackedWindow| w.workspace_name@ == name
}

/// The IDs of the windows whose workspace name is exactly `name`, in order.
pub open spec fn window_ids_named(state: TilingState, name: Seq<char>) -> Seq<u32> {
    state.windows@.filter(window_named_exactly(name)).map_values(|w: TrackedWindow| w.id)
}

/// Returns the IDs of the windows whose workspace name is exactly `name`.
pub fn window_ids_in_workspace(state: &TilingState, name: &str) -> (r: Vec<u32>)
    ensures
        r@ == window_ids_named(*state, name@),
{
    let ws = &state.windows;
    let ghost p = window_named_exactly(name@);
    let mut r: Vec<u32> = Vec::new();
    let mut i: usize = 0;
    while i < ws.len()
        invariant
            i <= ws@.len(),
            p == window_named_exactly(name@),
            r@ == ws@.take(i as int).filter(p).map_values(|w: TrackedWindow| w.id),
        decreases ws@.len() - i,
    {
        proof {
            assert(ws@.take(i as int + 1) =~= ws@.take(i as int).push(ws@[i as int]));
            ws@.take(i as int).lemma_filter_push(ws@[i as int], p);
        }
        if str_equal(ws[i].workspace_name.as_str(), name) {
            r.push(ws[i].id);
        }
        proof {
            assert(r@ =~= ws@.take(i as int + 1).filter(p).map_values(|w: TrackedWindow| w.id));
        }
        i = i + 1;
    }
    assert(ws@.take(ws@.len() as int) =~= ws@);
    r
}

/// Workspaces on screen `screen_id` with a name other than `name` (exactly).
pub open spec fn other_on_screen(screen_id: u32, name: Seq<char>) -> spec_fn(Workspace) -> bool {
    |w: Workspace| w.screen_id == screen_id && w.name@ != name
}

/// A workspace sent to another screen.
pub struct WorkspaceMove {
    /// The workspace that moved (the focused one).
    pub workspace: String,
    /// The screen it left.
    pub source_screen_id: u32,
    /// The screen it moved to.
    pub target_screen_id: u32,
    /// Its windows, to hide before the move when it was visible.
    pub windows_to_hide: Vec<u32>,
    /// The workspace shown instead on the screen it left, if it was visible there.
    pub fallback_workspace: Option<String>,
    /// Whether it went back to the screen it was first moved from.
    pub returning_home: bool,
}

/// A workspace other than the moved one, after the move.
pub open spec fn after_move_other(
    w: Workspace,
    name: Seq<char>,
    source: u32,
    target: u32,
    fallback: Option<Seq<char>>,
) -> Workspace {
    if w.screen_id == target && w.name@ != name {
        Workspace { is_visible: false, is_focused: false, ..w }
    } else if fallback is Some && w.screen_id == source {
        Workspace { is_visible: w.name@ == fallback.unwrap(), ..w }
    } else {
        w
    }
}

/// The moved workspace after the move.
pub open spec fn after_move_self(w: Workspace, source: u32, target: u32) -> Workspace {
    Workspace {
        screen_id: target,
        is_visible: true,
        is_focused: true,
        original_screen_id: if w.original_screen_id == Some(target) {
            None
        } else if w.original_screen_id is None {
            Some(source)
        } else {
            w.original_screen_id
        },
        ..w
    }
}

/// Whether `after` and `r` are what sending the focused workspace of
/// `before` to screen `target_screen` gives, as `send_workspace_to_screen`
/// describes.
pub open spec fn workspace_sent(before: TilingState, after: TilingState, target_screen: Seq<char>, r: Option<WorkspaceMove>) -> bool {
    &&& same_screens_and_windows(after, before)
    &&& {
        let ws = before.workspaces@;
        let src = focused_workspace_spec(before);
        let tgt = command_screen(before, target_screen);
        if src is Some && tgt is Some && src.unwrap().screen_id != tgt.unwrap().id {
            let w = src.unwrap();
            let name = w.name@;
            let source = w.screen_id;
            let target = tgt.unwrap().id;
            let p = before.workspace_position(name).unwrap();
            let fallback = if w.is_visible {
                match first_match(ws, other_on_screen(source, name)) {
                    Some(f) => Some(f.name@),
                    None => None,
                }
            } else {
                None
            };
            &&& before.workspace_position(name) is Some
            &&& r matches Some(mv)
            &&& mv.workspace@ == name
            &&& mv.source_screen_id == source
            &&& mv.target_screen_id == target
            &&& mv.windows_to_hide@ == (if w.is_visible {
                window_ids_named(before, name)
            } else {
                Seq::<u32>::empty()
            })
            &&& opt_chars(mv.fallback_workspace) == fallback
            &&& mv.returning_home == (ws[p].original_screen_id == Some(target))
            &&& after.workspaces@.len() == ws.len()
            &&& after.workspaces@[p] == after_move_self(ws[p], source, target)
            &&& forall|j: int|
                0 <= j < ws.len() && j != p ==> #[trigger] after.workspaces@[j]
                    == after_move_other(ws[j], name, source, target, fallback)
            &&& opt_chars(after.focused_workspace) == Some(name)
            &&& after.focused_screen_id == Some(target)
        } else {
            r is None && after == before
        }
    }
}

/// Sends the focused workspace to the screen that `target_screen` names.
///
/// The workspace moves to that screen and is shown and focused there; the
/// other workspaces of that screen are hidden and lose focus. If it was
/// visible, its windows are listed for hiding and the first other workspace
/// of the screen it left is shown there instead. The screen it first left is
/// remembered, and forgotten when it returns there. Nothing changes, and
/// `None` is returned, without a focused workspace, when no screen has that
/// name, or when the workspace is already on that screen.
pub fn send_workspace_to_screen(state: &mut TilingState, target_screen: &str) -> (r: Option<
    WorkspaceMove,
>)
    ensures
        workspace_sent(*old(state), *final(state), target_screen@, r),
{
    let ghost before = *state;
    let (name, source, was_visible) = match state.focused_workspace() {
        Some(ws) => (ws.name.clone(), ws.screen_id, ws.is_visible),
        None => return None,
    };
    let target = match resolve_command_screen(state, target_screen) {
        Some(s) => s.id,
        None => return None,
    };
    if source == target {
        return None;
    }
    proof {
        lemma_lookup_by_found_name(before, before.focused_workspace.unwrap()@);
    }
    let p = match state.workspace_position_of(name.as_str()) {
        Some(p) => p,
        None => return None,
    };
    let returning_home = match state.workspaces[p].original_screen_id {
        Some(o) => o == target,
        None => false,
    };
    let windows_to_hide = if was_visible {
        window_ids_in_workspace(state, name.as_str())
    } else {
        Vec::new()
    };
    let fallback_workspace: Option<String> = if was_visible {
        let f = |w: &Workspace| -> (b: bool)
            ensures
                b == (w.screen_id == source && w.name@ != name@),
            {
                let b = w.screen_id == source && !str_equal(w.name.as_str(), name.as_str());
                b
            };
        match position_first(&state.workspaces, &f, Ghost(other_on_screen(source, name@))) {
            Some(k) => Some(state.workspaces[k].name.clone()),
            None => None,
        }
    } else {
        None
    };
    let ghost fallback = opt_chars(fallback_workspace);
    let n = state.workspaces.len();
    let mut j: usize = 0;
    while j < n
        invariant
            j <= n,
            n == before.workspaces@.len(),
            p < n,
            state.workspaces@.len() == n,
            same_screens_and_windows(*state, before),
            fallback == opt_chars(fallback_workspace),
            forall|k: int|
                0 <= k < j && k != p ==> #[trigger] state.workspaces@[k] == after_move_other(
                    before.workspaces@[k],
                    name@,
                    source,
                    target,
                    fallback,
                ),
            forall|k: int| (j <= k < n || k == p) ==> #[trigger] state.workspaces@[k] == before.workspaces@[k],
        decreases n - j,
    {
        if j != p {
            let on_target = state.workspaces[j].screen_id == target && !str_equal(
                state.workspaces[j].name.as_str(),
                name.as_str(),
            );
            if on_target {
                state.workspaces[j].is_visible = false;
                state.workspaces[j].is_focused = false;
            } else if let Some(fb) = &fallback_workspace {
                if state.workspaces[j].screen_id == source {
                    let v = str_equal(state.workspaces[j].name.as_str(), fb.as_str());
                    state.workspaces[j].is_visible = v;
                }
            }
        }
        j = j + 1;
    }
    let original = if returning_home {
        None
    } else {
        match state.workspaces[p].original_screen_id {
            Some(o) => Some(o),
            None => Some(source),
        }
    };
    state.workspaces[p].screen_id = target;
    state.workspaces[p].is_visible = true;
    state.workspaces[p].is_focused = true;
    state.workspaces[p].original_screen_id = original;
    state.focused_workspace = Some(name.clone());
    state.focused_screen_id = Some(target);
    Some(
        WorkspaceMove {
            workspace: name,
            source_screen_id: source,
            target_screen_id: target,
            windows_to_hide,
            fallback_workspace,
            returning_home,
        },
    )
}

// ============================================================================
// Screens that come and go
// ============================================================================

/// Whether a list of IDs holds `id`.
fn holds_id(ids: &Vec<u32>, id: u32) -> (r: bool)
    ensures
        r == ids@.contains(id),
{
    let mut i: usize = 0;
    while i < ids.len()
        invariant
            i <= ids@.len(),
            forall|k: int| 0 <= k < i ==> ids@[k] != id,
        decreases ids@.len() - i,
    {
        if ids[i] == id {
            return true;
        }
        i = i + 1;
    }
    false
}

/// Screens that appeared and screens that disappeared between two lists of
/// screen IDs.
pub struct ScreenChanges {
    /// IDs present now and not before, each once.
    pub added: Vec<u32>,
    /// IDs present before and not now, each once.
    pub removed: Vec<u32>,
}

/// The IDs of `a` that `b` lacks, each once, in their order in `a`.
fn missing_from(a: &Vec<u32>, b: &Vec<u32>) -> (r: Vec<u32>)
    ensures
        r@.no_duplicates(),
        forall|x: u32| r@.contains(x) <==> (a@.contains(x) && !b@.contains(x)),
{
    let mut r: Vec<u32> = Vec::new();
    let mut i: usize = 0;
    while i < a.len()
        invariant
            i <= a@.len(),
            r@.no_duplicates(),
            forall|x: u32| r@.contains(x) <==> (a@.take(i as int).contains(x) && !b@.contains(x)),
        decreases a@.len() - i,
    {
        let x = a[i];
        let ghost before = r@;
        proof {
            assert(a@.take(i as int + 1) =~= a@.take(i as int).push(x));
            assert forall|y: u32| a@.take(i as int + 1).contains(y) <==> (a@.take(i as int).contains(
                y,
            ) || y == x) by {
                if a@.take(i as int + 1).contains(y) && y != x {
                    let k = choose|k: int| 0 <= k < i + 1 && #[trigger] a@.take(i as int + 1)[k] == y;
                    assert(a@.take(i as int)[k] == y);
                }
                if a@.take(i as int).contains(y) {
                    let k = choose|k: int| 0 <= k < i && #[trigger] a@.take(i as int)[k] == y;
                    assert(a@.take(i as int + 1)[k] == y);
                }
                if y == x {
                    assert(a@.take(i as int + 1)[i as int] == x);
                }
            }
        }
        if !holds_id(b, x) && !holds_id(&r, x) {
            r.push(x);
            proof {
                assert forall|y: u32| r@.contains(y) <==> (before.contains(y) || y == x) by {
                    if r@.contains(y) && y != x {
                        let k = choose|k: int| 0 <= k < r@.len() && #[trigger] r@[k] == y;
                        assert(before[k] == y);
                    }
                    if before.contains(y) {
                        let k = choose|k: int| 0 <= k < before.len() && #[trigger] before[k] == y;
                        assert(r@[k] == y);
                    }
                    if y == x {
                        assert(r@[before.len() as int] == x);
                    }
                }
            }
        }
        proof {
            assert forall|y: u32| r@.contains(y) <==> (a@.take(i as int + 1).contains(y)
                && !b@.contains(y)) by {
                assert(before.contains(y) <==> (a@.take(i as int).contains(y) && !b@.contains(y)));
            }
        }
        i = i + 1;
    }
    assert(a@.take(a@.len() as int) =~= a@);
    r
}

/// Compares the screen IDs before and after a display reconfiguration.
pub fn screen_changes(old_ids: &Vec<u32>, new_ids: &Vec<u32>) -> (r: ScreenChanges)
    ensures
        r.added@.no_duplicates(),
        r.removed@.no_duplicates(),
        forall|x: u32| r.added@.contains(x) <==> (new_ids@.contains(x) && !old_ids@.contains(x)),
        forall|x: u32| r.removed@.contains(x) <==> (old_ids@.contains(x) && !new_ids@.contains(x)),
{
    ScreenChanges { added: missing_from(new_ids, old_ids), removed: missing_from(old_ids, new_ids) }
}

/// Workspaces on one of the `removed` screens.
pub open spec fn on_removed_screen(removed: Seq<u32>) -> spec_fn(Workspace) -> bool {
    |w: Workspace| removed.contains(w.screen_id)
}

/// The IDs of the windows of workspace `name` (up to ASCII case), in order.
pub open spec fn window_ids_like(state: TilingState, name: Seq<char>) -> Seq<u32> {
    state.windows@.filter(window_in_workspace(name)).map_values(|w: TrackedWindow| w.id)
}

/// The names of the workspaces on the `removed` screens, in order.
pub open spec fn affected_names(state: TilingState, removed: Seq<u32>) -> Seq<Seq<char>> {
    state.workspaces@.filter(on_removed_screen(removed)).map_values(|w: Workspace| w.name@)
}

/// Whether a lookup by one of `names` finds the workspace at `j`.
pub open spec fn found_by_some(state: TilingState, names: Seq<Seq<char>>, j: int) -> bool {
    exists|k: int| 0 <= k < names.len() && state.workspace_position(#[trigger] names[k]) == Some(j)
}

/// What the caller does after screens were removed.
pub struct RemovedScreens {
    /// The main screen, which takes over the workspaces.
    pub main_screen_id: u32,
    /// The windows of those workspaces, to move to the main screen and hide.
    pub windows_to_move: Vec<u32>,
    /// The workspace visible on the main screen, whose layout is re-applied.
    pub main_visible_workspace: Option<String>,
}

/// The names of the workspaces on the removed screens.
fn collect_affected(state: &TilingState, removed: &Vec<u32>) -> (r: Vec<String>)
    ensures
        r@.map_values(|s: String| s@) == affected_names(*state, removed@),
{
    let ws = &state.workspaces;
    let ghost p = on_removed_screen(removed@);
    let mut r: Vec<String> = Vec::new();
    let mut i: usize = 0;
    while i < ws.len()
        invariant
            i <= ws@.len(),
            p == on_removed_screen(removed@),
            r@.map_values(|s: String| s@) == ws@.take(i as int).filter(p).map_values(
                |w: Workspace| w.name@,
            ),
        decreases ws@.len() - i,
    {
        proof {
            assert(ws@.take(i as int + 1) =~= ws@.take(i as int).push(ws@[i as int]));
            ws@.take(i as int).lemma_filter_push(ws@[i as int], p);
        }
        let ghost before = r@;
        if holds_id(removed, ws[i].screen_id) {
            let name = ws[i].name.clone();
            r.push(name);
            proof {
                assert(r@ == before.push(name));
                assert(r@.map_values(|s: String| s@) =~= before.map_values(|s: String| s@).push(
                    ws@[i as int].name@,
                ));
            }
        }
        proof {
            assert(r@.map_values(|s: String| s@) =~= ws@.take(i as int + 1).filter(p).map_values(
                |w: Workspace| w.name@,
            ));
        }
        i = i + 1;
    }
    assert(ws@.take(ws@.len() as int) =~= ws@);
    r
}

/// The IDs of the windows of workspace `name` (up to ASCII case).
fn window_ids_like_of(state: &TilingState, name: &str) -> (r: Vec<u32>)
    ensures
        r@ == window_ids_like(*state, name@),
{
    let found = state.windows_for_workspace(name);
    let ghost fv = found@.map_values(|x: &TrackedWindow| *x);
    let mut r: Vec<u32> = Vec::new();
    let mut i: usize = 0;
    while i < found.len()
        invariant
            i <= found@.len(),
            fv == found@.map_values(|x: &TrackedWindow| *x),
            r@ == fv.take(i as int).map_values(|w: TrackedWindow| w.id),
        decreases found@.len() - i,
    {
        r.push(found[i].id);
        proof {
            assert(r@ =~= fv.take(i as int + 1).map_values(|w: TrackedWindow| w.id));
        }
        i = i + 1;
    }
    assert(fv.take(fv.len() as int) =~= fv);
    r
}

/// The positions that lookups by `names` find, before anything changes.
fn positions_of(state: &TilingState, names: &Vec<String>) -> (r: Vec<Option<usize>>)
    ensures
        r@.len() == names@.len(),
        forall|k: int|
            0 <= k < names@.len() ==> match #[trigger] r@[k] {
                Some(p) => state.workspace_position(names@[k]@) == Some(p as int),
                None => state.workspace_position(names@[k]@) is None,
            },
{
    let mut r: Vec<Option<usize>> = Vec::new();
    let mut i: usize = 0;
    while i < names.len()
        invariant
            i <= names@.len(),
            r@.len() == i,
            forall|k: int|
                0 <= k < i ==> match #[trigger] r@[k] {
                    Some(p) => state.workspace_position(names@[k]@) == Some(p as int),
                    None => state.workspace_position(names@[k]@) is None,
                },
        decreases names@.len() - i,
    {
        r.push(state.workspace_position_of(names[i].as_str()));
        i = i + 1;
    }
    r
}

/// A workspace taken over by the main screen.
pub open spec fn taken_over(w: Workspace, main_id: u32) -> Workspace {
    Workspace { screen_id: main_id, is_visible: false, ..w }
}

/// Reassigns the workspaces of the `removed` screens to the main screen and
/// hides them.
///
/// Returns `None`, changing nothing, when there is no main screen or no
/// workspace was on a removed screen.
pub fn reassign_removed_screens(state: &mut TilingState, removed: &Vec<u32>) -> (r: Option<
    RemovedScreens,
>)
    ensures
        same_screens_and_windows(*final(state), *old(state)),
        final(state).focused_workspace == old(state).focused_workspace,
        final(state).focused_screen_id == old(state).focused_screen_id,
        ({
            let names = affected_names(*old(state), removed@);
            let main = first_match(old(state).screens@, screen_is_main());
            if main is Some && names.len() > 0 {
                let m = main.unwrap().id;
                &&& r matches Some(rs)
                &&& rs.main_screen_id == m
                &&& rs.windows_to_move@ == names.map_values(
                    |n: Seq<char>| window_ids_like(*old(state), n),
                ).flatten()
                &&& final(state).workspaces@.len() == old(state).workspaces@.len()
                &&& forall|j: int|
                    0 <= j < old(state).workspaces@.len() ==> #[trigger] final(state).workspaces@[j]
                        == if found_by_some(*old(state), names, j) {
                        taken_over(old(state).workspaces@[j], m)
                    } else {
                        old(state).workspaces@[j]
                    }
                &&& opt_chars(rs.main_visible_workspace) == match first_match(
                    final(state).workspaces@,
                    crate::manager::workspaces::visible_on_screen(m),
                ) {
                    Some(w) => Some(w.name@),
                    None => None,
                }
            } else {
                r is None && *final(state) == *old(state)
            }
        }),
{
    let ghost before = *state;
    let main_id = match state.main_screen() {
        Some(m) => m.id,
        None => return None,
    };
    let names = collect_affected(state, removed);
    let ghost nv = names@.map_values(|s: String| s@);
    if names.len() == 0 {
        return None;
    }
    // The windows to move, workspace by workspace.
    let mut moves: Vec<u32> = Vec::new();
    let mut i: usize = 0;
    while i < names.len()
        invariant
            i <= names@.len(),
            *state == before,
            nv == names@.map_values(|s: String| s@),
            moves@ == nv.take(i as int).map_values(|n: Seq<char>| window_ids_like(before, n)).flatten(),
        decreases names@.len() - i,
    {
        let mut ids = window_ids_like_of(state, names[i].as_str());
        proof {
            let f = |n: Seq<char>| window_ids_like(before, n);
            assert(nv.take(i as int + 1).map_values(f) =~= nv.take(i as int).map_values(f).push(
                f(nv[i as int]),
            ));
            nv.take(i as int).map_values(f).lemma_flatten_push(f(nv[i as int]));
        }
        moves.append(&mut ids);
        i = i + 1;
    }
    assert(nv.take(nv.len() as int) =~= nv);
    // Where each name is found.
    let positions = positions_of(state, &names);
    let n = state.workspaces.len();
    let mut k: usize = 0;
    while k < positions.len()
        invariant
            k <= positions@.len(),
            positions@.len() == nv.len(),
            n == before.workspaces@.len(),
            state.workspaces@.len() == n,
            same_screens_and_windows(*state, before),
            state.focused_workspace == before.focused_workspace,
            state.focused_screen_id == before.focused_screen_id,
            nv == names@.map_values(|s: String| s@),
            forall|a: int|
                0 <= a < names@.len() ==> match #[trigger] positions@[a] {
                    Some(p) => before.workspace_position(names@[a]@) == Some(p as int),
                    None => before.workspace_position(names@[a]@) is None,
                },
            forall|j: int|
                0 <= j < n ==> #[trigger] state.workspaces@[j] == if found_by_some(
                    before,
                    nv.take(k as int),
                    j,
                ) {
                    taken_over(before.workspaces@[j], main_id)
                } else {
                    before.workspaces@[j]
                },
        decreases positions@.len() - k,
    {
        proof {
            assert forall|j: int| 0 <= j < n implies found_by_some(before, nv.take(k as int + 1), j)
                == (found_by_some(before, nv.take(k as int), j) || before.workspace_position(
                nv[k as int],
            ) == Some(j)) by {
                if found_by_some(before, nv.take(k as int), j) {
                    let a = choose|a: int|
                        0 <= a < k && before.workspace_position(#[trigger] nv.take(k as int)[a])
                            == Some(j);
                    assert(nv.take(k as int + 1)[a] == nv.take(k as int)[a]);
                }
                if found_by_some(before, nv.take(k as int + 1), j) {
                    let a = choose|a: int|
                        0 <= a < k + 1 && before.workspace_position(
                            #[trigger] nv.take(k as int + 1)[a],
                        ) == Some(j);
                    if a < k {
                        assert(nv.take(k as int)[a] == nv.take(k as int + 1)[a]);
                    }
                }
                if before.workspace_position(nv[k as int]) == Some(j) {
                    assert(nv.take(k as int + 1)[k as int] == nv[k as int]);
                }
            }
        }
        if let Some(p) = positions[k] {
            state.workspaces[p].screen_id = main_id;
            state.workspaces[p].is_visible = false;
        }
        k = k + 1;
    }
    assert(nv.take(nv.len() as int) =~= nv);
    let f = |w: &Workspace| -> (b: bool)
        ensures
            b == (w.screen_id == main_id && w.is_visible),
        {
            let b = w.screen_id == main_id && w.is_visible;
            b
        };
    let visible = match position_first(
        &state.workspaces,
        &f,
        Ghost(crate::manager::workspaces::visible_on_screen(main_id)),
    ) {
        Some(j) => Some(state.workspaces[j].name.clone()),
        None => None,
    };
    Some(
        RemovedScreens {
            main_screen_id: main_id,
            windows_to_move: moves,
            main_visible_workspace: visible,
        },
    )
}

/// Workspaces whose configured screen is connected and is not the screen they
/// are on.
pub open spec fn restorable(state: TilingState) -> spec_fn(Workspace) -> bool {
    |w: Workspace|
        w.configured_screen@.len() > 0 && state.screen_named(w.configured_screen@) is Some
            && w.screen_id != state.screen_named(w.configured_screen@).unwrap().id
}

/// The screen a restorable workspace goes back to.
pub open spec fn home_screen(state: TilingState, w: Workspace) -> u32 {
    state.screen_named(w.configured_screen@).unwrap().id
}

/// Workspaces that a lookup by their name finds at position `j`.
pub open spec fn found_at(state: TilingState, j: int) -> spec_fn(Workspace) -> bool {
    |w: Workspace| state.workspace_position(w.name@) == Some(j)
}

/// Workspace `j` after restoring: on the home screen of the last of `quals`
/// that a lookup by name finds at `j`, and unchanged when none does.
pub open spec fn restored(state: TilingState, quals: Seq<Workspace>, j: int) -> Workspace {
    match last_index(quals, found_at(state, j)) {
        Some(a) => Workspace { screen_id: home_screen(state, quals[a]), ..state.workspaces@[j] },
        None => state.workspaces@[j],
    }
}

/// A workspace that went back to its configured screen.
pub struct RestoredWorkspace {
    /// Its name.
    pub name: String,
    /// The screen it went back to.
    pub screen_id: u32,
    /// Its windows, to move to that screen.
    pub window_ids: Vec<u32>,
}

/// Sends every workspace whose configured screen is connected again back to
/// that screen, in workspace order, and returns them with their windows.
pub fn restore_configured_screens(state: &mut TilingState) -> (r: Vec<RestoredWorkspace>)
    ensures
        same_screens_and_windows(*final(state), *old(state)),
        final(state).focused_workspace == old(state).focused_workspace,
        final(state).focused_screen_id == old(state).focused_screen_id,
        ({
            let ws = old(state).workspaces@;
            let quals = ws.filter(restorable(*old(state)));
            &&& r@.len() == quals.len()
            &&& forall|k: int|
                0 <= k < quals.len() ==> {
                    &&& (#[trigger] r@[k]).name@ == quals[k].name@
                    &&& r@[k].screen_id == home_screen(*old(state), quals[k])
                    &&& r@[k].window_ids@ == window_ids_like(*old(state), quals[k].name@)
                }
            &&& final(state).workspaces@.len() == ws.len()
            &&& forall|j: int|
                0 <= j < ws.len() ==> #[trigger] final(state).workspaces@[j] == restored(
                    *old(state),
                    quals,
                    j,
                )
        }),
{
    let ghost before = *state;
    let ghost rp = restorable(before);
    let ghost quals = before.workspaces@.filter(rp);
    // What to restore, from the state as it is.
    let mut names: Vec<String> = Vec::new();
    let mut targets: Vec<u32> = Vec::new();
    let mut i: usize = 0;
    while i < state.workspaces.len()
        invariant
            i <= before.workspaces@.len(),
            *state == before,
            rp == restorable(before),
            names@.len() == targets@.len(),
            names@.map_values(|s: String| s@) == before.workspaces@.take(i as int).filter(rp).map_values(
                |w: Workspace| w.name@,
            ),
            targets@ == before.workspaces@.take(i as int).filter(rp).map_values(
                |w: Workspace| home_screen(before, w),
            ),
        decreases before.workspaces@.len() - i,
    {
        let ghost w = before.workspaces@[i as int];
        let ghost nb = names@;
        let ghost tb = targets@;
        proof {
            assert(before.workspaces@.take(i as int + 1) =~= before.workspaces@.take(i as int).push(w));
            before.workspaces@.take(i as int).lemma_filter_push(w, rp);
        }
        if state.workspaces[i].configured_screen.unicode_len() > 0 {
            if let Some(cs) = state.screen_by_name(state.workspaces[i].configured_screen.as_str()) {
                if state.workspaces[i].screen_id != cs.id {
                    let name = state.workspaces[i].name.clone();
                    names.push(name);
                    targets.push(cs.id);
                    proof {
                        assert(names@ == nb.push(name));
                        assert(names@.map_values(|s: String| s@) =~= nb.map_values(|s: String| s@).push(
                            w.name@,
                        ));
                        assert(targets@ =~= tb.push(home_screen(before, w)));
                    }
                }
            }
        }
        proof {
            assert(names@.map_values(|s: String| s@) =~= before.workspaces@.take(i as int + 1).filter(
                rp,
            ).map_values(|w: Workspace| w.name@));
            assert(targets@ =~= before.workspaces@.take(i as int + 1).filter(rp).map_values(
                |w: Workspace| home_screen(before, w),
            ));
        }
        i = i + 1;
    }
    assert(before.workspaces@.take(before.workspaces@.len() as int) =~= before.workspaces@);
    let positions = positions_of(state, &names);
    // The windows of each, and the result.
    let mut r: Vec<RestoredWorkspace> = Vec::new();
    let mut k: usize = 0;
    while k < names.len()
        invariant
            k <= names@.len(),
            *state == before,
            names@.len() == targets@.len(),
            names@.len() == quals.len(),
            quals == before.workspaces@.filter(rp),
            rp == restorable(before),
            names@.map_values(|s: String| s@) == quals.map_values(|w: Workspace| w.name@),
            targets@ == quals.map_values(|w: Workspace| home_screen(before, w)),
            r@.len() == k,
            forall|a: int|
                0 <= a < k ==> {
                    &&& (#[trigger] r@[a]).name@ == quals[a].name@
                    &&& r@[a].screen_id == home_screen(before, quals[a])
                    &&& r@[a].window_ids@ == window_ids_like(before, quals[a].name@)
                },
        decreases names@.len() - k,
    {
        proof {
            assert(names@.map_values(|s: String| s@)[k as int] == quals.map_values(
                |w: Workspace| w.name@,
            )[k as int]);
            assert(targets@[k as int] == quals.map_values(|w: Workspace| home_screen(before, w))[k as int]);
        }
        let window_ids = window_ids_like_of(state, names[k].as_str());
        r.push(RestoredWorkspace { name: names[k].clone(), screen_id: targets[k], window_ids });
        k = k + 1;
    }
    // Reassign them.
    let n = state.workspaces.len();
    proof {
        assert forall|j: int| 0 <= j < n implies #[trigger] state.workspaces@[j] == restored(
            before,
            quals.take(0),
            j,
        ) by {
            lemma_last_index_empty(quals.take(0), found_at(before, j));
        }
    }
    let mut k: usize = 0;
    while k < positions.len()
        invariant
            k <= positions@.len(),
            positions@.len() == names@.len(),
            names@.len() == targets@.len(),
            names@.len() == quals.len(),
            quals == before.workspaces@.filter(rp),
            rp == restorable(before),
            names@.map_values(|s: String| s@) == quals.map_values(|w: Workspace| w.name@),
            targets@ == quals.map_values(|w: Workspace| home_screen(before, w)),
            forall|a: int|
                0 <= a < names@.len() ==> match #[trigger] positions@[a] {
                    Some(p) => before.workspace_position(names@[a]@) == Some(p as int),
                    None => before.workspace_position(names@[a]@) is None,
                },
            n == before.workspaces@.len(),
            state.workspaces@.len() == n,
            same_screens_and_windows(*state, before),
            state.focused_workspace == before.focused_workspace,
            state.focused_screen_id == before.focused_screen_id,
            forall|j: int|
                0 <= j < n ==> #[trigger] state.workspaces@[j] == restored(
                    before,
                    quals.take(k as int),
                    j,
                ),
        decreases positions@.len() - k,
    {
        let ghost prev = state.workspaces@;
        proof {
            assert(names@.map_values(|s: String| s@)[k as int] == names@[k as int]@);
            assert(quals.map_values(|w: Workspace| w.name@)[k as int] == quals[k as int].name@);
            assert(targets@[k as int] == home_screen(before, quals[k as int]));
        }
        if let Some(p) = positions[k] {
            state.workspaces[p].screen_id = targets[k];
        }
        proof {
            let t0 = quals.take(k as int);
            let t1 = quals.take(k as int + 1);
            assert(t1 =~= t0.push(quals[k as int]));
            assert forall|j: int| 0 <= j < n implies #[trigger] state.workspaces@[j] == restored(
                before,
                t1,
                j,
            ) by {
                let fj = found_at(before, j);
                lemma_last_index_push(t0, fj, quals[k as int]);
                if fj(quals[k as int]) {
                    assert(before.workspace_position(names@[k as int]@) == Some(j));
                    assert(positions@[k as int] == Some(j as usize));
                } else {
                    assert(state.workspaces@[j] == prev[j]);
                }
            }
        }
        k = k + 1;
    }
    assert(quals.take(quals.len() as int) =~= quals);
    r
}

/// Screens with no visible workspace but with some workspace.
pub open spec fn lacks_visible(state: TilingState) -> spec_fn(Screen) -> bool {
    |s: Screen|
        !any_match(state.workspaces@, visible_on_screen(s.id)) && any_match(
            state.workspaces@,
            workspace_on_screen(s.id),
        )
}

/// The first workspace of screen `s`.
pub open spec fn first_workspace_of(state: TilingState, s: Screen) -> Workspace {
    first_match(state.workspaces@, workspace_on_screen(s.id)).unwrap()
}

/// Shows the first workspace of every screen that has workspaces but no
/// visible one, and returns their names, in screen order.
pub fn ensure_visible_workspaces(state: &mut TilingState) -> (r: Vec<String>)
    ensures
        same_screens_and_windows(*final(state), *old(state)),
        final(state).focused_workspace == old(state).focused_workspace,
        final(state).focused_screen_id == old(state).focused_screen_id,
        ({
            let names = old(state).screens@.filter(lacks_visible(*old(state))).map_values(
                |s: Screen| first_workspace_of(*old(state), s).name@,
            );
            &&& r@.map_values(|s: String| s@) == names
            &&& final(state).workspaces@.len() == old(state).workspaces@.len()
            &&& forall|j: int|
                0 <= j < old(state).workspaces@.len() ==> #[trigger] final(state).workspaces@[j]
                    == if found_by_some(*old(state), names, j) {
                    Workspace { is_visible: true, ..old(state).workspaces@[j] }
                } else {
                    old(state).workspaces@[j]
                }
        }),
{
    let ghost before = *state;
    let ghost lp = lacks_visible(before);
    let ghost nameof = |s: Screen| first_workspace_of(before, s).name@;
    let mut names: Vec<String> = Vec::new();
    let mut i: usize = 0;
    while i < state.screens.len()
        invariant
            i <= before.screens@.len(),
            *state == before,
            lp == lacks_visible(before),
            nameof == (|s: Screen| first_workspace_of(before, s).name@),
            names@.map_values(|s: String| s@) == before.screens@.take(i as int).filter(lp).map_values(
                nameof,
            ),
        decreases before.screens@.len() - i,
    {
        let ghost sc = before.screens@[i as int];
        let ghost nb = names@;
        proof {
            assert(before.screens@.take(i as int + 1) =~= before.screens@.take(i as int).push(sc));
            before.screens@.take(i as int).lemma_filter_push(sc, lp);
            lemma_first_index_none(before.workspaces@, visible_on_screen(sc.id));
            lemma_first_index_none(before.workspaces@, workspace_on_screen(sc.id));
        }
        let sid = state.screens[i].id;
        let fv = |w: &Workspace| -> (b: bool)
            ensures
                b == (w.screen_id == sid && w.is_visible),
            {
                let b = w.screen_id == sid && w.is_visible;
                b
            };
        let has_visible = position_first(&state.workspaces, &fv, Ghost(visible_on_screen(sid))).is_some();
        if !has_visible {
            let fo = |w: &Workspace| -> (b: bool)
                ensures
                    b == (w.screen_id == sid),
                {
                    let b = w.screen_id == sid;
                    b
                };
            if let Some(j) = position_first(&state.workspaces, &fo, Ghost(workspace_on_screen(sid))) {
                let name = state.workspaces[j].name.clone();
                names.push(name);
                proof {
                    assert(names@.map_values(|s: String| s@) =~= nb.map_values(|s: String| s@).push(
                        nameof(sc),
                    ));
                }
            }
        }
        proof {
            assert(names@.map_values(|s: String| s@) =~= before.screens@.take(i as int + 1).filter(
                lp,
            ).map_values(nameof));
        }
        i = i + 1;
    }
    assert(before.screens@.take(before.screens@.len() as int) =~= before.screens@);
    let ghost nv = names@.map_values(|s: String| s@);
    let positions = positions_of(state, &names);
    let n = state.workspaces.len();
    let mut k: usize = 0;
    while k < positions.len()
        invariant
            k <= positions@.len(),
            positions@.len() == nv.len(),
            n == before.workspaces@.len(),
            state.workspaces@.len() == n,
            same_screens_and_windows(*state, before),
            state.focused_workspace == before.focused_workspace,
            state.focused_screen_id == before.focused_screen_id,
            nv == names@.map_values(|s: String| s@),
            forall|a: int|
                0 <= a < names@.len() ==> match #[trigger] positions@[a] {
                    Some(p) => before.workspace_position(names@[a]@) == Some(p as int),
                    None => before.workspace_position(names@[a]@) is None,
                },
            forall|j: int|
                0 <= j < n ==> #[trigger] state.workspaces@[j] == if found_by_some(
                    before,
                    nv.take(k as int),
                    j,
                ) {
                    Workspace { is_visible: true, ..before.workspaces@[j] }
                } else {
                    before.workspaces@[j]
                },
        decreases positions@.len() - k,
    {
        proof {
            assert forall|j: int| 0 <= j < n implies found_by_some(before, nv.take(k as int + 1), j)
                == (found_by_some(before, nv.take(k as int), j) || before.workspace_position(
                nv[k as int],
            ) == Some(j)) by {
                if found_by_some(before, nv.take(k as int), j) {
                    let a = choose|a: int|
                        0 <= a < k && before.workspace_position(#[trigger] nv.take(k as int)[a])
                            == Some(j);
                    assert(nv.take(k as int + 1)[a] == nv.take(k as int)[a]);
                }
                if found_by_some(before, nv.take(k as int + 1), j) {
                    let a = choose|a: int|
                        0 <= a < k + 1 && before.workspace_position(
                            #[trigger] nv.take(k as int + 1)[a],
                        ) == Some(j);
                    if a < k {
                        assert(nv.take(k as int)[a] == nv.take(k as int + 1)[a]);
                    }
                }
                if before.workspace_position(nv[k as int]) == Some(j) {
                    assert(nv.take(k as int + 1)[k as int] == nv[k as int]);
                }
            }
        }
        if let Some(p) = positions[k] {
            state.workspaces[p].is_visible = true;
        }
        k = k + 1;
    }
    assert(nv.take(nv.len() as int) =~= nv);
    names
}

} // verus!
