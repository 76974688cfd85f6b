//! Window bookkeeping of the tiling manager.
//!
//! Tracking and untracking windows, renaming a window ID, moving the focus
//! inside a workspace, swapping two windows and sending the focused window
//! to another workspace. Each function changes only the tiling state and
//! returns what the caller needs to update the screen.

use vstd::prelude::*;

use crate::borders::manager::BorderState;
use crate::manager::border_states::{determine_border_state, layout_border_state_spec};
use crate::search::{any_match, first_index, first_match, lemma_first_index_none, position_first};
use crate::state::{window_has_id, TilingState, TrackedWindow, Workspace};
use crate::text::{eq_ignore_ascii_case, eq_ignore_case, opt_chars, owned, str_equal};

verus! {

/// Whether two workspaces agree on everything but their windows and the
/// focused position.
pub open spec fn same_but_windows(a: Workspace, b: Workspace) -> bool {
    &&& a.name == b.name
    &&& a.screen_id == b.screen_id
    &&& a.configured_screen == b.configured_screen
    &&& a.original_screen_id == b.original_screen_id
    &&& a.layout == b.layout
    &&& a.is_visible == b.is_visible
    &&& a.is_focused == b.is_focused
}

/// Whether `b` is `a` with window `id` appended.
pub open spec fn window_appended(a: Workspace, b: Workspace, id: u32) -> bool {
    &&& same_but_windows(a, b)
    &&& b.window_ids@ == a.window_ids@.push(id)
    &&& b.focused_window_index == a.focused_window_index
}

/// The window ID `id`.
pub open spec fn id_is(id: u32) -> spec_fn(u32) -> bool {
    |x: u32| x == id
}

/// Window IDs other than `id`.
pub open spec fn other_than(id: u32) -> spec_fn(u32) -> bool {
    |x: u32| x != id
}

/// The focused position after the windows shrank to `len`: kept while in
/// range, else the last position, and none once the workspace is empty.
pub open spec fn clamp_focus(focused: Option<usize>, len: nat) -> Option<usize> {
    match focused {
        Some(f) => if f >= len {
            if len == 0 {
                None
            } else {
                Some((len - 1) as usize)
            }
        } else {
            Some(f)
        },
        None => None,
    }
}

/// Whether `b` is `a` with window `id` removed and the focus clamped.
pub open spec fn window_removed(a: Workspace, b: Workspace, id: u32) -> bool {
    &&& same_but_windows(a, b)
    &&& b.window_ids@ == a.window_ids@.filter(other_than(id))
    &&& b.focused_window_index == clamp_focus(
        a.focused_window_index,
        a.window_ids@.filter(other_than(id)).len(),
    )
}

/// Whether `a` and `b` hold the same screens, windows, focus and index.
pub open spec fn same_outside_workspaces(a: TilingState, b: TilingState) -> bool {
    &&& a.screens@ == b.screens@
    &&& a.windows@ == b.windows@
    &&& a.focused_workspace == b.focused_workspace
    &&& a.focused_screen_id == b.focused_screen_id
    &&& a.workspace_index@ == b.workspace_index@
}

/// Whether a list of window IDs holds `id`.
fn holds_window(ids: &Vec<u32>, id: u32) -> (r: bool)
    ensures
        r == ids@.contains(id),
{
    let mut i: usize = 0;
    while i < ids.len()
        invariant
            i <= ids@.len(),
            forall|k: int| 0 <= k < i ==> ids@[k] != id,
        decreases ids@.len() - i,
    {
        if ids[i] == id {
            return true;
        }
        i = i + 1;
    }
    false
}

/// The first position of `id` in a list of window IDs.
fn position_of_window(ids: &Vec<u32>, id: u32) -> (r: Option<usize>)
    ensures
        match r {
            Some(j) => first_index(ids@, id_is(id)) == Some(j as int),
            None => first_index(ids@, id_is(id)) is None,
        },
{
    let f = |x: &u32| -> (b: bool)
        ensures
            b == (*x == id),
        {
            let b = *x == id;
            b
        };
    position_first(ids, &f, Ghost(id_is(id)))
}

// ============================================================================
// Tracking
// ============================================================================

/// Whether `after` and `r` are what adding `window` to `before` gives, as
/// `add_window_to_state` describes.
pub open spec fn window_added(before: TilingState, after: TilingState, window: TrackedWindow, r: bool) -> bool {
    &&& after.windows@ =~= before.windows@.push(window)
    &&& after.screens@ =~= before.screens@
    &&& after.focused_workspace == before.focused_workspace
    &&& after.focused_screen_id == before.focused_screen_id
    &&& after.workspace_index@ =~= before.workspace_index@
    &&& match before.workspace_position(window.workspace_name@) {
        Some(i) => if before.workspaces@[i].window_ids@.contains(window.id) {
            &&& after.workspaces@ =~= before.workspaces@
            &&& !r
        } else {
            &&& after.workspaces@.len() == before.workspaces@.len()
            &&& window_appended(before.workspaces@[i], after.workspaces@[i], window.id)
            &&& forall|j: int|
                0 <= j < before.workspaces@.len() && j != i ==> #[trigger] after.workspaces@[j] == before.workspaces@[j]
            &&& r == before.workspaces@[i].is_visible
        },
        None => {
            &&& after.workspaces@ =~= before.workspaces@
            &&& !r
        },
    }
}

/// Adds a tracked window to the state and to its workspace's window list.
///
/// Returns whether that workspace is visible; `false` when no workspace has
/// the window's workspace name or the workspace already lists the window.
pub fn add_window_to_state(state: &mut TilingState, window: TrackedWindow) -> (r: bool)
    ensures
        window_added(*old(state), *final(state), window, r),
{
    let workspace_name = window.workspace_name.clone();
    let window_id = window.id;
    state.windows.push(window);
    match state.workspace_by_name_mut(workspace_name.as_str()) {
        Some(ws) => {
            if !holds_window(&ws.window_ids, window_id) {
                ws.window_ids.push(window_id);
                ws.is_visible
            } else {
                false
            }
        },
        None => false,
    }
}

/// The workspace that a window goes to when no rule assigns it elsewhere:
/// the focused workspace, or "workspace-1" when none is focused.
pub open spec fn fallback_workspace_spec(state: TilingState) -> Seq<char> {
    match state.focused_workspace {
        Some(n) => n@,
        None => "workspace-1"@,
    }
}

/// Returns the workspace that a window goes to when no rule assigns it.
pub fn fallback_workspace(state: &TilingState) -> (r: String)
    ensures
        r@ == fallback_workspace_spec(*state),
{
    match &state.focused_workspace {
        Some(n) => n.clone(),
        None => owned("workspace-1"),
    }
}

/// What tracking a new window reports to the caller.
pub struct NewWindow {
    /// Whether the window's workspace is visible, so that its layout is
    /// applied again.
    pub workspace_is_visible: bool,
    /// The border state the window starts in.
    pub border: BorderState,
}

/// The border state of window `id` in workspace `name`, as
/// `determine_border_state` gives it.
pub open spec fn border_state_in(state: TilingState, id: u32, name: Seq<char>) -> BorderState {
    match state.workspace_lookup(name) {
        Some(w) => layout_border_state_spec(w.layout, w.focused_window() == Some(id)),
        None => BorderState::Unfocused,
    }
}

/// Whether `after` and `r` are what tracking `window` in `before` gives, as
/// `track_new_window` describes.
pub open spec fn window_tracked(before: TilingState, after: TilingState, window: TrackedWindow, r: Option<NewWindow>) -> bool {
    &&& if any_match(before.windows@, window_has_id(window.id)) {
        r is None && after == before
    } else {
        &&& r matches Some(n)
        &&& window_added(before, after, window, n.workspace_is_visible)
        &&& n.border == border_state_in(after, window.id, window.workspace_name@)
    }
}

/// Tracks a window that is not tracked yet, in the workspace its
/// `workspace_name` holds (the caller has applied the ignore and assignment
/// rules), and chooses the border state it starts in.
///
/// A window whose ID is already tracked is left alone and `None` returned.
pub fn track_new_window(state: &mut TilingState, window: TrackedWindow) -> (r: Option<NewWindow>)
    ensures
        window_tracked(*old(state), *final(state), window, r),
{
    if state.window_by_id(window.id).is_some() {
        proof {
            let k = first_index(state.windows@, window_has_id(window.id)).unwrap();
            crate::search::lemma_first_index_is(state.windows@, window_has_id(window.id), k);
        }
        return None;
    }
    proof {
        lemma_first_index_none(state.windows@, window_has_id(window.id));
    }
    let id = window.id;
    let name = window.workspace_name.clone();
    let visible = add_window_to_state(state, window);
    let border = determine_border_state(state, id, name.as_str());
    Some(NewWindow { workspace_is_visible: visible, border })
}

/// What untracking a window leaves for the caller.
pub struct UntrackedWindow {
    /// The window that was removed.
    pub window: TrackedWindow,
    /// Whether its workspace is visible (its layout is then re-applied).
    pub workspace_is_visible: bool,
}

/// Whether `after` and `r` are what removing window `window_id` from
/// `before` gives, as `untrack_window` describes.
pub open spec fn window_untracked(
    before: TilingState,
    after: TilingState,
    window_id: u32,
    r: Option<UntrackedWindow>,
) -> bool {
    &&& after.screens@ =~= before.screens@
    &&& after.focused_workspace == before.focused_workspace
    &&& after.focused_screen_id == before.focused_screen_id
    &&& after.workspace_index@ =~= before.workspace_index@
    &&& match first_index(before.windows@, window_has_id(window_id)) {
        None => r is None && after == before,
        Some(k) => {
            let w = before.windows@[k];
            &&& r matches Some(u) && u.window == w
            &&& after.windows@ =~= before.windows@.remove(k)
            &&& match before.workspace_position(w.workspace_name@) {
                Some(i) => {
                    &&& after.workspaces@.len() == before.workspaces@.len()
                    &&& window_removed(
                        before.workspaces@[i],
                        after.workspaces@[i],
                        window_id,
                    )
                    &&& forall|j: int|
                        0 <= j < before.workspaces@.len() && j != i ==> #[trigger] after.workspaces@[j] == before.workspaces@[j]
                    &&& r.unwrap().workspace_is_visible == before.workspaces@[i].is_visible
                },
                None => {
                    &&& after.workspaces@ =~= before.workspaces@
                    &&& !r.unwrap().workspace_is_visible
                },
            }
        },
    }
}

/// Removes window `window_id` from the state and from its workspace, whose
/// focused position is clamped to the windows that remain.
pub fn untrack_window(state: &mut TilingState, window_id: u32) -> (r: Option<UntrackedWindow>)
    ensures
        window_untracked(*old(state), *final(state), window_id, r),
{
    let f = |w: &TrackedWindow| -> (b: bool)
        ensures
            b == (w.id == window_id),
        {
            let b = w.id == window_id;
            b
        };
    let idx = match position_first(&state.windows, &f, Ghost(window_has_id(window_id))) {
        Some(i) => i,
        None => return None,
    };
    let window = state.windows.remove(idx);
    let visible = match state.workspace_by_name_mut(window.workspace_name.as_str()) {
        Some(ws) => {
            let is_visible = ws.is_visible;
            let ghost ids = ws.window_ids@;
            let mut kept: Vec<u32> = Vec::new();
            let mut i: usize = 0;
            while i < ws.window_ids.len()
                invariant
                    i <= ids.len(),
                    ws.window_ids@ == ids,
                    kept@ == ids.take(i as int).filter(other_than(window_id)),
                decreases ids.len() - i,
            {
                proof {
                    assert(ids.take(i as int + 1) =~= ids.take(i as int).push(ids[i as int]));
                    ids.take(i as int).lemma_filter_push(ids[i as int], other_than(window_id));
                }
                if ws.window_ids[i] != window_id {
                    kept.push(ws.window_ids[i]);
                }
                i = i + 1;
            }
            assert(ids.take(ids.len() as int) =~= ids);
            ws.window_ids = kept;
            if let Some(focused) = ws.focused_window_index {
                if focused >= ws.window_ids.len() {
                    ws.focused_window_index = if ws.window_ids.len() == 0 {
                        None
                    } else {
                        Some(ws.window_ids.len() - 1)
                    };
                }
            }
            is_visible
        },
        None => false,
    };
    Some(UntrackedWindow { window, workspace_is_visible: visible })
}

/// Whether `after` and `r` are what replacing the ID `old_id` by `new_id`
/// in `before` gives, as `swap_window_id` describes.
pub open spec fn id_replaced(before: TilingState, after: TilingState, old_id: u32, new_id: u32, r: bool) -> bool {
    &&& after.screens@ =~= before.screens@
    &&& after.focused_workspace == before.focused_workspace
    &&& after.focused_screen_id == before.focused_screen_id
    &&& after.workspace_index@ =~= before.workspace_index@
    &&& match first_index(before.windows@, window_has_id(old_id)) {
        None => !r && after == before,
        Some(k) => {
            let w = before.windows@[k];
            &&& r
            &&& after.windows@ =~= before.windows@.update(
                k,
                (TrackedWindow { id: new_id, ..w }),
            )
            &&& match before.workspace_position(w.workspace_name@) {
                Some(i) => match first_index(
                    before.workspaces@[i].window_ids@,
                    id_is(old_id),
                ) {
                    Some(j) => {
                        &&& after.workspaces@.len() == before.workspaces@.len()
                        &&& same_but_windows(
                            before.workspaces@[i],
                            after.workspaces@[i],
                        )
                        &&& after.workspaces@[i].window_ids@ == before.workspaces@[i].window_ids@.update(j, new_id)
                        &&& after.workspaces@[i].focused_window_index == before.workspaces@[i].focused_window_index
                        &&& forall|m: int|
                            0 <= m < before.workspaces@.len() && m != i ==> #[trigger] after.workspaces@[m]
                                == before.workspaces@[m]
                    },
                    None => after.workspaces@ =~= before.workspaces@,
                },
                None => after.workspaces@ =~= before.workspaces@,
            }
        },
    }
}

/// Replaces the ID of a tracked window, in the window list and in its
/// workspace, without changing anything else. Returns whether a window had
/// ID `old_id`.
pub fn swap_window_id(state: &mut TilingState, old_id: u32, new_id: u32) -> (r: bool)
    ensures
        id_replaced(*old(state), *final(state), old_id, new_id, r),
{
    let f = |w: &TrackedWindow| -> (b: bool)
        ensures
            b == (w.id == old_id),
        {
            let b = w.id == old_id;
            b
        };
    let k = match position_first(&state.windows, &f, Ghost(window_has_id(old_id))) {
        Some(k) => k,
        None => return false,
    };
    state.windows[k].id = new_id;
    let workspace_name = state.windows[k].workspace_name.clone();
    if let Some(ws) = state.workspace_by_name_mut(workspace_name.as_str()) {
        if let Some(j) = position_of_window(&ws.window_ids, old_id) {
            ws.window_ids.set(j, new_id);
        }
    }
    true
}

/// The workspace a lookup by the focused workspace name finds.
pub open spec fn focused_workspace_spec(state: TilingState) -> Option<Workspace> {
    match state.focused_workspace {
        Some(n) => state.workspace_lookup(n@),
        None => None,
    }
}

/// How the focus moved inside a workspace.
pub struct FocusChange {
    /// The window that was focused in that workspace before.
    pub previous: Option<u32>,
}

/// Whether `after` and `r` are what making `window_id` the focused window
/// of workspace `workspace_name` in `before` gives, as `set_focused_window`
/// describes.
pub open spec fn focus_set(
    before: TilingState,
    after: TilingState,
    workspace_name: Seq<char>,
    window_id: u32,
    r: Option<FocusChange>,
) -> bool {
    &&& after.screens@ =~= before.screens@
    &&& after.windows@ =~= before.windows@
    &&& after.workspace_index@ =~= before.workspace_index@
    &&& match before.workspace_position(workspace_name) {
        Some(i) => match first_index(
            before.workspaces@[i].window_ids@,
            id_is(window_id),
        ) {
            Some(j) => {
                let ws = before.workspaces@;
                &&& r matches Some(c) && c.previous == ws[i].focused_window()
                &&& after.workspaces@.len() == ws.len()
                &&& forall|m: int|
                    0 <= m < ws.len() ==> #[trigger] after.workspaces@[m] == (
                    Workspace {
                        is_focused: eq_ignore_case(ws[m].name@, workspace_name),
                        focused_window_index: if m == i {
                            Some(j as usize)
                        } else {
                            ws[m].focused_window_index
                        },
                        ..ws[m]
                    })
                &&& opt_chars(after.focused_workspace) == Some(workspace_name)
                &&& after.focused_screen_id == Some(ws[i].screen_id)
            },
            None => r is None && after == before,
        },
        None => r is None && after == before,
    }
}

/// Makes `window_id` the focused window of workspace `workspace_name`, and
/// that workspace the focused one (on its screen). Nothing changes, and
/// `None` is returned, when the workspace does not list the window.
pub fn set_focused_window(state: &mut TilingState, workspace_name: &str, window_id: u32) -> (r:
    Option<FocusChange>)
    ensures
        focus_set(*old(state), *final(state), workspace_name@, window_id, r),
{
    let ghost before = *state;
    let (i, previous, screen_id) = match state.workspace_position_of(workspace_name) {
        Some(i) => (i, state.workspaces[i].focused_window_id(), state.workspaces[i].screen_id),
        None => return None,
    };
    let j = match position_of_window(&state.workspaces[i].window_ids, window_id) {
        Some(j) => j,
        None => return None,
    };
    state.workspaces[i].focused_window_index = Some(j);
    let n = state.workspaces.len();
    let mut m: usize = 0;
    while m < n
        invariant
            m <= n,
            n == before.workspaces@.len(),
            i < n,
            state.workspaces@.len() == n,
            same_outside_workspaces(*state, before),
            forall|a: int|
                0 <= a < m ==> #[trigger] state.workspaces@[a] == (Workspace {
                    is_focused: eq_ignore_case(before.workspaces@[a].name@, workspace_name@),
                    focused_window_index: if a == i {
                        Some(j)
                    } else {
                        before.workspaces@[a].focused_window_index
                    },
                    ..before.workspaces@[a]
                }),
            forall|a: int|
                m <= a < n ==> #[trigger] state.workspaces@[a] == (Workspace {
                    focused_window_index: if a == i {
                        Some(j)
                    } else {
                        before.workspaces@[a].focused_window_index
                    },
                    ..before.workspaces@[a]
                }),
        decreases n - m,
    {
        let v = eq_ignore_ascii_case(state.workspaces[m].name.as_str(), workspace_name);
        state.workspaces[m].is_focused = v;
        m = m + 1;
    }
    state.focused_workspace = Some(owned(workspace_name));
    state.focused_screen_id = Some(screen_id);
    Some(FocusChange { previous })
}

/// The window to focus when the focus cycles inside the focused workspace.
pub struct FocusTarget {
    /// The focused workspace.
    pub workspace: String,
    /// The position of the window to focus.
    pub index: usize,
    /// The window to focus.
    pub window_id: u32,
}

/// The position that cycling moves the focus to: the next one (after the
/// last comes the first) or the previous one (before the first comes the
/// last), starting from the focused position, or the first without one.
pub open spec fn cycled_index(focused: Option<usize>, len: nat, forward: bool) -> int {
    let current: int = match focused {
        Some(f) => f as int,
        None => 0,
    };
    if forward {
        (current + 1) % (len as int)
    } else if current == 0 {
        len - 1
    } else {
        current - 1
    }
}

/// Chooses the window that cycling the focus forward or backward moves to in
/// the focused workspace; `None` without a focused workspace or when it has
/// no windows.
pub fn focus_cycle_target(state: &TilingState, forward: bool) -> (r: Option<FocusTarget>)
    requires
        !forward ==> (focused_workspace_spec(*state) matches Some(w) ==> (
        w.focused_window_index matches Some(f) ==> f <= w.window_ids@.len())),
    ensures
        match focused_workspace_spec(*state) {
            Some(w) => if w.window_ids@.len() == 0 {
                r is None
            } else {
                let k = cycled_index(w.focused_window_index, w.window_ids@.len(), forward);
                &&& r matches Some(t)
                &&& t.workspace@ == w.name@
                &&& t.index == k
                &&& t.window_id == w.window_ids@[k]
            },
            None => r is None,
        },
{
    let ws = match state.focused_workspace() {
        Some(ws) => ws,
        None => return None,
    };
    let len = ws.window_ids.len();
    if len == 0 {
        return None;
    }
    let current: usize = match ws.focused_window_index {
        Some(f) => f,
        None => 0,
    };
    let index: usize = if forward {
        if len == 1 {
            proof {
                vstd::arithmetic::div_mod::lemma_mod_multiples_basic(current as int + 1, 1);
            }
            0
        } else {
            proof {
                vstd::arithmetic::div_mod::lemma_add_mod_noop(current as int, 1, len as int);
                vstd::arithmetic::div_mod::lemma_mod_twice(current as int, len as int);
                vstd::arithmetic::div_mod::lemma_small_mod(1nat, len as nat);
            }
            (current % len + 1) % len
        }
    } else if current == 0 {
        len - 1
    } else {
        current - 1
    };
    Some(FocusTarget { workspace: ws.name.clone(), index, window_id: ws.window_ids[index] })
}

/// Records `index` as the focused position of workspace `workspace_name`.
pub fn set_focused_index(state: &mut TilingState, workspace_name: &str, index: usize)
    ensures
        final(state).screens@ == old(state).screens@,
        final(state).windows@ == old(state).windows@,
        final(state).focused_workspace == old(state).focused_workspace,
        final(state).focused_screen_id == old(state).focused_screen_id,
        final(state).workspace_index@ == old(state).workspace_index@,
        match old(state).workspace_position(workspace_name@) {
            Some(i) => final(state).workspaces@ == old(state).workspaces@.update(
                i,
                (Workspace { focused_window_index: Some(index), ..old(state).workspaces@[i] }),
            ),
            None => final(state).workspaces@ == old(state).workspaces@,
        },
{
    if let Some(ws) = state.workspace_by_name_mut(workspace_name) {
        ws.focused_window_index = Some(index);
    }
}

/// Two windows that changed places in a workspace.
pub struct WindowSwap {
    /// The workspace of both windows.
    pub workspace: String,
    /// The position of the first window before the swap.
    pub index_a: usize,
    /// The position of the second window before the swap.
    pub index_b: usize,
}

/// The focused position after the windows at `a` and `b` changed places:
/// the focus stays on the same window.
pub open spec fn swapped_focus(focused: Option<usize>, a: usize, b: usize) -> Option<usize> {
    match focused {
        Some(f) => if f == a {
            Some(b)
        } else if f == b {
            Some(a)
        } else {
            Some(f)
        },
        None => None,
    }
}

/// Whether `after` and `r` are what swapping windows `window_id_a` and
/// `window_id_b` in `before` gives, as `swap_windows_by_id` describes.
pub open spec fn windows_swapped(before: TilingState, after: TilingState, window_id_a: u32, window_id_b: u32, r: Option<WindowSwap>) -> bool {
    &&& after.screens@ =~= before.screens@
    &&& after.windows@ =~= before.windows@
    &&& after.focused_workspace == before.focused_workspace
    &&& after.focused_screen_id == before.focused_screen_id
    &&& after.workspace_index@ =~= before.workspace_index@
    &&& {
        let ws = before.workspaces@;
        let wa = first_match(before.windows@, window_has_id(window_id_a));
        let wb = first_match(before.windows@, window_has_id(window_id_b));
        let name = wa.unwrap().workspace_name@;
        let pos = before.workspace_position(name);
        let ids = ws[pos.unwrap()].window_ids@;
        let ia = first_index(ids, id_is(window_id_a));
        let ib = first_index(ids, id_is(window_id_b));
        if window_id_a != window_id_b && wa is Some && wb is Some && wb.unwrap().workspace_name@
            == name && pos is Some && ia is Some && ib is Some {
            let i = pos.unwrap();
            let (a, b) = (ia.unwrap(), ib.unwrap());
            &&& r matches Some(sw) && sw.workspace@ == name && sw.index_a == a && sw.index_b == b
            &&& after.workspaces@.len() == ws.len()
            &&& same_but_windows(ws[i], after.workspaces@[i])
            &&& after.workspaces@[i].window_ids@ == ids.update(a, ids[b]).update(b, ids[a])
            &&& after.workspaces@[i].focused_window_index == swapped_focus(
                ws[i].focused_window_index,
                a as usize,
                b as usize,
            )
            &&& forall|m: int|
                0 <= m < ws.len() && m != i ==> #[trigger] after.workspaces@[m] == ws[m]
        } else {
            r is None && after.workspaces@ =~= ws
        }
    }
}

/// Swaps windows `window_id_a` and `window_id_b` in their workspace.
///
/// Both windows must be tracked, distinct and name the same workspace
/// (compared exactly), and that workspace must list both; otherwise nothing
/// changes and `None` is returned. The focus stays on the window it was on.
pub fn swap_windows_by_id(state: &mut TilingState, window_id_a: u32, window_id_b: u32) -> (r:
    Option<WindowSwap>)
    ensures
        windows_swapped(*old(state), *final(state), window_id_a, window_id_b, r),
{
    if window_id_a == window_id_b {
        return None;
    }
    let name = match state.window_by_id(window_id_a) {
        Some(w) => w.workspace_name.clone(),
        None => return None,
    };
    match state.window_by_id(window_id_b) {
        Some(w) => if !str_equal(w.workspace_name.as_str(), name.as_str()) {
            return None;
        },
        None => return None,
    }
    let i = match state.workspace_position_of(name.as_str()) {
        Some(i) => i,
        None => return None,
    };
    let index_a = match position_of_window(&state.workspaces[i].window_ids, window_id_a) {
        Some(a) => a,
        None => return None,
    };
    let index_b = match position_of_window(&state.workspaces[i].window_ids, window_id_b) {
        Some(b) => b,
        None => return None,
    };
    let ws = &mut state.workspaces[i];
    let id_a = ws.window_ids[index_a];
    let id_b = ws.window_ids[index_b];
    ws.window_ids.set(index_a, id_b);
    ws.window_ids.set(index_b, id_a);
    if let Some(focused) = ws.focused_window_index {
        if focused == index_a {
            ws.focused_window_index = Some(index_b);
        } else if focused == index_b {
            ws.focused_window_index = Some(index_a);
        }
    }
    Some(WindowSwap { workspace: name, index_a, index_b })
}

/// A window sent from one workspace to another.
pub struct WindowMove {
    /// The window that was sent.
    pub window_id: u32,
    /// The workspace it left (the focused one).
    pub source_workspace: String,
}

/// Whether `after` and `r` are what sending the focused window of `before` to
/// workspace `target` gives, as `send_window_to_workspace` describes.
pub open spec fn window_sent(before: TilingState, after: TilingState, target: Seq<char>, r: Option<WindowMove>) -> bool {
    &&& after.screens@ == before.screens@
    &&& after.focused_workspace == before.focused_workspace
    &&& after.focused_screen_id == before.focused_screen_id
    &&& after.workspace_index@ == before.workspace_index@
    &&& {
        let ws = before.workspaces@;
        let src = focused_workspace_spec(before);
        let fidx: int = match src.unwrap().focused_window_index {
            Some(f) => f as int,
            None => 0,
        };
        let ids = src.unwrap().window_ids@;
        let si = before.workspace_position(src.unwrap().name@);
        let ti = before.workspace_position(target);
        if src is Some && fidx < ids.len() && ti is Some && src.unwrap().name@ != target {
            let id = ids[fidx];
            let s = si.unwrap();
            let t = ti.unwrap();
            let kept = ws[s].window_ids@.filter(other_than(id));
            &&& r matches Some(mv) && mv.window_id == id && mv.source_workspace@ == src.unwrap().name@
            &&& after.workspaces@.len() == ws.len()
            &&& if s == t {
                &&& same_but_windows(ws[s], after.workspaces@[s])
                &&& after.workspaces@[s].window_ids@ == kept.push(id)
                &&& after.workspaces@[s].focused_window_index == Some(kept.len() as usize)
            } else {
                &&& same_but_windows(ws[s], after.workspaces@[s])
                &&& after.workspaces@[s].window_ids@ == kept
                &&& after.workspaces@[s].focused_window_index == (if kept.len() == 0 {
                    None
                } else if fidx >= kept.len() {
                    Some((kept.len() - 1) as usize)
                } else {
                    ws[s].focused_window_index
                })
                &&& same_but_windows(ws[t], after.workspaces@[t])
                &&& after.workspaces@[t].window_ids@ == ws[t].window_ids@.push(id)
                &&& after.workspaces@[t].focused_window_index == Some(
                    ws[t].window_ids@.len() as usize,
                )
            }
            &&& forall|m: int|
                0 <= m < ws.len() && m != s && m != t ==> #[trigger] after.workspaces@[m]
                    == ws[m]
            &&& match first_index(before.windows@, window_has_id(id)) {
                Some(k) => after.windows@.len() == before.windows@.len()
                    && after.windows@[k].workspace_name@ == target && after.windows@[k] == (TrackedWindow {
                    workspace_name: after.windows@[k].workspace_name,
                    ..before.windows@[k]
                }) && forall|m: int|
                    0 <= m < before.windows@.len() && m != k ==> #[trigger] after.windows@[m] == before.windows@[m],
                None => after.windows@ == before.windows@,
            }
        } else {
            r is None && after == before
        }
    }
}

/// Sends the focused window of the focused workspace to workspace `target`.
///
/// The window leaves the source list (whose focus is clamped), is appended
/// to the target list and focused there, and its tracked workspace becomes
/// `target`. Nothing changes, and `None` is returned, without a focused
/// workspace, without a window at its focused position (the first one when
/// none is focused), without a workspace named `target`, or when `target`
/// is the source's own name.
pub fn send_window_to_workspace(state: &mut TilingState, target: &str) -> (r: Option<WindowMove>)
    ensures
        window_sent(*old(state), *final(state), target@, r),
{
    let (source, fidx, window_id) = match state.focused_workspace() {
        Some(ws) => {
            let fidx: usize = match ws.focused_window_index {
                Some(f) => f,
                None => 0,
            };
            if fidx >= ws.window_ids.len() {
                return None;
            }
            (ws.name.clone(), fidx, ws.window_ids[fidx])
        },
        None => return None,
    };
    let ghost before = *state;
    proof {
        crate::state::lemma_lookup_by_found_name(before, before.focused_workspace.unwrap()@);
    }
    let t = match state.workspace_position_of(target) {
        Some(t) => t,
        None => return None,
    };
    if str_equal(source.as_str(), target) {
        return None;
    }
    let s = match state.workspace_position_of(source.as_str()) {
        Some(s) => s,
        None => return None,
    };
    // Leave the source.
    let ghost ids = state.workspaces@[s as int].window_ids@;
    let mut kept: Vec<u32> = Vec::new();
    let mut i: usize = 0;
    while i < state.workspaces[s].window_ids.len()
        invariant
            s < state.workspaces@.len(),
            i <= ids.len(),
            state.workspaces@[s as int].window_ids@ == ids,
            kept@ == ids.take(i as int).filter(other_than(window_id)),
        decreases ids.len() - i,
    {
        proof {
            assert(ids.take(i as int + 1) =~= ids.take(i as int).push(ids[i as int]));
            ids.take(i as int).lemma_filter_push(ids[i as int], other_than(window_id));
        }
        if state.workspaces[s].window_ids[i] != window_id {
            kept.push(state.workspaces[s].window_ids[i]);
        }
        i = i + 1;
    }
    assert(ids.take(ids.len() as int) =~= ids);
    let kept_len = kept.len();
    state.workspaces[s].window_ids = kept;
    if kept_len == 0 {
        state.workspaces[s].focused_window_index = None;
    } else if fidx >= kept_len {
        state.workspaces[s].focused_window_index = Some(kept_len - 1);
    }
    // Join the target.
    state.workspaces[t].window_ids.push(window_id);
    let last = state.workspaces[t].window_ids.len() - 1;
    state.workspaces[t].focused_window_index = Some(last);
    // Follow the window.
    if let Some(w) = state.window_by_id_mut(window_id) {
        w.workspace_name = owned(target);
    }
    Some(WindowMove { window_id, source_workspace: source })
}

} // verus!
