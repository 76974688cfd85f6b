//! The agreement between the workspaces' window lists and the tracked
//! windows, and the operations that keep it.
//!
//! The state agrees when no two tracked windows share an ID, no workspace
//! lists a window twice, and every window that a workspace lists is a
//! tracked window whose workspace name finds that same workspace. Tracking, untracking, sending and swapping windows, and
//! moving the focus, keep the agreement.

use vstd::prelude::*;

use crate::manager::screens::{after_move_other, after_move_self};
use crate::manager::workspaces::switched;
use crate::manager::windows::{
    focus_set, id_is, id_replaced, other_than, same_but_windows, window_added, window_sent,
    window_untracked,
    FocusChange, UntrackedWindow, WindowMove,
};
use crate::search::{any_match, first_index, is_first, lemma_first_index_is, lemma_first_index_none};
use crate::state::{window_has_id, workspace_named_like, TilingState, TrackedWindow};

verus! {

/// No two tracked windows share an ID.
pub open spec fn unique_window_ids(state: TilingState) -> bool {
    forall|m: int, n: int|
        0 <= m < state.windows@.len() && 0 <= n < state.windows@.len() && m != n
            ==> #[trigger] state.windows@[m].id != #[trigger] state.windows@[n].id
}

/// Window `id` is tracked in the workspace at position `i`: a tracked window
/// has that ID and a workspace name that finds the workspace at `i`.
pub open spec fn tracked_in(state: TilingState, id: u32, i: int) -> bool {
    exists|m: int|
        0 <= m < state.windows@.len() && (#[trigger] state.windows@[m]).id == id
            && state.workspace_position(state.windows@[m].workspace_name@) == Some(i)
}

/// No workspace lists a window twice.
pub open spec fn lists_distinct(state: TilingState) -> bool {
    forall|i: int, a: int, b: int|
        0 <= i < state.workspaces@.len() && 0 <= a < b < state.workspaces@[i].window_ids@.len()
            ==> #[trigger] state.workspaces@[i].window_ids@[a]
            != #[trigger] state.workspaces@[i].window_ids@[b]
}

/// The window lists agree with the tracked windows: IDs are unique, no list
/// holds a window twice, and every window that a workspace lists is
/// tracked in that workspace.
pub open spec fn lists_agree(state: TilingState) -> bool {
    &&& unique_window_ids(state)
    &&& lists_distinct(state)
    &&& forall|i: int, k: int|
        0 <= i < state.workspaces@.len() && 0 <= k < state.workspaces@[i].window_ids@.len()
            ==> tracked_in(state, #[trigger] state.workspaces@[i].window_ids@[k], i)
}

/// Two first matches agree when the predicates agree position by position.
proof fn lemma_first_index_agree<A, B>(s: Seq<A>, p: spec_fn(A) -> bool, t: Seq<B>, q: spec_fn(B) -> bool)
    requires
        s.len() == t.len(),
        forall|i: int| 0 <= i < s.len() ==> p(#[trigger] s[i]) == q(t[i]),
    ensures
        first_index(s, p) == first_index(t, q),
{
    lemma_first_index_none(s, p);
    lemma_first_index_none(t, q);
    match first_index(s, p) {
        Some(i) => {
            assert(is_first(t, q, i)) by {
                assert forall|j: int| 0 <= j < i implies !q(#[trigger] t[j]) by {
                    assert(!p(s[j]));
                }
            }
            lemma_first_index_is(t, q, i);
        },
        None => {
            if first_index(t, q) is Some {
                let i = first_index(t, q).unwrap();
                assert(p(s[i]));
            }
        },
    }
}

/// Lookups by name answer alike in two states whose workspaces have the
/// same names, position by position, and whose indexes are equal.
pub proof fn lemma_same_names_same_positions(a: TilingState, b: TilingState, name: Seq<char>)
    requires
        a.workspaces@.len() == b.workspaces@.len(),
        forall|i: int|
            0 <= i < a.workspaces@.len() ==> (#[trigger] a.workspaces@[i]).name@ == b.workspaces@[i].name@,
        a.workspace_index@ == b.workspace_index@,
    ensures
        a.workspace_position(name) == b.workspace_position(name),
{
    lemma_first_index_agree(
        a.workspaces@,
        workspace_named_like(name),
        b.workspaces@,
        workspace_named_like(name),
    );
}

/// Keeping some elements of a sequence without repeats gives a sequence
/// without repeats.
proof fn lemma_filter_distinct(s: Seq<u32>, p: spec_fn(u32) -> bool)
    requires
        forall|a: int, b: int| 0 <= a < b < s.len() ==> s[a] != s[b],
    ensures
        forall|a: int, b: int| 0 <= a < b < s.filter(p).len() ==> s.filter(p)[a] != s.filter(p)[b],
    decreases s.len(),
{
    if s.len() > 0 {
        let init = s.drop_last();
        let last = s.last();
        lemma_filter_distinct(init, p);
        init.lemma_filter_push(last, p);
        assert(init.push(last) =~= s);
        if p(last) {
            if init.filter(p).contains(last) {
                init.lemma_filter_contains_rev(p, last);
                let k = choose|k: int| 0 <= k < init.len() && init[k] == last;
                assert(s[k] == s[s.len() - 1]);
            }
        }
    }
}

/// Positions are unchanged when only window lists, focus and visibility
/// changed.
proof fn lemma_positions_kept(before: TilingState, after: TilingState)
    requires
        before.workspaces@.len() == after.workspaces@.len(),
        forall|i: int|
            0 <= i < before.workspaces@.len() ==> (#[trigger] after.workspaces@[i]).name@
                == before.workspaces@[i].name@,
        before.workspace_index@ == after.workspace_index@,
    ensures
        forall|name: Seq<char>| #[trigger] after.workspace_position(name) == before.workspace_position(name),
{
    assert forall|name: Seq<char>| #[trigger] after.workspace_position(name) == before.workspace_position(name) by {
        lemma_same_names_same_positions(after, before, name);
    }
}

/// A window tracked in a workspace stays tracked there when the windows
/// before it keep their places and lookups by name answer alike.
proof fn lemma_tracked_in_kept(before: TilingState, after: TilingState, id: u32, i: int, shift: int)
    requires
        tracked_in(before, id, i),
        forall|name: Seq<char>| #[trigger] after.workspace_position(name) == before.workspace_position(name),
        forall|m: int|
            0 <= m < before.windows@.len() && before.windows@[m].id == id ==> 0 <= m + shift < after.windows@.len()
                && #[trigger] after.windows@[m + shift] == before.windows@[m],
    ensures
        tracked_in(after, id, i),
{
    let m = choose|m: int|
        0 <= m < before.windows@.len() && (#[trigger] before.windows@[m]).id == id
            && before.workspace_position(before.windows@[m].workspace_name@) == Some(i);
    assert(after.windows@[m + shift] == before.windows@[m]);
    assert(after.workspace_position(after.windows@[m + shift].workspace_name@) == Some(i));
}

/// Before any window is tracked, when no workspace lists a window, the
/// window lists agree with the tracked windows.
pub proof fn law_empty_lists_agree(state: TilingState)
    requires
        state.windows@.len() == 0,
        forall|i: int| 0 <= i < state.workspaces@.len() ==> (#[trigger] state.workspaces@[i]).window_ids@.len() == 0,
    ensures
        lists_agree(state),
{
    assert forall|i: int, k: int|
        0 <= i < state.workspaces@.len() && 0 <= k < state.workspaces@[i].window_ids@.len()
            implies tracked_in(state, #[trigger] state.workspaces@[i].window_ids@[k], i) by {
        assert(state.workspaces@[i].window_ids@.len() == 0);
    }
}

/// Tracking a window whose ID is not tracked yet keeps the window lists in
/// agreement with the tracked windows.
pub proof fn law_tracking_keeps_lists_agreeing(
    before: TilingState,
    after: TilingState,
    window: TrackedWindow,
    visible: bool,
)
    requires
        lists_agree(before),
        !any_match(before.windows@, window_has_id(window.id)),
        window_added(before, after, window, visible),
    ensures
        lists_agree(after),
{
    let n = before.windows@.len() as int;
    let ws = before.workspaces@;
    let pos = before.workspace_position(window.workspace_name@);
    assert(after.workspaces@.len() == ws.len());
    assert forall|i: int| 0 <= i < ws.len() implies (#[trigger] after.workspaces@[i]).name@ == ws[i].name@ by {
        if pos is Some && i == pos.unwrap() && !ws[i].window_ids@.contains(window.id) {
            assert(same_but_windows(ws[i], after.workspaces@[i]));
        }
    }
    lemma_positions_kept(before, after);
    assert(after.windows@[n] == window);
    assert forall|m: int, k: int|
        0 <= m < after.windows@.len() && 0 <= k < after.windows@.len() && m != k
            implies #[trigger] after.windows@[m].id != #[trigger] after.windows@[k].id by {
        if m == n {
            assert(!window_has_id(window.id)(before.windows@[k]));
        } else if k == n {
            assert(!window_has_id(window.id)(before.windows@[m]));
        } else {
            assert(before.windows@[m].id != before.windows@[k].id);
        }
    }
    assert forall|i: int, k: int|
        0 <= i < after.workspaces@.len() && 0 <= k < after.workspaces@[i].window_ids@.len()
            implies tracked_in(after, #[trigger] after.workspaces@[i].window_ids@[k], i) by {
        let id = after.workspaces@[i].window_ids@[k];
        if pos is Some && i == pos.unwrap() && !ws[i].window_ids@.contains(window.id) && k
            == ws[i].window_ids@.len() {
            assert(id == window.id);
            assert(after.windows@[n].id == id);
            assert(after.workspace_position(after.windows@[n].workspace_name@) == Some(i));
        } else {
            assert(ws[i].window_ids@[k] == id);
            assert(tracked_in(before, id, i));
            lemma_tracked_in_kept(before, after, id, i, 0);
        }
    }
}

/// A window tracked in a workspace before one window was removed from the
/// tracked list, other than the removed one, is tracked there after.
proof fn lemma_tracked_in_after_remove(before: TilingState, after: TilingState, id: u32, i: int, removed: int)
    requires
        tracked_in(before, id, i),
        0 <= removed < before.windows@.len(),
        before.windows@[removed].id != id,
        after.windows@ == before.windows@.remove(removed),
        forall|name: Seq<char>| #[trigger] after.workspace_position(name) == before.workspace_position(name),
    ensures
        tracked_in(after, id, i),
{
    let m = choose|m: int|
        0 <= m < before.windows@.len() && (#[trigger] before.windows@[m]).id == id
            && before.workspace_position(before.windows@[m].workspace_name@) == Some(i);
    let m2 = if m < removed {
        m
    } else {
        m - 1
    };
    assert(after.windows@[m2] == before.windows@[m]);
    assert(after.workspace_position(after.windows@[m2].workspace_name@) == Some(i));
}

/// Untracking a window keeps the window lists in agreement with the
/// tracked windows.
pub proof fn law_untracking_keeps_lists_agreeing(
    before: TilingState,
    after: TilingState,
    window_id: u32,
    r: Option<UntrackedWindow>,
)
    requires
        lists_agree(before),
        window_untracked(before, after, window_id, r),
    ensures
        lists_agree(after),
{
    let ws = before.workspaces@;
    match first_index(before.windows@, window_has_id(window_id)) {
        None => {},
        Some(k) => {
            lemma_first_index_none(before.windows@, window_has_id(window_id));
            let w = before.windows@[k];
            let pos = before.workspace_position(w.workspace_name@);
            assert(after.workspaces@.len() == ws.len());
            assert forall|i: int| 0 <= i < ws.len() implies (#[trigger] after.workspaces@[i]).name@
                == ws[i].name@ by {
                if pos is Some && i == pos.unwrap() {
                    assert(same_but_windows(ws[i], after.workspaces@[i]));
                }
            }
            lemma_positions_kept(before, after);
            assert forall|a: int, b: int|
                0 <= a < after.windows@.len() && 0 <= b < after.windows@.len() && a != b
                    implies #[trigger] after.windows@[a].id != #[trigger] after.windows@[b].id by {
                let a2 = if a < k {
                    a
                } else {
                    a + 1
                };
                let b2 = if b < k {
                    b
                } else {
                    b + 1
                };
                assert(after.windows@[a] == before.windows@[a2]);
                assert(after.windows@[b] == before.windows@[b2]);
                assert(before.windows@[a2].id != before.windows@[b2].id);
            }
            if pos is Some {
                let i = pos.unwrap();
                lemma_filter_distinct(ws[i].window_ids@, other_than(window_id));
            }
            assert forall|i: int, a: int, b: int|
                0 <= i < after.workspaces@.len() && 0 <= a < b < after.workspaces@[i].window_ids@.len()
                    implies #[trigger] after.workspaces@[i].window_ids@[a]
                    != #[trigger] after.workspaces@[i].window_ids@[b] by {
                if !(pos is Some && i == pos.unwrap()) {
                    assert(after.workspaces@[i] == ws[i]);
                }
            }
            assert forall|i: int, j: int|
                0 <= i < after.workspaces@.len() && 0 <= j < after.workspaces@[i].window_ids@.len()
                    implies tracked_in(after, #[trigger] after.workspaces@[i].window_ids@[j], i) by {
                let id = after.workspaces@[i].window_ids@[j];
                if pos is Some && i == pos.unwrap() {
                    let kept = ws[i].window_ids@.filter(other_than(window_id));
                    assert(after.workspaces@[i].window_ids@ == kept);
                    ws[i].window_ids@.lemma_filter_pred(other_than(window_id), j);
                    assert(kept.contains(id));
                    ws[i].window_ids@.lemma_filter_contains_rev(other_than(window_id), id);
                    let j0 = choose|j0: int| 0 <= j0 < ws[i].window_ids@.len() && ws[i].window_ids@[j0] == id;
                    assert(tracked_in(before, ws[i].window_ids@[j0], i));
                    lemma_tracked_in_after_remove(before, after, id, i, k);
                } else {
                    assert(after.workspaces@[i] == ws[i]);
                    assert(tracked_in(before, id, i));
                    if id == window_id {
                        // The removed window is the only one with its ID, and it
                        // is tracked in workspace `pos`, not `i`.
                        let m = choose|m: int|
                            0 <= m < before.windows@.len() && (#[trigger] before.windows@[m]).id == id
                                && before.workspace_position(before.windows@[m].workspace_name@) == Some(i);
                        if m != k {
                            assert(before.windows@[m].id != before.windows@[k].id);
                        }
                        assert(false);
                    }
                    lemma_tracked_in_after_remove(before, after, id, i, k);
                }
            }
        },
    }
}

/// A window tracked in a workspace before one tracked window changed its
/// workspace name, other than that one, is tracked there after.
proof fn lemma_tracked_in_after_rename(before: TilingState, after: TilingState, id: u32, i: int, renamed: int)
    requires
        tracked_in(before, id, i),
        0 <= renamed < before.windows@.len(),
        before.windows@[renamed].id != id,
        after.windows@.len() == before.windows@.len(),
        forall|m: int|
            0 <= m < before.windows@.len() && m != renamed ==> #[trigger] after.windows@[m] == before.windows@[m],
        forall|name: Seq<char>| #[trigger] after.workspace_position(name) == before.workspace_position(name),
    ensures
        tracked_in(after, id, i),
{
    let m = choose|m: int|
        0 <= m < before.windows@.len() && (#[trigger] before.windows@[m]).id == id
            && before.workspace_position(before.windows@[m].workspace_name@) == Some(i);
    assert(after.windows@[m] == before.windows@[m]);
    assert(after.workspace_position(after.windows@[m].workspace_name@) == Some(i));
}

/// The only window with the ID of a window tracked in two workspaces is
/// tracked in both, so they are the same workspace.
proof fn lemma_tracked_in_one_place(state: TilingState, id: u32, i: int, j: int)
    requires
        unique_window_ids(state),
        tracked_in(state, id, i),
        tracked_in(state, id, j),
    ensures
        i == j,
{
    let m = choose|m: int|
        0 <= m < state.windows@.len() && (#[trigger] state.windows@[m]).id == id
            && state.workspace_position(state.windows@[m].workspace_name@) == Some(i);
    let n = choose|n: int|
        0 <= n < state.windows@.len() && (#[trigger] state.windows@[n]).id == id
            && state.workspace_position(state.windows@[n].workspace_name@) == Some(j);
    if m != n {
        assert(state.windows@[m].id != state.windows@[n].id);
    }
}

/// Sending the focused window to another workspace keeps the window lists
/// in agreement with the tracked windows.
pub proof fn law_sending_keeps_lists_agreeing(
    before: TilingState,
    after: TilingState,
    target: Seq<char>,
    r: Option<WindowMove>,
)
    requires
        lists_agree(before),
        window_sent(before, after, target, r),
    ensures
        lists_agree(after),
{
    let ws = before.workspaces@;
    let src = crate::manager::windows::focused_workspace_spec(before);
    let fidx: int = match src.unwrap().focused_window_index {
        Some(f) => f as int,
        None => 0,
    };
    let ids = src.unwrap().window_ids@;
    let si = before.workspace_position(src.unwrap().name@);
    let ti = before.workspace_position(target);
    if src is Some && fidx < ids.len() && ti is Some && src.unwrap().name@ != target {
        crate::state::lemma_lookup_by_found_name(before, before.focused_workspace.unwrap()@);
        let id = ids[fidx];
        let s = si.unwrap();
        let t = ti.unwrap();
        assert(ws[s] == src.unwrap());
        assert(tracked_in(before, ws[s].window_ids@[fidx], s));
        let k0 = choose|m: int|
            0 <= m < before.windows@.len() && (#[trigger] before.windows@[m]).id == id
                && before.workspace_position(before.windows@[m].workspace_name@) == Some(s);
        lemma_first_index_none(before.windows@, window_has_id(id));
        let k = first_index(before.windows@, window_has_id(id)).unwrap();
        if k != k0 {
            assert(before.windows@[k].id != before.windows@[k0].id);
        }
        assert(after.workspaces@.len() == ws.len());
        assert forall|i: int| 0 <= i < ws.len() implies (#[trigger] after.workspaces@[i]).name@
            == ws[i].name@ by {
            if i == s {
                assert(same_but_windows(ws[s], after.workspaces@[s]));
            } else if i == t {
                assert(same_but_windows(ws[t], after.workspaces@[t]));
            }
        }
        lemma_positions_kept(before, after);
        assert forall|a: int, b: int|
            0 <= a < after.windows@.len() && 0 <= b < after.windows@.len() && a != b
                implies #[trigger] after.windows@[a].id != #[trigger] after.windows@[b].id by {
            assert(after.windows@[a].id == before.windows@[a].id);
            assert(after.windows@[b].id == before.windows@[b].id);
        }
        let kept = ws[s].window_ids@.filter(other_than(id));
        lemma_filter_distinct(ws[s].window_ids@, other_than(id));
        assert(!kept.contains(id)) by {
            if kept.contains(id) {
                let c = choose|c: int| 0 <= c < kept.len() && kept[c] == id;
                ws[s].window_ids@.lemma_filter_pred(other_than(id), c);
            }
        }
        if s != t {
            assert(!ws[t].window_ids@.contains(id)) by {
                if ws[t].window_ids@.contains(id) {
                    let c = choose|c: int| 0 <= c < ws[t].window_ids@.len() && ws[t].window_ids@[c] == id;
                    assert(tracked_in(before, ws[t].window_ids@[c], t));
                    lemma_tracked_in_one_place(before, id, t, s);
                }
            }
        }
        assert forall|i: int, a: int, b: int|
            0 <= i < after.workspaces@.len() && 0 <= a < b < after.workspaces@[i].window_ids@.len()
                implies #[trigger] after.workspaces@[i].window_ids@[a]
                != #[trigger] after.workspaces@[i].window_ids@[b] by {
            let l = after.workspaces@[i].window_ids@;
            if i == s && s == t {
                assert(l == kept.push(id));
                if b == kept.len() {
                    assert(kept[a] == l[a]);
                    assert(kept.contains(kept[a]));
                }
            } else if i == s {
                assert(l == kept);
            } else if i == t {
                assert(l == ws[t].window_ids@.push(id));
                if b == ws[t].window_ids@.len() {
                    assert(ws[t].window_ids@[a] == l[a]);
                    assert(ws[t].window_ids@.contains(ws[t].window_ids@[a]));
                }
            } else {
                assert(after.workspaces@[i] == ws[i]);
            }
        }
        assert forall|i: int, j: int|
            0 <= i < after.workspaces@.len() && 0 <= j < after.workspaces@[i].window_ids@.len()
                implies tracked_in(after, #[trigger] after.workspaces@[i].window_ids@[j], i) by {
            let x = after.workspaces@[i].window_ids@[j];
            if (i == s && s == t && j == kept.len()) || (i == t && s != t && j
                == ws[t].window_ids@.len()) {
                assert(x == id);
                assert(after.windows@[k].id == id);
                assert(after.windows@[k].workspace_name@ == target);
                assert(after.workspace_position(after.windows@[k].workspace_name@) == Some(i));
            } else if i == s {
                assert(j < kept.len());
                assert(x == kept[j]);
                ws[s].window_ids@.lemma_filter_pred(other_than(id), j);
                assert(kept.contains(x));
                ws[s].window_ids@.lemma_filter_contains_rev(other_than(id), x);
                let j0 = choose|j0: int| 0 <= j0 < ws[s].window_ids@.len() && ws[s].window_ids@[j0] == x;
                assert(tracked_in(before, ws[s].window_ids@[j0], s));
                lemma_tracked_in_after_rename(before, after, x, s, k);
            } else {
                assert(ws[i].window_ids@[j] == x);
                assert(tracked_in(before, x, i));
                if x == id {
                    lemma_tracked_in_one_place(before, id, i, s);
                }
                lemma_tracked_in_after_rename(before, after, x, i, k);
            }
        }
    }
}

/// Giving a tracked window a new ID that no tracked window has (a tab of a
/// native tab group becoming the window that represents the group) keeps
/// the window lists in agreement with the tracked windows.
pub proof fn law_replacing_id_keeps_lists_agreeing(
    before: TilingState,
    after: TilingState,
    old_id: u32,
    new_id: u32,
    r: bool,
)
    requires
        lists_agree(before),
        !any_match(before.windows@, window_has_id(new_id)),
        id_replaced(before, after, old_id, new_id, r),
    ensures
        lists_agree(after),
{
    let ws = before.workspaces@;
    match first_index(before.windows@, window_has_id(old_id)) {
        None => {},
        Some(k) => {
            lemma_first_index_none(before.windows@, window_has_id(old_id));
            let w = before.windows@[k];
            let pos = before.workspace_position(w.workspace_name@);
            let j0 = match pos {
                Some(i) => first_index(ws[i].window_ids@, id_is(old_id)),
                None => None,
            };
            // Only workspace `pos` can list the old ID, and it lists it once.
            assert forall|m: int, c: int|
                0 <= m < ws.len() && 0 <= c < ws[m].window_ids@.len() && ws[m].window_ids@[c]
                    == old_id implies pos == Some(m) by {
                assert(tracked_in(before, ws[m].window_ids@[c], m));
                let n = choose|n: int|
                    0 <= n < before.windows@.len() && (#[trigger] before.windows@[n]).id == old_id
                        && before.workspace_position(before.windows@[n].workspace_name@) == Some(m);
                if n != k {
                    assert(before.windows@[n].id != before.windows@[k].id);
                }
            }
            // The new ID is listed nowhere, since it is not tracked.
            assert forall|m: int, c: int|
                0 <= m < ws.len() && 0 <= c < ws[m].window_ids@.len() implies ws[m].window_ids@[c]
                != new_id by {
                assert(tracked_in(before, ws[m].window_ids@[c], m));
                if ws[m].window_ids@[c] == new_id {
                    let n = choose|n: int|
                        0 <= n < before.windows@.len() && (#[trigger] before.windows@[n]).id == new_id
                            && before.workspace_position(before.windows@[n].workspace_name@) == Some(m);
                    assert(window_has_id(new_id)(before.windows@[n]));
                }
            }
            if pos is Some {
                let i = pos.unwrap();
                lemma_first_index_none(ws[i].window_ids@, id_is(old_id));
            }
            assert(after.workspaces@.len() == ws.len());
            assert forall|m: int| 0 <= m < ws.len() implies (#[trigger] after.workspaces@[m]).name@
                == ws[m].name@ by {
                if pos == Some(m) && j0 is Some {
                    assert(same_but_windows(ws[m], after.workspaces@[m]));
                }
            }
            lemma_positions_kept(before, after);
            assert forall|a: int, b: int|
                0 <= a < after.windows@.len() && 0 <= b < after.windows@.len() && a != b
                    implies #[trigger] after.windows@[a].id != #[trigger] after.windows@[b].id by {
                if a == k {
                    assert(!window_has_id(new_id)(before.windows@[b]));
                } else if b == k {
                    assert(!window_has_id(new_id)(before.windows@[a]));
                } else {
                    assert(before.windows@[a].id != before.windows@[b].id);
                }
            }
            assert forall|i: int, a: int, b: int|
                0 <= i < after.workspaces@.len() && 0 <= a < b < after.workspaces@[i].window_ids@.len()
                    implies #[trigger] after.workspaces@[i].window_ids@[a]
                    != #[trigger] after.workspaces@[i].window_ids@[b] by {
                if pos == Some(i) && j0 is Some {
                    let l = ws[i].window_ids@;
                    assert(after.workspaces@[i].window_ids@ == l.update(j0.unwrap(), new_id));
                    if a != j0.unwrap() && b != j0.unwrap() {
                        assert(l[a] != l[b]);
                    }
                } else {
                    assert(after.workspaces@[i] == ws[i]);
                }
            }
            assert forall|i: int, c: int|
                0 <= i < after.workspaces@.len() && 0 <= c < after.workspaces@[i].window_ids@.len()
                    implies tracked_in(after, #[trigger] after.workspaces@[i].window_ids@[c], i) by {
                let x = after.workspaces@[i].window_ids@[c];
                if pos == Some(i) && j0 is Some && c == j0.unwrap() {
                    assert(x == new_id);
                    assert(after.windows@[k].id == new_id);
                    assert(after.windows@[k].workspace_name == w.workspace_name);
                    assert(after.workspace_position(after.windows@[k].workspace_name@) == Some(i));
                } else {
                    if pos == Some(i) && j0 is Some {
                        assert(x == ws[i].window_ids@[c]);
                        assert(ws[i].window_ids@[j0.unwrap()] == old_id);
                    } else {
                        assert(after.workspaces@[i] == ws[i]);
                        assert(x == ws[i].window_ids@[c]);
                    }
                    assert(x != old_id);
                    assert(tracked_in(before, ws[i].window_ids@[c], i));
                    lemma_tracked_in_after_rename(before, after, x, i, k);
                }
            }
        },
    }
}

/// Changes that keep every workspace's name and window list, the tracked
/// windows and the index (focus, visibility, layout, screens) keep the
/// window lists in agreement with the tracked windows.
pub proof fn law_list_preserving_changes_keep_agreement(before: TilingState, after: TilingState)
    requires
        lists_agree(before),
        after.windows@ == before.windows@,
        after.workspace_index@ == before.workspace_index@,
        after.workspaces@.len() == before.workspaces@.len(),
        forall|i: int|
            0 <= i < before.workspaces@.len() ==> (#[trigger] after.workspaces@[i]).name@
                == before.workspaces@[i].name@ && after.workspaces@[i].window_ids@
                == before.workspaces@[i].window_ids@,
    ensures
        lists_agree(after),
{
    lemma_positions_kept(before, after);
    assert forall|i: int, j: int|
        0 <= i < after.workspaces@.len() && 0 <= j < after.workspaces@[i].window_ids@.len()
            implies tracked_in(after, #[trigger] after.workspaces@[i].window_ids@[j], i) by {
        let x = after.workspaces@[i].window_ids@[j];
        assert(before.workspaces@[i].window_ids@[j] == x);
        lemma_tracked_in_kept(before, after, x, i, 0);
    }
}

/// Switching to a workspace and sending a workspace to another screen
/// change visibility, focus and screens only: every workspace keeps its
/// name and its window list, so `law_list_preserving_changes_keep_agreement`
/// applies to them.
pub proof fn law_switch_and_move_keep_names_and_lists(
    w: crate::state::Workspace,
    name: Seq<char>,
    source: u32,
    target: u32,
    fallback: Option<Seq<char>>,
)
    ensures
        switched(w, name, target).name == w.name,
        switched(w, name, target).window_ids == w.window_ids,
        after_move_other(w, name, source, target, fallback).name == w.name,
        after_move_other(w, name, source, target, fallback).window_ids == w.window_ids,
        after_move_self(w, source, target).name == w.name,
        after_move_self(w, source, target).window_ids == w.window_ids,
{
}

/// Switching to a workspace keeps the window lists in agreement with the
/// tracked windows.
pub proof fn law_switching_keeps_lists_agreeing(
    before: TilingState,
    after: TilingState,
    name: Seq<char>,
    screen_id: u32,
)
    requires
        lists_agree(before),
        after.windows@ == before.windows@,
        after.workspace_index@ == before.workspace_index@,
        after.workspaces@ == before.workspaces@.map_values(|w: crate::state::Workspace| switched(w, name, screen_id)),
    ensures
        lists_agree(after),
{
    assert forall|i: int| 0 <= i < before.workspaces@.len() implies (#[trigger] after.workspaces@[i]).name@
        == before.workspaces@[i].name@ && after.workspaces@[i].window_ids@
        == before.workspaces@[i].window_ids@ by {
        assert(after.workspaces@[i] == switched(before.workspaces@[i], name, screen_id));
    }
    law_list_preserving_changes_keep_agreement(before, after);
}

/// Moving the focus to a window keeps the window lists in agreement with
/// the tracked windows.
pub proof fn law_focusing_keeps_lists_agreeing(
    before: TilingState,
    after: TilingState,
    workspace_name: Seq<char>,
    window_id: u32,
    r: Option<FocusChange>,
)
    requires
        lists_agree(before),
        focus_set(before, after, workspace_name, window_id, r),
    ensures
        lists_agree(after),
{
    if r is Some {
        assert forall|i: int| 0 <= i < before.workspaces@.len() implies (#[trigger] after.workspaces@[i]).name@
            == before.workspaces@[i].name@ && after.workspaces@[i].window_ids@
            == before.workspaces@[i].window_ids@ by {
            assert(after.workspaces@[i].name == before.workspaces@[i].name);
        }
        law_list_preserving_changes_keep_agreement(before, after);
    }
}

/// Swapping two windows of one workspace's list keeps the window lists in
/// agreement with the tracked windows.
pub proof fn law_swapping_keeps_lists_agreeing(before: TilingState, after: TilingState, i: int, a: int, b: int)
    requires
        lists_agree(before),
        0 <= i < before.workspaces@.len(),
        0 <= a < before.workspaces@[i].window_ids@.len(),
        0 <= b < before.workspaces@[i].window_ids@.len(),
        after.windows@ == before.windows@,
        after.workspace_index@ == before.workspace_index@,
        after.workspaces@.len() == before.workspaces@.len(),
        same_but_windows(before.workspaces@[i], after.workspaces@[i]),
        ({
            let ids = before.workspaces@[i].window_ids@;
            after.workspaces@[i].window_ids@ == ids.update(a, ids[b]).update(b, ids[a])
        }),
        forall|m: int|
            0 <= m < before.workspaces@.len() && m != i ==> #[trigger] after.workspaces@[m]
                == before.workspaces@[m],
    ensures
        lists_agree(after),
{
    let ws = before.workspaces@;
    assert forall|m: int| 0 <= m < ws.len() implies (#[trigger] after.workspaces@[m]).name@ == ws[m].name@ by {
        if m == i {
            assert(same_but_windows(ws[i], after.workspaces@[i]));
        }
    }
    lemma_positions_kept(before, after);
    assert forall|m: int, j: int|
        0 <= m < after.workspaces@.len() && 0 <= j < after.workspaces@[m].window_ids@.len()
            implies tracked_in(after, #[trigger] after.workspaces@[m].window_ids@[j], m) by {
        let x = after.workspaces@[m].window_ids@[j];
        let j0 = if m == i && j == a {
            b
        } else if m == i && j == b {
            a
        } else {
            j
        };
        assert(ws[m].window_ids@[j0] == x);
        assert(tracked_in(before, ws[m].window_ids@[j0], m));
        lemma_tracked_in_kept(before, after, x, m, 0);
    }
}

} // verus!
