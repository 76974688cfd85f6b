//! Properties that relate several manager operations.

use vstd::prelude::*;

use crate::manager::commands::{
    all_digits, digits_value, parsed_u32, swap_partner, Direction,
};
use crate::manager::focus::FocusHistory;
use crate::manager::screens::{after_move_other, after_move_self};
use crate::manager::windows::{cycled_index, other_than, swapped_focus};
use crate::manager::workspaces::{
    initial_visibility, initially_visible, initial_visible_name, switched,
};
use crate::search::{any_match, lemma_filter_keeps_all, lemma_first_index_none};
use crate::state::{
    screen_has_id, unique_workspace_names, workspace_on_screen, TilingState, Workspace,
};
use crate::text::{decimal, digit_char, eq_ignore_case};

verus! {

/// Switching to a workspace twice leaves every workspace as switching once does.
pub proof fn law_switch_is_idempotent(w: Workspace, name: Seq<char>, screen_id: u32)
    ensures
        switched(switched(w, name, screen_id), name, screen_id) == switched(w, name, screen_id),
{
}

/// After a switch, the only focused workspaces are those of the target's
/// screen with the target's name, and those are visible.
pub proof fn law_switch_focuses_only_target(w: Workspace, name: Seq<char>, screen_id: u32)
    ensures
        switched(w, name, screen_id).is_focused ==> w.screen_id == screen_id && eq_ignore_case(
            w.name@,
            name,
        ) && switched(w, name, screen_id).is_visible,
        w.screen_id == screen_id ==> (switched(w, name, screen_id).is_visible <==> eq_ignore_case(
            w.name@,
            name,
        )),
{
}

/// Removing a window that was just appended to a list that did not hold it
/// gives the list back: untracking undoes tracking.
pub proof fn law_untrack_undoes_track(ids: Seq<u32>, id: u32)
    requires
        !ids.contains(id),
    ensures
        ids.push(id).filter(other_than(id)) == ids,
{
    ids.lemma_filter_push(id, other_than(id));
    assert forall|i: int| 0 <= i < ids.len() implies other_than(id)(#[trigger] ids[i]) by {
        if ids[i] == id {
            assert(ids.contains(id));
        }
    }
    lemma_filter_keeps_all(ids, other_than(id));
}

/// Swapping the same two positions twice restores the windows and the focus.
pub proof fn law_swap_twice_restores(ids: Seq<u32>, a: int, b: int, focused: Option<usize>)
    requires
        0 <= a < ids.len(),
        0 <= b < ids.len(),
    ensures
        ({
            let once = ids.update(a, ids[b]).update(b, ids[a]);
            once.update(a, once[b]).update(b, once[a]) == ids
        }),
        swapped_focus(swapped_focus(focused, a as usize, b as usize), a as usize, b as usize)
            == focused,
{
    let once = ids.update(a, ids[b]).update(b, ids[a]);
    assert(once.update(a, once[b]).update(b, once[a]) =~= ids);
}

/// Cycling the focus forward and then backward comes back to the focused
/// position.
pub proof fn law_cycle_forward_then_back(focused: usize, len: nat)
    requires
        focused < len <= usize::MAX,
    ensures
        cycled_index(
            Some(cycled_index(Some(focused), len, true) as usize),
            len,
            false,
        ) == focused,
{
    let next = (focused + 1) % (len as int);
    if focused + 1 < len {
        vstd::arithmetic::div_mod::lemma_small_mod((focused + 1) as nat, len);
    } else {
        vstd::arithmetic::div_mod::lemma_mod_self_0(len as int);
    }
}

/// Swapping the focused window with the next one and then, from where it
/// went, with the previous one restores the windows and the focused
/// position.
pub proof fn law_swap_next_then_previous_restores(ids: Seq<u32>, focused: int)
    requires
        2 <= ids.len(),
        0 <= focused < ids.len(),
    ensures
        ({
            let len = ids.len() as int;
            let t = swap_partner(Direction::Next, focused, len, None).unwrap();
            let once = ids.update(focused, ids[t]).update(t, ids[focused]);
            let back = swap_partner(Direction::Previous, t, len, None).unwrap();
            &&& 0 <= t < len
            &&& back == focused
            &&& once.update(t, once[back]).update(back, once[t]) == ids
        }),
{
    let len = ids.len() as int;
    if focused + 1 < len {
        vstd::arithmetic::div_mod::lemma_small_mod((focused + 1) as nat, len as nat);
    } else {
        vstd::arithmetic::div_mod::lemma_mod_self_0(len);
    }
    let t = swap_partner(Direction::Next, focused, len, None).unwrap();
    let once = ids.update(focused, ids[t]).update(t, ids[focused]);
    assert(once.update(t, once[focused]).update(focused, once[t]) =~= ids);
}

/// The decimal digits of a number are digits, and read back as the number.
pub proof fn lemma_decimal_reads_back(n: nat)
    ensures
        all_digits(decimal(n)),
        digits_value(decimal(n)) == n,
        decimal(n).len() > 0,
    decreases n,
{
    let d = decimal(n);
    if n >= 10 {
        lemma_decimal_reads_back(n / 10);
        assert(d.drop_last() =~= decimal(n / 10));
        assert(d.last() == digit_char((n % 10) as int));
        assert(d.last() as nat == 48 + n % 10);
        vstd::arithmetic::div_mod::lemma_fundamental_div_mod(n as int, 10);
        assert(digits_value(d) == digits_value(d.drop_last()) * 10 + (d.last() as nat - 48) as nat);
        assert(digits_value(d) == (n / 10) * 10 + n % 10);
        assert forall|i: int| 0 <= i < d.len() implies '0' <= #[trigger] d[i] && d[i] <= '9' by {
            if i < d.len() - 1 {
                assert(d[i] == decimal(n / 10)[i]);
            }
        }
    } else {
        assert(d.drop_last() =~= Seq::<char>::empty());
        assert(d.last() as nat == 48 + n);
        assert(digits_value(d) == digits_value(d.drop_last()) * 10 + (d.last() as nat - 48) as nat);
    }
}

/// A window ID written in decimal reads back as the same ID.
pub proof fn law_window_id_reads_back(id: u32)
    ensures
        parsed_u32(decimal(id as nat)) == Some(id),
{
    lemma_decimal_reads_back(id as nat);
    assert(decimal(id as nat)[0] != '+');
}

/// A workspace sent to another screen and back to the screen it came from
/// remembers no original screen, as before it first moved.
pub proof fn law_send_and_return_home(w: Workspace, home: u32, away: u32)
    requires
        w.original_screen_id is None,
        w.screen_id == home,
        home != away,
    ensures
        after_move_self(w, home, away).original_screen_id == Some(home),
        after_move_self(after_move_self(w, home, away), away, home).original_screen_id is None,
        after_move_self(after_move_self(w, home, away), away, home).screen_id == home,
{
}

/// What was recorded for a workspace is what the history gives back for it,
/// and the other workspaces keep theirs.
pub proof fn law_history_record_then_get(
    before: FocusHistory,
    after: FocusHistory,
    workspace: Seq<char>,
    window_id: u32,
    other: Seq<char>,
)
    requires
        after.view() == before.view().insert(workspace, window_id),
        other != workspace,
    ensures
        after.view().contains_key(workspace) && after.view()[workspace] == window_id,
        after.view().contains_key(other) == before.view().contains_key(other),
        before.view().contains_key(other) ==> after.view()[other] == before.view()[other],
{
}

/// With workspace names distinct up to ASCII case, the initial visibility
/// pass leaves at most one visible workspace on each connected screen.
pub proof fn law_initial_visibility_one_per_screen(
    state: TilingState,
    focused: Option<(Seq<char>, u32)>,
    i: int,
    j: int,
)
    requires
        unique_workspace_names(state.workspaces@),
        0 <= i < state.workspaces@.len(),
        0 <= j < state.workspaces@.len(),
        any_match(state.screens@, screen_has_id(state.workspaces@[i].screen_id)),
    ensures
        ({
            let shown = initial_visibility(state, focused);
            shown[i].is_visible && shown[j].is_visible && shown[i].screen_id == shown[j].screen_id
                ==> i == j
        }),
{
    let ws = state.workspaces@;
    let shown = initial_visibility(state, focused);
    assert(shown[i] == initially_visible(state, focused, ws[i]));
    assert(shown[j] == initially_visible(state, focused, ws[j]));
    if shown[i].is_visible && shown[j].is_visible && shown[i].screen_id == shown[j].screen_id {
        let sid = ws[i].screen_id;
        assert(workspace_on_screen(sid)(ws[i]));
        lemma_first_index_none(ws, workspace_on_screen(sid));
        assert(initial_visible_name(state, focused, sid) is Some);
        assert(eq_ignore_case(ws[i].name@, ws[j].name@));
    }
}

/// With workspace names distinct up to ASCII case, a switch leaves at most
/// one visible workspace on the target's screen.
pub proof fn law_switch_one_visible_on_screen(
    ws: Seq<Workspace>,
    name: Seq<char>,
    screen_id: u32,
    i: int,
    j: int,
)
    requires
        unique_workspace_names(ws),
        0 <= i < ws.len(),
        0 <= j < ws.len(),
        ws[i].screen_id == screen_id,
        ws[j].screen_id == screen_id,
    ensures
        switched(ws[i], name, screen_id).is_visible && switched(ws[j], name, screen_id).is_visible
            ==> i == j,
{
    if switched(ws[i], name, screen_id).is_visible && switched(ws[j], name, screen_id).is_visible {
        assert(eq_ignore_case(ws[i].name@, ws[j].name@));
    }
}

/// A workspace sent to a screen is the only visible workspace there when
/// workspace names are distinct.
pub proof fn law_moved_workspace_alone_on_target(
    ws: Seq<Workspace>,
    p: int,
    j: int,
    source: u32,
    target: u32,
    fallback: Option<Seq<char>>,
)
    requires
        unique_workspace_names(ws),
        0 <= p < ws.len(),
        0 <= j < ws.len(),
        j != p,
        source != target,
        fallback is Some ==> fallback.unwrap() != ws[p].name@,
    ensures
        after_move_self(ws[p], source, target).screen_id == target,
        after_move_self(ws[p], source, target).is_visible,
        after_move_other(ws[j], ws[p].name@, source, target, fallback).screen_id == target
            ==> !after_move_other(ws[j], ws[p].name@, source, target, fallback).is_visible,
{
    if ws[j].name@ == ws[p].name@ {
        assert(eq_ignore_case(ws[j].name@, ws[p].name@));
    }
}

} // verus!
