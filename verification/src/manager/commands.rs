//! Commands on the focused window: reading the target that a focus or swap
//! command names, swapping the focused window with another one, sending it
//! to the visible workspace of another screen, and the checks that resizing
//! it and applying a floating preset make before any geometry is computed.

use vstd::prelude::*;

use crate::manager::screens::{command_screen, resolve_command_screen};
use crate::manager::windows::{
    same_but_windows, send_window_to_workspace, window_sent, WindowMove, WindowSwap,
};
use crate::manager::workspaces::{visible_on_screen, visible_workspace_name};
use crate::config::LayoutType;
use crate::manager::windows::focused_workspace_spec;
use crate::search::{any_match, find_first};
use crate::state::{screen_has_id, window_has_id, TilingState, Workspace};
use crate::text::eq_ignore_case;
use crate::text::eq_ignore_ascii_case;

verus! {

/// A direction that a focus or swap command names.
#[derive(Debug, Clone, Copy, PartialEq, Eq, Structural)]
pub enum Direction {
    /// The next window of the workspace (after the last comes the first).
    Next,
    /// The previous window of the workspace (before the first comes the last).
    Previous,
    /// The nearest window above.
    Up,
    /// The nearest window below.
    Down,
    /// The nearest window to the left.
    Left,
    /// The nearest window to the right.
    Right,
}

impl Direction {
    /// Whether the direction is found from window positions on screen.
    pub open spec fn is_spatial(self) -> bool {
        !(self is Next) && !(self is Previous)
    }
}

/// The direction that a word names, with letters compared without regard
/// to ASCII case: "next", "previous" or "prev", "up", "down", "left" or
/// "right".
pub open spec fn direction_named(s: Seq<char>) -> Option<Direction> {
    if eq_ignore_case(s, "next"@) {
        Some(Direction::Next)
    } else if eq_ignore_case(s, "previous"@) || eq_ignore_case(s, "prev"@) {
        Some(Direction::Previous)
    } else if eq_ignore_case(s, "up"@) {
        Some(Direction::Up)
    } else if eq_ignore_case(s, "down"@) {
        Some(Direction::Down)
    } else if eq_ignore_case(s, "left"@) {
        Some(Direction::Left)
    } else if eq_ignore_case(s, "right"@) {
        Some(Direction::Right)
    } else {
        None
    }
}

/// Reads the direction that a word names.
pub fn parse_direction(s: &str) -> (r: Option<Direction>)
    ensures
        r == direction_named(s@),
{
    if eq_ignore_ascii_case(s, "next") {
        Some(Direction::Next)
    } else if eq_ignore_ascii_case(s, "previous") || eq_ignore_ascii_case(s, "prev") {
        Some(Direction::Previous)
    } else if eq_ignore_ascii_case(s, "up") {
        Some(Direction::Up)
    } else if eq_ignore_ascii_case(s, "down") {
        Some(Direction::Down)
    } else if eq_ignore_ascii_case(s, "left") {
        Some(Direction::Left)
    } else if eq_ignore_ascii_case(s, "right") {
        Some(Direction::Right)
    } else {
        None
    }
}

/// Whether every character is a decimal digit.
pub open spec fn all_digits(s: Seq<char>) -> bool {
    forall|i: int| 0 <= i < s.len() ==> '0' <= #[trigger] s[i] && s[i] <= '9'
}

/// The value of a run of decimal digits.
pub open spec fn digits_value(s: Seq<char>) -> nat
    decreases s.len(),
{
    if s.len() == 0 {
        0
    } else {
        digits_value(s.drop_last()) * 10 + (s.last() as nat - 48) as nat
    }
}

/// The digits of a number: the text after an optional leading `+`.
pub open spec fn unsigned_digits(s: Seq<char>) -> Seq<char> {
    if s.len() > 0 && s[0] == '+' {
        s.drop_first()
    } else {
        s
    }
}

/// The `u32` that a text spells: an optional `+`, then at least one decimal
/// digit, with a value that fits in 32 bits.
pub open spec fn parsed_u32(s: Seq<char>) -> Option<u32> {
    let d = unsigned_digits(s);
    if d.len() > 0 && all_digits(d) && digits_value(d) <= u32::MAX {
        Some(digits_value(d) as u32)
    } else {
        None
    }
}

/// Reads a window ID written in decimal.
pub fn parse_window_id(s: &str) -> (r: Option<u32>)
    ensures
        r == parsed_u32(s@),
{
    let n = s.unicode_len();
    let start: usize = if n > 0 && s.get_char(0) == '+' {
        1
    } else {
        0
    };
    let ghost d = unsigned_digits(s@);
    assert(d =~= s@.subrange(start as int, n as int));
    if start >= n {
        return None;
    }
    let mut value: u64 = 0;
    let mut i: usize = start;
    while i < n
        invariant
            start <= i <= n,
            n == s@.len(),
            d == s@.subrange(start as int, n as int),
            d == unsigned_digits(s@),
            all_digits(s@.subrange(start as int, i as int)),
            value == digits_value(s@.subrange(start as int, i as int)),
            value <= u32::MAX,
        decreases n - i,
    {
        let c = s.get_char(i);
        let ghost prefix = s@.subrange(start as int, i as int);
        let ghost next = s@.subrange(start as int, i as int + 1);
        assert(next.drop_last() =~= prefix);
        if c < '0' || c > '9' {
            assert(!all_digits(d)) by {
                assert(d[i - start] == c);
            }
            return None;
        }
        let digit: u64 = (c as u32 - 48) as u64;
        value = value * 10 + digit;
        assert(all_digits(next));
        if value > 4294967295 {
            proof {
                if all_digits(d) {
                    lemma_digits_value_grows(d, (i - start + 1) as nat);
                    assert(d.subrange(0, (i - start + 1) as int) =~= next);
                }
            }
            return None;
        }
        i = i + 1;
    }
    assert(s@.subrange(start as int, n as int) =~= d);
    Some(value as u32)
}

/// What a focus command names: a direction, or else a window by its ID.
#[derive(Debug, Clone, Copy, PartialEq, Eq, Structural)]
pub enum FocusRequest {
    /// The window in a direction from the focused one.
    Toward(Direction),
    /// The window with this ID.
    Window(u32),
}

/// The focus request that a word names: a direction when it names one,
/// else a window ID when it spells one.
pub open spec fn focus_request_named(s: Seq<char>) -> Option<FocusRequest> {
    match direction_named(s) {
        Some(d) => Some(FocusRequest::Toward(d)),
        None => match parsed_u32(s) {
            Some(id) => Some(FocusRequest::Window(id)),
            None => None,
        },
    }
}

/// Reads what a focus command names; `None` for a target that is neither a
/// direction nor a window ID.
pub fn parse_focus_request(s: &str) -> (r: Option<FocusRequest>)
    ensures
        r == focus_request_named(s@),
{
    match parse_direction(s) {
        Some(d) => Some(FocusRequest::Toward(d)),
        None => match parse_window_id(s) {
            Some(id) => Some(FocusRequest::Window(id)),
            None => None,
        },
    }
}

/// The position that the focused window at `focused` changes places with
/// among `len` windows: the next or previous one, cycling, or for a spatial
/// direction the position found from the window frames, `spatial`.
pub open spec fn swap_partner(direction: Direction, focused: int, len: int, spatial: Option<usize>) -> Option<int> {
    match direction {
        Direction::Next => Some((focused + 1) % len),
        Direction::Previous => Some(
            if focused == 0 {
                len - 1
            } else {
                focused - 1
            },
        ),
        _ => match spatial {
            Some(t) => Some(t as int),
            None => None,
        },
    }
}

/// Whether `after` and `r` are what swapping the focused window toward
/// `direction` in `before` gives, as `swap_focused_window` describes.
pub open spec fn focused_window_swapped(before: TilingState, after: TilingState, direction: Direction, spatial: Option<usize>, r: Option<WindowSwap>) -> bool {
    &&& after.screens@ =~= before.screens@
    &&& after.windows@ =~= before.windows@
    &&& after.focused_workspace == before.focused_workspace
    &&& after.focused_screen_id == before.focused_screen_id
    &&& after.workspace_index@ =~= before.workspace_index@
    &&& {
        let ws = before.workspaces@;
        let name = before.focused_workspace.unwrap()@;
        let pos = before.workspace_position(name);
        let w = ws[pos.unwrap()];
        let ids = w.window_ids@;
        let f: int = match w.focused_window_index {
            Some(f) => f as int,
            None => 0,
        };
        let t = swap_partner(direction, f, ids.len() as int, spatial);
        if before.focused_workspace is Some && pos is Some && ids.len() >= 2 && f < ids.len()
            && t is Some && 0 <= t.unwrap() < ids.len() {
            let i = pos.unwrap();
            let t = t.unwrap();
            &&& r matches Some(sw) && sw.workspace@ == w.name@ && sw.index_a == f && sw.index_b == t
            &&& after.workspaces@.len() == ws.len()
            &&& same_but_windows(w, after.workspaces@[i])
            &&& after.workspaces@[i].window_ids@ == ids.update(f, ids[t]).update(t, ids[f])
            &&& after.workspaces@[i].focused_window_index == Some(t as usize)
            &&& forall|m: int|
                0 <= m < ws.len() && m != i ==> #[trigger] after.workspaces@[m] == ws[m]
        } else {
            r is None && after == before
        }
    }
}

/// Swaps the focused window of the focused workspace with the window that
/// `direction` names, keeping the focus on the window that moved.
///
/// For a spatial direction the caller finds the partner's position from the
/// window frames and passes it as `spatial` (`None` when no window lies that
/// way). Nothing changes, and `None` is returned, without a focused
/// workspace, with fewer than two windows in it, when its focused position
/// (the first one when none is focused) holds no window, or without a
/// partner inside the list.
pub fn swap_focused_window(state: &mut TilingState, direction: Direction, spatial: Option<usize>) -> (r:
    Option<WindowSwap>)
    ensures
        focused_window_swapped(*old(state), *final(state), direction, spatial, r),
{
    let i = match &state.focused_workspace {
        Some(n) => match state.workspace_position_of(n.as_str()) {
            Some(i) => i,
            None => return None,
        },
        None => return None,
    };
    let len = state.workspaces[i].window_ids.len();
    if len < 2 {
        return None;
    }
    let f: usize = match state.workspaces[i].focused_window_index {
        Some(f) => f,
        None => 0,
    };
    if f >= len {
        return None;
    }
    let t: usize = match direction {
        Direction::Next => {
            if f + 1 == len {
                proof {
                    vstd::arithmetic::div_mod::lemma_mod_self_0(len as int);
                }
                0
            } else {
                proof {
                    vstd::arithmetic::div_mod::lemma_small_mod((f + 1) as nat, len as nat);
                }
                f + 1
            }
        },
        Direction::Previous => if f == 0 {
            len - 1
        } else {
            f - 1
        },
        _ => match spatial {
            Some(t) => if t < len {
                t
            } else {
                return None;
            },
            None => return None,
        },
    };
    let name = state.workspaces[i].name.clone();
    let ws = &mut state.workspaces[i];
    let id_f = ws.window_ids[f];
    let id_t = ws.window_ids[t];
    ws.window_ids.set(f, id_t);
    ws.window_ids.set(t, id_f);
    ws.focused_window_index = Some(t);
    Some(WindowSwap { workspace: name, index_a: f, index_b: t })
}

/// The workspace that sending a window to the screen named `name` sends it
/// to: the first visible workspace of the screen that the command names.
pub open spec fn screen_target_workspace(state: TilingState, name: Seq<char>) -> Option<Seq<char>> {
    match command_screen(state, name) {
        Some(s) => visible_workspace_name(state, s.id),
        None => None,
    }
}

/// Sends the focused window to the visible workspace of another screen
/// ("main", "secondary" or a name, as `resolve_command_screen` reads it), as
/// `send_window_to_workspace` sends it there. Nothing changes, and `None` is
/// returned, when no screen has that name or no workspace is visible on it.
pub fn send_window_to_screen(state: &mut TilingState, target_screen: &str) -> (r: Option<WindowMove>)
    ensures
        match screen_target_workspace(*old(state), target_screen@) {
            Some(t) => window_sent(*old(state), *final(state), t, r),
            None => r is None && *final(state) == *old(state),
        },
{
    let screen_id = match resolve_command_screen(state, target_screen) {
        Some(s) => s.id,
        None => return None,
    };
    let f = |w: &Workspace| -> (b: bool)
        ensures
            b == (w.screen_id == screen_id && w.is_visible),
        {
            let b = w.screen_id == screen_id && w.is_visible;
            b
        };
    let target = match find_first(&state.workspaces, &f, Ghost(visible_on_screen(screen_id))) {
        Some(w) => w.name.clone(),
        None => return None,
    };
    send_window_to_workspace(state, target.as_str())
}

/// The focused workspace with the position of its focused window (the
/// first position when none is focused), when that position holds a window.
pub open spec fn focused_entry(state: TilingState) -> Option<(Workspace, int)> {
    match focused_workspace_spec(state) {
        Some(w) => {
            let f: int = match w.focused_window_index {
                Some(f) => f as int,
                None => 0,
            };
            if f < w.window_ids@.len() {
                Some((w, f))
            } else {
                None
            }
        },
        None => None,
    }
}

/// Finds the focused workspace and the position of its focused window, as
/// `focused_entry` describes.
fn focused_position(state: &TilingState) -> (r: Option<(&Workspace, usize)>)
    ensures
        match focused_entry(*state) {
            Some((w, f)) => r matches Some((x, g)) && *x == w && g == f,
            None => r is None,
        },
{
    let ws = match state.focused_workspace() {
        Some(ws) => ws,
        None => return None,
    };
    let f: usize = match ws.focused_window_index {
        Some(f) => f,
        None => 0,
    };
    if f < ws.window_ids.len() {
        Some((ws, f))
    } else {
        None
    }
}

/// The side of a window that a resize command changes.
#[derive(Debug, Clone, Copy, PartialEq, Eq, Structural)]
pub enum Dimension {
    /// The width.
    Width,
    /// The height.
    Height,
}

/// The dimension that a word names, "width" or "height", with letters
/// compared without regard to ASCII case.
pub open spec fn dimension_named(s: Seq<char>) -> Option<Dimension> {
    if eq_ignore_case(s, "width"@) {
        Some(Dimension::Width)
    } else if eq_ignore_case(s, "height"@) {
        Some(Dimension::Height)
    } else {
        None
    }
}

/// Reads the dimension that a word names.
pub fn parse_dimension(s: &str) -> (r: Option<Dimension>)
    ensures
        r == dimension_named(s@),
{
    if eq_ignore_ascii_case(s, "width") {
        Some(Dimension::Width)
    } else if eq_ignore_ascii_case(s, "height") {
        Some(Dimension::Height)
    } else {
        None
    }
}

/// The window that a resize command resizes.
pub struct ResizeTarget {
    /// The focused workspace.
    pub workspace: String,
    /// The focused window.
    pub window_id: u32,
    /// The dimension to change.
    pub dimension: Dimension,
}

/// Decides whether resizing the focused window can go ahead: the focused
/// workspace must hold at least two windows, its focused position (the first
/// one when none is focused) a tracked window, and `dimension` must name a
/// dimension. The new frame and the ratios that follow from it are computed
/// by the caller.
pub fn resize_target(state: &TilingState, dimension: &str) -> (r: Option<ResizeTarget>)
    ensures
        match focused_entry(*state) {
            Some((w, f)) => {
                let id = w.window_ids@[f];
                if w.window_ids@.len() >= 2 && any_match(state.windows@, window_has_id(id))
                    && dimension_named(dimension@) is Some {
                    r matches Some(t) && t.workspace@ == w.name@ && t.window_id == id
                        && t.dimension == dimension_named(dimension@).unwrap()
                } else {
                    r is None
                }
            },
            None => r is None,
        },
{
    let (ws, f) = match focused_position(state) {
        Some(p) => p,
        None => return None,
    };
    if ws.window_ids.len() < 2 {
        return None;
    }
    let id = ws.window_ids[f];
    if state.window_by_id(id).is_none() {
        proof {
            crate::search::lemma_first_index_none(state.windows@, window_has_id(id));
        }
        return None;
    }
    proof {
        let k = crate::search::first_index(state.windows@, window_has_id(id)).unwrap();
        crate::search::lemma_first_index_is(state.windows@, window_has_id(id), k);
    }
    match parse_dimension(dimension) {
        Some(d) => Some(ResizeTarget { workspace: ws.name.clone(), window_id: id, dimension: d }),
        None => None,
    }
}

/// The window and screen that a floating preset is applied to.
pub struct PresetTarget {
    /// The focused window.
    pub window_id: u32,
    /// The screen of the focused workspace, whose visible frame the preset
    /// is laid out in.
    pub screen_id: u32,
}

/// Decides whether a floating preset can be applied: the focused workspace
/// must be floating, its focused position (the first one when none is
/// focused) must hold a window, and its screen must be known. The preset's
/// frame is computed by the caller.
pub fn preset_target(state: &TilingState) -> (r: Option<PresetTarget>)
    ensures
        match focused_entry(*state) {
            Some((w, f)) => if w.layout == LayoutType::Floating && any_match(
                state.screens@,
                screen_has_id(w.screen_id),
            ) {
                r matches Some(t) && t.window_id == w.window_ids@[f] && t.screen_id == w.screen_id
            } else {
                r is None
            },
            None => r is None,
        },
{
    let (ws, f) = match focused_position(state) {
        Some(p) => p,
        None => return None,
    };
    if ws.layout != LayoutType::Floating {
        return None;
    }
    match state.screen_by_id(ws.screen_id) {
        Some(_) => {
            proof {
                let k = crate::search::first_index(state.screens@, screen_has_id(ws.screen_id)).unwrap();
                crate::search::lemma_first_index_is(state.screens@, screen_has_id(ws.screen_id), k);
            }
            Some(PresetTarget { window_id: ws.window_ids[f], screen_id: ws.screen_id })
        },
        None => {
            proof {
                crate::search::lemma_first_index_none(state.screens@, screen_has_id(ws.screen_id));
            }
            None
        },
    }
}

/// The value of a run of digits is at least that of any of its prefixes.
proof fn lemma_digits_value_grows(d: Seq<char>, k: nat)
    requires
        k <= d.len(),
        all_digits(d),
    ensures
        digits_value(d.subrange(0, k as int)) <= digits_value(d),
    decreases d.len() - k,
{
    if k < d.len() {
        lemma_digits_value_grows(d, k + 1);
        let p = d.subrange(0, k as int + 1);
        assert(p.drop_last() =~= d.subrange(0, k as int));
        assert('0' <= p[k as int]);
    } else {
        assert(d.subrange(0, k as int) =~= d);
    }
}

} // verus!
