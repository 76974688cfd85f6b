//! The decisions of a layout pass, and those that turning a resized window
//! into new split ratios makes.
//!
//! A layout pass positions the windows of a workspace that is known, on a
//! known screen, with windows and a layout other than floating. Only the
//! split layouts keep ratios. When a window of one of them is
//! resized, the window and one neighbour trade size; which neighbour depends
//! on the edge that moved. The sizes and ratios themselves are floating point
//! and are computed by the caller from these decisions.

use vstd::prelude::*;

use crate::config::LayoutType;
use crate::manager::windows::id_is;
use crate::search::{any_match, first_index};
use crate::state::{screen_has_id, TilingState};

verus! {

/// What a layout pass over a workspace works on.
pub struct LayoutTarget {
    /// The windows of the workspace, in order.
    pub window_ids: Vec<u32>,
    /// The screen of the workspace.
    pub screen_id: u32,
    /// The layout of the workspace.
    pub layout: LayoutType,
}

/// Decides whether a layout pass over workspace `workspace_name` positions
/// anything: the workspace and its screen must be known, its layout must
/// not be floating, and it must hold windows. The frames are computed and
/// applied by the caller.
pub fn layout_target(state: &TilingState, workspace_name: &str) -> (r: Option<LayoutTarget>)
    ensures
        match state.workspace_lookup(workspace_name@) {
            Some(w) => if any_match(state.screens@, screen_has_id(w.screen_id)) && w.layout
                != LayoutType::Floating && w.window_ids@.len() > 0 {
                r matches Some(t) && t.window_ids@ == w.window_ids@ && t.screen_id == w.screen_id
                    && t.layout == w.layout
            } else {
                r is None
            },
            None => r is None,
        },
{
    let ws = match state.workspace_by_name(workspace_name) {
        Some(ws) => ws,
        None => return None,
    };
    if state.screen_by_id(ws.screen_id).is_none() {
        proof {
            crate::search::lemma_first_index_none(state.screens@, screen_has_id(ws.screen_id));
        }
        return None;
    }
    proof {
        let k = first_index(state.screens@, screen_has_id(ws.screen_id)).unwrap();
        crate::search::lemma_first_index_is(state.screens@, screen_has_id(ws.screen_id), k);
    }
    if ws.layout == LayoutType::Floating || ws.window_ids.len() == 0 {
        return None;
    }
    Some(LayoutTarget { window_ids: ws.window_ids.clone(), screen_id: ws.screen_id, layout: ws.layout })
}

/// Whether a layout keeps split ratios.
pub open spec fn is_split_layout(layout: LayoutType) -> bool {
    layout == LayoutType::Split || layout == LayoutType::SplitVertical || layout
        == LayoutType::SplitHorizontal
}

/// What resizing a window asks of its workspace's split ratios.
#[derive(Debug, Clone, Copy, PartialEq, Eq, Structural)]
pub enum RatioUpdate {
    /// Nothing changes.
    Keep,
    /// The ratios stay; the workspace is laid out again, which puts the
    /// window back in its place.
    Reapply,
    /// The window at `resized` and a neighbour trade size, among `count`
    /// windows on screen `screen_id`.
    Adjust {
        /// The position of the resized window.
        resized: usize,
        /// The number of windows of the workspace.
        count: usize,
        /// The screen of the workspace.
        screen_id: u32,
    },
}

/// What resizing window `window_id` of workspace `name` asks: nothing for
/// an unknown workspace; a new layout pass when its layout keeps no ratios;
/// nothing with fewer than two windows; a new layout pass when the window
/// is not in the workspace; nothing when the workspace's screen is unknown;
/// else an adjustment of the window's size.
pub open spec fn ratio_update(state: TilingState, name: Seq<char>, window_id: u32) -> RatioUpdate {
    match state.workspace_lookup(name) {
        Some(w) => if !is_split_layout(w.layout) {
            RatioUpdate::Reapply
        } else if w.window_ids@.len() < 2 {
            RatioUpdate::Keep
        } else {
            match first_index(w.window_ids@, id_is(window_id)) {
                Some(k) => if any_match(state.screens@, screen_has_id(w.screen_id)) {
                    RatioUpdate::Adjust {
                        resized: k as usize,
                        count: w.window_ids@.len() as usize,
                        screen_id: w.screen_id,
                    }
                } else {
                    RatioUpdate::Keep
                },
                None => RatioUpdate::Reapply,
            }
        },
        None => RatioUpdate::Keep,
    }
}

/// Decides what resizing window `window_id` of workspace `workspace_name`
/// asks of the split ratios, as `ratio_update` describes.
pub fn plan_ratio_update(state: &TilingState, workspace_name: &str, window_id: u32) -> (r:
    RatioUpdate)
    ensures
        r == ratio_update(*state, workspace_name@, window_id),
{
    let ws = match state.workspace_by_name(workspace_name) {
        Some(ws) => ws,
        None => return RatioUpdate::Keep,
    };
    let split = match ws.layout {
        LayoutType::Split | LayoutType::SplitVertical | LayoutType::SplitHorizontal => true,
        _ => false,
    };
    if !split {
        return RatioUpdate::Reapply;
    }
    let count = ws.window_ids.len();
    if count < 2 {
        return RatioUpdate::Keep;
    }
    let f = |x: &u32| -> (b: bool)
        ensures
            b == (*x == window_id),
        {
            let b = *x == window_id;
            b
        };
    let resized = match crate::search::position_first(&ws.window_ids, &f, Ghost(id_is(window_id))) {
        Some(k) => k,
        None => return RatioUpdate::Reapply,
    };
    match state.screen_by_id(ws.screen_id) {
        Some(_) => {
            proof {
                let k = first_index(state.screens@, screen_has_id(ws.screen_id)).unwrap();
                crate::search::lemma_first_index_is(state.screens@, screen_has_id(ws.screen_id), k);
            }
            RatioUpdate::Adjust { resized, count, screen_id: ws.screen_id }
        },
        None => {
            proof {
                crate::search::lemma_first_index_none(state.screens@, screen_has_id(ws.screen_id));
            }
            RatioUpdate::Keep
        },
    }
}

/// Whether a split layout stacks its windows top to bottom: always for
/// `SplitVertical`, never for `SplitHorizontal`, and for `Split` when the
/// screen is taller than wide. `None` for the layouts without ratios.
pub open spec fn split_vertical(layout: LayoutType, is_portrait: bool) -> Option<bool> {
    match layout {
        LayoutType::SplitVertical => Some(true),
        LayoutType::SplitHorizontal => Some(false),
        LayoutType::Split => Some(is_portrait),
        _ => None,
    }
}

/// Says whether a split layout stacks its windows top to bottom.
pub fn split_is_vertical(layout: LayoutType, is_portrait: bool) -> (r: Option<bool>)
    ensures
        r == split_vertical(layout, is_portrait),
{
    match layout {
        LayoutType::SplitVertical => Some(true),
        LayoutType::SplitHorizontal => Some(false),
        LayoutType::Split => Some(is_portrait),
        _ => None,
    }
}

/// The neighbour that gives or takes the size a window gained or lost: the
/// previous one when the window's leading edge moved (and it has one), the
/// next one when its trailing edge moved (and it has one), and otherwise the
/// previous one when there is one, else the next.
pub open spec fn adjacent_position(resized: int, count: int, start_moved: bool, end_moved: bool) -> int {
    if start_moved && resized > 0 {
        resized - 1
    } else if end_moved && resized < count - 1 {
        resized + 1
    } else if resized > 0 {
        resized - 1
    } else {
        resized + 1
    }
}

/// Chooses the neighbour of the resized window that trades size with it.
pub fn adjacent_index(resized: usize, count: usize, start_moved: bool, end_moved: bool) -> (r: usize)
    requires
        resized < count,
        2 <= count,
    ensures
        r == adjacent_position(resized as int, count as int, start_moved, end_moved),
        r < count,
        r != resized,
{
    if start_moved && resized > 0 {
        resized - 1
    } else if end_moved && resized < count - 1 {
        resized + 1
    } else if resized > 0 {
        resized - 1
    } else {
        resized + 1
    }
}


/// When the leading edge of a window moved and a window comes before it, the
/// window before it trades size, whatever the trailing edge did.
pub proof fn law_leading_edge_takes_priority(resized: int, count: int, end_moved: bool)
    requires
        0 < resized < count,
    ensures
        adjacent_position(resized, count, true, end_moved) == resized - 1,
{
}

/// When only the trailing edge moved, or the window is the first one and its
/// trailing edge moved, the window after it trades size, if there is one.
pub proof fn law_trailing_edge_picks_next(resized: int, count: int, start_moved: bool)
    requires
        0 <= resized < count - 1,
        !start_moved || resized == 0,
    ensures
        adjacent_position(resized, count, start_moved, true) == resized + 1,
{
}

/// When no edge that has a neighbour moved, the window before trades size,
/// or the one after for the first window; the neighbour is always next to
/// the resized window.
pub proof fn law_unmoved_edges_prefer_previous(resized: int, count: int, start_moved: bool, end_moved: bool)
    requires
        0 <= resized < count,
        2 <= count,
        !(start_moved && resized > 0),
        !(end_moved && resized < count - 1),
    ensures
        adjacent_position(resized, count, start_moved, end_moved) == if resized > 0 {
            resized - 1
        } else {
            1
        },
{
}

} // verus!
