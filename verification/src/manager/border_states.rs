//! Which border state each window gets from its workspace's layout and focus.

use vstd::prelude::*;

use crate::borders::manager::BorderState;
use crate::config::LayoutType;
use crate::state::{TilingState, Workspace};

verus! {

/// The border state of a window: monocle and floating layouts give their own
/// state, other layouts distinguish the focused window.
pub open spec fn layout_border_state_spec(layout: LayoutType, is_focused: bool) -> BorderState {
    match layout {
        LayoutType::Monocle => BorderState::Monocle,
        LayoutType::Floating => BorderState::Floating,
        _ => if is_focused {
            BorderState::Focused
        } else {
            BorderState::Unfocused
        },
    }
}

/// The border state of a window under `layout`.
pub fn layout_border_state(layout: LayoutType, is_focused: bool) -> (r: BorderState)
    ensures
        r == layout_border_state_spec(layout, is_focused),
{
    match layout {
        LayoutType::Monocle => BorderState::Monocle,
        LayoutType::Floating => BorderState::Floating,
        _ => if is_focused {
            BorderState::Focused
        } else {
            BorderState::Unfocused
        },
    }
}

/// The border state of every window of a workspace after its layout changed
/// to `layout`, in window order.
pub fn border_states_for_layout(
    window_ids: &Vec<u32>,
    focused_index: Option<usize>,
    layout: LayoutType,
) -> (r: Vec<(u32, BorderState)>)
    ensures
        r@.len() == window_ids@.len(),
        forall|i: int|
            0 <= i < window_ids@.len() ==> #[trigger] r@[i] == (
                window_ids@[i],
                layout_border_state_spec(layout, focused_index == Some(i as usize)),
            ),
{
    let mut r: Vec<(u32, BorderState)> = Vec::new();
    let mut i: usize = 0;
    while i < window_ids.len()
        invariant
            i <= window_ids@.len(),
            r@.len() == i,
            forall|k: int|
                0 <= k < i ==> #[trigger] r@[k] == (
                    window_ids@[k],
                    layout_border_state_spec(layout, focused_index == Some(k as usize)),
                ),
        decreases window_ids@.len() - i,
    {
        let focused = match focused_index {
            Some(f) => f == i,
            None => false,
        };
        r.push((window_ids[i], layout_border_state(layout, focused)));
        i = i + 1;
    }
    r
}

/// The border state of a newly tracked window, from the layout of its
/// workspace and whether it is that workspace's focused window; unfocused
/// when no workspace has that name.
pub fn determine_border_state(state: &TilingState, window_id: u32, workspace_name: &str) -> (r:
    BorderState)
    ensures
        r == match state.workspace_lookup(workspace_name@) {
            Some(w) => layout_border_state_spec(w.layout, w.focused_window() == Some(window_id)),
            None => BorderState::Unfocused,
        },
{
    match state.workspace_by_name(workspace_name) {
        Some(ws) => {
            let focused = match ws.focused_window_id() {
                Some(id) => id == window_id,
                None => false,
            };
            layout_border_state(ws.layout, focused)
        },
        None => BorderState::Unfocused,
    }
}

/// The border states that a focus change in a workspace sets.
pub struct FocusBorderStates {
    /// The state of the newly focused window.
    pub focused: BorderState,
    /// The state of the window that lost focus.
    pub unfocused: BorderState,
    /// Whether the workspace is in monocle layout.
    pub is_monocle: bool,
    /// Whether the workspace is floating.
    pub is_floating: bool,
}

/// The border states for a focus change in workspace `workspace_name`.
pub fn focus_border_states(state: &TilingState, workspace_name: &str) -> (r: FocusBorderStates)
    ensures
        ({
            let layout = match state.workspace_lookup(workspace_name@) {
                Some(w) => Some(w.layout),
                None => None,
            };
            &&& r.is_monocle == (layout == Some(LayoutType::Monocle))
            &&& r.is_floating == (layout == Some(LayoutType::Floating))
            &&& r.focused == if r.is_monocle {
                BorderState::Monocle
            } else if r.is_floating {
                BorderState::Floating
            } else {
                BorderState::Focused
            }
            &&& r.unfocused == if r.is_monocle {
                BorderState::Monocle
            } else if r.is_floating {
                BorderState::Floating
            } else {
                BorderState::Unfocused
            }
        }),
{
    let layout = match state.workspace_by_name(workspace_name) {
        Some(ws) => Some(ws.layout),
        None => None,
    };
    match layout {
        Some(LayoutType::Monocle) => FocusBorderStates {
            focused: BorderState::Monocle,
            unfocused: BorderState::Monocle,
            is_monocle: true,
            is_floating: false,
        },
        Some(LayoutType::Floating) => FocusBorderStates {
            focused: BorderState::Floating,
            unfocused: BorderState::Floating,
            is_monocle: false,
            is_floating: true,
        },
        _ => FocusBorderStates {
            focused: BorderState::Focused,
            unfocused: BorderState::Unfocused,
            is_monocle: false,
            is_floating: false,
        },
    }
}

/// The windows of a workspace whose layout changed, for their borders.
pub struct LayoutChange {
    /// The windows of the workspace, in order.
    pub window_ids: Vec<u32>,
    /// Its focused position.
    pub focused_index: Option<usize>,
}

/// Whether `after` and `r` are what giving workspace `workspace_name` the
/// layout `layout` in `before` gives, as `set_workspace_layout` describes.
pub open spec fn layout_set(before: TilingState, after: TilingState, workspace_name: Seq<char>, layout: LayoutType, r: Option<LayoutChange>) -> bool {
    &&& after.screens@ =~= before.screens@
    &&& after.windows@ =~= before.windows@
    &&& after.focused_workspace == before.focused_workspace
    &&& after.focused_screen_id == before.focused_screen_id
    &&& after.workspace_index@ =~= before.workspace_index@
    &&& match before.workspace_position(workspace_name) {
        Some(i) => {
            let w = before.workspaces@[i];
            &&& r matches Some(c) && c.window_ids@ == w.window_ids@ && c.focused_index
                == w.focused_window_index
            &&& after.workspaces@ =~= before.workspaces@.update(
                i,
                (Workspace { layout, ..w }),
            )
        },
        None => r is None && after == before,
    }
}

/// Sets the layout of workspace `workspace_name`; `None`, changing nothing,
/// when no workspace has that name.
pub fn set_workspace_layout(state: &mut TilingState, workspace_name: &str, layout: LayoutType) -> (r:
    Option<LayoutChange>)
    ensures
        layout_set(*old(state), *final(state), workspace_name@, layout, r),
{
    match state.workspace_by_name_mut(workspace_name) {
        Some(ws) => {
            ws.layout = layout;
            Some(LayoutChange { window_ids: ws.window_ids.clone(), focused_index: ws.focused_window_index })
        },
        None => None,
    }
}


/// Every layout other than monocle and floating marks exactly the focused
/// window as focused and every other window as unfocused.
pub proof fn law_tiled_layouts_mark_only_the_focused_window(layout: LayoutType, is_focused: bool)
    requires
        layout != LayoutType::Monocle,
        layout != LayoutType::Floating,
    ensures
        (layout_border_state_spec(layout, is_focused) == BorderState::Focused) == is_focused,
        !is_focused ==> layout_border_state_spec(layout, is_focused) == BorderState::Unfocused,
{
}

/// Monocle and floating layouts give every window their own state, focused
/// or not.
pub proof fn law_monocle_and_floating_ignore_focus(is_focused: bool)
    ensures
        layout_border_state_spec(LayoutType::Monocle, is_focused) == BorderState::Monocle,
        layout_border_state_spec(LayoutType::Floating, is_focused) == BorderState::Floating,
{
}

} // verus!
