//! The tiling manager: the tiling state with the focus history and the
//! timestamps that debounce focus events.
//!
//! The submodules hold the decisions that the manager's commands make on the
//! state. Moving, hiding and focusing windows, animation and layout geometry
//! are done by the caller around them.

pub mod border_states;
pub mod commands;
pub mod focus;
pub mod helpers;
pub mod agreement;
pub mod laws;
pub mod resize;
pub mod screens;
pub mod setup;
pub mod windows;
pub mod workspaces;

use vstd::prelude::*;

use crate::constants::timing::{FOCUS_COOLDOWN_MS, WORKSPACE_SWITCH_COOLDOWN_MS};
use crate::event_coalescer::elapsed;
use crate::manager::focus::{without_value, renamed, FocusHistory};
use crate::config::LayoutType;
use crate::manager::border_states::{layout_set, LayoutChange};
use crate::manager::commands::{
    dimension_named, focused_entry, focused_window_swapped, preset_target, resize_target,
    screen_target_workspace, swap_focused_window, Direction, PresetTarget, ResizeTarget,
};
use crate::manager::resize::{
    layout_target, plan_ratio_update, ratio_update, LayoutTarget, RatioUpdate,
};
use crate::manager::screens::{workspace_sent, WorkspaceMove};
use crate::manager::windows::{
    cycled_index, focus_cycle_target, focus_set, set_focused_window, window_sent, window_tracked,
    windows_swapped, FocusChange, FocusTarget, NewWindow, UntrackedWindow, WindowMove, WindowSwap,
    focused_workspace_spec,
};
use crate::manager::workspaces::initial_visibility_set;
use crate::manager::workspaces::{
    complete_workspace_switch, plan_workspace_switch, switched, visible_workspace_name,
    WorkspaceSwitchPlan,
};
use crate::search::{any_match, first_index, first_match, same_option};
use crate::state::{
    screen_has_id, screen_is_main, window_has_id, window_in_workspace, workspace_on_screen, Screen,
    TilingState, TrackedWindow, Workspace,
};
use crate::text::{opt_chars, owned};

verus! {

/// Information about a workspace switch operation.
#[derive(Debug, Clone)]
pub struct WorkspaceSwitchInfo {
    /// Name of the workspace switched to.
    pub workspace: String,
    /// Name of the screen the workspace is on.
    pub screen: String,
    /// Name of the previous workspace (if any).
    pub previous_workspace: Option<String>,
}

/// The central tiling window manager.
pub struct TilingManager {
    state: TilingState,
    enabled: bool,
    initialized: bool,
    focus_history: FocusHistory,
    last_programmatic_focus: Option<(u32, u64)>,
    last_workspace_switch: Option<u64>,
}

impl TilingManager {
    /// The tiling state.
    pub closed spec fn state_spec(&self) -> TilingState {
        self.state
    }

    /// Whether tiling is enabled.
    pub closed spec fn enabled_spec(&self) -> bool {
        self.enabled
    }

    /// Whether the startup sequence has finished.
    pub closed spec fn initialized_spec(&self) -> bool {
        self.initialized
    }

    /// The last focused window of each workspace.
    pub closed spec fn history(&self) -> Map<Seq<char>, u32> {
        self.focus_history.view()
    }

    /// The window focused by a command, and when (milliseconds).
    pub closed spec fn last_focus(&self) -> Option<(u32, u64)> {
        self.last_programmatic_focus
    }

    /// When the last workspace switch happened (milliseconds).
    pub closed spec fn last_switch(&self) -> Option<u64> {
        self.last_workspace_switch
    }

    /// Whether the focus history is well formed.
    pub closed spec fn wf(&self) -> bool {
        self.focus_history.wf()
    }

    /// Whether `other` differs from `self` at most in its tiling state.
    pub open spec fn same_but_state(&self, other: &Self) -> bool {
        &&& self.wf() == other.wf()
        &&& self.enabled_spec() == other.enabled_spec()
        &&& self.initialized_spec() == other.initialized_spec()
        &&& self.history() == other.history()
        &&& self.last_focus() == other.last_focus()
        &&& self.last_switch() == other.last_switch()
    }

    /// Creates a disabled manager with an empty state and history.
    pub fn new() -> (r: Self)
        ensures
            r.wf(),
            !r.enabled_spec(),
            !r.initialized_spec(),
            r.state_spec().screens@.len() == 0,
            r.state_spec().workspaces@.len() == 0,
            r.state_spec().windows@.len() == 0,
            r.state_spec().focused_workspace is None,
            r.state_spec().focused_screen_id is None,
            r.state_spec().workspace_index@.len() == 0,
            r.history() == Map::<Seq<char>, u32>::empty(),
            r.last_focus() is None,
            r.last_switch() is None,
    {
        TilingManager {
            state: TilingState::new(),
            enabled: false,
            initialized: false,
            focus_history: FocusHistory::new(),
            last_programmatic_focus: None,
            last_workspace_switch: None,
        }
    }

    /// Returns whether the tiling system is enabled.
    pub fn is_enabled(&self) -> (r: bool)
        ensures
            r == self.enabled_spec(),
    {
        self.enabled
    }

    /// Enables or disables the tiling system, as the configuration says.
    pub fn set_enabled(&mut self, enabled: bool)
        ensures
            final(self).enabled_spec() == enabled,
            final(self).state_spec() == old(self).state_spec(),
            final(self).wf() == old(self).wf(),
            final(self).initialized_spec() == old(self).initialized_spec(),
            final(self).history() == old(self).history(),
            final(self).last_focus() == old(self).last_focus(),
            final(self).last_switch() == old(self).last_switch(),
    {
        self.enabled = enabled;
    }

    /// Marks the startup sequence as finished; windows move with animation
    /// from then on.
    pub fn mark_initialized(&mut self)
        ensures
            final(self).initialized_spec(),
            final(self).state_spec() == old(self).state_spec(),
            final(self).wf() == old(self).wf(),
            final(self).enabled_spec() == old(self).enabled_spec(),
            final(self).history() == old(self).history(),
            final(self).last_focus() == old(self).last_focus(),
            final(self).last_switch() == old(self).last_switch(),
    {
        self.initialized = true;
    }

    /// Returns whether the startup sequence has finished.
    pub fn is_initialized(&self) -> (r: bool)
        ensures
            r == self.initialized_spec(),
    {
        self.initialized
    }

    /// Returns the current state.
    pub fn state(&self) -> (r: &TilingState)
        ensures
            *r == self.state_spec(),
    {
        &self.state
    }

    /// Returns the current state for modification.
    pub fn state_mut(&mut self) -> (r: &mut TilingState)
        ensures
            *r == old(self).state_spec(),
            final(self).state_spec() == *final(r),
            final(self).same_but_state(old(self)),
    {
        &mut self.state
    }

    // ========================================================================
    // Queries
    // ========================================================================

    /// Gets all screens.
    pub fn get_screens(&self) -> (r: &Vec<Screen>)
        ensures
            r@ == self.state_spec().screens@,
    {
        &self.state.screens
    }

    /// Gets a screen by ID.
    pub fn get_screen(&self, id: u32) -> (r: Option<&Screen>)
        ensures
            same_option(r, first_match(self.state_spec().screens@, screen_has_id(id))),
    {
        self.state.screen_by_id(id)
    }

    /// Gets a screen by name, as `TilingState::screen_by_name` finds it.
    pub fn get_screen_by_name(&self, name: &str) -> (r: Option<&Screen>)
        ensures
            same_option(r, self.state_spec().screen_named(name@)),
    {
        self.state.screen_by_name(name)
    }

    /// Gets the main screen.
    pub fn get_main_screen(&self) -> (r: Option<&Screen>)
        ensures
            same_option(r, first_match(self.state_spec().screens@, screen_is_main())),
    {
        self.state.main_screen()
    }

    /// Gets the focused screen.
    pub fn get_focused_screen(&self) -> (r: Option<&Screen>)
        ensures
            same_option(
                r,
                match self.state_spec().focused_screen_id {
                    Some(id) => first_match(self.state_spec().screens@, screen_has_id(id)),
                    None => None,
                },
            ),
    {
        match self.state.focused_screen_id {
            Some(id) => self.state.screen_by_id(id),
            None => None,
        }
    }

    /// Gets all workspaces.
    pub fn get_workspaces(&self) -> (r: &Vec<Workspace>)
        ensures
            r@ == self.state_spec().workspaces@,
    {
        &self.state.workspaces
    }

    /// Gets the workspaces of a screen.
    pub fn get_workspaces_for_screen(&self, screen_id: u32) -> (r: Vec<&Workspace>)
        ensures
            r@.map_values(|x: &Workspace| *x) == self.state_spec().workspaces@.filter(
                workspace_on_screen(screen_id),
            ),
    {
        self.state.workspaces_for_screen(screen_id)
    }

    /// Gets the focused workspace.
    pub fn get_focused_workspace(&self) -> (r: Option<&Workspace>)
        ensures
            same_option(r, focused_workspace_spec(self.state_spec())),
    {
        self.state.focused_workspace()
    }

    /// Sets the focused workspace by name, before windows are tracked, so that
    /// windows without a rule go to it.
    pub fn set_focused_workspace_name(&mut self, name: &str)
        ensures
            opt_chars(final(self).state_spec().focused_workspace) == Some(name@),
            final(self).state_spec() == (TilingState {
                focused_workspace: final(self).state_spec().focused_workspace,
                ..old(self).state_spec()
            }),
            final(self).same_but_state(old(self)),
    {
        self.state.focused_workspace = Some(owned(name));
    }

    /// Gets a workspace by name.
    pub fn get_workspace(&self, name: &str) -> (r: Option<&Workspace>)
        ensures
            same_option(r, self.state_spec().workspace_lookup(name@)),
    {
        self.state.workspace_by_name(name)
    }

    /// Gets all tracked windows.
    pub fn get_windows(&self) -> (r: &Vec<TrackedWindow>)
        ensures
            r@ == self.state_spec().windows@,
    {
        &self.state.windows
    }

    /// Gets the windows of a workspace (by name, up to ASCII case).
    pub fn get_windows_for_workspace(&self, workspace_name: &str) -> (r: Vec<&TrackedWindow>)
        ensures
            r@.map_values(|x: &TrackedWindow| *x) == self.state_spec().windows@.filter(
                window_in_workspace(workspace_name@),
            ),
    {
        self.state.windows_for_workspace(workspace_name)
    }

    /// Gets a window by ID.
    pub fn get_window(&self, id: u32) -> (r: Option<&TrackedWindow>)
        ensures
            same_option(r, first_match(self.state_spec().windows@, window_has_id(id))),
    {
        self.state.window_by_id(id)
    }

    // ========================================================================
    // Debouncing
    // ========================================================================

    /// Records that a command focused `window_id` at time `now_ms`.
    pub fn record_programmatic_focus(&mut self, window_id: u32, now_ms: u64)
        ensures
            final(self).last_focus() == Some((window_id, now_ms)),
            final(self).state_spec() == old(self).state_spec(),
            final(self).wf() == old(self).wf(),
            final(self).enabled_spec() == old(self).enabled_spec(),
            final(self).initialized_spec() == old(self).initialized_spec(),
            final(self).history() == old(self).history(),
            final(self).last_switch() == old(self).last_switch(),
    {
        self.last_programmatic_focus = Some((window_id, now_ms));
    }

    /// Whether a focus event for `window_id` at time `now_ms` is stale: a
    /// command focused a different window less than the focus cooldown ago.
    pub fn should_skip_focus_event(&self, window_id: u32, now_ms: u64) -> (r: bool)
        ensures
            r == match self.last_focus() {
                Some((id, at)) => id != window_id && elapsed(now_ms, at) < FOCUS_COOLDOWN_MS,
                None => false,
            },
    {
        match self.last_programmatic_focus {
            Some((id, at)) => {
                let age: u64 = if now_ms >= at {
                    now_ms - at
                } else {
                    0
                };
                id != window_id && (age as u128) < FOCUS_COOLDOWN_MS
            },
            None => false,
        }
    }

    /// Records that a workspace switch happened at time `now_ms`.
    pub fn record_workspace_switch(&mut self, now_ms: u64)
        ensures
            final(self).last_switch() == Some(now_ms),
            final(self).state_spec() == old(self).state_spec(),
            final(self).wf() == old(self).wf(),
            final(self).enabled_spec() == old(self).enabled_spec(),
            final(self).initialized_spec() == old(self).initialized_spec(),
            final(self).history() == old(self).history(),
            final(self).last_focus() == old(self).last_focus(),
    {
        self.last_workspace_switch = Some(now_ms);
    }

    /// Whether a switch requested at `now_ms` comes too soon after the last
    /// one (within the switch cooldown), whatever its target.
    pub fn should_skip_workspace_switch(&self, target_workspace: &str, now_ms: u64) -> (r: bool)
        ensures
            r == match self.last_switch() {
                Some(at) => elapsed(now_ms, at) < WORKSPACE_SWITCH_COOLDOWN_MS,
                None => false,
            },
    {
        match self.last_workspace_switch {
            Some(at) => {
                let age: u64 = if now_ms >= at {
                    now_ms - at
                } else {
                    0
                };
                (age as u128) < WORKSPACE_SWITCH_COOLDOWN_MS
            },
            None => false,
        }
    }

    // ========================================================================
    // Windows
    // ========================================================================

    /// Updates a tracked window's title.
    pub fn update_window_title(&mut self, window_id: u32, title: String)
        ensures
            final(self).same_but_state(old(self)),
            ({
                let s = old(self).state_spec();
                match first_index(s.windows@, window_has_id(window_id)) {
                    Some(k) => {
                        &&& final(self).state_spec().windows@.len() == s.windows@.len()
                        &&& final(self).state_spec().windows@[k].title@ == title@
                        &&& final(self).state_spec().windows@[k] == (TrackedWindow {
                            title: final(self).state_spec().windows@[k].title,
                            ..s.windows@[k]
                        })
                        &&& forall|m: int|
                            0 <= m < s.windows@.len() && m != k ==> #[trigger] final(self).state_spec().windows@[m] == s.windows@[m]
                        &&& final(self).state_spec().screens@ == s.screens@
                        &&& final(self).state_spec().workspaces@ == s.workspaces@
                        &&& final(self).state_spec().focused_workspace == s.focused_workspace
                        &&& final(self).state_spec().focused_screen_id == s.focused_screen_id
                        &&& final(self).state_spec().workspace_index == s.workspace_index
                    },
                    None => final(self).state_spec() == s,
                }
            }),
    {
        if let Some(w) = self.state.window_by_id_mut(window_id) {
            w.title = title;
        }
    }

    /// Records that a command focused window `window_id` at `now_ms` (the
    /// caller focuses it through the platform first): focus events for other windows are
    /// skipped for the cooldown from then on, and the window becomes the
    /// focused one of its workspace as `set_focused_window` makes it.
    /// Nothing changes, and `None` is returned, when the window is not
    /// tracked.
    pub fn focus_window_by_id(&mut self, window_id: u32, now_ms: u64) -> (r: Option<
        FocusChange,
    >)
        ensures
            final(self).wf() == old(self).wf(),
            final(self).enabled_spec() == old(self).enabled_spec(),
            final(self).initialized_spec() == old(self).initialized_spec(),
            final(self).history() == old(self).history(),
            final(self).last_switch() == old(self).last_switch(),
            match first_match(old(self).state_spec().windows@, window_has_id(window_id)) {
                Some(w) => {
                    &&& final(self).last_focus() == Some((window_id, now_ms))
                    &&& focus_set(
                        old(self).state_spec(),
                        final(self).state_spec(),
                        w.workspace_name@,
                        window_id,
                        r,
                    )
                },
                None => r is None && final(self).last_focus() == old(self).last_focus()
                    && final(self).state_spec() == old(self).state_spec(),
            },
    {
        let name = match self.state.window_by_id(window_id) {
            Some(w) => w.workspace_name.clone(),
            None => return None,
        };
        self.last_programmatic_focus = Some((window_id, now_ms));
        set_focused_window(&mut self.state, name.as_str(), window_id)
    }

    /// Replaces a window's ID in the state and in the focus history (a tab of
    /// a native tab group became the representative window).
    pub fn swap_window_id(&mut self, old_id: u32, new_id: u32) -> (r: bool)
        requires
            old(self).wf(),
        ensures
            final(self).wf(),
            final(self).enabled_spec() == old(self).enabled_spec(),
            final(self).initialized_spec() == old(self).initialized_spec(),
            final(self).last_focus() == old(self).last_focus(),
            final(self).last_switch() == old(self).last_switch(),
            r == first_index(old(self).state_spec().windows@, window_has_id(old_id)) is Some,
            r ==> final(self).history() == old(self).history().map_values(renamed(old_id, new_id)),
            !r ==> final(self).history() == old(self).history() && final(self).state_spec()
                == old(self).state_spec(),
    {
        let r = crate::manager::windows::swap_window_id(&mut self.state, old_id, new_id);
        if r {
            self.focus_history.swap_window_id(old_id, new_id);
        }
        r
    }

    /// Stops tracking a window: it leaves the state and the focus history.
    pub fn untrack_window(&mut self, window_id: u32) -> (r: Option<UntrackedWindow>)
        requires
            old(self).wf(),
        ensures
            final(self).wf(),
            final(self).enabled_spec() == old(self).enabled_spec(),
            final(self).initialized_spec() == old(self).initialized_spec(),
            final(self).last_focus() == old(self).last_focus(),
            final(self).last_switch() == old(self).last_switch(),
            r is Some == first_index(old(self).state_spec().windows@, window_has_id(window_id)) is Some,
            r is Some ==> final(self).history() == without_value(old(self).history(), window_id),
            r is None ==> final(self).history() == old(self).history() && final(self).state_spec()
                == old(self).state_spec(),
    {
        let r = crate::manager::windows::untrack_window(&mut self.state, window_id);
        if r.is_some() {
            self.focus_history.remove_window(window_id);
        }
        r
    }

    // ========================================================================
    // Workspace switching
    // ========================================================================

    /// Plans a switch to workspace `name` (see `plan_workspace_switch`). When
    /// the switch leaves the workspace shown on that screen, its focused
    /// window is recorded in the focus history.
    pub fn begin_workspace_switch(&mut self, name: &str) -> (r: Option<WorkspaceSwitchPlan>)
        requires
            old(self).wf(),
        ensures
            final(self).wf(),
            final(self).state_spec() == old(self).state_spec(),
            final(self).enabled_spec() == old(self).enabled_spec(),
            final(self).initialized_spec() == old(self).initialized_spec(),
            final(self).last_focus() == old(self).last_focus(),
            final(self).last_switch() == old(self).last_switch(),
            r is None <==> old(self).state_spec().workspace_lookup(name@) is None,
            ({
                let s = old(self).state_spec();
                match r {
                    Some(p) => if p.leaves_previous {
                        let previous = opt_chars(p.info.previous_workspace).unwrap();
                        match s.workspace_lookup(previous) {
                            Some(w) => match w.focused_window() {
                                Some(id) => final(self).history() == old(self).history().insert(
                                    previous,
                                    id,
                                ),
                                None => final(self).history() == old(self).history(),
                            },
                            None => final(self).history() == old(self).history(),
                        }
                    } else {
                        final(self).history() == old(self).history()
                    },
                    None => final(self).history() == old(self).history(),
                }
            }),
            r matches Some(p) ==> {
                let s = old(self).state_spec();
                let t = s.workspace_lookup(name@).unwrap();
                let previous = visible_workspace_name(s, t.screen_id);
                &&& p.screen_id == t.screen_id
                &&& p.info.workspace@ == name@
                &&& opt_chars(p.info.previous_workspace) == previous
                &&& p.already_active == (t.is_visible && t.is_focused)
                &&& p.leaves_previous == (!p.already_active && previous is Some
                    && previous.unwrap() != name@)
            },
    {
        let plan = plan_workspace_switch(&self.state, name);
        if let Some(p) = &plan {
            if p.leaves_previous {
                if let Some(previous) = &p.info.previous_workspace {
                    let focused = match self.state.workspace_by_name(previous.as_str()) {
                        Some(w) => w.focused_window_id(),
                        None => None,
                    };
                    if let Some(id) = focused {
                        self.focus_history.record(previous.as_str(), id);
                    }
                }
            }
        }
        plan
    }

    /// The window to focus after switching to workspace `name`: the one the
    /// history recorded for it, else its first window.
    pub fn switch_focus_target(&self, name: &str) -> (r: Option<u32>)
        requires
            self.wf(),
        ensures
            r == if self.history().contains_key(name@) {
                Some(self.history()[name@])
            } else {
                match self.state_spec().workspace_lookup(name@) {
                    Some(w) => if w.window_ids@.len() > 0 {
                        Some(w.window_ids@[0])
                    } else {
                        None
                    },
                    None => None,
                }
            },
    {
        match self.focus_history.get(name) {
            Some(id) => Some(id),
            None => match self.state.workspace_by_name(name) {
                Some(w) => if w.window_ids.len() > 0 {
                    Some(w.window_ids[0])
                } else {
                    None
                },
                None => None,
            },
        }
    }

    /// Records a completed switch to workspace `name` on screen `screen_id`
    /// at time `now_ms` (see `complete_workspace_switch`).
    pub fn finish_workspace_switch(&mut self, name: &str, screen_id: u32, now_ms: u64)
        ensures
            final(self).wf() == old(self).wf(),
            final(self).enabled_spec() == old(self).enabled_spec(),
            final(self).initialized_spec() == old(self).initialized_spec(),
            final(self).history() == old(self).history(),
            final(self).last_focus() == old(self).last_focus(),
            final(self).last_switch() == Some(now_ms),
            final(self).state_spec().workspaces@ == old(self).state_spec().workspaces@.map_values(
                |w: Workspace| switched(w, name@, screen_id),
            ),
            final(self).state_spec().screens@ == old(self).state_spec().screens@,
            final(self).state_spec().windows@ == old(self).state_spec().windows@,
            opt_chars(final(self).state_spec().focused_workspace) == Some(name@),
            final(self).state_spec().focused_screen_id == Some(screen_id),
    {
        complete_workspace_switch(&mut self.state, name, screen_id);
        self.last_workspace_switch = Some(now_ms);
    }

    // ========================================================================
    // Commands on the state
    // ========================================================================

    /// Sets the initial visibility of the workspaces, as
    /// `set_initial_workspace_visibility` on the state does.
    pub fn set_initial_workspace_visibility(&mut self, focused_window_id: Option<u32>)
        ensures
            final(self).same_but_state(old(self)),
            initial_visibility_set(old(self).state_spec(), final(self).state_spec(), focused_window_id),
    {
        crate::manager::workspaces::set_initial_workspace_visibility(&mut self.state, focused_window_id)
    }

    /// Changes the layout of a workspace, as `set_workspace_layout` on the
    /// state does.
    pub fn set_workspace_layout(&mut self, workspace_name: &str, layout: LayoutType) -> (r: Option<
        LayoutChange,
    >)
        ensures
            final(self).same_but_state(old(self)),
            layout_set(old(self).state_spec(), final(self).state_spec(), workspace_name@, layout, r),
    {
        crate::manager::border_states::set_workspace_layout(&mut self.state, workspace_name, layout)
    }

    /// Tracks a window that is not tracked yet, as `track_new_window` does.
    pub fn track_window(&mut self, window: TrackedWindow) -> (r: Option<NewWindow>)
        ensures
            final(self).same_but_state(old(self)),
            window_tracked(old(self).state_spec(), final(self).state_spec(), window, r),
    {
        crate::manager::windows::track_new_window(&mut self.state, window)
    }

    /// Makes a window the focused one of its workspace, as
    /// `set_focused_window` on the state does.
    pub fn set_focused_window(&mut self, workspace_name: &str, window_id: u32) -> (r: Option<
        FocusChange,
    >)
        ensures
            final(self).same_but_state(old(self)),
            focus_set(old(self).state_spec(), final(self).state_spec(), workspace_name@, window_id, r),
    {
        set_focused_window(&mut self.state, workspace_name, window_id)
    }

    /// Sends the focused window to workspace `target`, as
    /// `send_window_to_workspace` on the state does.
    pub fn send_window_to_workspace(&mut self, target: &str) -> (r: Option<WindowMove>)
        ensures
            final(self).same_but_state(old(self)),
            window_sent(old(self).state_spec(), final(self).state_spec(), target@, r),
    {
        crate::manager::windows::send_window_to_workspace(&mut self.state, target)
    }

    /// Sends the focused window to the visible workspace of another screen,
    /// as `send_window_to_screen` on the state does.
    pub fn send_window_to_screen(&mut self, target_screen: &str) -> (r: Option<WindowMove>)
        ensures
            final(self).same_but_state(old(self)),
            match screen_target_workspace(old(self).state_spec(), target_screen@) {
                Some(t) => window_sent(old(self).state_spec(), final(self).state_spec(), t, r),
                None => r is None && final(self).state_spec() == old(self).state_spec(),
            },
    {
        crate::manager::commands::send_window_to_screen(&mut self.state, target_screen)
    }

    /// Swaps two windows of a workspace, as `swap_windows_by_id` on the
    /// state does.
    pub fn swap_windows_by_id(&mut self, window_id_a: u32, window_id_b: u32) -> (r: Option<WindowSwap>)
        ensures
            final(self).same_but_state(old(self)),
            windows_swapped(old(self).state_spec(), final(self).state_spec(), window_id_a, window_id_b, r),
    {
        crate::manager::windows::swap_windows_by_id(&mut self.state, window_id_a, window_id_b)
    }

    /// Swaps the focused window with the one toward `direction`, as
    /// `swap_focused_window` does; `spatial` is the position found from the
    /// window frames for a spatial direction.
    pub fn swap_window_in_direction(&mut self, direction: Direction, spatial: Option<usize>) -> (r:
        Option<WindowSwap>)
        ensures
            final(self).same_but_state(old(self)),
            focused_window_swapped(old(self).state_spec(), final(self).state_spec(), direction, spatial, r),
    {
        swap_focused_window(&mut self.state, direction, spatial)
    }

    /// Sends the focused workspace to another screen, as
    /// `send_workspace_to_screen` on the state does.
    pub fn send_workspace_to_screen(&mut self, target_screen: &str) -> (r: Option<WorkspaceMove>)
        ensures
            final(self).same_but_state(old(self)),
            workspace_sent(old(self).state_spec(), final(self).state_spec(), target_screen@, r),
    {
        crate::manager::screens::send_workspace_to_screen(&mut self.state, target_screen)
    }

    /// Decides whether the focused window can be resized along
    /// `dimension`, as `resize_target` does.
    pub fn resize_focused_window(&self, dimension: &str) -> (r: Option<ResizeTarget>)
        ensures
            match focused_entry(self.state_spec()) {
                Some((w, f)) => {
                    let id = w.window_ids@[f];
                    if w.window_ids@.len() >= 2 && any_match(self.state_spec().windows@, window_has_id(id))
                        && dimension_named(dimension@) is Some {
                        r matches Some(t) && t.workspace@ == w.name@ && t.window_id == id
                            && t.dimension == dimension_named(dimension@).unwrap()
                    } else {
                        r is None
                    }
                },
                None => r is None,
            },
    {
        resize_target(&self.state, dimension)
    }

    /// Decides whether a floating preset can be applied to the focused
    /// window, as `preset_target` does.
    pub fn apply_preset(&self) -> (r: Option<PresetTarget>)
        ensures
            match focused_entry(self.state_spec()) {
                Some((w, f)) => if w.layout == LayoutType::Floating && any_match(
                    self.state_spec().screens@,
                    screen_has_id(w.screen_id),
                ) {
                    r matches Some(t) && t.window_id == w.window_ids@[f] && t.screen_id == w.screen_id
                } else {
                    r is None
                },
                None => r is None,
            },
    {
        preset_target(&self.state)
    }

    /// The window that focusing the next one moves to, as
    /// `focus_cycle_target` finds it going forward.
    pub fn focus_next_window(&self) -> (r: Option<FocusTarget>)
        ensures
            match focused_workspace_spec(self.state_spec()) {
                Some(w) => if w.window_ids@.len() == 0 {
                    r is None
                } else {
                    let k = cycled_index(w.focused_window_index, w.window_ids@.len(), true);
                    &&& r matches Some(t)
                    &&& t.workspace@ == w.name@
                    &&& t.index == k
                    &&& t.window_id == w.window_ids@[k]
                },
                None => r is None,
            },
    {
        focus_cycle_target(&self.state, true)
    }

    /// The window that focusing the previous one moves to, as
    /// `focus_cycle_target` finds it going backward.
    pub fn focus_previous_window(&self) -> (r: Option<FocusTarget>)
        requires
            focused_workspace_spec(self.state_spec()) matches Some(w) ==> (
            w.focused_window_index matches Some(f) ==> f <= w.window_ids@.len()),
        ensures
            match focused_workspace_spec(self.state_spec()) {
                Some(w) => if w.window_ids@.len() == 0 {
                    r is None
                } else {
                    let k = cycled_index(w.focused_window_index, w.window_ids@.len(), false);
                    &&& r matches Some(t)
                    &&& t.workspace@ == w.name@
                    &&& t.index == k
                    &&& t.window_id == w.window_ids@[k]
                },
                None => r is None,
            },
    {
        focus_cycle_target(&self.state, false)
    }

    /// What resizing a window asks of its workspace's split ratios, as
    /// `plan_ratio_update` decides.
    pub fn calculate_and_apply_ratios_for_window(&self, workspace_name: &str, window_id: u32) -> (r:
        RatioUpdate)
        ensures
            r == ratio_update(self.state_spec(), workspace_name@, window_id),
    {
        plan_ratio_update(&self.state, workspace_name, window_id)
    }

    /// What a layout pass over a workspace works on, as `layout_target`
    /// decides.
    pub fn apply_layout(&self, workspace_name: &str) -> (r: Option<LayoutTarget>)
        ensures
            match self.state_spec().workspace_lookup(workspace_name@) {
                Some(w) => if any_match(self.state_spec().screens@, screen_has_id(w.screen_id))
                    && w.layout != LayoutType::Floating && w.window_ids@.len() > 0 {
                    r matches Some(t) && t.window_ids@ == w.window_ids@ && t.screen_id == w.screen_id
                        && t.layout == w.layout
                } else {
                    r is None
                },
                None => r is None,
            },
    {
        layout_target(&self.state, workspace_name)
    }
}

} // verus!
