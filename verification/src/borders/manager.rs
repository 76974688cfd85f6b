//! Border state of the windows that the tiling manager tracks.
//!
//! The border manager records, for every tracked window, its border state
//! (focused, unfocused, monocle, floating), its workspace and whether that
//! workspace is visible. When a change calls for new `JankyBorders` colors
//! or a configuration refresh, the manager queues a [`BorderAction`]; the
//! application performs the queued actions.

use vstd::prelude::*;

use crate::config::{BordersConfig, WindowRule};
use crate::keyed::{
    key_in, keyed_map, lemma_keyed_map_empty, lemma_keyed_map_index, lemma_keyed_map_map_values,
    lemma_keyed_map_len, lemma_keyed_map_push, lemma_keyed_map_remove, lemma_keyed_map_update,
    unique_keys,
};
use crate::text::owned;

verus! {

/// State of a window for border color selection.
#[derive(Debug, Clone, Copy, PartialEq, Eq, Hash, Structural)]
pub enum BorderState {
    /// Window is currently focused.
    Focused,
    /// Window is visible but not focused.
    Unfocused,
    /// Window is in monocle layout (maximized).
    Monocle,
    /// Window is floating (not tiled).
    Floating,
}

impl Default for BorderState {
    fn default() -> (r: Self)
        ensures
            r == BorderState::Unfocused,
    {
        BorderState::Unfocused
    }
}

/// Work that a border change asks of `JankyBorders`.
#[derive(Debug, Clone, Copy, PartialEq, Eq, Structural)]
pub enum BorderAction {
    /// Send the active color for the given layout state.
    UpdateColors {
        /// Whether the focused window is in monocle layout.
        is_monocle: bool,
        /// Whether the focused window is floating.
        is_floating: bool,
    },
    /// Clear the command cache and re-apply the border configuration.
    Refresh,
}

/// What the manager knows of one window: state, workspace, visibility.
pub type BorderEntry = (BorderState, Seq<char>, bool);

/// Information about a tracked window's border state.
struct BorderInfo {
    state: BorderState,
    workspace: String,
    visible: bool,
}

impl BorderInfo {
    closed spec fn view(&self) -> BorderEntry {
        (self.state, self.workspace@, self.visible)
    }
}

/// Manages border state for all tracked windows.
pub struct BorderManager {
    borders: Vec<(u32, BorderInfo)>,
    /// Whether the border system is enabled.
    pub enabled: bool,
    ignore_rules: Vec<WindowRule>,
    current_is_monocle: bool,
    current_is_floating: bool,
    actions: Vec<BorderAction>,
}

/// The entry of a window whose workspace is `workspace` once that workspace shows.
pub open spec fn shown(e: BorderEntry, workspace: Seq<char>) -> BorderEntry {
    if e.1 == workspace {
        (e.0, e.1, true)
    } else {
        e
    }
}

/// The entry of a window whose workspace is `workspace` once that workspace hides.
pub open spec fn hidden(e: BorderEntry, workspace: Seq<char>) -> BorderEntry {
    if e.1 == workspace {
        (e.0, e.1, false)
    } else {
        e
    }
}

/// The entry of a window once focus leaves the tiled windows.
pub open spec fn unfocused(e: BorderEntry) -> BorderEntry {
    if e.2 && e.0 == BorderState::Focused {
        (BorderState::Unfocused, e.1, e.2)
    } else {
        e
    }
}

impl BorderManager {
    /// The tracked windows, by their views.
    pub closed spec fn pairs(&self) -> Seq<(u32, BorderEntry)> {
        self.borders@.map_values(|e: (u32, BorderInfo)| (e.0, e.1.view()))
    }

    /// The tracked windows as a map from window ID to its entry.
    pub closed spec fn view(&self) -> Map<u32, BorderEntry> {
        keyed_map(self.pairs())
    }

    /// Whether no window is tracked twice.
    pub closed spec fn wf(&self) -> bool {
        unique_keys(self.pairs())
    }

    /// Whether the border system is enabled.
    pub closed spec fn enabled_flag(&self) -> bool {
        self.enabled
    }

    /// The rules whose windows get no border.
    pub closed spec fn rules(&self) -> Seq<WindowRule> {
        self.ignore_rules@
    }

    /// The layout state last used for colors: (monocle, floating).
    pub closed spec fn layout_state(&self) -> (bool, bool) {
        (self.current_is_monocle, self.current_is_floating)
    }

    /// The actions queued for `JankyBorders`, oldest first.
    pub closed spec fn pending(&self) -> Seq<BorderAction> {
        self.actions@
    }

    /// The color update that the current layout state calls for.
    pub open spec fn colors_action(&self) -> BorderAction {
        BorderAction::UpdateColors {
            is_monocle: self.layout_state().0,
            is_floating: self.layout_state().1,
        }
    }

    /// Creates a new border manager from configuration.
    pub fn new(config: &BordersConfig) -> (r: Self)
        ensures
            r.wf(),
            r.enabled_flag() == config.enabled,
            r.view() == Map::<u32, BorderEntry>::empty(),
            r.rules() == config.ignore@,
            r.layout_state() == (false, false),
            r.pending() == Seq::<BorderAction>::empty(),
    {
        let r = BorderManager {
            borders: Vec::new(),
            enabled: config.enabled,
            ignore_rules: clone_rules(&config.ignore),
            current_is_monocle: false,
            current_is_floating: false,
            actions: Vec::new(),
        };
        proof {
            lemma_keyed_map_empty(r.pairs());
        }
        r
    }

    /// Returns whether the border system is enabled.
    pub fn is_enabled(&self) -> (r: bool)
        ensures
            r == self.enabled_flag(),
    {
        self.enabled
    }

    /// Sets whether borders are enabled.
    ///
    /// Re-enabling queues a refresh of the `JankyBorders` configuration.
    pub fn set_enabled(&mut self, enabled: bool)
        requires
            old(self).wf(),
        ensures
            final(self).wf(),
            final(self).enabled_flag() == enabled,
            final(self).view() == old(self).view(),
            final(self).rules() == old(self).rules(),
            final(self).layout_state() == old(self).layout_state(),
            final(self).pending() == if old(self).enabled_flag() != enabled && enabled {
                old(self).pending().push(BorderAction::Refresh)
            } else {
                old(self).pending()
            },
    {
        if self.enabled == enabled {
            return ;
        }
        self.enabled = enabled;
        if enabled {
            self.actions.push(BorderAction::Refresh);
        }
    }

    /// Checks if a window should have a border.
    ///
    /// A window gets a border when borders are enabled and no ignore rule
    /// matches it; `matches` tells whether a rule matches the window.
    pub fn should_have_border<W, F: Fn(&WindowRule, &W) -> bool>(
        &self,
        window: &W,
        matches: &F,
    ) -> (r: bool)
        requires
            forall|i: int|
                0 <= i < self.rules().len() ==> matches.requires((&self.rules()[i], window)),
        ensures
            r ==> self.enabled_flag(),
            r ==> forall|i: int|
                0 <= i < self.rules().len() ==> #[trigger] matches.ensures(
                    (&self.rules()[i], window),
                    false,
                ),
            !r && self.enabled_flag() ==> exists|i: int|
                0 <= i < self.rules().len() && #[trigger] matches.ensures(
                    (&self.rules()[i], window),
                    true,
                ),
    {
        if !self.enabled {
            return false;
        }
        let mut i: usize = 0;
        while i < self.ignore_rules.len()
            invariant
                i <= self.ignore_rules@.len(),
                forall|j: int|
                    0 <= j < self.rules().len() ==> matches.requires((&self.rules()[j], window)),
                forall|j: int|
                    0 <= j < i ==> #[trigger] matches.ensures((&self.rules()[j], window), false),
            decreases self.ignore_rules@.len() - i,
        {
            let m = matches(&self.ignore_rules[i], window);
            if m {
                return false;
            }
            i = i + 1;
        }
        true
    }

    /// Finds the position of a tracked window.
    fn find(&self, window_id: u32) -> (r: Option<usize>)
        requires
            self.wf(),
        ensures
            r matches Some(i) ==> i < self.borders@.len() && self.pairs()[i as int].0 == window_id,
            r is None ==> !key_in(self.pairs(), window_id),
            r is Some == self.view().contains_key(window_id),
    {
        let mut i: usize = 0;
        while i < self.borders.len()
            invariant
                self.wf(),
                i <= self.borders@.len(),
                forall|j: int| 0 <= j < i ==> self.pairs()[j].0 != window_id,
            decreases self.borders@.len() - i,
        {
            if self.borders[i].0 == window_id {
                proof {
                    lemma_keyed_map_index(self.pairs(), i as int);
                }
                return Some(i);
            }
            i = i + 1;
        }
        proof {
            assert forall|j: int| 0 <= j < self.pairs().len() implies (#[trigger] self.pairs()[
                j
            ]).0 != window_id by {}
        }
        None
    }

    /// Queues the color update for the current layout state, when enabled.
    fn update_janky_colors(&mut self)
        ensures
            final(self).borders@ == old(self).borders@,
            final(self).enabled_flag() == old(self).enabled_flag(),
            final(self).ignore_rules@ == old(self).ignore_rules@,
            final(self).current_is_monocle == old(self).current_is_monocle,
            final(self).current_is_floating == old(self).current_is_floating,
            final(self).pending() == if old(self).enabled_flag() {
                old(self).pending().push(old(self).colors_action())
            } else {
                old(self).pending()
            },
    {
        if self.enabled {
            self.actions.push(
                BorderAction::UpdateColors {
                    is_monocle: self.current_is_monocle,
                    is_floating: self.current_is_floating,
                },
            );
        }
    }

    /// Registers a window for border tracking.
    ///
    /// Returns `true` if the window was registered, `false` if borders are
    /// disabled or the window is already tracked. A visible focused window
    /// queues a color update.
    pub fn track_window(
        &mut self,
        window_id: u32,
        state: BorderState,
        workspace: &str,
        visible: bool,
    ) -> (r: bool)
        requires
            old(self).wf(),
        ensures
            final(self).wf(),
            r == (old(self).enabled_flag() && !old(self).view().contains_key(window_id)),
            final(self).view() == if r {
                old(self).view().insert(window_id, (state, workspace@, visible))
            } else {
                old(self).view()
            },
            final(self).enabled_flag() == old(self).enabled_flag(),
            final(self).rules() == old(self).rules(),
            final(self).layout_state() == old(self).layout_state(),
            final(self).pending() == if r && state == BorderState::Focused && visible {
                old(self).pending().push(old(self).colors_action())
            } else {
                old(self).pending()
            },
            final(self).view().dom().finite(),
            final(self).view().len() == old(self).view().len() + if r {
                1int
            } else {
                0int
            },
    {
        proof {
            lemma_keyed_map_len(self.pairs());
        }
        if !self.enabled {
            return false;
        }
        if self.find(window_id).is_some() {
            return false;
        }
        let ghost old_pairs = self.pairs();
        self.borders.push((window_id, BorderInfo { state, workspace: owned(workspace), visible }));
        proof {
            lemma_keyed_map_push(old_pairs, window_id, (state, workspace@, visible));
            assert(self.pairs() =~= old_pairs.push((window_id, (state, workspace@, visible))));
        }
        if state == BorderState::Focused && visible {
            self.update_janky_colors();
        }
        true
    }

    /// Unregisters a window from border tracking.
    ///
    /// Returns `true` if the window was untracked, `false` if not found.
    pub fn untrack_window(&mut self, window_id: u32) -> (r: bool)
        requires
            old(self).wf(),
        ensures
            final(self).wf(),
            r == old(self).view().contains_key(window_id),
            final(self).view() == old(self).view().remove(window_id),
            final(self).enabled_flag() == old(self).enabled_flag(),
            final(self).rules() == old(self).rules(),
            final(self).layout_state() == old(self).layout_state(),
            final(self).pending() == old(self).pending(),
            final(self).view().dom().finite(),
            final(self).view().len() == old(self).view().len() - if r {
                1int
            } else {
                0int
            },
    {
        proof {
            lemma_keyed_map_len(self.pairs());
        }
        match self.find(window_id) {
            Some(i) => {
                let ghost old_pairs = self.pairs();
                let _ = self.borders.remove(i);
                proof {
                    lemma_keyed_map_remove(old_pairs, i as int);
                    assert(self.pairs() =~= old_pairs.remove(i as int));
                }
                true
            },
            None => {
                assert(self.view() =~= self.view().remove(window_id));
                false
            },
        }
    }

    /// Updates the state of a tracked window.
    ///
    /// When a visible window changes to focused, monocle or floating, the
    /// layout state follows the new state and a color update is queued.
    pub fn update_window_state(&mut self, window_id: u32, state: BorderState)
        requires
            old(self).wf(),
        ensures
            final(self).wf(),
            final(self).enabled_flag() == old(self).enabled_flag(),
            final(self).rules() == old(self).rules(),
            ({
                let o = old(self).view();
                let changed = o.contains_key(window_id) && o[window_id].0 != state;
                let active = changed && o[window_id].2 && state != BorderState::Unfocused;
                let layout = (state == BorderState::Monocle, state == BorderState::Floating);
                &&& final(self).view() == if changed {
                    o.insert(window_id, (state, o[window_id].1, o[window_id].2))
                } else {
                    o
                }
                &&& final(self).layout_state() == if active {
                    layout
                } else {
                    old(self).layout_state()
                }
                &&& final(self).pending() == if active {
                    old(self).pending().push(
                        BorderAction::UpdateColors { is_monocle: layout.0, is_floating: layout.1 },
                    )
                } else {
                    old(self).pending()
                }
            }),
    {
        if let Some(i) = self.find(window_id) {
            let ghost old_pairs = self.pairs();
            proof {
                lemma_keyed_map_index(old_pairs, i as int);
            }
            if self.borders[i].1.state != state {
                self.borders[i].1.state = state;
                proof {
                    let e = old_pairs[i as int].1;
                    lemma_keyed_map_update(old_pairs, i as int, (state, e.1, e.2));
                    assert(self.pairs() =~= old_pairs.update(
                        i as int,
                        (window_id, (state, e.1, e.2)),
                    ));
                }
                if self.borders[i].1.visible {
                    match state {
                        BorderState::Unfocused => {},
                        _ => {
                            let is_monocle = state == BorderState::Monocle;
                            let is_floating = state == BorderState::Floating;
                            self.current_is_monocle = is_monocle;
                            self.current_is_floating = is_floating;
                            self.actions.push(BorderAction::UpdateColors { is_monocle, is_floating });
                        },
                    }
                }
            }
        }
    }

    /// Updates the workspace of a tracked window.
    pub fn update_window_workspace(&mut self, window_id: u32, workspace: &str)
        requires
            old(self).wf(),
        ensures
            final(self).wf(),
            final(self).view() == if old(self).view().contains_key(window_id) {
                old(self).view().insert(
                    window_id,
                    (old(self).view()[window_id].0, workspace@, old(self).view()[window_id].2),
                )
            } else {
                old(self).view()
            },
            final(self).enabled_flag() == old(self).enabled_flag(),
            final(self).rules() == old(self).rules(),
            final(self).layout_state() == old(self).layout_state(),
            final(self).pending() == old(self).pending(),
    {
        if let Some(i) = self.find(window_id) {
            let ghost old_pairs = self.pairs();
            proof {
                lemma_keyed_map_index(old_pairs, i as int);
            }
            self.borders[i].1.workspace = owned(workspace);
            proof {
                let e = old_pairs[i as int].1;
                lemma_keyed_map_update(old_pairs, i as int, (e.0, workspace@, e.2));
                assert(self.pairs() =~= old_pairs.update(
                    i as int,
                    (window_id, (e.0, workspace@, e.2)),
                ));
            }
        }
    }

    /// Marks windows in a workspace as visible.
    pub fn show_workspace(&mut self, workspace: &str)
        requires
            old(self).wf(),
        ensures
            final(self).wf(),
            final(self).view() == old(self).view().map_values(
                |e: BorderEntry| shown(e, workspace@),
            ),
            final(self).enabled_flag() == old(self).enabled_flag(),
            final(self).rules() == old(self).rules(),
            final(self).layout_state() == old(self).layout_state(),
            final(self).pending() == old(self).pending(),
    {
        let name = owned(workspace);
        let ghost old_pairs = self.pairs();
        let ghost f = |e: BorderEntry| shown(e, workspace@);
        let mut i: usize = 0;
        while i < self.borders.len()
            invariant
                name@ == workspace@,
                f == (|e: BorderEntry| shown(e, workspace@)),
                i <= self.borders@.len(),
                self.pairs().len() == old_pairs.len(),
                forall|j: int|
                    0 <= j < i ==> #[trigger] self.pairs()[j] == (
                        old_pairs[j].0,
                        f(old_pairs[j].1),
                    ),
                forall|j: int| i <= j < old_pairs.len() ==> #[trigger] self.pairs()[j] == old_pairs[j],
                self.enabled == old(self).enabled_flag(),
                self.ignore_rules@ == old(self).ignore_rules@,
                self.current_is_monocle == old(self).current_is_monocle,
                self.current_is_floating == old(self).current_is_floating,
                self.actions@ == old(self).actions@,
            decreases self.borders@.len() - i,
        {
            let ghost prev = self.pairs();
            let ghost e = old_pairs[i as int].1;
            assert(prev[i as int] == old_pairs[i as int]);
            if self.borders[i].1.workspace == name {
                self.borders[i].1.visible = true;
                assert(self.borders@[i as int].1.view() == (e.0, e.1, true));
            } else {
                assert(self.borders@[i as int].1.view() == e);
            }
            proof {
                assert(forall|j: int|
                    0 <= j < self.pairs().len() && j != i ==> self.pairs()[j] == prev[j]);
                assert(self.pairs()[i as int] == (old_pairs[i as int].0, f(old_pairs[i as int].1)));
            }
            i = i + 1;
            proof {
                assert forall|j: int| 0 <= j < i implies #[trigger] self.pairs()[j] == (
                    old_pairs[j].0,
                    f(old_pairs[j].1),
                ) by {
                    if j < i - 1 {
                        assert(self.pairs()[j] == prev[j]);
                    }
                }
                assert forall|j: int| i <= j < old_pairs.len() implies #[trigger] self.pairs()[j]
                    == old_pairs[j] by {
                    assert(self.pairs()[j] == prev[j]);
                }
            }
        }
        proof {
            lemma_keyed_map_map_values(old_pairs, f);
            assert(self.pairs() =~= old_pairs.map_values(
                |p: (u32, BorderEntry)| (p.0, f(p.1)),
            ));
        }
    }

    /// Marks windows in a workspace as hidden.
    pub fn hide_workspace(&mut self, workspace: &str)
        requires
            old(self).wf(),
        ensures
            final(self).wf(),
            final(self).view() == old(self).view().map_values(
                |e: BorderEntry| hidden(e, workspace@),
            ),
            final(self).enabled_flag() == old(self).enabled_flag(),
            final(self).rules() == old(self).rules(),
            final(self).layout_state() == old(self).layout_state(),
            final(self).pending() == old(self).pending(),
    {
        let name = owned(workspace);
        let ghost old_pairs = self.pairs();
        let ghost f = |e: BorderEntry| hidden(e, workspace@);
        let mut i: usize = 0;
        while i < self.borders.len()
            invariant
                name@ == workspace@,
                f == (|e: BorderEntry| hidden(e, workspace@)),
                i <= self.borders@.len(),
                self.pairs().len() == old_pairs.len(),
                forall|j: int|
                    0 <= j < i ==> #[trigger] self.pairs()[j] == (
                        old_pairs[j].0,
                        f(old_pairs[j].1),
                    ),
                forall|j: int| i <= j < old_pairs.len() ==> #[trigger] self.pairs()[j] == old_pairs[j],
                self.enabled == old(self).enabled_flag(),
                self.ignore_rules@ == old(self).ignore_rules@,
                self.current_is_monocle == old(self).current_is_monocle,
                self.current_is_floating == old(self).current_is_floating,
                self.actions@ == old(self).actions@,
            decreases self.borders@.len() - i,
        {
            let ghost prev = self.pairs();
            let ghost e = old_pairs[i as int].1;
            assert(prev[i as int] == old_pairs[i as int]);
            if self.borders[i].1.workspace == name {
                self.borders[i].1.visible = false;
                assert(self.borders@[i as int].1.view() == (e.0, e.1, false));
            } else {
                assert(self.borders@[i as int].1.view() == e);
            }
            proof {
                assert(forall|j: int|
                    0 <= j < self.pairs().len() && j != i ==> self.pairs()[j] == prev[j]);
                assert(self.pairs()[i as int] == (old_pairs[i as int].0, f(old_pairs[i as int].1)));
            }
            i = i + 1;
            proof {
                assert forall|j: int| 0 <= j < i implies #[trigger] self.pairs()[j] == (
                    old_pairs[j].0,
                    f(old_pairs[j].1),
                ) by {
                    if j < i - 1 {
                        assert(self.pairs()[j] == prev[j]);
                    }
                }
                assert forall|j: int| i <= j < old_pairs.len() implies #[trigger] self.pairs()[j]
                    == old_pairs[j] by {
                    assert(self.pairs()[j] == prev[j]);
                }
            }
        }
        proof {
            lemma_keyed_map_map_values(old_pairs, f);
            assert(self.pairs() =~= old_pairs.map_values(
                |p: (u32, BorderEntry)| (p.0, f(p.1)),
            ));
        }
    }

    /// Updates the layout state; a change queues a color update.
    pub fn set_layout_state(&mut self, is_monocle: bool, is_floating: bool)
        requires
            old(self).wf(),
        ensures
            final(self).wf(),
            final(self).view() == old(self).view(),
            final(self).enabled_flag() == old(self).enabled_flag(),
            final(self).rules() == old(self).rules(),
            final(self).layout_state() == (is_monocle, is_floating),
            final(self).pending() == if old(self).layout_state() != (is_monocle, is_floating)
                && old(self).enabled_flag() {
                old(self).pending().push(
                    BorderAction::UpdateColors { is_monocle, is_floating },
                )
            } else {
                old(self).pending()
            },
    {
        if self.current_is_monocle != is_monocle || self.current_is_floating != is_floating {
            self.current_is_monocle = is_monocle;
            self.current_is_floating = is_floating;
            self.update_janky_colors();
        }
    }

    /// Sets all visible focused borders to unfocused.
    ///
    /// Called when focus moves outside the tiling system.
    pub fn set_all_unfocused(&mut self)
        requires
            old(self).wf(),
        ensures
            final(self).wf(),
            final(self).view() == old(self).view().map_values(|e: BorderEntry| unfocused(e)),
            final(self).enabled_flag() == old(self).enabled_flag(),
            final(self).rules() == old(self).rules(),
            final(self).layout_state() == old(self).layout_state(),
            final(self).pending() == old(self).pending(),
    {
        let ghost old_pairs = self.pairs();
        let ghost f = |e: BorderEntry| unfocused(e);
        let mut i: usize = 0;
        while i < self.borders.len()
            invariant
                f == (|e: BorderEntry| unfocused(e)),
                i <= self.borders@.len(),
                self.pairs().len() == old_pairs.len(),
                forall|j: int|
                    0 <= j < i ==> #[trigger] self.pairs()[j] == (
                        old_pairs[j].0,
                        f(old_pairs[j].1),
                    ),
                forall|j: int| i <= j < old_pairs.len() ==> #[trigger] self.pairs()[j] == old_pairs[j],
                self.enabled == old(self).enabled_flag(),
                self.ignore_rules@ == old(self).ignore_rules@,
                self.current_is_monocle == old(self).current_is_monocle,
                self.current_is_floating == old(self).current_is_floating,
                self.actions@ == old(self).actions@,
            decreases self.borders@.len() - i,
        {
            let ghost prev = self.pairs();
            let ghost e = old_pairs[i as int].1;
            assert(prev[i as int] == old_pairs[i as int]);
            if self.borders[i].1.visible && self.borders[i].1.state == BorderState::Focused {
                self.borders[i].1.state = BorderState::Unfocused;
                assert(self.borders@[i as int].1.view() == (BorderState::Unfocused, e.1, e.2));
            } else {
                assert(self.borders@[i as int].1.view() == e);
            }
            proof {
                assert(forall|j: int|
                    0 <= j < self.pairs().len() && j != i ==> self.pairs()[j] == prev[j]);
                assert(self.pairs()[i as int] == (old_pairs[i as int].0, f(old_pairs[i as int].1)));
            }
            i = i + 1;
            proof {
                assert forall|j: int| 0 <= j < i implies #[trigger] self.pairs()[j] == (
                    old_pairs[j].0,
                    f(old_pairs[j].1),
                ) by {
                    if j < i - 1 {
                        assert(self.pairs()[j] == prev[j]);
                    }
                }
                assert forall|j: int| i <= j < old_pairs.len() implies #[trigger] self.pairs()[j]
                    == old_pairs[j] by {
                    assert(self.pairs()[j] == prev[j]);
                }
            }
        }
        proof {
            lemma_keyed_map_map_values(old_pairs, f);
            assert(self.pairs() =~= old_pairs.map_values(
                |p: (u32, BorderEntry)| (p.0, f(p.1)),
            ));
        }
    }

    /// Queues a refresh of the `JankyBorders` configuration, when enabled.
    pub fn refresh(&mut self)
        ensures
            final(self).view() == old(self).view(),
            final(self).wf() == old(self).wf(),
            final(self).enabled_flag() == old(self).enabled_flag(),
            final(self).rules() == old(self).rules(),
            final(self).layout_state() == old(self).layout_state(),
            final(self).pending() == if old(self).enabled_flag() {
                old(self).pending().push(BorderAction::Refresh)
            } else {
                old(self).pending()
            },
    {
        if self.enabled {
            self.actions.push(BorderAction::Refresh);
        }
    }

    /// Hands out the queued actions, oldest first, and empties the queue.
    pub fn take_actions(&mut self) -> (r: Vec<BorderAction>)
        ensures
            r@ == old(self).pending(),
            final(self).pending() == Seq::<BorderAction>::empty(),
            final(self).view() == old(self).view(),
            final(self).wf() == old(self).wf(),
            final(self).enabled_flag() == old(self).enabled_flag(),
            final(self).rules() == old(self).rules(),
            final(self).layout_state() == old(self).layout_state(),
    {
        let mut taken: Vec<BorderAction> = Vec::new();
        std::mem::swap(&mut taken, &mut self.actions);
        taken
    }

    /// Returns the number of tracked windows.
    pub fn window_count(&self) -> (r: usize)
        requires
            self.wf(),
        ensures
            r == self.view().len(),
    {
        proof {
            lemma_keyed_map_len(self.pairs());
        }
        self.borders.len()
    }

    /// Returns the border state for a window.
    pub fn get_window_state(&self, window_id: u32) -> (r: Option<BorderState>)
        requires
            self.wf(),
        ensures
            r == if self.view().contains_key(window_id) {
                Some(self.view()[window_id].0)
            } else {
                None
            },
    {
        match self.find(window_id) {
            Some(i) => {
                proof {
                    lemma_keyed_map_index(self.pairs(), i as int);
                }
                Some(self.borders[i].1.state)
            },
            None => None,
        }
    }

    /// Checks if a window is being tracked.
    pub fn is_tracked(&self, window_id: u32) -> (r: bool)
        requires
            self.wf(),
        ensures
            r == self.view().contains_key(window_id),
    {
        self.find(window_id).is_some()
    }
}

impl Default for BorderManager {
    fn default() -> (r: Self)
        ensures
            r.wf(),
            !r.enabled_flag(),
            r.view() == Map::<u32, BorderEntry>::empty(),
            r.rules() == Seq::<WindowRule>::empty(),
            r.layout_state() == (false, false),
            r.pending() == Seq::<BorderAction>::empty(),
    {
        let r = BorderManager {
            borders: Vec::new(),
            enabled: false,
            ignore_rules: Vec::new(),
            current_is_monocle: false,
            current_is_floating: false,
            actions: Vec::new(),
        };
        proof {
            lemma_keyed_map_empty(r.pairs());
        }
        r
    }
}

/// A copy of an optional string.
fn copy_text(t: &Option<String>) -> (r: Option<String>)
    ensures
        r == *t,
{
    match t {
        Some(s) => Some(s.clone()),
        None => None,
    }
}

/// Copies the ignore rules of a configuration.
fn clone_rules(rules: &Vec<WindowRule>) -> (r: Vec<WindowRule>)
    ensures
        r@ == rules@,
{
    let mut r: Vec<WindowRule> = Vec::new();
    let mut i: usize = 0;
    while i < rules.len()
        invariant
            i <= rules.len(),
            r@ == rules@.subrange(0, i as int),
        decreases rules.len() - i,
    {
        let rule = &rules[i];
        r.push(
            WindowRule {
                app_id: copy_text(&rule.app_id),
                app_name: copy_text(&rule.app_name),
                title: copy_text(&rule.title),
            },
        );
        i = i + 1;
        assert(r@ == rules@.subrange(0, i as int));
    }
    assert(rules@.subrange(0, rules.len() as int) == rules@);
    r
}

} // verus!

verus! {

// ============================================================================
// Laws
// ============================================================================

/// Tracking a new window and then untracking it leaves the tracked windows as they were.
pub proof fn law_track_then_untrack(
    windows: Map<u32, BorderEntry>,
    window_id: u32,
    entry: BorderEntry,
)
    requires
        !windows.contains_key(window_id),
    ensures
        windows.insert(window_id, entry).remove(window_id) == windows,
{
    assert(windows.insert(window_id, entry).remove(window_id) =~= windows);
}

/// Showing a workspace twice is the same as showing it once.
pub proof fn law_show_workspace_idempotent(windows: Map<u32, BorderEntry>, workspace: Seq<char>)
    ensures
        windows.map_values(|e: BorderEntry| shown(e, workspace)).map_values(
            |e: BorderEntry| shown(e, workspace),
        ) == windows.map_values(|e: BorderEntry| shown(e, workspace)),
{
    assert(windows.map_values(|e: BorderEntry| shown(e, workspace)).map_values(
        |e: BorderEntry| shown(e, workspace),
    ) =~= windows.map_values(|e: BorderEntry| shown(e, workspace)));
}

/// Hiding a workspace after showing it leaves its windows hidden and others untouched.
pub proof fn law_hide_after_show(windows: Map<u32, BorderEntry>, workspace: Seq<char>, id: u32)
    requires
        windows.contains_key(id),
    ensures
        ({
            let after = windows.map_values(|e: BorderEntry| shown(e, workspace)).map_values(
                |e: BorderEntry| hidden(e, workspace),
            );
            &&& after.contains_key(id)
            &&& after[id].0 == windows[id].0
            &&& after[id].1 == windows[id].1
            &&& after[id].2 == if windows[id].1 == workspace {
                false
            } else {
                windows[id].2
            }
        }),
{
}

/// After focus leaves the tiled windows, no visible window is focused.
pub proof fn law_no_visible_focus_after_unfocus(windows: Map<u32, BorderEntry>, id: u32)
    requires
        windows.contains_key(id),
    ensures
        ({
            let after = windows.map_values(|e: BorderEntry| unfocused(e));
            after[id].2 ==> after[id].0 != BorderState::Focused
        }),
{
}

} // verus!
