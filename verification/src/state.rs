//! State of the tiling window manager.
//!
//! Screens, workspaces and tracked windows, the cache of a layout result,
//! and the lookups that the rest of the system performs on them. Workspace
//! names are compared without regard to ASCII case; an index from lower-case
//! names to positions answers most lookups, and a linear scan answers those
//! that the index cannot (an entry that is missing or stale).
//!
//! Geometry (frames in points, scale factors) is floating point and is kept
//! beside these values by the application.

use vstd::prelude::*;

use crate::config::LayoutType;
use crate::search::{
    any_match, collect_matching, find_first, first_index, first_match, is_last,
    lemma_first_index_is, lemma_first_index_none, lemma_first_index_push,
    lemma_first_index_update_first, lemma_first_index_update_other, position_first, same_option,
};
use crate::text::{ascii_lower_seq, eq_ignore_ascii_case, eq_ignore_case, str_equal, to_ascii_lowercase};

verus! {

// ============================================================================
// Screen
// ============================================================================

/// A physical display.
#[derive(Debug, Clone)]
pub struct Screen {
    /// Unique identifier of the display.
    pub id: u32,
    /// Human-readable name of the screen.
    pub name: String,
    /// Whether this is the main screen (the one with the menu bar).
    pub is_main: bool,
    /// Whether this is the built-in display of a laptop.
    pub is_builtin: bool,
}

impl Screen {
    /// Creates a new screen.
    pub fn new(id: u32, name: String, is_main: bool, is_builtin: bool) -> (r: Self)
        ensures
            r.id == id,
            r.name@ == name@,
            r.is_main == is_main,
            r.is_builtin == is_builtin,
    {
        Screen { id, name, is_main, is_builtin }
    }
}

/// Cached layout calculation result.
pub struct LayoutCache<P> {
    /// Hash of the layout inputs; zero when nothing is cached.
    pub input_hash: u64,
    /// Cached layout positions.
    pub positions: Vec<P>,
}

impl<P> LayoutCache<P> {
    /// Creates a new empty layout cache.
    pub fn new() -> (r: Self)
        ensures
            r.input_hash == 0,
            r.positions@.len() == 0,
    {
        LayoutCache { input_hash: 0, positions: Vec::new() }
    }

    /// Checks if the cache is valid for the given input hash.
    pub fn is_valid(&self, input_hash: u64) -> (r: bool)
        ensures
            r == (self.input_hash != 0 && self.input_hash == input_hash && self.positions@.len()
                > 0),
    {
        self.input_hash != 0 && self.input_hash == input_hash && self.positions.len() > 0
    }

    /// Updates the cache with new results.
    pub fn update(&mut self, input_hash: u64, positions: Vec<P>)
        ensures
            final(self).input_hash == input_hash,
            final(self).positions@ == positions@,
    {
        self.input_hash = input_hash;
        self.positions = positions;
    }

    /// Invalidates the cache.
    pub fn invalidate(&mut self)
        ensures
            final(self).input_hash == 0,
            final(self).positions@.len() == 0,
    {
        self.input_hash = 0;
        self.positions = Vec::new();
    }
}


// ============================================================================
// Workspace
// ============================================================================

/// A virtual workspace holding windows.
#[derive(Debug, Clone)]
pub struct Workspace {
    /// Unique name of the workspace.
    pub name: String,
    /// The screen the workspace is currently assigned to.
    pub screen_id: u32,
    /// The screen name from the configuration ("main", "secondary", a display name).
    pub configured_screen: String,
    /// The screen the workspace came from before it was moved to another one.
    pub original_screen_id: Option<u32>,
    /// Current layout of the workspace.
    pub layout: LayoutType,
    /// Whether the workspace is visible on its screen.
    pub is_visible: bool,
    /// Whether the workspace is focused.
    pub is_focused: bool,
    /// Windows of the workspace, in stack order.
    pub window_ids: Vec<u32>,
    /// Position of the focused window in `window_ids`, if any.
    pub focused_window_index: Option<usize>,
}

impl Workspace {
    /// The state of a freshly created workspace.
    pub open spec fn is_fresh(&self, name: Seq<char>, screen_id: u32, layout: LayoutType) -> bool {
        &&& self.name@ == name
        &&& self.screen_id == screen_id
        &&& self.original_screen_id is None
        &&& self.layout == layout
        &&& !self.is_visible
        &&& !self.is_focused
        &&& self.window_ids@.len() == 0
        &&& self.focused_window_index is None
    }

    /// Creates a new, hidden and empty workspace.
    pub fn new(name: String, screen_id: u32, layout: LayoutType) -> (r: Self)
        ensures
            r.is_fresh(name@, screen_id, layout),
            r.configured_screen@.len() == 0,
    {
        Workspace {
            name,
            screen_id,
            configured_screen: String::new(),
            original_screen_id: None,
            layout,
            is_visible: false,
            is_focused: false,
            window_ids: Vec::new(),
            focused_window_index: None,
        }
    }

    /// Creates a new workspace that remembers the screen named in the configuration.
    pub fn new_with_screen(
        name: String,
        screen_id: u32,
        configured_screen: String,
        layout: LayoutType,
    ) -> (r: Self)
        ensures
            r.is_fresh(name@, screen_id, layout),
            r.configured_screen@ == configured_screen@,
    {
        Workspace {
            name,
            screen_id,
            configured_screen,
            original_screen_id: None,
            layout,
            is_visible: false,
            is_focused: false,
            window_ids: Vec::new(),
            focused_window_index: None,
        }
    }

    /// Returns the number of windows in this workspace.
    pub fn window_count(&self) -> (r: usize)
        ensures
            r == self.window_ids@.len(),
    {
        self.window_ids.len()
    }

    /// Returns whether this workspace has no windows.
    pub fn is_empty(&self) -> (r: bool)
        ensures
            r == (self.window_ids@.len() == 0),
    {
        self.window_ids.len() == 0
    }

    /// The focused window: the one at the focused position, if that position exists.
    pub open spec fn focused_window(&self) -> Option<u32> {
        match self.focused_window_index {
            Some(i) => if i < self.window_ids@.len() {
                Some(self.window_ids@[i as int])
            } else {
                None
            },
            None => None,
        }
    }

    /// Returns the ID of the focused window, if any.
    pub fn focused_window_id(&self) -> (r: Option<u32>)
        ensures
            r == self.focused_window(),
    {
        match self.focused_window_index {
            Some(i) => if i < self.window_ids.len() {
                Some(self.window_ids[i])
            } else {
                None
            },
            None => None,
        }
    }
}

// ============================================================================
// Tracked Window
// ============================================================================

/// A window managed by the tiling system.
#[derive(Debug, Clone)]
pub struct TrackedWindow {
    /// Unique window ID.
    pub id: u32,
    /// Process ID of the owning application.
    pub pid: i32,
    /// Bundle identifier of the owning application.
    pub app_id: String,
    /// Name of the owning application.
    pub app_name: String,
    /// Window title.
    pub title: String,
    /// Whether the window is minimized.
    pub is_minimized: bool,
    /// Whether the window is hidden by workspace switching.
    pub is_hidden: bool,
    /// Whether the window floats instead of being tiled.
    pub is_floating: bool,
    /// The workspace the window belongs to.
    pub workspace_name: String,
}

impl TrackedWindow {
    /// Creates a new tracked window, neither hidden nor floating.
    pub fn new(
        id: u32,
        pid: i32,
        app_id: String,
        app_name: String,
        title: String,
        workspace_name: String,
        is_minimized: bool,
    ) -> (r: Self)
        ensures
            r.id == id,
            r.pid == pid,
            r.app_id@ == app_id@,
            r.app_name@ == app_name@,
            r.title@ == title@,
            r.workspace_name@ == workspace_name@,
            r.is_minimized == is_minimized,
            !r.is_hidden,
            !r.is_floating,
    {
        TrackedWindow {
            id,
            pid,
            app_id,
            app_name,
            title,
            is_minimized,
            is_hidden: false,
            is_floating: false,
            workspace_name,
        }
    }
}

// ============================================================================
// Tiling State
// ============================================================================

/// Screens with the given ID.
pub open spec fn screen_has_id(id: u32) -> spec_fn(Screen) -> bool {
    |s: Screen| s.id == id
}

/// The main screen.
pub open spec fn screen_is_main() -> spec_fn(Screen) -> bool {
    |s: Screen| s.is_main
}

/// The built-in screen.
pub open spec fn screen_is_builtin() -> spec_fn(Screen) -> bool {
    |s: Screen| s.is_builtin
}

/// Screens other than the main one.
pub open spec fn screen_not_main() -> spec_fn(Screen) -> bool {
    |s: Screen| !s.is_main
}

/// Screens whose name equals `name` up to ASCII case.
pub open spec fn screen_named_like(name: Seq<char>) -> spec_fn(Screen) -> bool {
    |s: Screen| eq_ignore_case(s.name@, name)
}

/// Workspaces whose name equals `name` up to ASCII case.
pub open spec fn workspace_named_like(name: Seq<char>) -> spec_fn(Workspace) -> bool {
    |w: Workspace| eq_ignore_case(w.name@, name)
}

/// Workspaces whose lower-case name is `key`.
pub open spec fn workspace_key_is(key: Seq<char>) -> spec_fn(Workspace) -> bool {
    |w: Workspace| ascii_lower_seq(w.name@) == key
}

/// Workspaces assigned to the given screen.
pub open spec fn workspace_on_screen(screen_id: u32) -> spec_fn(Workspace) -> bool {
    |w: Workspace| w.screen_id == screen_id
}

/// Windows with the given ID.
pub open spec fn window_has_id(id: u32) -> spec_fn(TrackedWindow) -> bool {
    |w: TrackedWindow| w.id == id
}

/// Windows that belong to the workspace named `name` up to ASCII case.
pub open spec fn window_in_workspace(name: Seq<char>) -> spec_fn(TrackedWindow) -> bool {
    |w: TrackedWindow| eq_ignore_case(w.workspace_name@, name)
}

/// Index entries whose key is `key`.
pub open spec fn index_key_is(key: Seq<char>) -> spec_fn((String, usize)) -> bool {
    |e: (String, usize)| e.0@ == key
}

/// The complete state of the tiling window manager.
pub struct TilingState {
    /// All detected screens.
    pub screens: Vec<Screen>,
    /// All workspaces.
    pub workspaces: Vec<Workspace>,
    /// All tracked windows.
    pub windows: Vec<TrackedWindow>,
    /// Name of the focused workspace.
    pub focused_workspace: Option<String>,
    /// ID of the focused screen.
    pub focused_screen_id: Option<u32>,
    /// Lower-case workspace names and the positions they were stored at.
    ///
    /// `add_workspace` and `rebuild_workspace_index` maintain it; lookups
    /// check an indexed position before they trust it, so a stale entry only
    /// costs a linear scan.
    pub workspace_index: Vec<(String, usize)>,
}

impl TilingState {
    /// The position that the index gives for the lower-case name `key`.
    pub open spec fn index_lookup(&self, key: Seq<char>) -> Option<usize> {
        match first_index(self.workspace_index@, index_key_is(key)) {
            Some(i) => Some(self.workspace_index@[i].1),
            None => None,
        }
    }

    /// The position of the workspace that a lookup by `name` answers with:
    /// the indexed position when it holds a workspace of that name, else the
    /// first workspace of that name.
    pub open spec fn workspace_position(&self, name: Seq<char>) -> Option<int> {
        let ws = self.workspaces@;
        match self.index_lookup(ascii_lower_seq(name)) {
            Some(i) => if i < ws.len() && eq_ignore_case(ws[i as int].name@, name) {
                Some(i as int)
            } else {
                first_index(ws, workspace_named_like(name))
            },
            None => first_index(ws, workspace_named_like(name)),
        }
    }

    /// The workspace that a lookup by `name` answers with.
    pub open spec fn workspace_lookup(&self, name: Seq<char>) -> Option<Workspace> {
        match self.workspace_position(name) {
            Some(i) => Some(self.workspaces@[i]),
            None => None,
        }
    }

    /// The screen that a lookup by `name` answers with. The names "main" and
    /// "primary" denote the main screen, "builtin" the built-in display and
    /// "secondary" the screen that is not the main one when there are exactly
    /// two; other names are compared without regard to ASCII case.
    pub open spec fn screen_named(&self, name: Seq<char>) -> Option<Screen> {
        let lower = ascii_lower_seq(name);
        let ss = self.screens@;
        if lower == "main"@ || lower == "primary"@ {
            first_match(ss, screen_is_main())
        } else if lower == "builtin"@ {
            first_match(ss, screen_is_builtin())
        } else if lower == "secondary"@ {
            if ss.len() == 2 {
                first_match(ss, screen_not_main())
            } else {
                None
            }
        } else {
            first_match(ss, screen_named_like(name))
        }
    }

    /// Creates a new empty tiling state.
    pub fn new() -> (r: Self)
        ensures
            r.screens@.len() == 0,
            r.workspaces@.len() == 0,
            r.windows@.len() == 0,
            r.focused_workspace is None,
            r.focused_screen_id is None,
            r.workspace_index@.len() == 0,
            forall|k: Seq<char>| r.index_lookup(k) is None,
    {
        let r = TilingState {
            screens: Vec::new(),
            workspaces: Vec::new(),
            windows: Vec::new(),
            focused_workspace: None,
            focused_screen_id: None,
            workspace_index: Vec::new(),
        };
        proof {
            assert forall|k: Seq<char>| r.index_lookup(k) is None by {
                lemma_first_index_none(r.workspace_index@, index_key_is(k));
            }
        }
        r
    }

    // ========================================================================
    // Screens
    // ========================================================================

    /// Finds a screen by ID.
    pub fn screen_by_id(&self, id: u32) -> (r: Option<&Screen>)
        ensures
            same_option(r, first_match(self.screens@, screen_has_id(id))),
    {
        let f = |s: &Screen| -> (b: bool)
            ensures
                b == (s.id == id),
            {
                let b = s.id == id;
                b
        };
        find_first(&self.screens, &f, Ghost(screen_has_id(id)))
    }

    /// Finds a screen by name; see `screen_named` for the special names.
    ///
    /// Names are lowered by ASCII rules; no other character lowers to a
    /// letter of the special names.
    pub fn screen_by_name(&self, name: &str) -> (r: Option<&Screen>)
        ensures
            same_option(r, self.screen_named(name@)),
    {
        let lower = to_ascii_lowercase(name);
        if str_equal(lower.as_str(), "main") || str_equal(lower.as_str(), "primary") {
            self.main_screen()
        } else if str_equal(lower.as_str(), "builtin") {
            let f = |s: &Screen| -> (b: bool)
                ensures
                    b == s.is_builtin,
                {
                    let b = s.is_builtin;
                    b
            };
            find_first(&self.screens, &f, Ghost(screen_is_builtin()))
        } else if str_equal(lower.as_str(), "secondary") {
            if self.screens.len() == 2 {
                let f = |s: &Screen| -> (b: bool)
                    ensures
                        b == !s.is_main,
                    {
                        let b = !s.is_main;
                        b
                };
                find_first(&self.screens, &f, Ghost(screen_not_main()))
            } else {
                None
            }
        } else {
            let f = |s: &Screen| -> (b: bool)
                ensures
                    b == eq_ignore_case(s.name@, name@),
                {
                    let b = eq_ignore_ascii_case(s.name.as_str(), name);
                    b
            };
            find_first(&self.screens, &f, Ghost(screen_named_like(name@)))
        }
    }

    /// Finds the main screen.
    pub fn main_screen(&self) -> (r: Option<&Screen>)
        ensures
            same_option(r, first_match(self.screens@, screen_is_main())),
    {
        let f = |s: &Screen| -> (b: bool)
            ensures
                b == s.is_main,
            {
                let b = s.is_main;
                b
        };
        find_first(&self.screens, &f, Ghost(screen_is_main()))
    }

    // ========================================================================
    // Workspaces
    // ========================================================================

    /// Whether `other` holds the same screens, workspaces, windows and focus.
    pub open spec fn same_except_index(&self, other: &Self) -> bool {
        &&& self.screens@ == other.screens@
        &&& self.workspaces@ == other.workspaces@
        &&& self.windows@ == other.windows@
        &&& self.focused_workspace == other.focused_workspace
        &&& self.focused_screen_id == other.focused_screen_id
    }

    /// The position that the index holds for `key`.
    fn index_get(&self, key: &String) -> (r: Option<usize>)
        ensures
            r == self.index_lookup(key@),
    {
        let f = |e: &(String, usize)| -> (b: bool)
            ensures
                b == (e.0@ == key@),
            {
                let b = str_equal(e.0.as_str(), key.as_str());
                b
            };
        match position_first(&self.workspace_index, &f, Ghost(index_key_is(key@))) {
            Some(i) => Some(self.workspace_index[i].1),
            None => None,
        }
    }

    /// Makes the index send `key` to `value`, leaving the other keys alone.
    fn index_insert(&mut self, key: String, value: usize)
        ensures
            final(self).same_except_index(old(self)),
            final(self).index_lookup(key@) == Some(value),
            forall|k: Seq<char>| k != key@ ==> #[trigger] final(self).index_lookup(k)
                == old(self).index_lookup(k),
    {
        let ghost before = self.workspace_index@;
        let ghost key_view = key@;
        let f = |e: &(String, usize)| -> (b: bool)
            ensures
                b == (e.0@ == key@),
            {
                let b = str_equal(e.0.as_str(), key.as_str());
                b
            };
        let found = position_first(&self.workspace_index, &f, Ghost(index_key_is(key@)));
        match found {
            Some(i) => {
                self.workspace_index.set(i, (key, value));
                proof {
                    lemma_first_index_none(before, index_key_is(key_view));
                    lemma_first_index_update_first(
                        before,
                        index_key_is(key_view),
                        i as int,
                        self.workspace_index@[i as int],
                    );
                    assert forall|k: Seq<char>| k != key_view implies #[trigger] self.index_lookup(k)
                        == old(self).index_lookup(k) by {
                        lemma_first_index_none(before, index_key_is(k));
                        lemma_first_index_update_other(
                            before,
                            index_key_is(k),
                            i as int,
                            self.workspace_index@[i as int],
                        );
                        assert(self.workspace_index@ == before.update(
                            i as int,
                            self.workspace_index@[i as int],
                        ));
                    }
                }
            },
            None => {
                self.workspace_index.push((key, value));
                proof {
                    lemma_first_index_push(before, index_key_is(key_view), (key, value));
                    assert forall|k: Seq<char>| k != key_view implies #[trigger] self.index_lookup(k)
                        == old(self).index_lookup(k) by {
                        lemma_first_index_push(before, index_key_is(k), (key, value));
                        lemma_first_index_none(before, index_key_is(k));
                    }
                }
            },
        }
    }

    /// Adds a workspace and records its position in the index.
    pub fn add_workspace(&mut self, workspace: Workspace)
        ensures
            final(self).workspaces@ == old(self).workspaces@.push(workspace),
            final(self).screens@ == old(self).screens@,
            final(self).windows@ == old(self).windows@,
            final(self).focused_workspace == old(self).focused_workspace,
            final(self).focused_screen_id == old(self).focused_screen_id,
            final(self).index_lookup(ascii_lower_seq(workspace.name@)) == Some(
                old(self).workspaces@.len() as usize,
            ),
            forall|k: Seq<char>|
                k != ascii_lower_seq(workspace.name@) ==> #[trigger] final(self).index_lookup(k)
                    == old(self).index_lookup(k),
            forall|name: Seq<char>|
                eq_ignore_case(name, workspace.name@) ==> #[trigger] final(self).workspace_lookup(
                    name,
                ) == Some(workspace),
    {
        let key = to_ascii_lowercase(workspace.name.as_str());
        let index = self.workspaces.len();
        self.workspaces.push(workspace);
        self.index_insert(key, index);
    }

    /// Rebuilds the index from the workspaces: each lower-case name is sent to
    /// the last position that holds a workspace of that name.
    pub fn rebuild_workspace_index(&mut self)
        ensures
            final(self).same_except_index(old(self)),
            forall|k: Seq<char>| #[trigger]
                final(self).index_lookup(k) matches Some(i) ==> is_last(
                    final(self).workspaces@,
                    workspace_key_is(k),
                    i as int,
                ),
            forall|k: Seq<char>| #[trigger]
                final(self).index_lookup(k) is None ==> !any_match(
                    final(self).workspaces@,
                    workspace_key_is(k),
                ),
            forall|name: Seq<char>| #[trigger]
                final(self).workspace_position(name) matches Some(i) ==> is_last(
                    final(self).workspaces@,
                    workspace_named_like(name),
                    i,
                ),
            forall|name: Seq<char>| #[trigger]
                final(self).workspace_position(name) is None ==> !any_match(
                    final(self).workspaces@,
                    workspace_named_like(name),
                ),
    {
        self.workspace_index = Vec::new();
        proof {
            assert forall|k: Seq<char>| self.index_lookup(k) is None by {
                lemma_first_index_none(self.workspace_index@, index_key_is(k));
            }
        }
        let n = self.workspaces.len();
        let mut i: usize = 0;
        while i < n
            invariant
                i <= n,
                n == self.workspaces@.len(),
                self.same_except_index(old(self)),
                forall|k: Seq<char>| #[trigger]
                    self.index_lookup(k) matches Some(j) ==> is_last(
                        self.workspaces@.take(i as int),
                        workspace_key_is(k),
                        j as int,
                    ),
                forall|k: Seq<char>| #[trigger]
                    self.index_lookup(k) is None ==> !any_match(
                        self.workspaces@.take(i as int),
                        workspace_key_is(k),
                    ),
            decreases n - i,
        {
            let key = to_ascii_lowercase(self.workspaces[i].name.as_str());
            let ghost prev = *self;
            let ghost key_view = key@;
            self.index_insert(key, i);
            proof {
                let ws = self.workspaces@;
                let pre = ws.take(i as int);
                let post = ws.take(i as int + 1);
                assert(post =~= pre.push(ws[i as int]));
                assert forall|k: Seq<char>| #[trigger]
                    self.index_lookup(k) is Some implies is_last(
                        post,
                        workspace_key_is(k),
                        self.index_lookup(k).unwrap() as int,
                    ) by {
                    if k == key_view {
                    } else {
                        assert(prev.index_lookup(k) == self.index_lookup(k));
                        let j = self.index_lookup(k).unwrap();
                        assert(is_last(pre, workspace_key_is(k), j as int));
                        assert forall|m: int| j < m < post.len() implies !workspace_key_is(k)(
                            #[trigger] post[m],
                        ) by {
                            if m < pre.len() {
                                assert(post[m] == pre[m]);
                            }
                        }
                    }
                }
                assert forall|k: Seq<char>| #[trigger]
                    self.index_lookup(k) is None implies !any_match(post, workspace_key_is(k)) by {
                    assert(k != key_view);
                    assert(prev.index_lookup(k) == self.index_lookup(k));
                    if any_match(post, workspace_key_is(k)) {
                        let m = choose|m: int|
                            0 <= m < post.len() && workspace_key_is(k)(#[trigger] post[m]);
                        assert(m < pre.len());
                        assert(post[m] == pre[m]);
                        assert(any_match(pre, workspace_key_is(k)));
                    }
                }
            }
            i = i + 1;
        }
        assert(self.workspaces@.take(n as int) =~= self.workspaces@);
        proof {
            assert forall|name: Seq<char>|
                workspace_named_like(name) == workspace_key_is(ascii_lower_seq(name)) by {
                assert(workspace_named_like(name) =~= workspace_key_is(ascii_lower_seq(name)));
            }
            assert forall|name: Seq<char>| #[trigger]
                self.workspace_position(name) is None implies !any_match(
                    self.workspaces@,
                    workspace_named_like(name),
                ) by {
                assert(workspace_named_like(name) == workspace_key_is(ascii_lower_seq(name)));
                lemma_first_index_none(self.workspaces@, workspace_named_like(name));
            }
            assert forall|name: Seq<char>| #[trigger]
                self.workspace_position(name) is Some implies is_last(
                    self.workspaces@,
                    workspace_named_like(name),
                    self.workspace_position(name).unwrap(),
                ) by {
                assert(workspace_named_like(name) == workspace_key_is(ascii_lower_seq(name)));
                lemma_first_index_none(self.workspaces@, workspace_named_like(name));
            }
        }
    }

    /// Finds a workspace by name: through the index when it holds a matching
    /// workspace, else by a linear scan.
    pub fn workspace_by_name(&self, name: &str) -> (r: Option<&Workspace>)
        ensures
            same_option(r, self.workspace_lookup(name@)),
    {
        match self.workspace_position_of(name) {
            Some(i) => Some(&self.workspaces[i]),
            None => None,
        }
    }

    /// The position that a lookup by `name` answers with.
    pub(crate) fn workspace_position_of(&self, name: &str) -> (r: Option<usize>)
        ensures
            match r {
                Some(i) => self.workspace_position(name@) == Some(i as int),
                None => self.workspace_position(name@) is None,
            },
    {
        let key = to_ascii_lowercase(name);
        if let Some(index) = self.index_get(&key) {
            if index < self.workspaces.len() && eq_ignore_ascii_case(
                self.workspaces[index].name.as_str(),
                name,
            ) {
                return Some(index);
            }
        }
        let f = |w: &Workspace| -> (b: bool)
            ensures
                b == eq_ignore_case(w.name@, name@),
            {
                let b = eq_ignore_ascii_case(w.name.as_str(), name);
                b
            };
        position_first(&self.workspaces, &f, Ghost(workspace_named_like(name@)))
    }

    /// Finds a workspace by name for modification, as `workspace_by_name` does.
    pub fn workspace_by_name_mut(&mut self, name: &str) -> (r: Option<&mut Workspace>)
        ensures
            match old(self).workspace_position(name@) {
                Some(i) => r matches Some(w) && *w == old(self).workspaces@[i]
                    && final(self).workspaces@ == old(self).workspaces@.update(i, *final(w))
                    && final(self).screens@ == old(self).screens@ && final(self).windows@
                    == old(self).windows@ && final(self).focused_workspace
                    == old(self).focused_workspace && final(self).focused_screen_id
                    == old(self).focused_screen_id && final(self).workspace_index
                    == old(self).workspace_index,
                None => r is None && *final(self) == *old(self),
            },
    {
        match self.workspace_position_of(name) {
            Some(i) => Some(&mut self.workspaces[i]),
            None => None,
        }
    }

    /// Finds the focused workspace.
    pub fn focused_workspace(&self) -> (r: Option<&Workspace>)
        ensures
            same_option(
                r,
                match self.focused_workspace {
                    Some(n) => self.workspace_lookup(n@),
                    None => None,
                },
            ),
    {
        match &self.focused_workspace {
            Some(n) => self.workspace_by_name(n.as_str()),
            None => None,
        }
    }

    /// Returns the workspaces assigned to a screen, in order.
    pub fn workspaces_for_screen(&self, screen_id: u32) -> (r: Vec<&Workspace>)
        ensures
            r@.map_values(|x: &Workspace| *x) == self.workspaces@.filter(
                workspace_on_screen(screen_id),
            ),
    {
        let f = |w: &Workspace| -> (b: bool)
            ensures
                b == (w.screen_id == screen_id),
            {
                let b = w.screen_id == screen_id;
                b
            };
        collect_matching(&self.workspaces, &f, Ghost(workspace_on_screen(screen_id)))
    }

    // ========================================================================
    // Windows
    // ========================================================================

    /// Finds a window by ID.
    pub fn window_by_id(&self, id: u32) -> (r: Option<&TrackedWindow>)
        ensures
            same_option(r, first_match(self.windows@, window_has_id(id))),
    {
        let f = |w: &TrackedWindow| -> (b: bool)
            ensures
                b == (w.id == id),
            {
                let b = w.id == id;
                b
        };
        find_first(&self.windows, &f, Ghost(window_has_id(id)))
    }

    /// Finds a window by ID for modification.
    pub fn window_by_id_mut(&mut self, id: u32) -> (r: Option<&mut TrackedWindow>)
        ensures
            match first_index(old(self).windows@, window_has_id(id)) {
                Some(i) => r matches Some(w) && *w == old(self).windows@[i] && final(self).windows@
                    == old(self).windows@.update(i, *final(w)) && final(self).screens@
                    == old(self).screens@ && final(self).workspaces@ == old(self).workspaces@
                    && final(self).focused_workspace == old(self).focused_workspace
                    && final(self).focused_screen_id == old(self).focused_screen_id
                    && final(self).workspace_index == old(self).workspace_index,
                None => r is None && *final(self) == *old(self),
            },
    {
        let f = |w: &TrackedWindow| -> (b: bool)
            ensures
                b == (w.id == id),
            {
                let b = w.id == id;
                b
        };
        match position_first(&self.windows, &f, Ghost(window_has_id(id))) {
            Some(i) => Some(&mut self.windows[i]),
            None => None,
        }
    }

    /// Returns the windows of the workspace named `workspace_name` (up to ASCII case).
    pub fn windows_for_workspace(&self, workspace_name: &str) -> (r: Vec<&TrackedWindow>)
        ensures
            r@.map_values(|x: &TrackedWindow| *x) == self.windows@.filter(
                window_in_workspace(workspace_name@),
            ),
    {
        let f = |w: &TrackedWindow| -> (b: bool)
            ensures
                b == eq_ignore_case(w.workspace_name@, workspace_name@),
            {
                let b = eq_ignore_ascii_case(w.workspace_name.as_str(), workspace_name);
                b
        };
        collect_matching(&self.windows, &f, Ghost(window_in_workspace(workspace_name@)))
    }
}

/// Names that are equal up to ASCII case are looked up alike.
pub proof fn lemma_lookup_ignores_case(state: TilingState, a: Seq<char>, b: Seq<char>)
    requires
        eq_ignore_case(a, b),
    ensures
        state.workspace_position(a) == state.workspace_position(b),
{
    assert(workspace_named_like(a) =~= workspace_named_like(b));
}

/// The workspace found by a name is found again by its own name.
pub proof fn lemma_lookup_by_found_name(state: TilingState, name: Seq<char>)
    requires
        state.workspace_position(name) is Some,
    ensures
        state.workspace_position(state.workspace_lookup(name).unwrap().name@) == state.workspace_position(
            name,
        ),
{
    let ws = state.workspaces@;
    let p = state.workspace_position(name).unwrap();
    lemma_first_index_none(ws, workspace_named_like(name));
    assert(eq_ignore_case(ws[p].name@, name));
    lemma_lookup_ignores_case(state, ws[p].name@, name);
}

// ============================================================================
// Laws
// ============================================================================

/// Whether no two workspaces have names that are equal up to ASCII case.
pub open spec fn unique_workspace_names(ws: Seq<Workspace>) -> bool {
    forall|i: int, j: int|
        0 <= i < ws.len() && 0 <= j < ws.len() && eq_ignore_case(
            #[trigger] ws[i].name@,
            #[trigger] ws[j].name@,
        ) ==> i == j
}

/// A lookup by name finds a workspace exactly when some workspace has that
/// name up to ASCII case, and what it finds has that name.
pub proof fn law_lookup_finds_matching_workspace(state: TilingState, name: Seq<char>)
    ensures
        state.workspace_lookup(name) is Some <==> any_match(
            state.workspaces@,
            workspace_named_like(name),
        ),
        state.workspace_lookup(name) matches Some(w) ==> eq_ignore_case(w.name@, name),
{
    lemma_first_index_none(state.workspaces@, workspace_named_like(name));
}

/// When workspace names are distinct up to ASCII case, the index never
/// changes what a lookup answers: it is the workspace of that name.
pub proof fn law_index_agrees_with_scan(state: TilingState, name: Seq<char>)
    requires
        unique_workspace_names(state.workspaces@),
    ensures
        state.workspace_lookup(name) == first_match(state.workspaces@, workspace_named_like(name)),
{
    let ws = state.workspaces@;
    let p = workspace_named_like(name);
    lemma_first_index_none(ws, p);
    match state.index_lookup(ascii_lower_seq(name)) {
        Some(i) => {
            if i < ws.len() && eq_ignore_case(ws[i as int].name@, name) {
                assert forall|j: int| 0 <= j < i implies !p(#[trigger] ws[j]) by {
                    if p(ws[j]) {
                        assert(eq_ignore_case(ws[j].name@, ws[i as int].name@));
                    }
                }
                lemma_first_index_is(ws, p, i as int);
            }
        },
        None => {},
    }
}

} // verus!
