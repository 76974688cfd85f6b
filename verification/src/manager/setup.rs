//! Startup steps of the tiling manager: taking in the detected screens and
//! creating the workspaces.

use vstd::prelude::*;

use crate::config::{LayoutType, WorkspaceConfig};
use crate::search::{first_match, lemma_first_index_none, position_first};
use crate::state::{screen_is_main, workspace_on_screen, Screen, TilingState, Workspace};
use crate::text::{ascii_lower, ascii_lower_seq, decimal, owned, push_decimal};

verus! {

/// Takes in the detected screens. Without a focused screen, the main screen
/// becomes the focused one.
pub fn refresh_screens(state: &mut TilingState, screens: Vec<Screen>)
    ensures
        final(state).screens@ == screens@,
        final(state).workspaces@ == old(state).workspaces@,
        final(state).windows@ == old(state).windows@,
        final(state).workspace_index@ == old(state).workspace_index@,
        final(state).focused_workspace == old(state).focused_workspace,
        final(state).focused_screen_id == match old(state).focused_screen_id {
            Some(id) => Some(id),
            None => match first_match(screens@, screen_is_main()) {
                Some(m) => Some(m.id),
                None => None,
            },
        },
{
    state.screens = screens;
    if state.focused_screen_id.is_none() {
        if let Some(main) = state.main_screen() {
            state.focused_screen_id = Some(main.id);
        }
    }
}

/// The name of the default workspace of the screen at position `i`.
pub open spec fn numbered_name(i: int) -> Seq<char> {
    "workspace-"@ + decimal((i + 1) as nat)
}

/// The name of the workspace added for a screen that has none.
pub open spec fn screen_default_name(id: u32) -> Seq<char> {
    "default-"@ + decimal(id as nat)
}

/// Whether the state kept its screens, windows and focus.
pub open spec fn kept_outside_workspaces(a: TilingState, b: TilingState) -> bool {
    &&& a.screens@ == b.screens@
    &&& a.windows@ == b.windows@
    &&& a.focused_workspace == b.focused_workspace
    &&& a.focused_screen_id == b.focused_screen_id
}

/// A lower-case prefix followed by a number in decimal is in lower case.
proof fn lemma_decimal_suffix_lower(p: Seq<char>, n: nat)
    requires
        forall|k: int| 0 <= k < p.len() ==> ascii_lower(#[trigger] p[k]) == p[k],
    ensures
        ascii_lower_seq(p + decimal(n)) == p + decimal(n),
{
    let d = decimal(n);
    crate::manager::laws::lemma_decimal_reads_back(n);
    let s = p + d;
    assert forall|k: int| 0 <= k < s.len() implies ascii_lower(#[trigger] s[k]) == s[k] by {
        if k >= p.len() {
            assert(s[k] == d[k - p.len()]);
            assert('0' <= d[k - p.len()] && d[k - p.len()] <= '9');
        } else {
            assert(s[k] == p[k]);
        }
    }
    assert(ascii_lower_seq(s) =~= s);
}

/// A prefix followed by two different numbers in decimal gives two
/// different names.
proof fn lemma_decimal_suffix_differ(p: Seq<char>, a: nat, b: nat)
    requires
        a != b,
    ensures
        p + decimal(a) != p + decimal(b),
{
    crate::manager::laws::lemma_decimal_reads_back(a);
    crate::manager::laws::lemma_decimal_reads_back(b);
    let x = p + decimal(a);
    let y = p + decimal(b);
    if x == y {
        assert(x.subrange(p.len() as int, x.len() as int) =~= decimal(a));
        assert(y.subrange(p.len() as int, y.len() as int) =~= decimal(b));
    }
}

/// Numbered workspace names are in lower case.
proof fn lemma_numbered_name_lower(i: int)
    requires
        0 <= i,
    ensures
        ascii_lower_seq(numbered_name(i)) == numbered_name(i),
{
    let p = "workspace-"@;
    assert(p == seq!['w', 'o', 'r', 'k', 's', 'p', 'a', 'c', 'e', '-']) by {
        reveal_strlit("workspace-");
    }
    lemma_decimal_suffix_lower(p, (i + 1) as nat);
}

/// Distinct numbers give distinct workspace names.
proof fn lemma_numbered_names_differ(i: int, j: int)
    requires
        0 <= i,
        0 <= j,
        i != j,
    ensures
        numbered_name(i) != numbered_name(j),
{
    lemma_decimal_suffix_differ("workspace-"@, (i + 1) as nat, (j + 1) as nat);
}

/// Default workspace names are in lower case.
proof fn lemma_default_name_lower(id: u32)
    ensures
        ascii_lower_seq(screen_default_name(id)) == screen_default_name(id),
{
    let p = "default-"@;
    assert(p == seq!['d', 'e', 'f', 'a', 'u', 'l', 't', '-']) by {
        reveal_strlit("default-");
    }
    lemma_decimal_suffix_lower(p, id as nat);
}

/// The screens that get a default workspace are each listed once.
proof fn lemma_default_ids_distinct(ids: Seq<u32>, used: Seq<u32>)
    ensures
        forall|a: int, b: int|
            0 <= a < b < default_screen_ids(ids, used).len() ==> #[trigger] default_screen_ids(ids, used)[a]
                != #[trigger] default_screen_ids(ids, used)[b],
    decreases ids.len(),
{
    if ids.len() > 0 {
        lemma_default_ids_distinct(ids.drop_last(), used);
        let rest = default_screen_ids(ids.drop_last(), used);
        let x = ids.last();
        if !(used.contains(x) || rest.contains(x)) {
            let r = rest.push(x);
            assert forall|a: int, b: int| 0 <= a < b < r.len() implies #[trigger] r[a] != #[trigger] r[b] by {
                if b == rest.len() {
                    assert(r[a] == rest[a]);
                }
            }
        }
    }
}

/// Creates one workspace per screen, named `workspace-1`, `workspace-2`, and
/// so on in screen order. A lookup by each of these names finds the new
/// workspace.
pub fn create_default_workspaces(state: &mut TilingState, layout: LayoutType)
    ensures
        kept_outside_workspaces(*final(state), *old(state)),
        final(state).workspaces@.len() == old(state).workspaces@.len() + old(state).screens@.len(),
        forall|j: int|
            0 <= j < old(state).workspaces@.len() ==> #[trigger] final(state).workspaces@[j]
                == old(state).workspaces@[j],
        forall|i: int|
            0 <= i < old(state).screens@.len() ==> {
                let w = #[trigger] final(state).workspaces@[old(state).workspaces@.len() + i];
                &&& w.is_fresh(numbered_name(i), old(state).screens@[i].id, layout)
                &&& w.configured_screen@.len() == 0
            },
        forall|i: int|
            0 <= i < old(state).screens@.len() ==> #[trigger] final(state).workspace_lookup(
                numbered_name(i),
            ) == Some(final(state).workspaces@[old(state).workspaces@.len() + i]),
        forall|key: Seq<char>|
            (forall|i: int| 0 <= i < old(state).screens@.len() ==> key != #[trigger] numbered_name(i))
                ==> #[trigger] final(state).index_lookup(key) == old(state).index_lookup(key),
{
    let ghost before = *state;
    let n = state.screens.len();
    let mut i: usize = 0;
    while i < n
        invariant
            i <= n,
            n == before.screens@.len(),
            kept_outside_workspaces(*state, before),
            state.workspaces@.len() == before.workspaces@.len() + i,
            forall|j: int|
                0 <= j < before.workspaces@.len() ==> #[trigger] state.workspaces@[j]
                    == before.workspaces@[j],
            forall|k: int|
                0 <= k < i ==> {
                    let w = #[trigger] state.workspaces@[before.workspaces@.len() + k];
                    &&& w.is_fresh(numbered_name(k), before.screens@[k].id, layout)
                    &&& w.configured_screen@.len() == 0
                },
            forall|k: int|
                0 <= k < i ==> #[trigger] state.index_lookup(numbered_name(k)) == Some(
                    (before.workspaces@.len() + k) as usize,
                ),
            forall|key: Seq<char>|
                (forall|k: int| 0 <= k < i ==> key != #[trigger] numbered_name(k)) ==> #[trigger] state.index_lookup(key)
                    == before.index_lookup(key),
        decreases n - i,
    {
        let mut name = owned("workspace-");
        push_decimal(&mut name, i as u64 + 1);
        let id = state.screens[i].id;
        let ghost prev = state.workspaces@;
        state.add_workspace(Workspace::new(name, id, layout));
        proof {
            assert forall|k: int| 0 <= k < i + 1 implies {
                let w = #[trigger] state.workspaces@[before.workspaces@.len() + k];
                &&& w.is_fresh(numbered_name(k), before.screens@[k].id, layout)
                &&& w.configured_screen@.len() == 0
            } by {
                assert(state.workspaces@[before.workspaces@.len() + k] == prev.push(
                    state.workspaces@[before.workspaces@.len() + i],
                )[before.workspaces@.len() + k]);
            }
            lemma_numbered_name_lower(i as int);
            assert forall|k: int| 0 <= k < i + 1 implies #[trigger] state.index_lookup(numbered_name(k))
                == Some((before.workspaces@.len() + k) as usize) by {
                if k < i {
                    lemma_numbered_names_differ(k, i as int);
                }
            }
            assert forall|key: Seq<char>|
                (forall|k: int| 0 <= k < i + 1 ==> key != #[trigger] numbered_name(k)) implies #[trigger] state.index_lookup(key)
                    == before.index_lookup(key) by {
                assert(key != numbered_name(i as int));
            }
        }
        i = i + 1;
    }
    proof {
        assert forall|k: int| 0 <= k < n implies #[trigger] state.workspace_lookup(numbered_name(k))
            == Some(state.workspaces@[before.workspaces@.len() + k]) by {
            lemma_numbered_name_lower(k);
            let p = before.workspaces@.len() + k;
            assert(p < state.workspaces.len());
            assert((p as usize) as int == p);
            assert(state.index_lookup(ascii_lower_seq(numbered_name(k))) == Some(p as usize));
            assert(state.workspaces@[p].name@ == numbered_name(k));
            assert(crate::text::eq_ignore_case(state.workspaces@[p].name@, numbered_name(k)));
            assert(state.workspace_position(numbered_name(k)) == Some(p));
        }
    }
}

/// The screens that get a default workspace: in screen order, each ID that
/// no workspace uses, once.
pub open spec fn default_screen_ids(ids: Seq<u32>, used: Seq<u32>) -> Seq<u32>
    decreases ids.len(),
{
    if ids.len() == 0 {
        Seq::empty()
    } else {
        let rest = default_screen_ids(ids.drop_last(), used);
        let x = ids.last();
        if used.contains(x) || rest.contains(x) {
            rest
        } else {
            rest.push(x)
        }
    }
}

/// The screen IDs of some workspaces.
pub open spec fn screen_ids_of(ws: Seq<Workspace>) -> Seq<u32> {
    ws.map_values(|w: Workspace| w.screen_id)
}

/// The IDs of some screens.
pub open spec fn ids_of(screens: Seq<Screen>) -> Seq<u32> {
    screens.map_values(|s: Screen| s.id)
}

/// Adds a workspace named `default-` and the screen's ID for every screen
/// without a workspace. A lookup by each of these names finds the new
/// workspace.
pub fn ensure_screen_workspaces(state: &mut TilingState, layout: LayoutType)
    ensures
        ({
            let added = default_screen_ids(
                ids_of(old(state).screens@),
                screen_ids_of(old(state).workspaces@),
            );
            &&& kept_outside_workspaces(*final(state), *old(state))
            &&& final(state).workspaces@.len() == old(state).workspaces@.len() + added.len()
            &&& forall|j: int|
                0 <= j < old(state).workspaces@.len() ==> #[trigger] final(state).workspaces@[j]
                    == old(state).workspaces@[j]
            &&& forall|k: int|
                0 <= k < added.len() ==> {
                    let w = #[trigger] final(state).workspaces@[old(state).workspaces@.len() + k];
                    &&& w.is_fresh(screen_default_name(added[k]), added[k], layout)
                    &&& w.configured_screen@.len() == 0
                }
            &&& forall|k: int|
                0 <= k < added.len() ==> #[trigger] final(state).workspace_lookup(
                    screen_default_name(added[k]),
                ) == Some(final(state).workspaces@[old(state).workspaces@.len() + k])
            &&& forall|key: Seq<char>|
                (forall|k: int| 0 <= k < added.len() ==> key != #[trigger] screen_default_name(added[k]))
                    ==> #[trigger] final(state).index_lookup(key) == old(state).index_lookup(key)
        }),
{
    let ghost before = *state;
    let ghost ids = ids_of(before.screens@);
    let ghost used = screen_ids_of(before.workspaces@);
    let n = state.screens.len();
    let mut i: usize = 0;
    while i < n
        invariant
            i <= n,
            n == before.screens@.len(),
            ids == ids_of(before.screens@),
            used == screen_ids_of(before.workspaces@),
            kept_outside_workspaces(*state, before),
            state.workspaces@.len() == before.workspaces@.len() + default_screen_ids(
                ids.take(i as int),
                used,
            ).len(),
            forall|j: int|
                0 <= j < before.workspaces@.len() ==> #[trigger] state.workspaces@[j]
                    == before.workspaces@[j],
            forall|k: int|
                0 <= k < default_screen_ids(ids.take(i as int), used).len() ==> {
                    let added = default_screen_ids(ids.take(i as int), used);
                    let w = #[trigger] state.workspaces@[before.workspaces@.len() + k];
                    &&& w.is_fresh(screen_default_name(added[k]), added[k], layout)
                    &&& w.configured_screen@.len() == 0
                },
            forall|k: int|
                0 <= k < default_screen_ids(ids.take(i as int), used).len() ==> #[trigger] state.index_lookup(
                    screen_default_name(default_screen_ids(ids.take(i as int), used)[k]),
                ) == Some((before.workspaces@.len() + k) as usize),
            forall|key: Seq<char>|
                (forall|k: int|
                    0 <= k < default_screen_ids(ids.take(i as int), used).len() ==> key
                        != #[trigger] screen_default_name(default_screen_ids(ids.take(i as int), used)[k]))
                    ==> #[trigger] state.index_lookup(key) == before.index_lookup(key),
        decreases n - i,
    {
        let id = state.screens[i].id;
        let ghost added = default_screen_ids(ids.take(i as int), used);
        proof {
            assert(ids.take(i as int + 1).drop_last() =~= ids.take(i as int));
            assert(ids.take(i as int + 1).last() == id);
            // A workspace on this screen is an old one or one added here.
            assert forall|j: int| 0 <= j < state.workspaces@.len() && state.workspaces@[j].screen_id == id
                implies used.contains(id) || added.contains(id) by {
                if j < before.workspaces@.len() {
                    assert(used[j] == id);
                } else {
                    let k = j - before.workspaces@.len();
                    assert(state.workspaces@[before.workspaces@.len() + k].screen_id == added[k]);
                }
            }
            if used.contains(id) {
                let j = choose|j: int| 0 <= j < used.len() && used[j] == id;
                assert(state.workspaces@[j].screen_id == id);
            }
            if added.contains(id) {
                let k = choose|k: int| 0 <= k < added.len() && added[k] == id;
                assert(state.workspaces@[before.workspaces@.len() + k].screen_id == id);
            }
        }
        let f = |w: &Workspace| -> (b: bool)
            ensures
                b == (w.screen_id == id),
            {
                let b = w.screen_id == id;
                b
            };
        let has_workspace = position_first(&state.workspaces, &f, Ghost(workspace_on_screen(id))).is_some();
        proof {
            lemma_first_index_none(state.workspaces@, workspace_on_screen(id));
        }
        if !has_workspace {
            let mut name = owned("default-");
            push_decimal(&mut name, id as u64);
            let ghost prev = state.workspaces@;
            state.add_workspace(Workspace::new(name, id, layout));
            proof {
                let added2 = added.push(id);
                assert forall|k: int| 0 <= k < added2.len() implies {
                    let w = #[trigger] state.workspaces@[before.workspaces@.len() + k];
                    &&& w.is_fresh(screen_default_name(added2[k]), added2[k], layout)
                    &&& w.configured_screen@.len() == 0
                } by {
                    assert(state.workspaces@[before.workspaces@.len() + k] == prev.push(
                        state.workspaces@[(before.workspaces@.len() + added.len()) as int],
                    )[before.workspaces@.len() + k]);
                }
                lemma_default_name_lower(id);
                assert forall|k: int| 0 <= k < added2.len() implies #[trigger] state.index_lookup(
                    screen_default_name(added2[k]),
                ) == Some((before.workspaces@.len() + k) as usize) by {
                    if k < added.len() {
                        assert(added2[k] == added[k]);
                        assert(added[k] != id);
                        lemma_decimal_suffix_differ("default-"@, added[k] as nat, id as nat);
                    }
                }
                assert forall|key: Seq<char>|
                    (forall|k: int| 0 <= k < added2.len() ==> key != #[trigger] screen_default_name(added2[k]))
                        implies #[trigger] state.index_lookup(key) == before.index_lookup(key) by {
                    assert(key != screen_default_name(added2[added.len() as int]));
                    assert forall|k: int| 0 <= k < added.len() implies key != #[trigger] screen_default_name(added[k]) by {
                        assert(added2[k] == added[k]);
                        assert(key != screen_default_name(added2[k]));
                    }
                }
            }
        }
        proof {
            let now = default_screen_ids(ids.take(i as int + 1), used);
            if has_workspace {
                assert(now == added);
            } else {
                assert(now == added.push(id));
            }
        }
        i = i + 1;
    }
    assert(ids.take(n as int) =~= ids);
    proof {
        let added = default_screen_ids(ids, used);
        assert forall|k: int| 0 <= k < added.len() implies #[trigger] state.workspace_lookup(
            screen_default_name(added[k]),
        ) == Some(state.workspaces@[before.workspaces@.len() + k]) by {
            lemma_default_name_lower(added[k]);
            let p = before.workspaces@.len() + k;
            assert(p < state.workspaces.len());
            assert((p as usize) as int == p);
            assert(state.index_lookup(ascii_lower_seq(screen_default_name(added[k]))) == Some(p as usize));
            assert(state.workspaces@[p].name@ == screen_default_name(added[k]));
            assert(crate::text::eq_ignore_case(state.workspaces@[p].name@, screen_default_name(added[k])));
        }
    }
}

/// The screen a configured workspace is placed on: the screen its
/// configuration names, else the main screen.
pub open spec fn config_screen(state: TilingState, cfg: WorkspaceConfig) -> Option<u32> {
    match state.screen_named(cfg.screen@) {
        Some(s) => Some(s.id),
        None => match first_match(state.screens@, screen_is_main()) {
            Some(m) => Some(m.id),
            None => None,
        },
    }
}

/// Configured workspaces that have a screen to go on.
pub open spec fn placeable(state: TilingState) -> spec_fn(WorkspaceConfig) -> bool {
    |c: WorkspaceConfig| config_screen(state, c) is Some
}

/// The screens of the workspaces created from the configuration (one per
/// screen without a configuration).
pub open spec fn created_screen_ids(state: TilingState, configs: Seq<WorkspaceConfig>) -> Seq<u32> {
    if configs.len() == 0 {
        ids_of(state.screens@)
    } else {
        configs.filter(placeable(state)).map_values(|c: WorkspaceConfig| config_screen(state, c).unwrap())
    }
}

/// Creates the workspaces of the configuration, in order, each on the
/// screen it names or else on the main screen (and skipped without either);
/// without configured workspaces, one per screen. Then every screen without
/// a workspace gets a default one.
pub fn create_workspaces_from_config(
    state: &mut TilingState,
    configs: &Vec<WorkspaceConfig>,
    default_layout: LayoutType,
)
    ensures
        ({
            let ow = old(state).workspaces@;
            let created = created_screen_ids(*old(state), configs@);
            let placed = configs@.filter(placeable(*old(state)));
            let mid = ow.len() + created.len();
            let added = default_screen_ids(
                ids_of(old(state).screens@),
                screen_ids_of(ow) + created,
            );
            &&& kept_outside_workspaces(*final(state), *old(state))
            &&& final(state).workspaces@.len() == mid + added.len()
            &&& forall|j: int| 0 <= j < ow.len() ==> #[trigger] final(state).workspaces@[j] == ow[j]
            &&& configs@.len() == 0 ==> forall|i: int|
                0 <= i < created.len() ==> {
                    let w = #[trigger] final(state).workspaces@[ow.len() + i];
                    &&& w.is_fresh(numbered_name(i), created[i], default_layout)
                    &&& w.configured_screen@.len() == 0
                }
            &&& configs@.len() > 0 ==> forall|i: int|
                0 <= i < created.len() ==> {
                    let w = #[trigger] final(state).workspaces@[ow.len() + i];
                    &&& w.is_fresh(placed[i].name@, created[i], placed[i].layout)
                    &&& w.configured_screen@ == placed[i].screen@
                }
            &&& forall|k: int|
                0 <= k < added.len() ==> {
                    let w = #[trigger] final(state).workspaces@[mid + k];
                    &&& w.is_fresh(screen_default_name(added[k]), added[k], default_layout)
                    &&& w.configured_screen@.len() == 0
                }
        }),
{
    let ghost before = *state;
    let ghost pl = placeable(before);
    let ghost cs = |c: WorkspaceConfig| config_screen(before, c).unwrap();
    if configs.len() == 0 {
        create_default_workspaces(state, default_layout);
        proof {
            assert forall|i: int| 0 <= i < before.screens@.len() implies #[trigger] screen_ids_of(
                state.workspaces@,
            )[before.workspaces@.len() + i] == ids_of(before.screens@)[i] by {}
        }
    } else {
        let mut k: usize = 0;
        while k < configs.len()
            invariant
                k <= configs@.len(),
                pl == placeable(before),
                cs == (|c: WorkspaceConfig| config_screen(before, c).unwrap()),
                kept_outside_workspaces(*state, before),
                state.workspaces@.len() == before.workspaces@.len() + configs@.take(k as int).filter(
                    pl,
                ).len(),
                forall|j: int|
                    0 <= j < before.workspaces@.len() ==> #[trigger] state.workspaces@[j]
                        == before.workspaces@[j],
                forall|i: int|
                    0 <= i < configs@.take(k as int).filter(pl).len() ==> {
                        let c = configs@.take(k as int).filter(pl)[i];
                        let w = #[trigger] state.workspaces@[before.workspaces@.len() + i];
                        &&& w.is_fresh(c.name@, cs(c), c.layout)
                        &&& w.configured_screen@ == c.screen@
                    },
            decreases configs@.len() - k,
        {
            let ghost c = configs@[k as int];
            let ghost prefix = configs@.take(k as int).filter(pl);
            proof {
                assert(configs@.take(k as int + 1) =~= configs@.take(k as int).push(c));
                configs@.take(k as int).lemma_filter_push(c, pl);
            }
            let cfg = &configs[k];
            let screen_id = match state.screen_by_name(cfg.screen.as_str()) {
                Some(s) => Some(s.id),
                None => match state.main_screen() {
                    Some(m) => Some(m.id),
                    None => None,
                },
            };
            if let Some(screen_id) = screen_id {
                let ghost prev = state.workspaces@;
                state.add_workspace(
                    Workspace::new_with_screen(cfg.name.clone(), screen_id, cfg.screen.clone(), cfg.layout),
                );
                proof {
                    let p2 = prefix.push(c);
                    assert forall|i: int| 0 <= i < p2.len() implies {
                        let c2 = p2[i];
                        let w = #[trigger] state.workspaces@[before.workspaces@.len() + i];
                        &&& w.is_fresh(c2.name@, cs(c2), c2.layout)
                        &&& w.configured_screen@ == c2.screen@
                    } by {
                        assert(state.workspaces@[before.workspaces@.len() + i] == prev.push(
                            state.workspaces@[(before.workspaces@.len() + prefix.len()) as int],
                        )[before.workspaces@.len() + i]);
                    }
                }
            }
            k = k + 1;
        }
        assert(configs@.take(configs@.len() as int) =~= configs@);
        proof {
            let placed = configs@.filter(pl);
            assert forall|i: int| 0 <= i < placed.len() implies #[trigger] screen_ids_of(
                state.workspaces@,
            )[before.workspaces@.len() + i] == placed.map_values(cs)[i] by {}
        }
    }
    let ghost mid = *state;
    proof {
        let created = created_screen_ids(before, configs@);
        if configs@.len() > 0 {
            assert(created =~= configs@.filter(pl).map_values(cs));
        }
        assert forall|j: int| 0 <= j < mid.workspaces@.len() implies #[trigger] screen_ids_of(
            mid.workspaces@,
        )[j] == (screen_ids_of(before.workspaces@) + created)[j] by {
            if j >= before.workspaces@.len() {
                let i = j - before.workspaces@.len();
                assert(screen_ids_of(mid.workspaces@)[before.workspaces@.len() + i] == created[i]);
            }
        }
        assert(screen_ids_of(mid.workspaces@) =~= screen_ids_of(before.workspaces@) + created);
    }
    ensure_screen_workspaces(state, default_layout);
}

} // verus!
