//! The window that was last focused in each workspace.
//!
//! Switching away from a workspace records its focused window; switching
//! back focuses that window again. Window IDs that disappear or change are
//! forgotten or renamed here too.

use vstd::prelude::*;

use crate::keyed::{
    key_in, keyed_map, lemma_keyed_map_empty, lemma_keyed_map_map_values, lemma_keyed_map_prefix,
    lemma_keyed_map_push, lemma_keyed_map_update, unique_keys,
};
use crate::text::str_equal;

verus! {

/// The map with the entries whose value is not `id`.
pub open spec fn without_value(m: Map<Seq<char>, u32>, id: u32) -> Map<Seq<char>, u32> {
    Map::new(|k: Seq<char>| m.contains_key(k) && m[k] != id, |k: Seq<char>| m[k])
}

/// Sends `old_id` to `new_id` and every other window ID to itself.
pub open spec fn renamed(old_id: u32, new_id: u32) -> spec_fn(u32) -> u32 {
    |v: u32| if v == old_id {
        new_id
    } else {
        v
    }
}

/// Entries by their views.
pub open spec fn pairs_of(entries: Seq<(String, u32)>) -> Seq<(Seq<char>, u32)> {
    entries.map_values(|e: (String, u32)| (e.0@, e.1))
}

/// The last focused window of each workspace, by workspace name.
pub struct FocusHistory {
    entries: Vec<(String, u32)>,
}

impl FocusHistory {
    /// The recorded pairs, by their views.
    pub closed spec fn pairs(&self) -> Seq<(Seq<char>, u32)> {
        pairs_of(self.entries@)
    }

    /// The history as a map from workspace name to window ID.
    pub closed spec fn view(&self) -> Map<Seq<char>, u32> {
        keyed_map(self.pairs())
    }

    /// Whether no workspace is recorded twice.
    pub closed spec fn wf(&self) -> bool {
        unique_keys(self.pairs())
    }

    /// Creates an empty history.
    pub fn new() -> (r: Self)
        ensures
            r.wf(),
            r.view() == Map::<Seq<char>, u32>::empty(),
    {
        let r = FocusHistory { entries: Vec::new() };
        proof {
            lemma_keyed_map_empty(r.pairs());
        }
        r
    }

    /// The position of the entry for `workspace`.
    fn find(&self, workspace: &str) -> (r: Option<usize>)
        requires
            self.wf(),
        ensures
            r matches Some(i) ==> i < self.entries@.len() && self.pairs()[i as int].0 == workspace@,
            r is None ==> !key_in(self.pairs(), workspace@),
    {
        let mut i: usize = 0;
        while i < self.entries.len()
            invariant
                i <= self.entries@.len(),
                forall|j: int| 0 <= j < i ==> self.pairs()[j].0 != workspace@,
            decreases self.entries@.len() - i,
        {
            if str_equal(self.entries[i].0.as_str(), workspace) {
                return Some(i);
            }
            i = i + 1;
        }
        proof {
            assert forall|j: int| 0 <= j < self.pairs().len() implies (#[trigger] self.pairs()[
                j
            ]).0 != workspace@ by {}
        }
        None
    }

    /// Records `window_id` as the focused window of `workspace`.
    pub fn record(&mut self, workspace: &str, window_id: u32)
        requires
            old(self).wf(),
        ensures
            final(self).wf(),
            final(self).view() == old(self).view().insert(workspace@, window_id),
    {
        match self.find(workspace) {
            Some(i) => {
                let ghost before = self.pairs();
                let key = self.entries[i].0.clone();
                self.entries.set(i, (key, window_id));
                proof {
                    lemma_keyed_map_update(before, i as int, window_id);
                    assert(self.pairs() =~= before.update(i as int, (before[i as int].0, window_id)));
                }
            },
            None => {
                let ghost before = self.pairs();
                self.entries.push((workspace.to_string(), window_id));
                proof {
                    lemma_keyed_map_push(before, workspace@, window_id);
                    assert(self.pairs() =~= before.push((workspace@, window_id)));
                }
            },
        }
    }

    /// The window last focused in `workspace`, if one is recorded.
    pub fn get(&self, workspace: &str) -> (r: Option<u32>)
        requires
            self.wf(),
        ensures
            r == (if self.view().contains_key(workspace@) {
                Some(self.view()[workspace@])
            } else {
                None
            }),
    {
        match self.find(workspace) {
            Some(i) => {
                proof {
                    crate::keyed::lemma_keyed_map_index(self.pairs(), i as int);
                }
                Some(self.entries[i].1)
            },
            None => {
                proof {
                    crate::keyed::lemma_keyed_map_absent(self.pairs(), workspace@);
                }
                None
            },
        }
    }

    /// Forgets every workspace whose recorded window is `window_id`.
    pub fn remove_window(&mut self, window_id: u32)
        requires
            old(self).wf(),
        ensures
            final(self).wf(),
            final(self).view() == without_value(old(self).view(), window_id),
    {
        let ghost all = self.pairs();
        let mut kept: Vec<(String, u32)> = Vec::new();
        let n = self.entries.len();
        let mut i: usize = 0;
        proof {
            lemma_keyed_map_empty(pairs_of(kept@));
            assert(all.subrange(0, 0) =~= Seq::<(Seq<char>, u32)>::empty());
            lemma_keyed_map_empty(all.subrange(0, 0));
            assert(without_value(keyed_map(all.subrange(0, 0)), window_id) =~= Map::empty());
        }
        while i < n
            invariant
                i <= n,
                n == self.entries@.len(),
                all == self.pairs(),
                unique_keys(all),
                unique_keys(pairs_of(kept@)),
                forall|k: Seq<char>|
                    #[trigger] key_in(pairs_of(kept@), k) ==> key_in(
                        all.subrange(0, i as int),
                        k,
                    ),
                keyed_map(pairs_of(kept@)) == without_value(
                    keyed_map(all.subrange(0, i as int)),
                    window_id,
                ),
            decreases n - i,
        {
            let ghost kv = pairs_of(kept@);
            proof {
                lemma_keyed_map_prefix(all, i as int);
            }
            if self.entries[i].1 != window_id {
                let key = self.entries[i].0.clone();
                kept.push((key, self.entries[i].1));
                proof {
                    lemma_keyed_map_push(kv, all[i as int].0, all[i as int].1);
                    assert(pairs_of(kept@) =~= kv.push(
                        (all[i as int].0, all[i as int].1),
                    ));
                    assert(without_value(keyed_map(all.subrange(0, i as int + 1)), window_id)
                        =~= without_value(keyed_map(all.subrange(0, i as int)), window_id).insert(
                        all[i as int].0,
                        all[i as int].1,
                    ));
                    assert forall|k: Seq<char>|
                        #[trigger] key_in(pairs_of(kept@), k) implies key_in(
                        all.subrange(0, i as int + 1),
                        k,
                    ) by {
                        let kk = pairs_of(kept@);
                        let a = choose|a: int| 0 <= a < kk.len() && (#[trigger] kk[a]).0 == k;
                        if a < kv.len() {
                            assert(kk[a] == kv[a]);
                            assert(key_in(kv, k));
                            let b = choose|b: int|
                                0 <= b < i && (#[trigger] all.subrange(0, i as int)[b]).0 == k;
                            assert(all.subrange(0, i as int + 1)[b] == all.subrange(0, i as int)[b]);
                        } else {
                            assert(all.subrange(0, i as int + 1)[i as int] == all[i as int]);
                        }
                    }
                }
            } else {
                proof {
                    assert(without_value(keyed_map(all.subrange(0, i as int + 1)), window_id)
                        =~= without_value(keyed_map(all.subrange(0, i as int)), window_id));
                    assert forall|k: Seq<char>| #[trigger] key_in(kv, k) implies key_in(
                        all.subrange(0, i as int + 1),
                        k,
                    ) by {
                        let b = choose|b: int|
                            0 <= b < i && (#[trigger] all.subrange(0, i as int)[b]).0 == k;
                        assert(all.subrange(0, i as int + 1)[b] == all.subrange(0, i as int)[b]);
                    }
                }
            }
            i = i + 1;
        }
        assert(all.subrange(0, n as int) =~= all);
        self.entries = kept;
    }

    /// Replaces the window ID `old_id` by `new_id` wherever it is recorded.
    pub fn swap_window_id(&mut self, old_id: u32, new_id: u32)
        requires
            old(self).wf(),
        ensures
            final(self).wf(),
            final(self).view() == old(self).view().map_values(renamed(old_id, new_id)),
    {
        let ghost before = self.pairs();
        let ghost f = renamed(old_id, new_id);
        let n = self.entries.len();
        let mut i: usize = 0;
        while i < n
            invariant
                i <= n,
                n == self.entries@.len(),
                before.len() == n,
                f == renamed(old_id, new_id),
                forall|j: int| 0 <= j < i ==> #[trigger] self.pairs()[j] == (before[j].0, f(before[j].1)),
                forall|j: int| i <= j < n ==> #[trigger] self.pairs()[j] == before[j],
            decreases n - i,
        {
            let ghost prev = self.pairs();
            if self.entries[i].1 == old_id {
                let key = self.entries[i].0.clone();
                self.entries.set(i, (key, new_id));
                assert(self.pairs() =~= prev.update(i as int, (prev[i as int].0, new_id)));
            }

            i = i + 1;
        }
        proof {
            lemma_keyed_map_map_values(before, f);
            assert(self.pairs() =~= before.map_values(|p: (Seq<char>, u32)| (p.0, f(p.1))));
        }
    }
}

} // verus!
