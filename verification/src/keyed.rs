//! Sequences of key/value pairs read as finite maps.
//!
//! Several tables of the tiling system are small vectors of pairs whose keys
//! are kept distinct. The lemmas here relate the usual vector edits (push,
//! in-place update, removal, filtering) to the corresponding map edits.

use vstd::prelude::*;

verus! {

/// Whether `k` is the key of some pair of `s`.
pub open spec fn key_in<K, V>(s: Seq<(K, V)>, k: K) -> bool {
    exists|i: int| 0 <= i < s.len() && (#[trigger] s[i]).0 == k
}

/// Whether no key occurs twice in `s`.
pub open spec fn unique_keys<K, V>(s: Seq<(K, V)>) -> bool {
    forall|i: int, j: int|
        0 <= i < s.len() && 0 <= j < s.len() && (#[trigger] s[i]).0 == (#[trigger] s[j]).0 ==> i
            == j
}

/// The map from each key of `s` to the value paired with it.
pub open spec fn keyed_map<K, V>(s: Seq<(K, V)>) -> Map<K, V> {
    Map::new(
        |k: K| key_in(s, k),
        |k: K| s[choose|i: int| 0 <= i < s.len() && (#[trigger] s[i]).0 == k].1,
    )
}

/// With distinct keys, the map sends the key at `i` to the value at `i`.
pub proof fn lemma_keyed_map_index<K, V>(s: Seq<(K, V)>, i: int)
    requires
        unique_keys(s),
        0 <= i < s.len(),
    ensures
        keyed_map(s).contains_key(s[i].0),
        keyed_map(s)[s[i].0] == s[i].1,
{
    let k = s[i].0;
    assert(key_in(s, k));
    let j = choose|j: int| 0 <= j < s.len() && (#[trigger] s[j]).0 == k;
    assert(s[j].0 == s[i].0);
}

/// Pushing a pair with a fresh key inserts it into the map.
pub proof fn lemma_keyed_map_push<K, V>(s: Seq<(K, V)>, k: K, v: V)
    requires
        unique_keys(s),
        !key_in(s, k),
    ensures
        unique_keys(s.push((k, v))),
        keyed_map(s.push((k, v))) == keyed_map(s).insert(k, v),
{
    let t = s.push((k, v));
    assert forall|i: int, j: int|
        0 <= i < t.len() && 0 <= j < t.len() && (#[trigger] t[i]).0 == (#[trigger] t[j]).0 implies i
        == j by {
        if i < s.len() && j < s.len() {
            assert(s[i] == t[i] && s[j] == t[j]);
        } else if i < s.len() {
            assert(s[i] == t[i]);
        } else if j < s.len() {
            assert(s[j] == t[j]);
        }
    }
    assert forall|q: K| #[trigger] keyed_map(t).contains_key(q) == keyed_map(s).insert(
        k,
        v,
    ).contains_key(q) by {
        if key_in(s, q) {
            let i = choose|i: int| 0 <= i < s.len() && (#[trigger] s[i]).0 == q;
            assert(t[i] == s[i]);
        }
        if q == k {
            assert(t[s.len() as int].0 == k);
        }
    }
    assert forall|q: K| #[trigger] keyed_map(t).contains_key(q) implies keyed_map(t)[q]
        == keyed_map(s).insert(k, v)[q] by {
        if q == k {
            lemma_keyed_map_index(t, s.len() as int);
        } else {
            let i = choose|i: int| 0 <= i < t.len() && (#[trigger] t[i]).0 == q;
            assert(i < s.len());
            assert(t[i] == s[i]);
            lemma_keyed_map_index(t, i);
            lemma_keyed_map_index(s, i);
        }
    }
    assert(keyed_map(t) =~= keyed_map(s).insert(k, v));
}

/// Replacing the value at the position of key `s[i].0` updates the map.
pub proof fn lemma_keyed_map_update<K, V>(s: Seq<(K, V)>, i: int, v: V)
    requires
        unique_keys(s),
        0 <= i < s.len(),
    ensures
        unique_keys(s.update(i, (s[i].0, v))),
        keyed_map(s.update(i, (s[i].0, v))) == keyed_map(s).insert(s[i].0, v),
{
    let k = s[i].0;
    let t = s.update(i, (k, v));
    assert forall|a: int, b: int|
        0 <= a < t.len() && 0 <= b < t.len() && (#[trigger] t[a]).0 == (#[trigger] t[b]).0 implies a
        == b by {
        assert(t[a].0 == s[a].0);
        assert(t[b].0 == s[b].0);
    }
    assert forall|q: K| #[trigger] keyed_map(t).contains_key(q) == keyed_map(s).insert(
        k,
        v,
    ).contains_key(q) by {
        if key_in(s, q) {
            let a = choose|a: int| 0 <= a < s.len() && (#[trigger] s[a]).0 == q;
            assert(t[a].0 == q);
        }
        if key_in(t, q) {
            let a = choose|a: int| 0 <= a < t.len() && (#[trigger] t[a]).0 == q;
            assert(s[a].0 == q);
        }
        if q == k {
            assert(t[i].0 == k);
        }
    }
    assert forall|q: K| #[trigger] keyed_map(t).contains_key(q) implies keyed_map(t)[q]
        == keyed_map(s).insert(k, v)[q] by {
        let a = choose|a: int| 0 <= a < t.len() && (#[trigger] t[a]).0 == q;
        lemma_keyed_map_index(t, a);
        if a != i {
            assert(t[a] == s[a]);
            lemma_keyed_map_index(s, a);
        }
    }
    assert(keyed_map(t) =~= keyed_map(s).insert(k, v));
}

/// Removing the pair at `i` removes its key from the map.
pub proof fn lemma_keyed_map_remove<K, V>(s: Seq<(K, V)>, i: int)
    requires
        unique_keys(s),
        0 <= i < s.len(),
    ensures
        unique_keys(s.remove(i)),
        keyed_map(s.remove(i)) == keyed_map(s).remove(s[i].0),
{
    let k = s[i].0;
    let t = s.remove(i);
    assert forall|a: int, b: int|
        0 <= a < t.len() && 0 <= b < t.len() && (#[trigger] t[a]).0 == (#[trigger] t[b]).0 implies a
        == b by {
        let a2 = if a < i { a } else { a + 1 };
        let b2 = if b < i { b } else { b + 1 };
        assert(t[a] == s[a2]);
        assert(t[b] == s[b2]);
    }
    assert forall|q: K| #[trigger] keyed_map(t).contains_key(q) == keyed_map(s).remove(
        k,
    ).contains_key(q) by {
        if key_in(t, q) {
            let a = choose|a: int| 0 <= a < t.len() && (#[trigger] t[a]).0 == q;
            let a2 = if a < i { a } else { a + 1 };
            assert(t[a] == s[a2]);
            assert(s[a2].0 == q);
        }
        if key_in(s, q) && q != k {
            let a = choose|a: int| 0 <= a < s.len() && (#[trigger] s[a]).0 == q;
            assert(a != i);
            let a2 = if a < i { a } else { a - 1 };
            assert(t[a2] == s[a]);
        }
    }
    assert forall|q: K| #[trigger] keyed_map(t).contains_key(q) implies keyed_map(t)[q]
        == keyed_map(s).remove(k)[q] by {
        let a = choose|a: int| 0 <= a < t.len() && (#[trigger] t[a]).0 == q;
        let a2 = if a < i { a } else { a + 1 };
        assert(t[a] == s[a2]);
        lemma_keyed_map_index(t, a);
        lemma_keyed_map_index(s, a2);
    }
    assert(keyed_map(t) =~= keyed_map(s).remove(k));
}

/// A key that is no pair's key is absent from the map.
pub proof fn lemma_keyed_map_absent<K, V>(s: Seq<(K, V)>, k: K)
    requires
        !key_in(s, k),
    ensures
        !keyed_map(s).contains_key(k),
{
}

/// The empty sequence is the empty map.
pub proof fn lemma_keyed_map_empty<K, V>(s: Seq<(K, V)>)
    requires
        s.len() == 0,
    ensures
        unique_keys(s),
        keyed_map(s) == Map::<K, V>::empty(),
{
    assert(keyed_map(s) =~= Map::<K, V>::empty());
}

} // verus!

verus! {

/// Changing only the values of the pairs maps the values of the map.
pub proof fn lemma_keyed_map_map_values<K, V>(s: Seq<(K, V)>, f: spec_fn(V) -> V)
    requires
        unique_keys(s),
    ensures
        unique_keys(s.map_values(|p: (K, V)| (p.0, f(p.1)))),
        keyed_map(s.map_values(|p: (K, V)| (p.0, f(p.1)))) == keyed_map(s).map_values(f),
{
    let t = s.map_values(|p: (K, V)| (p.0, f(p.1)));
    assert forall|a: int, b: int|
        0 <= a < t.len() && 0 <= b < t.len() && (#[trigger] t[a]).0 == (#[trigger] t[b]).0 implies a
        == b by {
        assert(t[a].0 == s[a].0 && t[b].0 == s[b].0);
    }
    assert forall|q: K| #[trigger] keyed_map(t).contains_key(q) == keyed_map(s).contains_key(
        q,
    ) by {
        if key_in(s, q) {
            let a = choose|a: int| 0 <= a < s.len() && (#[trigger] s[a]).0 == q;
            assert(t[a].0 == q);
        }
        if key_in(t, q) {
            let a = choose|a: int| 0 <= a < t.len() && (#[trigger] t[a]).0 == q;
            assert(s[a].0 == q);
        }
    }
    assert forall|q: K| #[trigger] keyed_map(t).contains_key(q) implies keyed_map(t)[q]
        == keyed_map(s).map_values(f)[q] by {
        let a = choose|a: int| 0 <= a < t.len() && (#[trigger] t[a]).0 == q;
        lemma_keyed_map_index(t, a);
        lemma_keyed_map_index(s, a);
    }
    assert(keyed_map(t) =~= keyed_map(s).map_values(f));
}

} // verus!

verus! {

/// With distinct keys, the map has one entry per pair.
pub proof fn lemma_keyed_map_len<K, V>(s: Seq<(K, V)>)
    requires
        unique_keys(s),
    ensures
        keyed_map(s).dom().finite(),
        keyed_map(s).len() == s.len(),
    decreases s.len(),
{
    if s.len() == 0 {
        lemma_keyed_map_empty(s);
    } else {
        let t = s.drop_last();
        let last = s.last();
        assert forall|i: int, j: int|
            0 <= i < t.len() && 0 <= j < t.len() && (#[trigger] t[i]).0 == (#[trigger] t[j]).0 implies i
            == j by {
            assert(t[i] == s[i] && t[j] == s[j]);
        }
        if key_in(t, last.0) {
            let i = choose|i: int| 0 <= i < t.len() && (#[trigger] t[i]).0 == last.0;
            assert(t[i] == s[i]);
            assert(s[s.len() - 1] == last);
        }
        lemma_keyed_map_len(t);
        lemma_keyed_map_push(t, last.0, last.1);
        assert(t.push((last.0, last.1)) =~= s);
    }
}

} // verus!

verus! {

/// The pairs with keys satisfying `keep`, as a map.
pub open spec fn restrict_keys<K, V>(m: Map<K, V>, keep: spec_fn(K) -> bool) -> Map<K, V> {
    Map::new(|k: K| m.contains_key(k) && keep(k), |k: K| m[k])
}

/// A prefix of a sequence with distinct keys grows by the next pair.
pub proof fn lemma_keyed_map_prefix<K, V>(s: Seq<(K, V)>, i: int)
    requires
        unique_keys(s),
        0 <= i < s.len(),
    ensures
        unique_keys(s.subrange(0, i)),
        !key_in(s.subrange(0, i), s[i].0),
        keyed_map(s.subrange(0, i + 1)) == keyed_map(s.subrange(0, i)).insert(s[i].0, s[i].1),
{
    let t = s.subrange(0, i);
    assert forall|a: int, b: int|
        0 <= a < t.len() && 0 <= b < t.len() && (#[trigger] t[a]).0 == (#[trigger] t[b]).0 implies a
        == b by {
        assert(t[a] == s[a] && t[b] == s[b]);
    }
    if key_in(t, s[i].0) {
        let a = choose|a: int| 0 <= a < t.len() && (#[trigger] t[a]).0 == s[i].0;
        assert(t[a] == s[a]);
    }
    lemma_keyed_map_push(t, s[i].0, s[i].1);
    assert(t.push((s[i].0, s[i].1)) =~= s.subrange(0, i + 1));
}

} // verus!
