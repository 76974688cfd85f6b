//! First and last matches in sequences.
//!
//! Lookups in the tiling state scan a vector front to back and stop at the
//! first element that satisfies a predicate; rebuilding an index keeps the
//! last element for each key. The spec functions here name those positions
//! and the lemmas show that they are well defined.

use vstd::prelude::*;

verus! {

/// Whether `i` is the first position of `s` whose element satisfies `p`.
pub open spec fn is_first<T>(s: Seq<T>, p: spec_fn(T) -> bool, i: int) -> bool {
    &&& 0 <= i < s.len()
    &&& p(s[i])
    &&& forall|j: int| 0 <= j < i ==> !p(#[trigger] s[j])
}

/// Whether some element of `s` satisfies `p`.
pub open spec fn any_match<T>(s: Seq<T>, p: spec_fn(T) -> bool) -> bool {
    exists|i: int| 0 <= i < s.len() && p(#[trigger] s[i])
}

/// The first position of `s` whose element satisfies `p`, if there is one.
pub open spec fn first_index<T>(s: Seq<T>, p: spec_fn(T) -> bool) -> Option<int> {
    if exists|i: int| is_first(s, p, i) {
        Some(choose|i: int| is_first(s, p, i))
    } else {
        None
    }
}

/// The first element of `s` that satisfies `p`, if there is one.
pub open spec fn first_match<T>(s: Seq<T>, p: spec_fn(T) -> bool) -> Option<T> {
    match first_index(s, p) {
        Some(i) => Some(s[i]),
        None => None,
    }
}

/// Whether `i` is the last position of `s` whose element satisfies `p`.
pub open spec fn is_last<T>(s: Seq<T>, p: spec_fn(T) -> bool, i: int) -> bool {
    &&& 0 <= i < s.len()
    &&& p(s[i])
    &&& forall|j: int| i < j < s.len() ==> !p(#[trigger] s[j])
}

/// A satisfied predicate has a first position.
pub proof fn lemma_first_exists<T>(s: Seq<T>, p: spec_fn(T) -> bool, k: int)
    requires
        0 <= k < s.len(),
        p(s[k]),
    ensures
        exists|i: int| is_first(s, p, i),
    decreases k,
{
    if exists|j: int| 0 <= j < k && p(#[trigger] s[j]) {
        let j = choose|j: int| 0 <= j < k && p(#[trigger] s[j]);
        lemma_first_exists(s, p, j);
    } else {
        assert(is_first(s, p, k));
    }
}

/// The first position, where there is one, is the one that `first_index` names.
pub proof fn lemma_first_index_is<T>(s: Seq<T>, p: spec_fn(T) -> bool, i: int)
    requires
        is_first(s, p, i),
    ensures
        first_index(s, p) == Some(i),
{
    let j = choose|j: int| is_first(s, p, j);
    if j < i {
        assert(!p(s[j]));
    } else if i < j {
        assert(!p(s[i]));
    }
}

/// `first_index` is `None` exactly when no element satisfies the predicate.
pub proof fn lemma_first_index_none<T>(s: Seq<T>, p: spec_fn(T) -> bool)
    ensures
        first_index(s, p) is None <==> !any_match(s, p),
        first_index(s, p) matches Some(i) ==> is_first(s, p, i),
{
    if any_match(s, p) {
        let k = choose|k: int| 0 <= k < s.len() && p(#[trigger] s[k]);
        lemma_first_exists(s, p, k);
    }
}

/// Replacing an element that fails the predicate by another that fails it
/// leaves the first match where it was.
pub proof fn lemma_first_index_update_other<T>(s: Seq<T>, p: spec_fn(T) -> bool, i: int, x: T)
    requires
        0 <= i < s.len(),
        !p(s[i]),
        !p(x),
    ensures
        first_index(s.update(i, x), p) == first_index(s, p),
{
    let t = s.update(i, x);
    lemma_first_index_none(s, p);
    lemma_first_index_none(t, p);
    match first_index(s, p) {
        Some(j) => {
            assert forall|k: int| 0 <= k < j implies !p(#[trigger] t[k]) by {
                if k != i {
                    assert(!p(s[k]));
                }
            }
            assert(is_first(t, p, j));
            lemma_first_index_is(t, p, j);
        },
        None => {
            if any_match(t, p) {
                let k = choose|k: int| 0 <= k < t.len() && p(#[trigger] t[k]);
                assert(k != i);
                assert(p(s[k]));
            }
        },
    }
}

/// Replacing the first match by another element that satisfies the predicate
/// keeps the first match at that position.
pub proof fn lemma_first_index_update_first<T>(s: Seq<T>, p: spec_fn(T) -> bool, i: int, x: T)
    requires
        is_first(s, p, i),
        p(x),
    ensures
        first_index(s.update(i, x), p) == Some(i),
{
    let t = s.update(i, x);
    assert forall|k: int| 0 <= k < i implies !p(#[trigger] t[k]) by {
        assert(!p(s[k]));
    }
    assert(is_first(t, p, i));
    lemma_first_index_is(t, p, i);
}

/// Appending an element leaves an existing first match where it was, and
/// becomes the first match when there was none and it satisfies the predicate.
pub proof fn lemma_first_index_push<T>(s: Seq<T>, p: spec_fn(T) -> bool, x: T)
    ensures
        first_index(s, p) is Some ==> first_index(s.push(x), p) == first_index(s, p),
        first_index(s, p) is None && p(x) ==> first_index(s.push(x), p) == Some(s.len() as int),
        first_index(s, p) is None && !p(x) ==> first_index(s.push(x), p) is None,
{
    let t = s.push(x);
    lemma_first_index_none(s, p);
    lemma_first_index_none(t, p);
    match first_index(s, p) {
        Some(j) => {
            assert forall|k: int| 0 <= k < j implies !p(#[trigger] t[k]) by {
                assert(t[k] == s[k]);
            }
            assert(t[j] == s[j]);
            assert(is_first(t, p, j));
            lemma_first_index_is(t, p, j);
        },
        None => {
            if p(x) {
                assert forall|k: int| 0 <= k < s.len() implies !p(#[trigger] t[k]) by {
                    assert(t[k] == s[k]);
                    if p(s[k]) {
                        assert(any_match(s, p));
                    }
                }
                assert(is_first(t, p, s.len() as int));
                lemma_first_index_is(t, p, s.len() as int);
            } else {
                if any_match(t, p) {
                    let k = choose|k: int| 0 <= k < t.len() && p(#[trigger] t[k]);
                    assert(k < s.len());
                    assert(t[k] == s[k]);
                    assert(any_match(s, p));
                }
            }
        },
    }
}

/// The last position of `s` whose element satisfies `p`, if there is one.
pub open spec fn last_index<T>(s: Seq<T>, p: spec_fn(T) -> bool) -> Option<int> {
    if exists|i: int| is_last(s, p, i) {
        Some(choose|i: int| is_last(s, p, i))
    } else {
        None
    }
}

/// The last position, where there is one, is the one that `last_index` names.
pub proof fn lemma_last_index_is<T>(s: Seq<T>, p: spec_fn(T) -> bool, i: int)
    requires
        is_last(s, p, i),
    ensures
        last_index(s, p) == Some(i),
{
    let j = choose|j: int| is_last(s, p, j);
    if j < i {
        assert(!p(s[i]));
    } else if i < j {
        assert(!p(s[j]));
    }
}

/// Appending an element makes it the last match when it satisfies the
/// predicate, and leaves the last match where it was otherwise.
pub proof fn lemma_last_index_push<T>(s: Seq<T>, p: spec_fn(T) -> bool, x: T)
    ensures
        p(x) ==> last_index(s.push(x), p) == Some(s.len() as int),
        !p(x) ==> last_index(s.push(x), p) == last_index(s, p),
{
    let t = s.push(x);
    if p(x) {
        assert(is_last(t, p, s.len() as int));
        lemma_last_index_is(t, p, s.len() as int);
    } else {
        if exists|i: int| is_last(s, p, i) {
            let i = choose|i: int| is_last(s, p, i);
            assert forall|j: int| i < j < t.len() implies !p(#[trigger] t[j]) by {
                if j < s.len() {
                    assert(t[j] == s[j]);
                }
            }
            assert(t[i] == s[i]);
            assert(is_last(t, p, i));
            lemma_last_index_is(t, p, i);
        } else {
            if exists|i: int| is_last(t, p, i) {
                let i = choose|i: int| is_last(t, p, i);
                assert(i < s.len());
                assert(t[i] == s[i]);
                assert forall|j: int| i < j < s.len() implies !p(#[trigger] s[j]) by {
                    assert(t[j] == s[j]);
                }
                assert(is_last(s, p, i));
            }
        }
    }
}

/// The empty sequence has no last match.
pub proof fn lemma_last_index_empty<T>(s: Seq<T>, p: spec_fn(T) -> bool)
    requires
        s.len() == 0,
    ensures
        last_index(s, p) is None,
{
}

/// Filtering keeps a sequence whose elements all satisfy the predicate.
pub proof fn lemma_filter_keeps_all<T>(s: Seq<T>, p: spec_fn(T) -> bool)
    requires
        forall|i: int| 0 <= i < s.len() ==> p(#[trigger] s[i]),
    ensures
        s.filter(p) == s,
    decreases s.len(),
{
    if s.len() > 0 {
        let init = s.drop_last();
        assert forall|i: int| 0 <= i < init.len() implies p(#[trigger] init[i]) by {
            assert(init[i] == s[i]);
        }
        lemma_filter_keeps_all(init, p);
        init.lemma_filter_push(s.last(), p);
        assert(init.push(s.last()) =~= s);
    } else {
        reveal(Seq::filter);
    }
}

/// Scans `v` from the front and returns the first position that `f` accepts.
pub fn position_first<T, F: Fn(&T) -> bool>(v: &Vec<T>, f: &F, p: Ghost<spec_fn(T) -> bool>) -> (r:
    Option<usize>)
    requires
        forall|x: &T| #[trigger] f.requires((x,)),
        forall|x: &T, b: bool| f.ensures((x,), b) ==> b == p@(*x),
    ensures
        r matches Some(i) ==> first_index(v@, p@) == Some(i as int),
        r is None ==> first_index(v@, p@) is None,
{
    let mut i: usize = 0;
    while i < v.len()
        invariant
            i <= v@.len(),
            forall|x: &T| #[trigger] f.requires((x,)),
            forall|x: &T, b: bool| f.ensures((x,), b) ==> b == p@(*x),
            forall|j: int| 0 <= j < i ==> !p@(#[trigger] v@[j]),
        decreases v@.len() - i,
    {
        if f(&v[i]) {
            proof {
                lemma_first_index_is(v@, p@, i as int);
            }
            return Some(i);
        }
        i = i + 1;
    }
    proof {
        lemma_first_index_none(v@, p@);
    }
    None
}

/// Whether an optional reference holds the same value as an optional value.
pub open spec fn same_option<T>(r: Option<&T>, o: Option<T>) -> bool {
    match r {
        Some(x) => o == Some(*x),
        None => o is None,
    }
}

/// Returns a reference to the first element of `v` that `f` accepts.
pub fn find_first<'a, T, F: Fn(&T) -> bool>(v: &'a Vec<T>, f: &F, p: Ghost<spec_fn(T) -> bool>) -> (r:
    Option<&'a T>)
    requires
        forall|x: &T| #[trigger] f.requires((x,)),
        forall|x: &T, b: bool| f.ensures((x,), b) ==> b == p@(*x),
    ensures
        same_option(r, first_match(v@, p@)),
{
    match position_first(v, f, p) {
        Some(i) => Some(&v[i]),
        None => None,
    }
}

/// Collects references to the elements of `v` that `f` accepts, in order.
pub fn collect_matching<'a, T, F: Fn(&T) -> bool>(
    v: &'a Vec<T>,
    f: &F,
    p: Ghost<spec_fn(T) -> bool>,
) -> (r: Vec<&'a T>)
    requires
        forall|x: &T| #[trigger] f.requires((x,)),
        forall|x: &T, b: bool| f.ensures((x,), b) ==> b == p@(*x),
    ensures
        r@.map_values(|x: &T| *x) == v@.filter(p@),
{
    let mut r: Vec<&T> = Vec::new();
    let mut i: usize = 0;
    while i < v.len()
        invariant
            i <= v@.len(),
            forall|x: &T| #[trigger] f.requires((x,)),
            forall|x: &T, b: bool| f.ensures((x,), b) ==> b == p@(*x),
            r@.map_values(|x: &T| *x) == v@.take(i as int).filter(p@),
        decreases v@.len() - i,
    {
        let ghost before = r@;
        proof {
            assert(v@.take(i as int + 1) =~= v@.take(i as int).push(v@[i as int]));
            v@.take(i as int).lemma_filter_push(v@[i as int], p@);
        }
        if f(&v[i]) {
            r.push(&v[i]);
            assert(r@.map_values(|x: &T| *x) =~= before.map_values(|x: &T| *x).push(v@[i as int]));
        }
        i = i + 1;
    }
    assert(v@.take(v@.len() as int) =~= v@);
    r
}

} // verus!
