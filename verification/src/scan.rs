//! Searches over lists of players.
//!
//! Each search is stated over the sequence of the list: how many elements satisfy a predicate,
//! whether one does, which comes first, which has the greatest or the least key.
use crate::scalar::{units, Scalar};
use vstd::prelude::*;

verus! {

/// How many elements of `s` satisfy `p`.
pub open spec fn count_where<T>(s: Seq<T>, p: spec_fn(T) -> bool) -> usize {
    s.filter(p).len() as usize
}

/// Whether an element of `s` satisfies `p`.
pub open spec fn some_where<T>(s: Seq<T>, p: spec_fn(T) -> bool) -> bool {
    exists|i: int| 0 <= i < s.len() && p(#[trigger] s[i])
}

/// The first element of `s` that satisfies `p`.
pub open spec fn first_where<T>(s: Seq<T>, p: spec_fn(T) -> bool) -> Option<T> {
    if s.filter(p).len() > 0 {
        Some(s.filter(p)[0])
    } else {
        None
    }
}

/// `i` is the last place of a greatest key among the elements of `s`.
pub open spec fn is_last_greatest<T>(s: Seq<T>, k: spec_fn(T) -> Scalar, i: int) -> bool {
    &&& 0 <= i < s.len()
    &&& forall|j: int|
        0 <= j < s.len() ==> {
            &&& k(#[trigger] s[j]) <= k(s[i])
            &&& (i < j ==> k(s[j]) < k(s[i]))
        }
}

/// `i` is the first place of a greatest key among the elements of `s`.
pub open spec fn is_first_greatest<T>(s: Seq<T>, k: spec_fn(T) -> Scalar, i: int) -> bool {
    &&& 0 <= i < s.len()
    &&& forall|j: int|
        0 <= j < s.len() ==> {
            &&& k(#[trigger] s[j]) <= k(s[i])
            &&& (j < i ==> k(s[j]) < k(s[i]))
        }
}

/// `i` is the first place of a least key among the elements of `s`.
pub open spec fn is_first_least<T>(s: Seq<T>, k: spec_fn(T) -> Scalar, i: int) -> bool {
    &&& 0 <= i < s.len()
    &&& forall|j: int|
        0 <= j < s.len() ==> {
            &&& k(s[i]) <= k(#[trigger] s[j])
            &&& (j < i ==> k(s[i]) < k(s[j]))
        }
}

/// The element of `s` with the greatest key among those that satisfy `p`; of several, the last.
pub open spec fn greatest_where<T>(
    s: Seq<T>,
    p: spec_fn(T) -> bool,
    k: spec_fn(T) -> Scalar,
) -> Option<T> {
    if s.filter(p).len() > 0 {
        Some(s.filter(p)[choose|i: int| is_last_greatest(s.filter(p), k, i)])
    } else {
        None
    }
}

/// The element of `s` with the greatest key among those that satisfy `p`; of several, the first.
pub open spec fn first_greatest_where<T>(
    s: Seq<T>,
    p: spec_fn(T) -> bool,
    k: spec_fn(T) -> Scalar,
) -> Option<T> {
    if s.filter(p).len() > 0 {
        Some(s.filter(p)[choose|i: int| is_first_greatest(s.filter(p), k, i)])
    } else {
        None
    }
}

/// The element of `s` with the least key among those that satisfy `p`; of several, the first.
pub open spec fn least_where<T>(
    s: Seq<T>,
    p: spec_fn(T) -> bool,
    k: spec_fn(T) -> Scalar,
) -> Option<T> {
    if s.filter(p).len() > 0 {
        Some(s.filter(p)[choose|i: int| is_first_least(s.filter(p), k, i)])
    } else {
        None
    }
}

/// The sum of the keys of the elements of `s`, taken from the first on.
pub open spec fn total<T>(s: Seq<T>, k: spec_fn(T) -> Scalar) -> Scalar
    decreases s.len(),
{
    if s.len() == 0 {
        units(0)
    } else {
        total(s.drop_last(), k) + k(s.last())
    }
}

/// A sum of keys from zero on is not below zero.
pub proof fn total_is_not_negative<T>(s: Seq<T>, k: spec_fn(T) -> Scalar)
    requires
        forall|x: T| units(0) <= #[trigger] k(x),
    ensures
        units(0) <= total(s, k),
    decreases s.len(),
{
    if s.len() > 0 {
        total_is_not_negative(s.drop_last(), k);
        assert(units(0) <= k(s.last()));
    }
}

/// A sum of keys up to one is at most the number of the elements.
pub proof fn total_is_at_most<T>(s: Seq<T>, k: spec_fn(T) -> Scalar)
    requires
        s.len() <= 1_000_000_000,
        forall|x: T| #[trigger] k(x) <= units(1),
    ensures
        total(s, k).raw <= s.len() * 1_000_000,
    decreases s.len(),
{
    if s.len() > 0 {
        total_is_at_most(s.drop_last(), k);
        assert(k(s.last()) <= units(1));
    }
}

/// Filtering one element more.
proof fn filter_step<T>(s: Seq<T>, p: spec_fn(T) -> bool, n: int)
    requires
        0 <= n < s.len(),
    ensures
        s.take(n + 1).filter(p) == (if p(s[n]) {
            s.take(n).filter(p).push(s[n])
        } else {
            s.take(n).filter(p)
        }),
        s.take(n + 1).filter(p).len() <= n + 1,
{
    reveal(Seq::filter);
    let longer = s.take(n + 1);
    assert(longer.drop_last() =~= s.take(n));
    assert(longer.last() == s[n]);
    longer.lemma_filter_len(p);
}

/// A sequence that is not empty has a last place of a greatest key.
proof fn last_greatest_exists<T>(s: Seq<T>, k: spec_fn(T) -> Scalar)
    requires
        s.len() > 0,
    ensures
        exists|i: int| is_last_greatest(s, k, i),
    decreases s.len(),
{
    let n = s.len() - 1;
    if n == 0 {
        assert(is_last_greatest(s, k, 0));
    } else {
        let front = s.drop_last();
        last_greatest_exists(front, k);
        let i = choose|i: int| is_last_greatest(front, k, i);
        assert(forall|j: int| 0 <= j < n ==> #[trigger] s[j] == front[j]);
        if k(s[n]) >= k(s[i]) {
            assert(is_last_greatest(s, k, n));
        } else {
            assert(is_last_greatest(s, k, i));
        }
    }
}

/// What `greatest_where` yields is one of the elements, satisfies the predicate, and has a key
/// that none of the others that do exceeds; it yields nothing only where none does.
pub proof fn greatest_is_greatest<T>(s: Seq<T>, p: spec_fn(T) -> bool, k: spec_fn(T) -> Scalar)
    ensures
        match greatest_where(s, p, k) {
            Some(m) => {
                &&& s.contains(m)
                &&& p(m)
                &&& forall|x: T| #[trigger] s.contains(x) && p(x) ==> k(x) <= k(m)
            },
            None => forall|x: T| #[trigger] s.contains(x) ==> !p(x),
        },
{
    let kept = s.filter(p);
    assert forall|x: T| #[trigger] s.contains(x) && p(x) implies kept.contains(x) by {
        let i = choose|i: int| 0 <= i < s.len() && s[i] == x;
        filter_keeps(s, p, i);
    }
    if kept.len() > 0 {
        last_greatest_exists(kept, k);
        let i = choose|i: int| is_last_greatest(kept, k, i);
        filter_comes_from(s, p, i);
        assert forall|x: T| #[trigger] s.contains(x) && p(x) implies k(x) <= k(kept[i]) by {
            let j = choose|j: int| 0 <= j < kept.len() && kept[j] == x;
            assert(kept[j] == x);
        }
    }
}

/// A sequence that is not empty has a first place of a greatest key.
proof fn first_greatest_exists<T>(s: Seq<T>, k: spec_fn(T) -> Scalar)
    requires
        s.len() > 0,
    ensures
        exists|i: int| is_first_greatest(s, k, i),
    decreases s.len(),
{
    let n = s.len() - 1;
    if n == 0 {
        assert(is_first_greatest(s, k, 0));
    } else {
        let front = s.drop_last();
        first_greatest_exists(front, k);
        let i = choose|i: int| is_first_greatest(front, k, i);
        assert(forall|j: int| 0 <= j < n ==> #[trigger] s[j] == front[j]);
        if k(s[n]) > k(s[i]) {
            assert(is_first_greatest(s, k, n));
        } else {
            assert(is_first_greatest(s, k, i));
        }
    }
}

/// What `first_where` yields is one of the elements and satisfies the predicate; it yields
/// nothing only where none does.
pub proof fn first_is_one_of_them<T>(s: Seq<T>, p: spec_fn(T) -> bool)
    ensures
        first_where(s, p) matches Some(x) ==> s.contains(x) && p(x),
        first_where(s, p) is None ==> forall|x: T| #[trigger] s.contains(x) ==> !p(x),
{
    if s.filter(p).len() > 0 {
        filter_comes_from(s, p, 0);
    } else {
        assert forall|x: T| #[trigger] s.contains(x) implies !p(x) by {
            let i = choose|i: int| 0 <= i < s.len() && s[i] == x;
            if p(x) {
                filter_keeps(s, p, i);
            }
        }
    }
}

/// What `first_greatest_where` yields is one of the elements, satisfies the predicate, and has a
/// key that none of the others that do exceeds; it yields nothing only where none does.
pub proof fn first_greatest_is_greatest<T>(
    s: Seq<T>,
    p: spec_fn(T) -> bool,
    k: spec_fn(T) -> Scalar,
)
    ensures
        match first_greatest_where(s, p, k) {
            Some(m) => {
                &&& s.contains(m)
                &&& p(m)
                &&& forall|x: T| #[trigger] s.contains(x) && p(x) ==> k(x) <= k(m)
            },
            None => forall|x: T| #[trigger] s.contains(x) ==> !p(x),
        },
{
    let kept = s.filter(p);
    assert forall|x: T| #[trigger] s.contains(x) && p(x) implies kept.contains(x) by {
        let i = choose|i: int| 0 <= i < s.len() && s[i] == x;
        filter_keeps(s, p, i);
    }
    if kept.len() > 0 {
        first_greatest_exists(kept, k);
        let i = choose|i: int| is_first_greatest(kept, k, i);
        filter_comes_from(s, p, i);
        assert forall|x: T| #[trigger] s.contains(x) && p(x) implies k(x) <= k(kept[i]) by {
            let j = choose|j: int| 0 <= j < kept.len() && kept[j] == x;
            assert(kept[j] == x);
        }
    }
}

/// A sequence that is not empty has a first place of a least key.
proof fn first_least_exists<T>(s: Seq<T>, k: spec_fn(T) -> Scalar)
    requires
        s.len() > 0,
    ensures
        exists|i: int| is_first_least(s, k, i),
    decreases s.len(),
{
    let n = s.len() - 1;
    if n == 0 {
        assert(is_first_least(s, k, 0));
    } else {
        let front = s.drop_last();
        first_least_exists(front, k);
        let i = choose|i: int| is_first_least(front, k, i);
        assert(forall|j: int| 0 <= j < n ==> #[trigger] s[j] == front[j]);
        if k(s[n]) < k(s[i]) {
            assert(is_first_least(s, k, n));
        } else {
            assert(is_first_least(s, k, i));
        }
    }
}

/// What `least_where` yields is one of the elements, satisfies the predicate, and has a key
/// that exceeds none of the others that do; it yields nothing only where none does.
pub proof fn least_is_least<T>(s: Seq<T>, p: spec_fn(T) -> bool, k: spec_fn(T) -> Scalar)
    ensures
        match least_where(s, p, k) {
            Some(m) => {
                &&& s.contains(m)
                &&& p(m)
                &&& forall|x: T| #[trigger] s.contains(x) && p(x) ==> k(m) <= k(x)
            },
            None => forall|x: T| #[trigger] s.contains(x) ==> !p(x),
        },
{
    let kept = s.filter(p);
    assert forall|x: T| #[trigger] s.contains(x) && p(x) implies kept.contains(x) by {
        let i = choose|i: int| 0 <= i < s.len() && s[i] == x;
        filter_keeps(s, p, i);
    }
    if kept.len() > 0 {
        first_least_exists(kept, k);
        let i = choose|i: int| is_first_least(kept, k, i);
        filter_comes_from(s, p, i);
        assert forall|x: T| #[trigger] s.contains(x) && p(x) implies k(kept[i]) <= k(x) by {
            let j = choose|j: int| 0 <= j < kept.len() && kept[j] == x;
            assert(kept[j] == x);
        }
    }
}

/// An element that satisfies the predicate stays.
proof fn filter_keeps<T>(s: Seq<T>, p: spec_fn(T) -> bool, i: int)
    requires
        0 <= i < s.len(),
        p(s[i]),
    ensures
        s.filter(p).contains(s[i]),
{
    broadcast use vstd::seq_lib::group_filter_ensures;

}

/// What stays was there and satisfies the predicate.
pub proof fn filter_comes_from<T>(s: Seq<T>, p: spec_fn(T) -> bool, i: int)
    requires
        0 <= i < s.filter(p).len(),
    ensures
        s.contains(s.filter(p)[i]),
        p(s.filter(p)[i]),
{
    broadcast use vstd::seq_lib::group_filter_ensures;

    s.lemma_filter_contains_rev(p, s.filter(p)[i]);
}

/// The elements of `list` that satisfy the predicate, in their order.
pub(crate) fn select<T: Copy, F: Fn(T) -> bool>(
    list: &Vec<T>,
    keep: F,
    Ghost(p): Ghost<spec_fn(T) -> bool>,
) -> (r: Vec<T>)
    requires
        forall|x: T| #[trigger] keep.requires((x,)),
        forall|x: T, b: bool| keep.ensures((x,), b) ==> b == p(x),
    ensures
        r@ == list@.filter(p),
{
    let mut found: Vec<T> = Vec::new();
    let mut i: usize = 0;
    proof {
        reveal(Seq::filter);
        assert(list@.take(0) =~= Seq::<T>::empty());
        assert(list@.take(0).filter(p) =~= Seq::<T>::empty());
    }
    while i < list.len()
        invariant
            i <= list.len(),
            forall|x: T| #[trigger] keep.requires((x,)),
            forall|x: T, b: bool| keep.ensures((x,), b) ==> b == p(x),
            found@ == list@.take(i as int).filter(p),
        decreases list.len() - i,
    {
        let x = list[i];
        proof {
            filter_step(list@, p, i as int);
        }
        if keep(x) {
            found.push(x);
        }
        i = i + 1;
    }
    assert(list@.take(list.len() as int) =~= list@);
    found
}

/// How many elements of `list` satisfy the predicate.
pub(crate) fn count_if<T: Copy, F: Fn(T) -> bool>(
    list: &Vec<T>,
    keep: F,
    Ghost(p): Ghost<spec_fn(T) -> bool>,
) -> (r: usize)
    requires
        forall|x: T| #[trigger] keep.requires((x,)),
        forall|x: T, b: bool| keep.ensures((x,), b) ==> b == p(x),
    ensures
        r == count_where(list@, p),
{
    let mut found: usize = 0;
    let mut i: usize = 0;
    proof {
        reveal(Seq::filter);
        assert(list@.take(0) =~= Seq::<T>::empty());
        assert(list@.take(0).filter(p) =~= Seq::<T>::empty());
    }
    while i < list.len()
        invariant
            i <= list.len(),
            found <= i,
            forall|x: T| #[trigger] keep.requires((x,)),
            forall|x: T, b: bool| keep.ensures((x,), b) ==> b == p(x),
            found == list@.take(i as int).filter(p).len(),
        decreases list.len() - i,
    {
        let x = list[i];
        proof {
            filter_step(list@, p, i as int);
        }
        if keep(x) {
            found = found + 1;
        }
        i = i + 1;
    }
    assert(list@.take(list.len() as int) =~= list@);
    found
}

/// Whether an element of `list` satisfies the predicate.
pub(crate) fn any_of<T: Copy, F: Fn(T) -> bool>(
    list: &Vec<T>,
    keep: F,
    Ghost(p): Ghost<spec_fn(T) -> bool>,
) -> (r: bool)
    requires
        forall|x: T| #[trigger] keep.requires((x,)),
        forall|x: T, b: bool| keep.ensures((x,), b) ==> b == p(x),
    ensures
        r == some_where(list@, p),
{
    let mut i: usize = 0;
    while i < list.len()
        invariant
            i <= list.len(),
            forall|x: T| #[trigger] keep.requires((x,)),
            forall|x: T, b: bool| keep.ensures((x,), b) ==> b == p(x),
            forall|j: int| 0 <= j < i ==> !p(#[trigger] list@[j]),
        decreases list.len() - i,
    {
        let x = list[i];
        if keep(x) {
            assert(p(list@[i as int]));
            return true;
        }
        i = i + 1;
    }
    false
}

/// The first element of `list` that satisfies the predicate.
pub(crate) fn first_of<T: Copy, F: Fn(T) -> bool>(
    list: &Vec<T>,
    keep: F,
    Ghost(p): Ghost<spec_fn(T) -> bool>,
) -> (r: Option<T>)
    requires
        forall|x: T| #[trigger] keep.requires((x,)),
        forall|x: T, b: bool| keep.ensures((x,), b) ==> b == p(x),
    ensures
        r == first_where(list@, p),
{
    let kept = select(list, keep, Ghost(p));
    if kept.len() > 0 {
        Some(kept[0])
    } else {
        None
    }
}

/// The element with the greatest key among those that satisfy the predicate; of several, the
/// last.
pub(crate) fn greatest_of<T: Copy, F: Fn(T) -> bool, G: Fn(T) -> Scalar>(
    list: &Vec<T>,
    keep: F,
    key: G,
    Ghost(p): Ghost<spec_fn(T) -> bool>,
    Ghost(k): Ghost<spec_fn(T) -> Scalar>,
) -> (r: Option<T>)
    requires
        forall|x: T| #[trigger] keep.requires((x,)),
        forall|x: T, b: bool| keep.ensures((x,), b) ==> b == p(x),
        forall|x: T| #[trigger] key.requires((x,)),
        forall|x: T, b: Scalar| key.ensures((x,), b) ==> b == k(x),
    ensures
        r == greatest_where(list@, p, k),
{
    let kept = select(list, keep, Ghost(p));
    if kept.len() == 0 {
        return None;
    }
    let mut best: usize = 0;
    let mut best_key: Scalar = key(kept[0]);
    let mut i: usize = 1;
    while i < kept.len()
        invariant
            best < i <= kept.len(),
            forall|x: T| #[trigger] key.requires((x,)),
            forall|x: T, b: Scalar| key.ensures((x,), b) ==> b == k(x),
            best_key == k(kept@[best as int]),
            forall|j: int|
                0 <= j < i ==> {
                    &&& k(#[trigger] kept@[j]) <= best_key
                    &&& (best < j ==> k(kept@[j]) < best_key)
                },
        decreases kept.len() - i,
    {
        let candidate: Scalar = key(kept[i]);
        if candidate >= best_key {
            best = i;
            best_key = candidate;
        }
        i = i + 1;
    }
    proof {
        assert(is_last_greatest(kept@, k, best as int));
        let chosen = choose|j: int| is_last_greatest(kept@, k, j);
        assert(is_last_greatest(kept@, k, chosen));
        assert(k(kept@[chosen]) <= k(kept@[best as int]));
        assert(chosen == best);
    }
    Some(kept[best])
}

/// The element with the greatest key among those that satisfy the predicate; of several, the
/// first.
pub(crate) fn first_greatest_of<T: Copy, F: Fn(T) -> bool, G: Fn(T) -> Scalar>(
    list: &Vec<T>,
    keep: F,
    key: G,
    Ghost(p): Ghost<spec_fn(T) -> bool>,
    Ghost(k): Ghost<spec_fn(T) -> Scalar>,
) -> (r: Option<T>)
    requires
        forall|x: T| #[trigger] keep.requires((x,)),
        forall|x: T, b: bool| keep.ensures((x,), b) ==> b == p(x),
        forall|x: T| #[trigger] key.requires((x,)),
        forall|x: T, b: Scalar| key.ensures((x,), b) ==> b == k(x),
    ensures
        r == first_greatest_where(list@, p, k),
{
    let kept = select(list, keep, Ghost(p));
    if kept.len() == 0 {
        return None;
    }
    let mut best: usize = 0;
    let mut best_key: Scalar = key(kept[0]);
    let mut i: usize = 1;
    while i < kept.len()
        invariant
            best < i <= kept.len(),
            forall|x: T| #[trigger] key.requires((x,)),
            forall|x: T, b: Scalar| key.ensures((x,), b) ==> b == k(x),
            best_key == k(kept@[best as int]),
            forall|j: int|
                0 <= j < i ==> {
                    &&& k(#[trigger] kept@[j]) <= best_key
                    &&& (j < best ==> k(kept@[j]) < best_key)
                },
        decreases kept.len() - i,
    {
        let candidate: Scalar = key(kept[i]);
        if candidate > best_key {
            best = i;
            best_key = candidate;
        }
        i = i + 1;
    }
    proof {
        assert(is_first_greatest(kept@, k, best as int));
        let chosen = choose|j: int| is_first_greatest(kept@, k, j);
        assert(is_first_greatest(kept@, k, chosen));
        assert(k(kept@[chosen]) <= k(kept@[best as int]));
        assert(chosen == best);
    }
    Some(kept[best])
}

/// The element with the least key among those that satisfy the predicate; of several, the
/// first.
pub(crate) fn least_of<T: Copy, F: Fn(T) -> bool, G: Fn(T) -> Scalar>(
    list: &Vec<T>,
    keep: F,
    key: G,
    Ghost(p): Ghost<spec_fn(T) -> bool>,
    Ghost(k): Ghost<spec_fn(T) -> Scalar>,
) -> (r: Option<T>)
    requires
        forall|x: T| #[trigger] keep.requires((x,)),
        forall|x: T, b: bool| keep.ensures((x,), b) ==> b == p(x),
        forall|x: T| #[trigger] key.requires((x,)),
        forall|x: T, b: Scalar| key.ensures((x,), b) ==> b == k(x),
    ensures
        r == least_where(list@, p, k),
{
    let kept = select(list, keep, Ghost(p));
    if kept.len() == 0 {
        return None;
    }
    let mut best: usize = 0;
    let mut best_key: Scalar = key(kept[0]);
    let mut i: usize = 1;
    while i < kept.len()
        invariant
            best < i <= kept.len(),
            forall|x: T| #[trigger] key.requires((x,)),
            forall|x: T, b: Scalar| key.ensures((x,), b) ==> b == k(x),
            best_key == k(kept@[best as int]),
            forall|j: int|
                0 <= j < i ==> {
                    &&& best_key <= k(#[trigger] kept@[j])
                    &&& (j < best ==> best_key < k(kept@[j]))
                },
        decreases kept.len() - i,
    {
        let candidate: Scalar = key(kept[i]);
        if candidate < best_key {
            best = i;
            best_key = candidate;
        }
        i = i + 1;
    }
    proof {
        assert(is_first_least(kept@, k, best as int));
        let chosen = choose|j: int| is_first_least(kept@, k, j);
        assert(is_first_least(kept@, k, chosen));
        assert(k(kept@[chosen]) <= k(kept@[best as int]));
        assert(chosen == best);
    }
    Some(kept[best])
}

/// The sum of the keys of the elements, taken from the first on.
pub(crate) fn total_of<T: Copy, G: Fn(T) -> Scalar>(
    list: &Vec<T>,
    key: G,
    Ghost(k): Ghost<spec_fn(T) -> Scalar>,
) -> (r: Scalar)
    requires
        forall|x: T| #[trigger] key.requires((x,)),
        forall|x: T, b: Scalar| key.ensures((x,), b) ==> b == k(x),
    ensures
        r == total(list@, k),
{
    let mut sum: Scalar = units(0);
    let mut i: usize = 0;
    while i < list.len()
        invariant
            i <= list.len(),
            forall|x: T| #[trigger] key.requires((x,)),
            forall|x: T, b: Scalar| key.ensures((x,), b) ==> b == k(x),
            sum == total(list@.take(i as int), k),
        decreases list.len() - i,
    {
        let x = list[i];
        assert(list@.take(i + 1).drop_last() =~= list@.take(i as int));
        assert(list@.take(i + 1).last() == x);
        sum = sum + key(x);
        i = i + 1;
    }
    assert(list@.take(list.len() as int) =~= list@);
    sum
}

/// `x` put into `s` behind the last element with a key that does not exceed its own.
pub open spec fn placed<T>(s: Seq<T>, x: T, k: spec_fn(T) -> Scalar) -> Seq<T>
    decreases s.len(),
{
    if s.len() == 0 || k(s.last()) <= k(x) {
        s.push(x)
    } else {
        placed(s.drop_last(), x, k).push(s.last())
    }
}

/// The elements of `s` by rising key, equal ones in their order.
pub open spec fn ranked<T>(s: Seq<T>, k: spec_fn(T) -> Scalar) -> Seq<T>
    decreases s.len(),
{
    if s.len() == 0 {
        s
    } else {
        placed(ranked(s.drop_last(), k), s.last(), k)
    }
}

/// The keys of a sequence rise.
pub open spec fn is_rising<T>(s: Seq<T>, k: spec_fn(T) -> Scalar) -> bool {
    forall|i: int, j: int| 0 <= i <= j < s.len() ==> k(#[trigger] s[i]) <= k(#[trigger] s[j])
}

/// Putting an element in its place keeps the keys rising.
proof fn placed_is_rising<T>(s: Seq<T>, x: T, k: spec_fn(T) -> Scalar)
    requires
        is_rising(s, k),
    ensures
        is_rising(placed(s, x, k), k),
        forall|y: T| #[trigger] placed(s, x, k).contains(y) ==> y == x || s.contains(y),
    decreases s.len(),
{
    if s.len() == 0 || k(s.last()) <= k(x) {
        assert forall|y: T| #[trigger] s.push(x).contains(y) implies y == x || s.contains(y) by {
            let i = choose|i: int| 0 <= i < s.push(x).len() && s.push(x)[i] == y;
            if i < s.len() {
                assert(s[i] == y);
            }
        }
    } else {
        let front = s.drop_last();
        let inner = placed(front, x, k);
        assert(is_rising(front, k)) by {
            assert(forall|i: int| 0 <= i < front.len() ==> #[trigger] front[i] == s[i]);
        }
        placed_is_rising(front, x, k);
        let whole = inner.push(s.last());
        assert forall|y: T| #[trigger] whole.contains(y) implies y == x || s.contains(y) by {
            let i = choose|i: int| 0 <= i < whole.len() && whole[i] == y;
            if i < inner.len() {
                assert(inner.contains(y));
                if front.contains(y) {
                    let j = choose|j: int| 0 <= j < front.len() && front[j] == y;
                    assert(s[j] == y);
                }
            } else {
                assert(s[s.len() - 1] == y);
            }
        }
        assert forall|i: int, j: int| 0 <= i <= j < whole.len() implies k(#[trigger] whole[i]) <= k(
            #[trigger] whole[j],
        ) by {
            if j < inner.len() {
                assert(whole[i] == inner[i] && whole[j] == inner[j]);
            } else if i < inner.len() {
                assert(whole[i] == inner[i]);
                assert(inner.contains(inner[i]));
                if front.contains(inner[i]) {
                    let m = choose|m: int| 0 <= m < front.len() && front[m] == inner[i];
                    assert(k(s[m]) <= k(s[s.len() - 1]));
                }
            }
        }
    }
}

/// In a ranking the keys rise.
pub proof fn ranking_rises<T>(s: Seq<T>, k: spec_fn(T) -> Scalar)
    ensures
        is_rising(ranked(s, k), k),
    decreases s.len(),
{
    if s.len() > 0 {
        ranking_rises(s.drop_last(), k);
        placed_is_rising(ranked(s.drop_last(), k), s.last(), k);
    }
}

/// Among the elements of one key, the one that is put in its place comes last.
proof fn placed_is_last_of_its_key<T>(s: Seq<T>, x: T, k: spec_fn(T) -> Scalar, c: Scalar)
    ensures
        placed(s, x, k).filter(|y: T| k(y) == c) == (if k(x) == c {
            s.filter(|y: T| k(y) == c).push(x)
        } else {
            s.filter(|y: T| k(y) == c)
        }),
    decreases s.len(),
{
    reveal(Seq::filter);
    let of_key = |y: T| k(y) == c;
    if s.len() == 0 || k(s.last()) <= k(x) {
        assert(s.push(x).drop_last() =~= s);
    } else {
        let inner = placed(s.drop_last(), x, k);
        placed_is_last_of_its_key(s.drop_last(), x, k, c);
        assert(inner.push(s.last()).drop_last() =~= inner);
    }
}

/// A ranking neither loses nor invents an element, and keeps those of one key in their order.
pub proof fn ranking_is_stable<T>(s: Seq<T>, k: spec_fn(T) -> Scalar, c: Scalar)
    ensures
        ranked(s, k).filter(|y: T| k(y) == c) == s.filter(|y: T| k(y) == c),
    decreases s.len(),
{
    reveal(Seq::filter);
    if s.len() > 0 {
        ranking_is_stable(s.drop_last(), k, c);
        placed_is_last_of_its_key(ranked(s.drop_last(), k), s.last(), k, c);
    }
}

/// What a ranking holds was in the sequence.
pub proof fn ranking_comes_from<T>(s: Seq<T>, k: spec_fn(T) -> Scalar, i: int)
    requires
        0 <= i < ranked(s, k).len(),
    ensures
        s.contains(ranked(s, k)[i]),
{
    let x = ranked(s, k)[i];
    let c = k(x);
    let of_key = |y: T| k(y) == c;
    ranking_is_stable(s, k, c);
    filter_keeps(ranked(s, k), of_key, i);
    let j = choose|j: int| 0 <= j < s.filter(of_key).len() && s.filter(of_key)[j] == x;
    filter_comes_from(s, of_key, j);
}

/// The place of an element is found from behind.
proof fn placed_at<T>(s: Seq<T>, x: T, k: spec_fn(T) -> Scalar, at: int)
    requires
        0 <= at <= s.len(),
        forall|j: int| at <= j < s.len() ==> k(#[trigger] s[j]) > k(x),
        at > 0 ==> k(s[at - 1]) <= k(x),
    ensures
        placed(s, x, k) == s.insert(at, x),
    decreases s.len(),
{
    if at == s.len() {
        assert(s.insert(at, x) =~= s.push(x));
    } else {
        assert(k(s[s.len() - 1]) > k(x));
        let front = s.drop_last();
        assert(forall|j: int| 0 <= j < front.len() ==> #[trigger] front[j] == s[j]);
        placed_at(front, x, k, at);
        assert(s.insert(at, x) =~= front.insert(at, x).push(s.last()));
    }
}

/// The elements of `list` by rising key, equal ones in their order.
pub(crate) fn rank<T: Copy, G: Fn(T) -> Scalar>(
    list: &Vec<T>,
    key: G,
    Ghost(k): Ghost<spec_fn(T) -> Scalar>,
) -> (r: Vec<T>)
    requires
        forall|x: T| #[trigger] key.requires((x,)),
        forall|x: T, b: Scalar| key.ensures((x,), b) ==> b == k(x),
    ensures
        r@ == ranked(list@, k),
{
    let mut found: Vec<T> = Vec::new();
    let mut i: usize = 0;
    assert(list@.take(0) =~= Seq::<T>::empty());
    while i < list.len()
        invariant
            i <= list.len(),
            forall|x: T| #[trigger] key.requires((x,)),
            forall|x: T, b: Scalar| key.ensures((x,), b) ==> b == k(x),
            found@ == ranked(list@.take(i as int), k),
        decreases list.len() - i,
    {
        let x = list[i];
        let rank: Scalar = key(x);
        let mut at: usize = found.len();
        while at > 0 && key(found[at - 1]) > rank
            invariant
                at <= found.len(),
                rank == k(x),
                forall|y: T| #[trigger] key.requires((y,)),
                forall|y: T, b: Scalar| key.ensures((y,), b) ==> b == k(y),
                forall|j: int| at <= j < found.len() ==> k(#[trigger] found@[j]) > k(x),
            ensures
                at > 0 ==> k(found@[at - 1]) <= k(x),
            decreases at,
        {
            at = at - 1;
        }
        proof {
            placed_at(found@, x, k, at as int);
            assert(list@.take(i + 1).drop_last() =~= list@.take(i as int));
            assert(list@.take(i + 1).last() == x);
        }
        found.insert(at, x);
        i = i + 1;
    }
    assert(list@.take(list.len() as int) =~= list@);
    found
}

/// What satisfies the narrower of two predicates is no more than what satisfies the wider.
proof fn filter_keeps_order<T>(s: Seq<T>, p: spec_fn(T) -> bool, q: spec_fn(T) -> bool)
    requires
        forall|x: T| #[trigger] p(x) ==> q(x),
    ensures
        s.filter(p).len() <= s.filter(q).len() <= s.len(),
    decreases s.len(),
{
    reveal(Seq::filter);
    if s.len() > 0 {
        filter_keeps_order(s.drop_last(), p, q);
        assert(p(s.last()) ==> q(s.last()));
    }
}

/// The narrower of two predicates is satisfied no more often.
pub proof fn count_keeps_order<T>(s: Seq<T>, p: spec_fn(T) -> bool, q: spec_fn(T) -> bool)
    requires
        s.len() <= usize::MAX,
        forall|x: T| #[trigger] p(x) ==> q(x),
    ensures
        count_where(s, p) <= count_where(s, q),
{
    filter_keeps_order(s, p, q);
}

/// A count is above zero exactly where an element satisfies the predicate.
pub proof fn count_tells_some<T>(s: Seq<T>, p: spec_fn(T) -> bool)
    requires
        s.len() <= usize::MAX,
    ensures
        count_where(s, p) > 0 <==> exists|x: T| #[trigger] s.contains(x) && p(x),
        count_where(s, p) <= s.len(),
{
    filter_keeps_order(s, p, p);
    if s.filter(p).len() > 0 {
        filter_comes_from(s, p, 0);
        assert(s.contains(s.filter(p)[0]) && p(s.filter(p)[0]));
    }
    if exists|x: T| #[trigger] s.contains(x) && p(x) {
        let x = choose|x: T| #[trigger] s.contains(x) && p(x);
        let i = choose|i: int| 0 <= i < s.len() && s[i] == x;
        filter_keeps(s, p, i);
    }
}

/// A count below two leaves no room for two elements at different places that satisfy the
/// predicate, and one of two or more tells of two.
pub proof fn count_tells_two<T>(s: Seq<T>, p: spec_fn(T) -> bool)
    requires
        s.len() <= usize::MAX,
    ensures
        count_where(s, p) >= 2 <==> exists|i: int, j: int|
            0 <= i < j < s.len() && p(#[trigger] s[i]) && p(#[trigger] s[j]),
    decreases s.len(),
{
    reveal(Seq::filter);
    filter_keeps_order(s, p, p);
    if s.len() > 0 {
        let n = s.len() - 1;
        let front = s.drop_last();
        filter_keeps_order(front, p, p);
        count_tells_two(front, p);
        count_tells_some(front, p);
        if exists|i: int, j: int| 0 <= i < j < s.len() && p(#[trigger] s[i])
            && p(#[trigger] s[j]) {
            let (i, j) = choose|i: int, j: int|
                0 <= i < j < s.len() && p(#[trigger] s[i]) && p(#[trigger] s[j]);
            assert(front[i] == s[i]);
            assert(front.contains(front[i]));
            if j < n {
                assert(front[j] == s[j]);
            }
        }
        if count_where(s, p) >= 2 {
            if count_where(front, p) >= 2 {
                let (i, j) = choose|i: int, j: int|
                    0 <= i < j < front.len() && p(#[trigger] front[i]) && p(#[trigger] front[j]);
                assert(s[i] == front[i] && s[j] == front[j]);
            } else {
                let x = choose|x: T| #[trigger] front.contains(x) && p(x);
                let i = choose|i: int| 0 <= i < front.len() && front[i] == x;
                assert(s[i] == x);
                assert(p(s[n]));
            }
        }
    }
}

/// An element satisfies the predicate exactly where one of the elements does.
pub proof fn some_is_one_of_them<T>(s: Seq<T>, p: spec_fn(T) -> bool)
    ensures
        some_where(s, p) <==> exists|x: T| #[trigger] s.contains(x) && p(x),
{
    if some_where(s, p) {
        let i = choose|i: int| 0 <= i < s.len() && p(#[trigger] s[i]);
        assert(s.contains(s[i]));
    }
    if exists|x: T| #[trigger] s.contains(x) && p(x) {
        let x = choose|x: T| #[trigger] s.contains(x) && p(x);
        let i = choose|i: int| 0 <= i < s.len() && s[i] == x;
        assert(p(s[i]));
    }
}

/// Nothing that satisfies the predicate comes before what `first_where` yields.
pub proof fn first_comes_first<T>(s: Seq<T>, p: spec_fn(T) -> bool, i: int)
    requires
        0 <= i < s.len(),
        p(s[i]),
        forall|j: int| 0 <= j < i ==> !p(#[trigger] s[j]),
    ensures
        first_where(s, p) == Some(s[i]),
{
    reveal(Seq::filter);
    first_from_front(s, p, i, s.len() as int);
    assert(s.take(s.len() as int) =~= s);
}

/// The first element that satisfies the predicate is the first of every longer front part.
proof fn first_from_front<T>(s: Seq<T>, p: spec_fn(T) -> bool, i: int, n: int)
    requires
        0 <= i < n <= s.len(),
        p(s[i]),
        forall|j: int| 0 <= j < i ==> !p(#[trigger] s[j]),
    ensures
        s.take(n).filter(p).len() > 0,
        s.take(n).filter(p)[0] == s[i],
    decreases n,
{
    filter_step(s, p, n - 1);
    if n == i + 1 {
        nothing_in_front(s, p, i);
    } else {
        first_from_front(s, p, i, n - 1);
    }
}

/// A front part without an element that satisfies the predicate leaves nothing.
proof fn nothing_in_front<T>(s: Seq<T>, p: spec_fn(T) -> bool, n: int)
    requires
        0 <= n <= s.len(),
        forall|j: int| 0 <= j < n ==> !p(#[trigger] s[j]),
    ensures
        s.take(n).filter(p).len() == 0,
    decreases n,
{
    reveal(Seq::filter);
    if n > 0 {
        filter_step(s, p, n - 1);
        nothing_in_front(s, p, n - 1);
    }
}

/// A sum of lesser keys is no greater.
pub proof fn total_keeps_order<T>(s: Seq<T>, k: spec_fn(T) -> Scalar, l: spec_fn(T) -> Scalar)
    requires
        forall|x: T| #[trigger] s.contains(x) ==> k(x) <= l(x),
    ensures
        total(s, k) <= total(s, l),
    decreases s.len(),
{
    if s.len() > 0 {
        let front = s.drop_last();
        assert forall|x: T| #[trigger] front.contains(x) implies k(x) <= l(x) by {
            let i = choose|i: int| 0 <= i < front.len() && front[i] == x;
            assert(s[i] == x);
            assert(s.contains(x));
        }
        total_keeps_order(front, k, l);
        assert(s.contains(s.last()));
    }
}

/// A sum of keys from zero on is no less than each of them, and nothing where all of them are.
pub proof fn total_holds_each<T>(s: Seq<T>, k: spec_fn(T) -> Scalar)
    requires
        forall|x: T| units(0) <= #[trigger] k(x),
    ensures
        forall|x: T| #[trigger] s.contains(x) ==> k(x) <= total(s, k),
        (forall|x: T| #[trigger] s.contains(x) ==> k(x) == units(0)) ==> total(s, k) == units(0),
    decreases s.len(),
{
    total_is_not_negative(s, k);
    if s.len() > 0 {
        let front = s.drop_last();
        total_holds_each(front, k);
        total_is_not_negative(front, k);
        assert(s.contains(s.last()));
        assert(units(0) <= k(s.last()));
        assert forall|x: T| #[trigger] s.contains(x) implies k(x) <= total(s, k) by {
            let i = choose|i: int| 0 <= i < s.len() && s[i] == x;
            if i < front.len() {
                assert(front[i] == x);
                assert(front.contains(x));
            }
        }
        if forall|x: T| #[trigger] s.contains(x) ==> k(x) == units(0) {
            assert forall|x: T| #[trigger] front.contains(x) implies k(x) == units(0) by {
                let i = choose|i: int| 0 <= i < front.len() && front[i] == x;
                assert(s[i] == x);
                assert(s.contains(x));
            }
        }
    }
}

/// Predicates that agree on the elements are satisfied as often.
pub proof fn counts_agree<T>(s: Seq<T>, p: spec_fn(T) -> bool, q: spec_fn(T) -> bool)
    requires
        forall|x: T| #[trigger] s.contains(x) ==> p(x) == q(x),
    ensures
        count_where(s, p) == count_where(s, q),
{
    filters_agree(s, p, q);
}

/// Predicates that agree on the elements keep the same of them.
proof fn filters_agree<T>(s: Seq<T>, p: spec_fn(T) -> bool, q: spec_fn(T) -> bool)
    requires
        forall|x: T| #[trigger] s.contains(x) ==> p(x) == q(x),
    ensures
        s.filter(p) == s.filter(q),
    decreases s.len(),
{
    reveal(Seq::filter);
    if s.len() > 0 {
        let front = s.drop_last();
        assert forall|x: T| #[trigger] front.contains(x) implies p(x) == q(x) by {
            let i = choose|i: int| 0 <= i < front.len() && front[i] == x;
            assert(s[i] == x);
            assert(s.contains(x));
        }
        filters_agree(front, p, q);
        assert(s.contains(s.last()));
    }
}

/// What every element satisfies is satisfied as often as there are elements.
pub proof fn all_are_counted<T>(s: Seq<T>, p: spec_fn(T) -> bool)
    requires
        s.len() <= usize::MAX,
        forall|x: T| #[trigger] p(x),
    ensures
        count_where(s, p) == s.len(),
    decreases s.len(),
{
    reveal(Seq::filter);
    if s.len() > 0 {
        all_are_counted(s.drop_last(), p);
        assert(p(s.last()));
    }
}

} // verus!
