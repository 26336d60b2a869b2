//! Sorting that is light on the stack: an in-place insertion sort, with no
//! recursion and no buffer. It takes a number of comparisons that grows
//! with the square of the length, so it is meant for the short lists that
//! a program sorts. Nothing is promised of the order of elements that
//! compare equal.

use core::cmp::Ordering;
use vstd::prelude::*;
use vstd::std_specs::cmp::OrdSpec;
use vstd::std_specs::cmp::PartialEqSpec;
use vstd::std_specs::cmp::PartialOrdSpec;

verus! {

/// A position of a slice as a mathematical integer.
pub open spec fn pos(i: usize) -> int {
    i as int
}

/// `order` is a total order: comparing the other way round gives the
/// opposite answer, and both "less" and "equal" carry over two steps.
pub open spec fn total_order<T>(order: spec_fn(T, T) -> Ordering) -> bool {
    &&& forall|a: T, b: T|
        #![trigger order(a, b)]
        order(a, b) == Ordering::Less <==> order(b, a) == Ordering::Greater
    &&& forall|a: T, b: T, c: T|
        #![trigger order(a, b), order(b, c)]
        order(a, b) == Ordering::Less && order(b, c) == Ordering::Less ==> order(a, c)
            == Ordering::Less
    &&& forall|a: T, b: T, c: T|
        #![trigger order(a, b), order(b, c)]
        order(a, b) == Ordering::Equal && order(b, c) == Ordering::Equal ==> order(a, c)
            == Ordering::Equal
}

/// The ordering of `T` itself, as a function of two values.
pub open spec fn natural_order<T: Ord>() -> spec_fn(T, T) -> Ordering {
    |a: T, b: T| a.cmp_spec(&b)
}

/// `compare` computes the total order `order`: it can be called on every
/// pair and whatever it answers is what `order` says.
pub open spec fn computes_order<T, F: FnMut(&T, &T) -> Ordering>(
    compare: F,
    order: spec_fn(T, T) -> Ordering,
) -> bool {
    &&& total_order(order)
    &&& forall|a: T, b: T| #[trigger] call_requires(compare, (&a, &b))
    &&& forall|a: T, b: T, o: Ordering| #[trigger]
        call_ensures(compare, (&a, &b), o) ==> o == order(a, b)
}

/// `f` computes the key `key`: it can be called on every element and
/// whatever it answers is what `key` says.
pub open spec fn computes_key<T, K, F: FnMut(&T) -> K>(f: F, key: spec_fn(T) -> K) -> bool {
    &&& forall|a: T| #[trigger] call_requires(f, (&a,))
    &&& forall|a: T, k: K| #[trigger] call_ensures(f, (&a,), k) ==> k == key(a)
}

/// The order that a key gives the elements: the order of their keys.
pub open spec fn key_order<T, K: Ord>(key: spec_fn(T) -> K) -> spec_fn(T, T) -> Ordering {
    |a: T, b: T| key(a).cmp_spec(&key(b))
}

/// `s` is in ascending order by `order`: no element is greater than a
/// later one.
pub open spec fn sorted_by<T>(s: Seq<T>, order: spec_fn(T, T) -> Ordering) -> bool {
    forall|i: int, j: int| 0 <= i <= j < s.len() ==> order(s[i], s[j]) != Ordering::Greater
}

/// `s` is in ascending order by the ordering of `T`.
pub open spec fn sorted<T: Ord>(s: Seq<T>) -> bool {
    forall|i: int, j: int| 0 <= i <= j < s.len() ==> s[i].cmp_spec(&s[j]) != Ordering::Greater
}

/// `s` is in ascending order of the keys that `key` gives its elements.
pub open spec fn sorted_by_key<T, K: Ord>(s: Seq<T>, key: spec_fn(T) -> K) -> bool {
    forall|i: int, j: int|
        0 <= i <= j < s.len() ==> key(s[i]).cmp_spec(&key(s[j])) != Ordering::Greater
}

/// The first `upto` elements of `s` are in ascending order by `order`.
pub open spec fn sorted_upto<T>(s: Seq<T>, order: spec_fn(T, T) -> Ordering, upto: int) -> bool {
    forall|a: int, b: int|
        0 <= a <= b < upto && b < s.len() ==> order(s[a], s[b]) != Ordering::Greater
}

/// The elements of `s` up to position `last` are in ascending order by
/// `order` once the one at `hole` is left out, and that one is not greater
/// than any after it.
pub open spec fn sorted_around<T>(
    s: Seq<T>,
    order: spec_fn(T, T) -> Ordering,
    last: int,
    hole: int,
) -> bool {
    &&& forall|a: int, b: int|
        0 <= a <= b <= last && b < s.len() && a != hole && b != hole ==> order(s[a], s[b])
            != Ordering::Greater
    &&& forall|b: int|
        hole < b <= last && b < s.len() && 0 <= hole ==> order(s[hole], #[trigger] s[b])
            != Ordering::Greater
}

/// In a total order nothing is greater than itself, "not greater" carries
/// over two steps, and what is greater one way round is less the other.
pub proof fn lemma_total_order<T>(order: spec_fn(T, T) -> Ordering, x: T, y: T, z: T)
    requires
        total_order(order),
    ensures
        order(x, x) != Ordering::Greater,
        order(y, x) == Ordering::Greater ==> order(x, y) == Ordering::Less,
        order(x, y) != Ordering::Greater && order(y, z) != Ordering::Greater ==> order(x, z)
            != Ordering::Greater,
{
    if order(x, x) == Ordering::Greater {
        assert(order(x, x) == Ordering::Less);
    }
    if order(x, y) != Ordering::Greater && order(y, z) != Ordering::Greater && order(x, z)
        == Ordering::Greater {
        // z is less than x
        assert(order(z, x) == Ordering::Less);
        if order(x, y) == Ordering::Less {
            // z < x < y, so z < y and y > z
            assert(order(z, y) == Ordering::Less);
            assert(order(y, z) == Ordering::Greater);
        } else {
            assert(order(x, y) == Ordering::Equal);
            if order(y, z) == Ordering::Less {
                // y < z < x, so y < x and x > y
                assert(order(y, x) == Ordering::Less);
                assert(order(x, y) == Ordering::Greater);
            } else {
                assert(order(y, z) == Ordering::Equal);
                assert(order(x, z) == Ordering::Equal);
            }
        }
    }
}

/// The ordering of a type that keeps the laws of comparison is a total
/// order.
pub proof fn lemma_natural_order_total<T: Ord>()
    requires
        vstd::laws_cmp::obeys_cmp::<T>(),
    ensures
        total_order(natural_order::<T>()),
        T::obeys_cmp_spec(),
{
    reveal(vstd::laws_cmp::obeys_cmp_ord);
    reveal(vstd::laws_cmp::obeys_cmp_partial_ord);
    reveal(vstd::laws_cmp::obeys_partial_cmp_spec_properties);
    reveal(vstd::laws_eq::obeys_eq_spec_properties);
    let order = natural_order::<T>();
    assert forall|a: T, b: T|
        #![trigger order(a, b)]
        order(a, b) == Ordering::Less <==> order(b, a) == Ordering::Greater by {
        assert(a.partial_cmp_spec(&b) == Some(a.cmp_spec(&b)));
        assert(b.partial_cmp_spec(&a) == Some(b.cmp_spec(&a)));
    }
    assert forall|a: T, b: T, c: T|
        #![trigger order(a, b), order(b, c)]
        order(a, b) == Ordering::Less && order(b, c) == Ordering::Less implies order(a, c)
            == Ordering::Less by {
        assert(a.partial_cmp_spec(&b) == Some(a.cmp_spec(&b)));
        assert(b.partial_cmp_spec(&c) == Some(b.cmp_spec(&c)));
        assert(a.partial_cmp_spec(&c) == Some(a.cmp_spec(&c)));
    }
    assert forall|a: T, b: T, c: T|
        #![trigger order(a, b), order(b, c)]
        order(a, b) == Ordering::Equal && order(b, c) == Ordering::Equal implies order(a, c)
            == Ordering::Equal by {
        assert(a.partial_cmp_spec(&b) == Some(a.cmp_spec(&b)));
        assert(b.partial_cmp_spec(&c) == Some(b.cmp_spec(&c)));
        assert(a.partial_cmp_spec(&c) == Some(a.cmp_spec(&c)));
        assert(a.eq_spec(&b));
        assert(b.eq_spec(&c));
        assert(a.eq_spec(&c));
    }
}

/// The order that a key gives is a total order where the keys' ordering
/// keeps the laws of comparison.
pub proof fn lemma_key_order_total<T, K: Ord>(key: spec_fn(T) -> K)
    requires
        vstd::laws_cmp::obeys_cmp::<K>(),
    ensures
        total_order(key_order(key)),
{
    lemma_natural_order_total::<K>();
    let keys = natural_order::<K>();
    let order = key_order(key);
    assert forall|a: T, b: T|
        #![trigger order(a, b)]
        order(a, b) == Ordering::Less <==> order(b, a) == Ordering::Greater by {
        assert(order(a, b) == keys(key(a), key(b)));
        assert(order(b, a) == keys(key(b), key(a)));
    }
    assert forall|a: T, b: T, c: T|
        #![trigger order(a, b), order(b, c)]
        order(a, b) == Ordering::Less && order(b, c) == Ordering::Less implies order(a, c)
            == Ordering::Less by {
        assert(order(a, b) == keys(key(a), key(b)));
        assert(order(b, c) == keys(key(b), key(c)));
        assert(order(a, c) == keys(key(a), key(c)));
    }
    assert forall|a: T, b: T, c: T|
        #![trigger order(a, b), order(b, c)]
        order(a, b) == Ordering::Equal && order(b, c) == Ordering::Equal implies order(a, c)
            == Ordering::Equal by {
        assert(order(a, b) == keys(key(a), key(b)));
        assert(order(b, c) == keys(key(b), key(c)));
        assert(order(a, c) == keys(key(a), key(c)));
    }
}

/// A sorted front part, with the next element taken as the hole, is
/// sorted around that hole.
pub proof fn lemma_hole_opens<T>(s: Seq<T>, order: spec_fn(T, T) -> Ordering, last: int)
    requires
        sorted_upto(s, order, last),
        0 <= last < s.len(),
    ensures
        sorted_around(s, order, last, last),
{
}

/// Moving the hole one place down, by swapping its element with the
/// greater one before it, keeps the rest sorted around the hole.
pub proof fn lemma_hole_moves<T>(
    before: Seq<T>,
    after: Seq<T>,
    order: spec_fn(T, T) -> Ordering,
    last: int,
    hole: int,
)
    requires
        total_order(order),
        sorted_around(before, order, last, hole),
        0 < hole <= last < before.len(),
        order(before[hole - 1], before[hole]) == Ordering::Greater,
        after == before.update(hole - 1, before[hole]).update(hole, before[hole - 1]),
    ensures
        sorted_around(after, order, last, hole - 1),
{
    lemma_total_order(order, before[hole], before[hole - 1], before[hole]);
    assert forall|a: int, b: int|
        0 <= a <= b <= last && b < after.len() && a != hole - 1 && b != hole - 1 implies order(
        after[a],
        after[b],
    ) != Ordering::Greater by {
        if a == hole && b == hole {
            lemma_total_order(order, before[hole - 1], before[hole - 1], before[hole - 1]);
        } else if b == hole {
            assert(order(before[a], before[hole - 1]) != Ordering::Greater);
        } else if a == hole {
            assert(order(before[hole - 1], before[b]) != Ordering::Greater);
        } else {
            assert(order(before[a], before[b]) != Ordering::Greater);
        }
    }
    assert forall|b: int| hole - 1 < b <= last && b < after.len() && 0 <= hole - 1 implies order(
        after[hole - 1],
        #[trigger] after[b],
    ) != Ordering::Greater by {
        if b > hole {
            assert(order(before[hole], before[b]) != Ordering::Greater);
        }
    }
}

/// Once the element at the hole is not less than the one before it, the
/// whole front part is sorted.
pub proof fn lemma_hole_closes<T>(s: Seq<T>, order: spec_fn(T, T) -> Ordering, last: int, hole: int)
    requires
        total_order(order),
        sorted_around(s, order, last, hole),
        0 <= hole <= last < s.len(),
        hole == 0 || order(s[hole - 1], s[hole]) != Ordering::Greater,
    ensures
        sorted_upto(s, order, last + 1),
{
    assert forall|a: int, b: int| 0 <= a <= b < last + 1 && b < s.len() implies order(s[a], s[b])
        != Ordering::Greater by {
        if a == hole && b == hole {
            lemma_total_order(order, s[hole], s[hole], s[hole]);
        } else if a == hole {
            assert(order(s[hole], s[b]) != Ordering::Greater);
        } else if b == hole {
            if a == hole - 1 {
            } else {
                assert(order(s[a], s[hole - 1]) != Ordering::Greater);
                lemma_total_order(order, s[a], s[hole - 1], s[hole]);
            }
        } else {
            assert(order(s[a], s[b]) != Ordering::Greater);
        }
    }
}

/// Swapping two neighbours keeps the elements.
pub proof fn lemma_swap_keeps_elements<T>(s: Seq<T>, j: int)
    requires
        0 < j < s.len(),
    ensures
        s.update(j - 1, s[j]).update(j, s[j - 1]).to_multiset() == s.to_multiset(),
{
    broadcast use vstd::multiset::group_multiset_axioms;

    let mid = s.update(j - 1, s[j]);
    assert(mid.len() == s.len());
    assert(mid[j] == s[j]);
    vstd::seq_lib::to_multiset_update(s, j - 1, s[j]);
    vstd::seq_lib::to_multiset_update(mid, j, s[j - 1]);
    s.to_multiset_ensures();
    assert(s.contains(s[j - 1]));
    assert(s.contains(s[j]));
    assert(s.to_multiset().insert(s[j]).remove(s[j - 1]).insert(s[j - 1]).remove(s[j])
        =~= s.to_multiset());
}

/// Swaps the element at `j` with the one before it.
fn swap_adjacent<T>(s: &mut [T], j: usize)
    requires
        0 < j < old(s)@.len(),
    ensures
        final(s)@ == old(s)@.update(j - 1, old(s)@[j as int]).update(j as int, old(s)@[j - 1]),
{
    let (left, right) = s.split_at_mut(j);
    core::mem::swap(&mut left[j - 1], &mut right[0]);
}

/// Sorts a slice in place, ascending, without recursion or a buffer. The
/// elements are kept.
#[inline(always)]
pub fn bpf_sort<T: Ord>(s: &mut [T])
    requires
        vstd::laws_cmp::obeys_cmp::<T>(),
    ensures
        sorted(final(s)@),
        final(s)@.to_multiset() == old(s)@.to_multiset(),
{
    proof {
        lemma_natural_order_total::<T>();
    }
    let compare = |a: &T, b: &T| -> (o: Ordering)
        ensures
            o == a.cmp_spec(b),
        { a.cmp(b) };
    assert(computes_order(compare, natural_order::<T>()));
    bpf_sort_by(s, compare);
    assert(sorted_by(s@, natural_order::<T>()));
}

/// Sorts a slice in place by a comparator, without recursion or a buffer.
/// The comparator must compute a total order; the slice ends up in
/// ascending order by it. The elements are kept.
#[inline(always)]
pub fn bpf_sort_by<T, F>(s: &mut [T], mut compare: F) where F: FnMut(&T, &T) -> Ordering
    requires
        exists|order: spec_fn(T, T) -> Ordering| computes_order(compare, order),
    ensures
        forall|order: spec_fn(T, T) -> Ordering| #[trigger]
            computes_order(compare, order) ==> sorted_by(final(s)@, order),
        final(s)@.to_multiset() == old(s)@.to_multiset(),
{
    let ghost given = compare;
    let n = s.len();
    let mut i: usize = 0;
    while i < n
        invariant
            i <= n,
            n == s@.len(),
            compare == given,
            exists|order: spec_fn(T, T) -> Ordering| computes_order(compare, order),
            s@.to_multiset() == old(s)@.to_multiset(),
            forall|order: spec_fn(T, T) -> Ordering| #[trigger]
                computes_order(compare, order) ==> sorted_upto(s@, order, pos(i)),
        decreases n - i,
    {
        let mut j: usize = i;
        proof {
            assert forall|order: spec_fn(T, T) -> Ordering| #[trigger]
                computes_order(compare, order) implies sorted_around(s@, order, pos(i), pos(j)) by {
                lemma_hole_opens(s@, order, pos(i));
            }
        }
        loop
            invariant
                j <= i < n,
                n == s@.len(),
                compare == given,
                exists|order: spec_fn(T, T) -> Ordering| computes_order(compare, order),
                s@.to_multiset() == old(s)@.to_multiset(),
                forall|order: spec_fn(T, T) -> Ordering| #[trigger]
                    computes_order(compare, order) ==> sorted_around(s@, order, pos(i), pos(j)),
            ensures
                forall|order: spec_fn(T, T) -> Ordering| #[trigger]
                    computes_order(compare, order) ==> sorted_upto(s@, order, pos(i) + 1),
            decreases j,
        {
            if j == 0 {
                proof {
                    assert forall|order: spec_fn(T, T) -> Ordering| #[trigger]
                        computes_order(compare, order) implies sorted_upto(
                        s@,
                        order,
                        pos(i) + 1,
                    ) by {
                        lemma_hole_closes(s@, order, pos(i), pos(j));
                    }
                }
                break ;
            }
            let answer = compare(&s[j - 1], &s[j]);
            let greater = match answer {
                Ordering::Greater => true,
                _ => false,
            };
            if !greater {
                proof {
                    assert forall|order: spec_fn(T, T) -> Ordering| #[trigger]
                        computes_order(compare, order) implies sorted_upto(
                        s@,
                        order,
                        pos(i) + 1,
                    ) by {
                        lemma_hole_closes(s@, order, pos(i), pos(j));
                    }
                }
                break ;
            }
            let ghost before = s@;
            swap_adjacent(s, j);
            proof {
                lemma_swap_keeps_elements(before, pos(j));
                assert forall|order: spec_fn(T, T) -> Ordering| #[trigger]
                    computes_order(compare, order) implies sorted_around(
                    s@,
                    order,
                    pos(i),
                    pos(j) - 1,
                ) by {
                    lemma_hole_moves(before, s@, order, pos(i), pos(j));
                }
            }
            j -= 1;
        }
        i += 1;
    }
    proof {
        assert forall|order: spec_fn(T, T) -> Ordering| #[trigger]
            computes_order(compare, order) implies sorted_by(s@, order) by {
            assert(sorted_upto(s@, order, pos(i)));
        }
    }
}

/// Sorts a slice in place by a derived key, without recursion or a buffer.
/// The slice ends up in ascending order of the keys. The elements are
/// kept.
#[inline(always)]
pub fn bpf_sort_by_key<T, F, K>(s: &mut [T], mut f: F) where F: FnMut(&T) -> K, K: Ord
    requires
        vstd::laws_cmp::obeys_cmp::<K>(),
        exists|key: spec_fn(T) -> K| computes_key(f, key),
    ensures
        forall|key: spec_fn(T) -> K| #[trigger]
            computes_key(f, key) ==> sorted_by_key(final(s)@, key),
        final(s)@.to_multiset() == old(s)@.to_multiset(),
{
    proof {
        lemma_natural_order_total::<K>();
    }
    let ghost given = f;
    let n = s.len();
    let mut i: usize = 0;
    while i < n
        invariant
            i <= n,
            n == s@.len(),
            vstd::laws_cmp::obeys_cmp::<K>(),
            K::obeys_cmp_spec(),
            f == given,
            exists|key: spec_fn(T) -> K| computes_key(f, key),
            s@.to_multiset() == old(s)@.to_multiset(),
            forall|key: spec_fn(T) -> K| #[trigger]
                computes_key(f, key) ==> sorted_upto(s@, key_order(key), pos(i)),
        decreases n - i,
    {
        let mut j: usize = i;
        proof {
            assert forall|key: spec_fn(T) -> K| #[trigger] computes_key(f, key) implies sorted_around(
                s@,
                key_order(key),
                pos(i),
                pos(j),
            ) by {
                lemma_hole_opens(s@, key_order(key), pos(i));
            }
        }
        loop
            invariant
                j <= i < n,
                n == s@.len(),
                vstd::laws_cmp::obeys_cmp::<K>(),
                K::obeys_cmp_spec(),
                f == given,
                exists|key: spec_fn(T) -> K| computes_key(f, key),
                s@.to_multiset() == old(s)@.to_multiset(),
                forall|key: spec_fn(T) -> K| #[trigger]
                    computes_key(f, key) ==> sorted_around(s@, key_order(key), pos(i), pos(j)),
            ensures
                forall|key: spec_fn(T) -> K| #[trigger]
                    computes_key(f, key) ==> sorted_upto(s@, key_order(key), pos(i) + 1),
            decreases j,
        {
            if j == 0 {
                proof {
                    assert forall|key: spec_fn(T) -> K| #[trigger]
                        computes_key(f, key) implies sorted_upto(
                        s@,
                        key_order(key),
                        pos(i) + 1,
                    ) by {
                        lemma_key_order_total(key);
                        lemma_hole_closes(s@, key_order(key), pos(i), pos(j));
                    }
                }
                break ;
            }
            let key_before = f(&s[j - 1]);
            let key_here = f(&s[j]);
            let answer = key_before.cmp(&key_here);
            let greater = match answer {
                Ordering::Greater => true,
                _ => false,
            };
            if !greater {
                proof {
                    assert forall|key: spec_fn(T) -> K| #[trigger]
                        computes_key(f, key) implies sorted_upto(
                        s@,
                        key_order(key),
                        pos(i) + 1,
                    ) by {
                        lemma_key_order_total(key);
                        lemma_hole_closes(s@, key_order(key), pos(i), pos(j));
                    }
                }
                break ;
            }
            let ghost before = s@;
            swap_adjacent(s, j);
            proof {
                lemma_swap_keeps_elements(before, pos(j));
                assert forall|key: spec_fn(T) -> K| #[trigger]
                    computes_key(f, key) implies sorted_around(
                    s@,
                    key_order(key),
                    pos(i),
                    pos(j) - 1,
                ) by {
                    lemma_key_order_total(key);
                    lemma_hole_moves(before, s@, key_order(key), pos(i), pos(j));
                }
            }
            j -= 1;
        }
        i += 1;
    }
    proof {
        assert forall|key: spec_fn(T) -> K| #[trigger] computes_key(f, key) implies sorted_by_key(
            s@,
            key,
        ) by {
            assert(sorted_upto(s@, key_order(key), pos(i)));
        }
    }
}

} // verus!
