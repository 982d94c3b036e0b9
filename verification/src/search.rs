//! Scanning a slice: the largest element under an ordering comparison,
//! and the first index of a sought value.

use vstd::prelude::*;
use core::cmp::Ordering;
use vstd::std_specs::cmp::{PartialEqSpec, PartialOrdSpec, OrdSpec};
use vstd::laws_cmp::{obeys_cmp, obeys_cmp_partial_ord, obeys_cmp_ord, obeys_partial_cmp_spec_properties};
use vstd::laws_eq::obeys_concrete_eq;

verus! {

/// `a` is strictly above `b` under the type's comparison.
pub open spec fn gt_under<T: PartialOrd>(a: T, b: T) -> bool {
    a.partial_cmp_spec(&b) == Some(Ordering::Greater)
}

/// `a` is above or beside `b` under the type's comparison.
pub open spec fn ge_under<T: PartialOrd>(a: T, b: T) -> bool {
    a.partial_cmp_spec(&b) matches Some(Ordering::Greater | Ordering::Equal)
}

/// The element a left-to-right scan retains: a later element replaces the
/// current one only when it compares strictly greater, so ties keep the
/// earlier element.
pub open spec fn seq_largest<T: PartialOrd>(s: Seq<T>) -> T
    recommends
        s.len() > 0,
    decreases s.len(),
{
    if s.len() <= 1 {
        s[0]
    } else if gt_under(s.last(), seq_largest(s.drop_last())) {
        s.last()
    } else {
        seq_largest(s.drop_last())
    }
}

/// `i` points at a greatest element of `s`, and every earlier element is
/// strictly below it, so `i` is the first place the maximum value occurs.
pub open spec fn is_first_max_index<T: PartialOrd>(s: Seq<T>, i: int) -> bool {
    &&& 0 <= i < s.len()
    &&& forall|j: int| 0 <= j < s.len() ==> ge_under(s[i], #[trigger] s[j])
    &&& forall|j: int| 0 <= j < i ==> gt_under(s[i], #[trigger] s[j]) && s[j] != s[i]
}

/// Finds the largest item in a slice by a single left-to-right scan.
///
/// The result is always one of the elements; for a type whose comparison
/// vstd has pinned down, it is exactly the element the scan spec retains.
pub fn largest<T: PartialOrd>(list: &[T]) -> (r: &T)
    requires
        list@.len() > 0,
    ensures
        exists|i: int| 0 <= i < list@.len() && *r == #[trigger] list@[i],
        T::obeys_partial_cmp_spec() ==> *r == seq_largest(list@),
{
    let mut best: &T = &list[0];
    let mut index: usize = 1;
    while index < list.len()
        invariant
            1 <= index <= list@.len(),
            exists|i: int| 0 <= i < index && *best == #[trigger] list@[i],
            T::obeys_partial_cmp_spec() ==> *best == seq_largest(list@.take(index as int)),
        decreases list@.len() - index,
    {
        let item = &list[index];
        let item_is_greater = item.gt(best);
        proof {
            let prefix = list@.take(index as int);
            let extended = list@.take(index as int + 1);
            assert(extended.drop_last() =~= prefix);
            assert(extended.last() == list@[index as int]);
        }
        if item_is_greater {
            best = item;
        }
        index += 1;
    }
    proof {
        assert(list@.take(list@.len() as int) =~= list@);
    }
    best
}

/// A scan over a whole total order returns a greatest element, and the first
/// occurrence of that value: every element sits at or below the result, and
/// everything before the result's position is strictly below it.
pub proof fn lemma_largest_is_first_max<T: Ord>(s: Seq<T>)
    requires
        s.len() > 0,
        obeys_cmp::<T>(),
        obeys_concrete_eq::<T>(),
    ensures
        forall|j: int| 0 <= j < s.len() ==> ge_under(seq_largest(s), #[trigger] s[j]),
        exists|i: int| is_first_max_index(s, i) && seq_largest(s) == s[i],
    decreases s.len(),
{
    reveal(vstd::laws_eq::obeys_eq_spec_properties);
    reveal(vstd::laws_eq::obeys_concrete_eq);
    reveal(obeys_partial_cmp_spec_properties);
    reveal(obeys_cmp_partial_ord);
    reveal(obeys_cmp_ord);
    let m = seq_largest(s);
    if s.len() == 1 {
        assert(m == s[0]);
        assert(s[0].eq_spec(&s[0]));
        assert(s[0].partial_cmp_spec(&s[0]) == Some(Ordering::Equal));
        assert(is_first_max_index(s, 0));
    } else {
        let s0 = s.drop_last();
        let x = s.last();
        let m0 = seq_largest(s0);
        lemma_largest_is_first_max(s0);
        let i0 = choose|i: int| is_first_max_index(s0, i) && seq_largest(s0) == s0[i];
        if gt_under(x, m0) {
            assert(m == x);
            assert forall|j: int| 0 <= j < s.len() implies gt_under(x, #[trigger] s[j]) || j == s.len() - 1 by {
                if j < s.len() - 1 {
                    assert(ge_under(m0, s0[j]));
                    if m0.partial_cmp_spec(&s0[j]) == Some(Ordering::Equal) {
                        assert(m0.eq_spec(&s0[j]));
                        assert(m0 == s0[j]);
                    }
                }
            }
            assert(x.eq_spec(&x));
            assert(x.partial_cmp_spec(&x) == Some(Ordering::Equal));
            assert forall|j: int| 0 <= j < s.len() - 1 implies #[trigger] s[j] != s[s.len() - 1] by {
                if s[j] == s[s.len() - 1] {
                    assert(gt_under(x, s[j]));
                }
            }
            assert(is_first_max_index(s, s.len() - 1));
        } else {
            assert(m == m0);
            // The comparison is total, so not-greater means at-or-below.
            assert(x.partial_cmp_spec(&m0) == Some(x.cmp_spec(&m0)));
            assert(ge_under(m0, x)) by {
                if x.partial_cmp_spec(&m0) == Some(Ordering::Equal) {
                    assert(x.eq_spec(&m0));
                    assert(x == m0);
                    assert(m0.eq_spec(&m0));
                }
            }
            assert forall|j: int| 0 <= j < s.len() implies ge_under(m0, #[trigger] s[j]) by {
                if j < s.len() - 1 {
                    assert(ge_under(m0, s0[j]));
                }
            }
            assert(s[i0] == s0[i0]);
            assert forall|j: int| 0 <= j < i0 implies gt_under(s[i0], #[trigger] s[j]) && s[j] != s[i0] by {
                assert(gt_under(s0[i0], s0[j]) && s0[j] != s0[i0]);
            }
            assert(is_first_max_index(s, i0));
        }
    }
}

/// Finds the index of the first occurrence of `needle`, if any.
pub fn find_item(haystack: &[i32], needle: i32) -> (r: Option<usize>)
    ensures
        match r {
            Some(i) => {
                &&& 0 <= i < haystack@.len()
                &&& haystack@[i as int] == needle
                &&& forall|j: int| 0 <= j < i ==> haystack@[j] != needle
            },
            None => !haystack@.contains(needle),
        },
{
    let mut index: usize = 0;
    while index < haystack.len()
        invariant
            0 <= index <= haystack@.len(),
            forall|j: int| 0 <= j < index ==> haystack@[j] != needle,
        decreases haystack@.len() - index,
    {
        if haystack[index] == needle {
            return Some(index);
        }
        index += 1;
    }
    None
}

} // verus!
