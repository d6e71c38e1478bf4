//! The mathematical model of a scan: what a predicate may answer, and which
//! results a scan of a sequence under that predicate may have.
//!
//! A predicate is an executable closure, so its behaviour is known only
//! through its contract. The contract may leave an answer open; everything
//! here is therefore phrased as "may answer", and [`decides`] singles out the
//! predicates whose contract leaves nothing open on a given sequence.

use vstd::prelude::*;

verus! {

/// `cond` may answer `true` when shown `x`: the element would be discarded.
pub open spec fn may_accept<T, F: FnMut(&T) -> bool>(cond: F, x: T) -> bool {
    call_ensures(cond, (&x,), true)
}

/// `cond` may answer `false` when shown `x`: the scan would stop at the element.
pub open spec fn may_reject<T, F: FnMut(&T) -> bool>(cond: F, x: T) -> bool {
    call_ensures(cond, (&x,), false)
}

/// Each of the first `n` elements of `s` may be accepted by `cond`.
pub open spec fn all_accepted<T, F: FnMut(&T) -> bool>(s: Seq<T>, cond: F, n: int) -> bool {
    forall|k: int| 0 <= k < n ==> may_accept(cond, #[trigger] s[k])
}

/// `cond` may be called on each element of `s` that a scan can reach: on one
/// whose predecessors may all be accepted. A predicate without a `requires`
/// meets this on every sequence.
pub open spec fn can_ask<T, F: FnMut(&T) -> bool>(s: Seq<T>, cond: F) -> bool {
    forall|k: int|
        0 <= k < s.len() && #[trigger] all_accepted(s, cond, k) ==> call_requires(cond, (&s[k],))
}

/// Every run of acceptable elements at the head of `s` can be counted in a
/// `usize`. It holds in particular of every sequence of at most `usize::MAX`
/// elements, and of a longer one as soon as an element that `cond` cannot
/// accept stands among its first `usize::MAX + 1`.
pub open spec fn count_fits<T, F: FnMut(&T) -> bool>(s: Seq<T>, cond: F) -> bool {
    forall|n: int| 0 <= n <= s.len() && #[trigger] all_accepted(s, cond, n) ==> n <= usize::MAX
}

/// `cond` answers each element of `s` in one way only.
pub open spec fn decides<T, F: FnMut(&T) -> bool>(s: Seq<T>, cond: F) -> bool {
    forall|k: int|
        0 <= k < s.len() ==> !(may_accept(cond, #[trigger] s[k]) && may_reject(cond, s[k]))
}

/// The number of elements at the head of `s` that `cond` may accept one after
/// the other: the length of the longest prefix of `s` that can be discarded.
pub open spec fn leading_run<T, F: FnMut(&T) -> bool>(s: Seq<T>, cond: F) -> nat
    decreases s.len(),
{
    if s.len() > 0 && may_accept(cond, s[0]) {
        1 + leading_run(s.drop_first(), cond)
    } else {
        0
    }
}

/// The triple (`found`, `count`, `rest`) is a result of scanning `s` under `cond`:
///
/// * the first `count` elements of `s` were accepted, and so discarded;
/// * if `found` is `Some(x)`, then `x` is the element that follows them, `cond`
///   rejected it, and `rest` is what follows `x`;
/// * if `found` is `None`, then the `count` discarded elements are all of `s`,
///   and `rest` is empty.
pub open spec fn is_discard_result<T, F: FnMut(&T) -> bool>(
    s: Seq<T>,
    cond: F,
    found: Option<T>,
    count: int,
    rest: Seq<T>,
) -> bool {
    &&& 0 <= count <= s.len()
    &&& all_accepted(s, cond, count)
    &&& match found {
        Some(x) => {
            &&& count < s.len()
            &&& x == s[count]
            &&& may_reject(cond, x)
            &&& rest == s.skip(count + 1)
        },
        None => {
            &&& count == s.len()
            &&& rest == Seq::<T>::empty()
        },
    }
}

} // verus!
