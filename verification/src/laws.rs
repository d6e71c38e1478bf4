//! Consequences of the scan's contract, proved once for every sequence and
//! every predicate.

use crate::outcome::{decides, is_discard_result, leading_run, may_accept, may_reject};
use vstd::prelude::*;

verus! {

/// A scan has one result only. Whenever `cond` answers each element of `s` in
/// one way, any two results of scanning `s` under `cond` agree in the element
/// found, in the count and in what is left of the sequence. The function and
/// the method promise the same relation, so on such a predicate they return
/// the same.
pub proof fn law_result_is_unique<T, F: FnMut(&T) -> bool>(
    s: Seq<T>,
    cond: F,
    found_a: Option<T>,
    count_a: int,
    rest_a: Seq<T>,
    found_b: Option<T>,
    count_b: int,
    rest_b: Seq<T>,
)
    requires
        decides(s, cond),
        is_discard_result(s, cond, found_a, count_a, rest_a),
        is_discard_result(s, cond, found_b, count_b, rest_b),
    ensures
        found_a == found_b,
        count_a == count_b,
        rest_a == rest_b,
{
}

/// The result of a scan, computed. Whenever `cond` answers each element of `s`
/// in one way, the count is the length of the longest prefix of `s` that `cond`
/// accepts, and the element found is the one behind that prefix, if there is
/// one.
pub proof fn law_count_is_leading_run<T, F: FnMut(&T) -> bool>(
    s: Seq<T>,
    cond: F,
    found: Option<T>,
    count: int,
    rest: Seq<T>,
)
    requires
        decides(s, cond),
        is_discard_result(s, cond, found, count, rest),
    ensures
        count == leading_run(s, cond),
        found == (if count < s.len() {
            Some(s[count])
        } else {
            None
        }),
    decreases s.len(),
{
    if s.len() > 0 && count > 0 {
        let tail = s.drop_first();
        if found is Some {
            assert(rest =~= tail.skip(count));
        }
        law_count_is_leading_run(tail, cond, found, count - 1, rest);
    }
}

/// A predicate that never answers `false` discards the whole sequence: nothing
/// is found, the count is the length of the sequence, and nothing is left.
pub proof fn law_always_true_discards_all<T, F: FnMut(&T) -> bool>(
    s: Seq<T>,
    cond: F,
    found: Option<T>,
    count: int,
    rest: Seq<T>,
)
    requires
        forall|x: T| !may_reject(cond, x),
        is_discard_result(s, cond, found, count, rest),
    ensures
        found is None,
        count == s.len(),
        rest == Seq::<T>::empty(),
{
}

/// A predicate that never answers `true` stops at the first element of a
/// sequence that has one: that element is found, nothing is discarded, and
/// all that follows the element is left.
pub proof fn law_always_false_finds_first<T, F: FnMut(&T) -> bool>(
    s: Seq<T>,
    cond: F,
    found: Option<T>,
    count: int,
    rest: Seq<T>,
)
    requires
        s.len() > 0,
        forall|x: T| !may_accept(cond, x),
        is_discard_result(s, cond, found, count, rest),
    ensures
        found == Some(s[0]),
        count == 0,
        rest == s.drop_first(),
{
}

/// Scanning an empty sequence finds nothing and discards nothing, whatever
/// the predicate.
pub proof fn law_empty_sequence<T, F: FnMut(&T) -> bool>(
    s: Seq<T>,
    cond: F,
    found: Option<T>,
    count: int,
    rest: Seq<T>,
)
    requires
        s.len() == 0,
        is_discard_result(s, cond, found, count, rest),
    ensures
        found is None,
        count == 0,
        rest == Seq::<T>::empty(),
{
}

} // verus!
