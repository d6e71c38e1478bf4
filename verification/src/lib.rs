//! Advance an iterator while a condition holds of its items, and get back the
//! first item of which it does not hold, with the number of items discarded.
//!
//! [`discard_while`] is the function; [`DiscardWhile`] offers it as a method
//! of every iterator. [`outcome`] defines what a result of a scan is, and
//! [`laws`] proves what follows from that definition.

use vstd::prelude::*;
use vstd::std_specs::iter::IteratorSpec;

pub mod laws;
pub mod outcome;

use crate::outcome::{all_accepted, can_ask, count_fits, is_discard_result};

verus! {

/// Advances `iter` as long as `cond` holds of the items it yields. Returns the
/// first item of which `cond` does not hold, if there is one, and the number of
/// items discarded before it.
///
/// The items that `iter` is still to yield are `remaining()`. The result is a
/// scan of them in the sense of [`is_discard_result`]: the count is the length
/// of the run of accepted items at their head; the item returned is the one
/// after that run, and `cond` rejected it; `None` is returned exactly when the
/// run is all there was. Afterwards `iter` stands right behind the item
/// returned, or is exhausted.
///
/// # What is asked of the caller
///
/// * `iter` ends: it follows the laws of `remaining()` and has a measure
///   that each `next` lowers. On an iterator that yields accepted items for
///   ever the scan would not return.
/// * `cond` may be called on every item that the scan reaches ([`can_ask`]).
/// * The count fits in a `usize` ([`count_fits`]). The count is kept with plain
///   addition: a caller outside verification who scans past `usize::MAX`
///   accepted items gets a panic where overflow checks are compiled in, and a
///   wrapped count where they are not.
pub fn discard_while<T>(
    iter: &mut impl Iterator<Item = T>,
    cond: impl FnMut(&T) -> bool,
) -> (res: (Option<T>, usize))
    requires
        (*old(iter)).obeys_prophetic_iter_laws(),
        (*old(iter)).decrease() is Some,
        can_ask((*old(iter)).remaining(), cond),
        count_fits((*old(iter)).remaining(), cond),
    ensures
        is_discard_result(
            (*old(iter)).remaining(),
            cond,
            res.0,
            res.1 as int,
            (*final(iter)).remaining(),
        ),
        (*final(iter)).obeys_prophetic_iter_laws(),
        (*final(iter)).decrease() is Some,
{
    let ghost items = (*iter).remaining();
    let mut pred = cond;
    let mut i: usize = 0;
    loop
        invariant
            (*iter).obeys_prophetic_iter_laws(),
            (*iter).decrease() is Some,
            items == (*old(iter)).remaining(),
            pred == cond,
            can_ask(items, cond),
            count_fits(items, cond),
            i <= items.len(),
            all_accepted(items, cond, i as int),
            (*iter).remaining() == items.skip(i as int),
        decreases (*iter).decrease()->0,
    {
        match iter.next() {
            None => {
                assert((*iter).remaining() =~= Seq::<T>::empty());
                return (None, i);
            },
            Some(next) => {
                assert((*iter).remaining() =~= items.skip(i + 1));
                if !pred(&next) {
                    return (Some(next), i);
                }
                assert(all_accepted(items, cond, i + 1));
                i += 1;
            },
        }
    }
}

/// [`discard_while`] as a method. Every iterator has it.
pub trait DiscardWhile: Iterator {
    /// Advances the iterator as long as `cond` holds of the items it yields.
    /// Returns the first item of which `cond` does not hold, if there is one,
    /// and the number of items discarded before it.
    ///
    /// It asks and promises what [`discard_while`](crate::discard_while) does,
    /// and does nothing but call it.
    fn discard_while(&mut self, cond: impl FnMut(&Self::Item) -> bool) -> (res: (
        Option<Self::Item>,
        usize,
    )) where Self: Sized
        requires
            (*old(self)).obeys_prophetic_iter_laws(),
            (*old(self)).decrease() is Some,
            can_ask((*old(self)).remaining(), cond),
            count_fits((*old(self)).remaining(), cond),
        ensures
            is_discard_result(
                (*old(self)).remaining(),
                cond,
                res.0,
                res.1 as int,
                (*final(self)).remaining(),
            ),
            (*final(self)).obeys_prophetic_iter_laws(),
            (*final(self)).decrease() is Some,
    {
        discard_while(self, cond)
    }
}

impl<I: Iterator> DiscardWhile for I {
}

} // verus!
