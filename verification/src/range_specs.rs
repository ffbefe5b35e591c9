//! Contracts of the `RangeInclusive` accessors that the bit-group
//! validation reads.

use vstd::prelude::*;

use core::ops::RangeInclusive;
use vstd::std_specs::cmp::PartialOrdIs;
use vstd::std_specs::cmp::PartialOrdSpec;

verus! {

/// `RangeInclusive::start` returns the lower bound of the range. Its value
/// is left unspecified once the range was iterated to exhaustion, so nothing
/// is said of it then.
pub assume_specification<Idx>[ RangeInclusive::<Idx>::start ](range: &RangeInclusive<Idx>) -> (r: &Idx)
    ensures
        !range@.exhausted ==> *r == range@.start,
;

/// `RangeInclusive::end` returns the upper bound of the range. Its value is
/// left unspecified once the range was iterated to exhaustion, so nothing is
/// said of it then.
pub assume_specification<Idx>[ RangeInclusive::<Idx>::end ](range: &RangeInclusive<Idx>) -> (r: &Idx)
    ensures
        !range@.exhausted ==> *r == range@.end,
;

/// `RangeInclusive::is_empty` is true when the range was exhausted by
/// iteration or its start does not precede-or-equal its end.
pub assume_specification<Idx: PartialOrd<Idx>>[ RangeInclusive::<Idx>::is_empty ](
    range: &RangeInclusive<Idx>,
) -> (r: bool)
    where
        Idx: PartialOrd,
    ensures
        Idx::obeys_partial_cmp_spec() ==> r == (range@.exhausted || !range@.start.is_le(&range@.end)),
;

/// Whether an inclusive range of `usize` holds no value: it was exhausted by
/// iteration or its start exceeds its end.
pub fn usize_range_is_empty(range: &RangeInclusive<usize>) -> (r: bool)
    ensures
        r == (range@.exhausted || range@.start > range@.end),
{
    range.is_empty()
}

} // verus!
