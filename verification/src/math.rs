//! Miscellaneous math.
use vstd::prelude::*;
use vstd::std_specs::cmp::{PartialOrdIs, PartialOrdSpec};

verus! {

/// The value brought into the range from `lbound` to `ubound`.
pub open spec fn clamped<T: PartialOrd>(value: T, lbound: T, ubound: T) -> T {
    if value.is_lt(&lbound) {
        lbound
    } else if value.is_gt(&ubound) {
        ubound
    } else {
        value
    }
}

/// Clamps `value` between `lbound` and `ubound`: the lower bound where the
/// value is below it, else the upper bound where the value is above that,
/// else the value itself.
pub fn clamp<T: PartialOrd>(value: T, lbound: T, ubound: T) -> (r: T)
    ensures
        T::obeys_partial_cmp_spec() ==> r == clamped(value, lbound, ubound),
        r == value || r == lbound || r == ubound,
{
    if value < lbound {
        lbound
    } else if value > ubound {
        ubound
    } else {
        value
    }
}

} // verus!
