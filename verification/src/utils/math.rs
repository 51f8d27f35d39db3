//! Math utilities that hold no floating-point values.

use vstd::prelude::*;
use vstd::std_specs::cmp::{PartialOrdIs, PartialOrdSpec};

verus! {

/// What `clamp(value, min, max)` gives, for a type whose ordering follows
/// its specification: `min` below `min`, `max` above `max`, else `value`.
pub open spec fn clamped<T: PartialOrd>(value: T, min: T, max: T) -> T {
    if value.is_lt(&min) {
        min
    } else if value.is_gt(&max) {
        max
    } else {
        value
    }
}

/// Clamp a value between min and max
pub fn clamp<T: PartialOrd>(value: T, min: T, max: T) -> (r: T)
    ensures
        r == value || r == min || r == max,
        T::obeys_partial_cmp_spec() ==> r == clamped(value, min, max),
{
    if value < min {
        min
    } else if value > max {
        max
    } else {
        value
    }
}

/// For integers with `min <= max`, the clamped value lies between `min` and
/// `max`: a value below `min` gives `min`, one above `max` gives `max`, and
/// a value already in that range is left as it is.
pub proof fn lemma_clamp_in_range(value: i64, min: i64, max: i64)
    requires
        min <= max,
    ensures
        min <= clamped(value, min, max) <= max,
        min <= value <= max ==> clamped(value, min, max) == value,
        clamped(clamped(value, min, max), min, max) == clamped(value, min, max),
        value < min ==> clamped(value, min, max) == min,
        value > max ==> clamped(value, min, max) == max,
{
}

} // verus!
