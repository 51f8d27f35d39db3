//! Gear selection: reverse (-1), neutral (0) and five forward gears.

use vstd::prelude::*;

verus! {

/// Lowest gear: reverse
pub const REVERSE_GEAR: i8 = -1;

/// Highest forward gear
pub const TOP_GEAR: i8 = 5;

/// The gear after shifting up: one higher below the top gear, else unchanged.
pub open spec fn shifted_up(gear: i8) -> int {
    if gear < TOP_GEAR {
        gear + 1
    } else {
        gear as int
    }
}

/// The gear after shifting down: one lower above reverse, else unchanged.
pub open spec fn shifted_down(gear: i8) -> int {
    if gear > REVERSE_GEAR {
        gear - 1
    } else {
        gear as int
    }
}

/// The gear after shifting up from `gear`
pub fn gear_after_shift_up(gear: i8) -> (next: i8)
    ensures
        next == shifted_up(gear),
{
    if gear < TOP_GEAR {
        gear + 1
    } else {
        gear
    }
}

/// The gear after shifting down from `gear`
pub fn gear_after_shift_down(gear: i8) -> (next: i8)
    ensures
        next == shifted_down(gear),
{
    if gear > REVERSE_GEAR {
        gear - 1
    } else {
        gear
    }
}

/// Shifting keeps a gear between reverse and the top gear, and shifting up
/// then down (or down then up) comes back to the starting gear when the
/// first shift moved.
pub proof fn lemma_shifting_stays_in_range(gear: i8)
    requires
        REVERSE_GEAR <= gear <= TOP_GEAR,
    ensures
        REVERSE_GEAR <= shifted_up(gear) <= TOP_GEAR,
        REVERSE_GEAR <= shifted_down(gear) <= TOP_GEAR,
        gear < TOP_GEAR ==> shifted_down(shifted_up(gear) as i8) == gear,
        gear > REVERSE_GEAR ==> shifted_up(shifted_down(gear) as i8) == gear,
{
}

/// Shifting moves one gear at a time: up by one below the top gear, down by
/// one above reverse, and not past the top gear or reverse.
pub proof fn lemma_shift_by_one(gear: i8)
    ensures
        gear < TOP_GEAR ==> shifted_up(gear) == gear + 1,
        gear >= TOP_GEAR ==> shifted_up(gear) == gear,
        gear > REVERSE_GEAR ==> shifted_down(gear) == gear - 1,
        gear <= REVERSE_GEAR ==> shifted_down(gear) == gear,
        TOP_GEAR == 5 && REVERSE_GEAR == -1,
{
}

} // verus!
