//! Prop kinds.

use vstd::prelude::*;

verus! {

/// Prop type enumeration
#[derive(Debug, Clone, Copy, PartialEq, Eq, Structural)]
pub enum PropType {
    Tree,
    Rock,
    Bush,
    Log,
    Stump,
    Fence,
    Building,
    Bridge,
    Tower,
    Sign,
    Barrel,
    Crate,
    VehicleWreck,
    Custom,
}

} // verus!
