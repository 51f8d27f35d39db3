//! Vehicle kinds.

use vstd::prelude::*;

verus! {

/// Vehicle type
#[derive(Debug, Clone, Copy, PartialEq, Eq, Structural)]
pub enum VehicleType {
    LightTruck,
    MediumTruck,
    HeavyTruck,
    SUV,
    Jeep,
    Buggy,
    Military,
    Specialized,
}

} // verus!
