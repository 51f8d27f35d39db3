//! Game constants that hold no floating-point values, and surface kinds.

use vstd::prelude::*;

verus! {

/// Side length of a terrain chunk, in grid cells
pub const TERRAIN_CHUNK_SIZE: u32 = 64;

/// Number of wheels of a vehicle
pub const WHEEL_COUNT: usize = 4;

/// Surface types enumeration
#[derive(Debug, Clone, Copy, PartialEq, Eq, Hash, Structural)]
pub enum SurfaceType {
    Asphalt,
    Dirt,
    Mud,
    Sand,
    Snow,
    Ice,
    Grass,
    Rock,
}

} // verus!
