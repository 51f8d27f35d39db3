//! Minimap rotation modes.

use vstd::prelude::*;

verus! {

#[derive(Debug, Clone, Copy, PartialEq, Eq, Structural)]
pub enum RotationMode {
    /// Map rotates with player
    FollowPlayer,
    /// North is always up
    NorthUp,
}

/// The other rotation mode.
pub open spec fn other_rotation_mode(mode: RotationMode) -> RotationMode {
    match mode {
        RotationMode::FollowPlayer => RotationMode::NorthUp,
        RotationMode::NorthUp => RotationMode::FollowPlayer,
    }
}

impl RotationMode {
    /// The rotation mode after toggling: follow-player and north-up swap.
    pub fn toggled(self) -> (mode: RotationMode)
        ensures
            mode == other_rotation_mode(self),
    {
        match self {
            RotationMode::FollowPlayer => RotationMode::NorthUp,
            RotationMode::NorthUp => RotationMode::FollowPlayer,
        }
    }
}

/// Toggling the rotation mode twice gives back the mode, once changes it.
pub proof fn lemma_rotation_toggle(mode: RotationMode)
    ensures
        other_rotation_mode(other_rotation_mode(mode)) == mode,
        other_rotation_mode(mode) != mode,
{
}

} // verus!
