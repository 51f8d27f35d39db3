//! Particle kinds.

use vstd::prelude::*;

verus! {

/// Particle type
#[derive(Debug, Clone, Copy, PartialEq, Eq, Structural)]
pub enum ParticleType {
    MudSplash,
    WaterSpray,
    Smoke,
    Dust,
    Snow,
    Rain,
    Spark,
    Exhaust,
    Steam,
}

impl ParticleType {
    /// Mud and water spray fall under gravity.
    pub fn affected_by_gravity(self) -> (affected: bool)
        ensures
            affected == (self == ParticleType::MudSplash || self == ParticleType::WaterSpray),
    {
        matches!(self, ParticleType::MudSplash | ParticleType::WaterSpray)
    }

    /// Smoke, dust and snow drift with the wind.
    pub fn affected_by_wind(self) -> (affected: bool)
        ensures
            affected == (self == ParticleType::Smoke || self == ParticleType::Dust || self
                == ParticleType::Snow),
    {
        matches!(self, ParticleType::Smoke | ParticleType::Dust | ParticleType::Snow)
    }
}

/// No particle both falls under gravity and drifts with the wind.
pub proof fn lemma_gravity_and_wind_exclusive(t: ParticleType)
    ensures
        !((t == ParticleType::MudSplash || t == ParticleType::WaterSpray) && (t == ParticleType::Smoke
            || t == ParticleType::Dust || t == ParticleType::Snow)),
{
}

} // verus!
