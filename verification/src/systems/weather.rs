//! Weather kinds and the precipitation each weather brings.

use vstd::prelude::*;
use crate::game::constants::SurfaceType;

verus! {

/// Type of precipitation
#[derive(Debug, Clone, Copy, PartialEq, Eq, Structural)]
pub enum PrecipitationType {
    /// No precipitation
    NoPrecipitation,
    Rain,
    Snow,
    Hail,
}

/// Weather type
#[derive(Debug, Clone, Copy, PartialEq, Eq, Structural)]
pub enum WeatherType {
    Clear,
    Cloudy,
    Overcast,
    Rain,
    Thunderstorm,
    Snow,
    Blizzard,
    Fog,
}

/// The precipitation that comes with each weather: none for clear, cloudy,
/// overcast and foggy weather, rain for rain and thunderstorms, snow for
/// snow and blizzards.
pub open spec fn precipitation_of(weather: WeatherType) -> PrecipitationType {
    match weather {
        WeatherType::Clear | WeatherType::Cloudy | WeatherType::Overcast | WeatherType::Fog => {
            PrecipitationType::NoPrecipitation
        },
        WeatherType::Rain | WeatherType::Thunderstorm => PrecipitationType::Rain,
        WeatherType::Snow | WeatherType::Blizzard => PrecipitationType::Snow,
    }
}

impl WeatherType {
    pub fn default_precipitation(&self) -> (p: PrecipitationType)
        ensures
            p == precipitation_of(*self),
    {
        match self {
            WeatherType::Clear | WeatherType::Cloudy | WeatherType::Overcast | WeatherType::Fog => {
                PrecipitationType::NoPrecipitation
            },
            WeatherType::Rain => PrecipitationType::Rain,
            WeatherType::Thunderstorm => PrecipitationType::Rain,
            WeatherType::Snow | WeatherType::Blizzard => PrecipitationType::Snow,
        }
    }
}

/// The surface a base surface turns into under the current precipitation:
/// heavy rain (`heavy`) turns dirt into mud (sand stays sand: wet sand has
/// no surface of its own); snow below freezing (`freezing`) covers asphalt,
/// dirt and grass; everything else keeps its base surface.
pub open spec fn condition_of(
    base: SurfaceType,
    precipitation: PrecipitationType,
    heavy: bool,
    freezing: bool,
) -> SurfaceType {
    match precipitation {
        PrecipitationType::Rain => if heavy && base == SurfaceType::Dirt {
            SurfaceType::Mud
        } else {
            base
        },
        PrecipitationType::Snow => if freezing && (base == SurfaceType::Asphalt || base
            == SurfaceType::Dirt || base == SurfaceType::Grass) {
            SurfaceType::Snow
        } else {
            base
        },
        _ => base,
    }
}

/// The decision of `WeatherState::get_surface_condition`: `heavy` says the
/// precipitation intensity is above 0.3 and `freezing` that the temperature
/// is below zero; the application measures both.
pub fn surface_condition(
    base: SurfaceType,
    precipitation: PrecipitationType,
    heavy: bool,
    freezing: bool,
) -> (surface: SurfaceType)
    ensures
        surface == condition_of(base, precipitation, heavy, freezing),
{
    match precipitation {
        PrecipitationType::NoPrecipitation => base,
        PrecipitationType::Rain => {
            if heavy {
                match base {
                    SurfaceType::Dirt => SurfaceType::Mud,
                    SurfaceType::Sand => SurfaceType::Sand,
                    _ => base,
                }
            } else {
                base
            }
        },
        PrecipitationType::Snow => {
            if freezing {
                match base {
                    SurfaceType::Asphalt | SurfaceType::Dirt | SurfaceType::Grass => {
                        SurfaceType::Snow
                    },
                    _ => base,
                }
            } else {
                base
            }
        },
        PrecipitationType::Hail => base,
    }
}

/// Weather only softens surfaces: rock, ice, mud and snow never change,
/// asphalt never turns to mud, and a surface changes only under heavy rain
/// or snow below freezing.
pub proof fn lemma_surface_condition_changes(
    base: SurfaceType,
    precipitation: PrecipitationType,
    heavy: bool,
    freezing: bool,
)
    ensures
        (base == SurfaceType::Rock || base == SurfaceType::Ice || base == SurfaceType::Mud || base
            == SurfaceType::Snow) ==> condition_of(base, precipitation, heavy, freezing) == base,
        condition_of(base, precipitation, heavy, freezing) != base ==> (precipitation
            == PrecipitationType::Rain && heavy) || (precipitation == PrecipitationType::Snow
            && freezing),
        base == SurfaceType::Asphalt ==> condition_of(base, precipitation, heavy, freezing)
            != SurfaceType::Mud,
{
}

/// What each precipitation does to a surface: heavy rain turns dirt into
/// mud; snow below freezing covers asphalt, dirt and grass with snow; and
/// a surface that changes becomes one of those two.
pub proof fn lemma_surface_condition_effects(
    base: SurfaceType,
    precipitation: PrecipitationType,
    heavy: bool,
    freezing: bool,
)
    ensures
        heavy ==> condition_of(SurfaceType::Dirt, PrecipitationType::Rain, heavy, freezing)
            == SurfaceType::Mud,
        freezing && (base == SurfaceType::Asphalt || base == SurfaceType::Dirt || base
            == SurfaceType::Grass) ==> condition_of(base, PrecipitationType::Snow, heavy, freezing)
            == SurfaceType::Snow,
        !freezing ==> condition_of(base, PrecipitationType::Snow, heavy, freezing) == base,
        !heavy ==> condition_of(base, PrecipitationType::Rain, heavy, freezing) == base,
        condition_of(base, PrecipitationType::NoPrecipitation, heavy, freezing) == base,
        condition_of(base, PrecipitationType::Hail, heavy, freezing) == base,
        condition_of(base, precipitation, heavy, freezing) != base ==> (base == SurfaceType::Dirt
            && precipitation == PrecipitationType::Rain && condition_of(
            base,
            precipitation,
            heavy,
            freezing,
        ) == SurfaceType::Mud) || ((base == SurfaceType::Asphalt || base == SurfaceType::Dirt
            || base == SurfaceType::Grass) && precipitation == PrecipitationType::Snow
            && condition_of(base, precipitation, heavy, freezing) == SurfaceType::Snow),
{
}

/// No weather brings hail, and a weather brings precipitation exactly when
/// it is rain, a thunderstorm, snow or a blizzard.
pub proof fn lemma_precipitation_kinds(weather: WeatherType)
    ensures
        precipitation_of(weather) != PrecipitationType::Hail,
        (precipitation_of(weather) != PrecipitationType::NoPrecipitation) <==> (weather
            == WeatherType::Rain || weather == WeatherType::Thunderstorm || weather
            == WeatherType::Snow || weather == WeatherType::Blizzard),
{
}

/// Which weather brings which precipitation: rain and thunderstorms bring
/// rain, snow and blizzards bring snow, every other weather none.
pub proof fn lemma_precipitation_of_each_weather(weather: WeatherType)
    ensures
        (precipitation_of(weather) == PrecipitationType::Rain) <==> (weather == WeatherType::Rain
            || weather == WeatherType::Thunderstorm),
        (precipitation_of(weather) == PrecipitationType::Snow) <==> (weather == WeatherType::Snow
            || weather == WeatherType::Blizzard),
{
}

} // verus!
