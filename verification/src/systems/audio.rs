//! Sound kinds, volume categories, and the category of each sound.

use vstd::prelude::*;

verus! {

/// Sound type enumeration
#[derive(Debug, Clone, Copy, PartialEq, Eq, Hash, Structural)]
pub enum SoundType {
    // Vehicle sounds
    EngineIdle,
    EngineRunning,
    EngineStart,
    EngineStop,
    GearShift,
    TireSlip,
    Suspension,
    // Environment sounds
    Wind,
    Rain,
    Thunder,
    WaterSplash,
    MudSquelch,
    // Collision sounds
    MetalImpact,
    WoodBreak,
    RockScrape,
    GlassBreak,
    // UI sounds
    MenuClick,
    MenuSelect,
    Notification,
    MissionComplete,
    MissionFail,
    // Winch sounds
    WinchExtend,
    WinchRetract,
    WinchTension,
    CableSnap,
}

/// Audio category for volume control
#[derive(Debug, Clone, Copy, PartialEq, Eq, Hash, Structural)]
pub enum AudioCategory {
    Master,
    Music,
    SFX,
    Engine,
    Environment,
    UI,
}

/// The volume category of a sound: vehicle and winch sounds are engine
/// sounds, weather and terrain sounds environment sounds, menu and mission
/// sounds UI sounds, and collisions sound effects.
pub open spec fn category_of(sound_type: SoundType) -> AudioCategory {
    match sound_type {
        SoundType::EngineIdle | SoundType::EngineRunning | SoundType::EngineStart
        | SoundType::EngineStop | SoundType::GearShift | SoundType::TireSlip
        | SoundType::Suspension | SoundType::WinchExtend | SoundType::WinchRetract
        | SoundType::WinchTension | SoundType::CableSnap => AudioCategory::Engine,
        SoundType::Wind | SoundType::Rain | SoundType::Thunder | SoundType::WaterSplash
        | SoundType::MudSquelch => AudioCategory::Environment,
        SoundType::MenuClick | SoundType::MenuSelect | SoundType::Notification
        | SoundType::MissionComplete | SoundType::MissionFail => AudioCategory::UI,
        SoundType::MetalImpact | SoundType::WoodBreak | SoundType::RockScrape
        | SoundType::GlassBreak => AudioCategory::SFX,
    }
}

/// Get sound category for a sound type
pub fn get_sound_category(sound_type: SoundType) -> (category: AudioCategory)
    ensures
        category == category_of(sound_type),
{
    match sound_type {
        SoundType::EngineIdle | SoundType::EngineRunning | SoundType::EngineStart
        | SoundType::EngineStop | SoundType::GearShift | SoundType::TireSlip
        | SoundType::Suspension | SoundType::WinchExtend | SoundType::WinchRetract
        | SoundType::WinchTension | SoundType::CableSnap => AudioCategory::Engine,
        SoundType::Wind | SoundType::Rain | SoundType::Thunder | SoundType::WaterSplash
        | SoundType::MudSquelch => AudioCategory::Environment,
        SoundType::MenuClick | SoundType::MenuSelect | SoundType::Notification
        | SoundType::MissionComplete | SoundType::MissionFail => AudioCategory::UI,
        _ => AudioCategory::SFX,
    }
}

/// No sound is filed under the master or music categories: those only
/// scale other sounds.
pub proof fn lemma_category_never_master_or_music(sound_type: SoundType)
    ensures
        category_of(sound_type) != AudioCategory::Master,
        category_of(sound_type) != AudioCategory::Music,
{
}

/// Which category each sound plays in: engine, drivetrain and winch sounds
/// in the engine category; wind, rain, thunder, water and mud in the
/// environment category; menu, notification and mission sounds in the UI
/// category; impacts and breakage as sound effects.
pub proof fn lemma_category_of_each_sound(sound_type: SoundType)
    ensures
        (category_of(sound_type) == AudioCategory::Engine) <==> (sound_type == SoundType::EngineIdle
            || sound_type == SoundType::EngineRunning || sound_type == SoundType::EngineStart
            || sound_type == SoundType::EngineStop || sound_type == SoundType::GearShift
            || sound_type == SoundType::TireSlip || sound_type == SoundType::Suspension
            || sound_type == SoundType::WinchExtend || sound_type == SoundType::WinchRetract
            || sound_type == SoundType::WinchTension || sound_type == SoundType::CableSnap),
        (category_of(sound_type) == AudioCategory::Environment) <==> (sound_type == SoundType::Wind
            || sound_type == SoundType::Rain || sound_type == SoundType::Thunder || sound_type
            == SoundType::WaterSplash || sound_type == SoundType::MudSquelch),
        (category_of(sound_type) == AudioCategory::UI) <==> (sound_type == SoundType::MenuClick
            || sound_type == SoundType::MenuSelect || sound_type == SoundType::Notification
            || sound_type == SoundType::MissionComplete || sound_type == SoundType::MissionFail),
        (category_of(sound_type) == AudioCategory::SFX) <==> (sound_type == SoundType::MetalImpact
            || sound_type == SoundType::WoodBreak || sound_type == SoundType::RockScrape
            || sound_type == SoundType::GlassBreak),
{
}

} // verus!
