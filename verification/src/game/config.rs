//! Game configuration settings that hold no floating-point values.

use vstd::prelude::*;

verus! {

/// Graphics settings
#[derive(Debug, Clone, Copy, PartialEq, Eq, Structural)]
pub struct GraphicsConfig {
    pub resolution_width: u32,
    pub resolution_height: u32,
    pub fullscreen: bool,
    pub vsync: bool,
    pub shadow_quality: ShadowQuality,
    pub texture_quality: TextureQuality,
    pub anti_aliasing: bool,
    pub bloom_enabled: bool,
    pub motion_blur: bool,
}

impl Default for GraphicsConfig {
    /// 1920 by 1080 windowed, vsync on, high shadows and textures,
    /// anti-aliasing and bloom on, motion blur off.
    fn default() -> (g: Self)
        ensures
            g == (GraphicsConfig {
                resolution_width: 1920,
                resolution_height: 1080,
                fullscreen: false,
                vsync: true,
                shadow_quality: ShadowQuality::High,
                texture_quality: TextureQuality::High,
                anti_aliasing: true,
                bloom_enabled: true,
                motion_blur: false,
            }),
    {
        GraphicsConfig {
            resolution_width: 1920,
            resolution_height: 1080,
            fullscreen: false,
            vsync: true,
            shadow_quality: ShadowQuality::High,
            texture_quality: TextureQuality::High,
            anti_aliasing: true,
            bloom_enabled: true,
            motion_blur: false,
        }
    }
}

#[derive(Debug, Clone, Copy, PartialEq, Eq, Structural)]
pub enum ShadowQuality {
    Low,
    Medium,
    High,
    Ultra,
}

#[derive(Debug, Clone, Copy, PartialEq, Eq, Structural)]
pub enum TextureQuality {
    Low,
    Medium,
    High,
}

/// Gameplay settings
#[derive(Debug, Clone, Copy, PartialEq, Eq, Structural)]
pub struct GameplayConfig {
    pub difficulty: Difficulty,
    pub assists_enabled: bool,
    pub damage_model: DamageModel,
    pub fuel_consumption: bool,
    pub auto_save: bool,
    pub camera_mode: CameraMode,
}

impl Default for GameplayConfig {
    /// Normal difficulty with assists, arcade damage, no fuel consumption,
    /// auto-save on, third-person camera.
    fn default() -> (g: Self)
        ensures
            g == (GameplayConfig {
                difficulty: Difficulty::Normal,
                assists_enabled: true,
                damage_model: DamageModel::Arcade,
                fuel_consumption: false,
                auto_save: true,
                camera_mode: CameraMode::ThirdPerson,
            }),
    {
        GameplayConfig {
            difficulty: Difficulty::Normal,
            assists_enabled: true,
            damage_model: DamageModel::Arcade,
            fuel_consumption: false,
            auto_save: true,
            camera_mode: CameraMode::ThirdPerson,
        }
    }
}

#[derive(Debug, Clone, Copy, PartialEq, Eq, Structural)]
pub enum Difficulty {
    Easy,
    Normal,
    Hard,
    Realistic,
}

#[derive(Debug, Clone, Copy, PartialEq, Eq, Structural)]
pub enum DamageModel {
    NoDamage,
    Arcade,
    Simulation,
}

#[derive(Debug, Clone, Copy, PartialEq, Eq, Structural)]
pub enum CameraMode {
    ThirdPerson,
    FirstPerson,
    Hood,
    Cinematic,
}

/// The camera mode that follows `mode` in the cycle
/// third person, first person, hood, cinematic, third person.
pub open spec fn next_camera_mode(mode: CameraMode) -> CameraMode {
    match mode {
        CameraMode::ThirdPerson => CameraMode::FirstPerson,
        CameraMode::FirstPerson => CameraMode::Hood,
        CameraMode::Hood => CameraMode::Cinematic,
        CameraMode::Cinematic => CameraMode::ThirdPerson,
    }
}

impl CameraMode {
    /// The next camera mode in the cycle
    pub fn next(self) -> (mode: CameraMode)
        ensures
            mode == next_camera_mode(self),
    {
        match self {
            CameraMode::ThirdPerson => CameraMode::FirstPerson,
            CameraMode::FirstPerson => CameraMode::Hood,
            CameraMode::Hood => CameraMode::Cinematic,
            CameraMode::Cinematic => CameraMode::ThirdPerson,
        }
    }
}

} // verus!
