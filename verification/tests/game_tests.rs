use offroad_frontier::game::config::{GraphicsConfig, ShadowQuality, TextureQuality};
use offroad_frontier::game::config::{CameraMode, DamageModel, Difficulty, GameplayConfig};
use offroad_frontier::game::events::{EventBus, EventType, GameEvent};
use offroad_frontier::game::game_state::GameState;
use offroad_frontier::systems::audio::{get_sound_category, AudioCategory, SoundType};
use offroad_frontier::systems::weather::{PrecipitationType, WeatherType};
use offroad_frontier::utils::math::clamp;

struct Ping(EventType);

impl GameEvent for Ping {
    fn kind(&self) -> EventType {
        self.0
    }

    fn event_type(&self) -> EventType {
        self.0
    }
}

#[test]
fn event_bus_new_publishes_to_nobody() {
    let bus: EventBus<u32> = EventBus::new();
    assert!(bus.handlers_for(EventType::MissionStart).is_empty());
    let bus2: EventBus<u32> = EventBus::default();
    assert!(bus2.publish(&Ping(EventType::UIPause)).is_empty());
}

#[test]
fn event_bus_routes_by_type_then_ui_listeners() {
    let mut bus: EventBus<&str> = EventBus::new();
    bus.subscribe(EventType::WinchAttach, "winch-a");
    bus.subscribe(EventType::UINotification, "ui-1");
    bus.subscribe(EventType::MissionStart, "mission");
    bus.subscribe(EventType::WinchAttach, "winch-b");
    bus.subscribe(EventType::UINotification, "ui-2");

    let winch: Vec<&str> = bus.publish(&Ping(EventType::WinchAttach)).into_iter().copied().collect();
    assert_eq!(winch, vec!["winch-a", "winch-b", "ui-1", "ui-2"]);

    let mission: Vec<&str> = bus.handlers_for(EventType::MissionStart).into_iter().copied().collect();
    assert_eq!(mission, vec!["mission", "ui-1", "ui-2"]);

    let other: Vec<&str> = bus.handlers_for(EventType::AudioStop).into_iter().copied().collect();
    assert_eq!(other, vec!["ui-1", "ui-2"]);
}

#[test]
fn event_bus_ui_notification_reaches_ui_listeners_twice() {
    let mut bus: EventBus<u8> = EventBus::new();
    bus.subscribe(EventType::UINotification, 1);
    bus.subscribe(EventType::UINotification, 2);
    let handlers: Vec<u8> = bus.handlers_for(EventType::UINotification).into_iter().copied().collect();
    assert_eq!(handlers, vec![1, 2, 1, 2]);
}

#[test]
fn event_bus_handlers_can_be_closures() {
    let mut bus: EventBus<Box<dyn Fn(u32) -> u32>> = EventBus::new();
    bus.subscribe(EventType::VehicleDamage, Box::new(|x| x + 1));
    bus.subscribe(EventType::UINotification, Box::new(|x| x * 10));
    let results: Vec<u32> = bus
        .publish(&Ping(EventType::VehicleDamage))
        .into_iter()
        .map(|h| h(4))
        .collect();
    assert_eq!(results, vec![5, 40]);
}

#[test]
fn game_state_default_and_new() {
    let state = GameState::default();
    assert!(!state.is_running);
    assert!(!state.is_paused);
    assert_eq!(state.difficulty, Difficulty::Normal);
    assert_eq!(state.camera_mode, CameraMode::ThirdPerson);
    assert_eq!(state.current_mission, None);

    let config = GameplayConfig {
        difficulty: Difficulty::Hard,
        assists_enabled: false,
        damage_model: DamageModel::Simulation,
        fuel_consumption: true,
        auto_save: false,
        camera_mode: CameraMode::Hood,
    };
    let state = GameState::new(&config);
    assert!(state.is_running);
    assert!(!state.is_paused);
    assert_eq!(state.difficulty, Difficulty::Hard);
    assert_eq!(state.camera_mode, CameraMode::Hood);
    assert_eq!(state.current_mission, None);
}

#[test]
fn game_state_pause_resume_stop() {
    let config = GameplayConfig {
        difficulty: Difficulty::Easy,
        assists_enabled: true,
        damage_model: DamageModel::NoDamage,
        fuel_consumption: false,
        auto_save: true,
        camera_mode: CameraMode::ThirdPerson,
    };
    let mut state = GameState::new(&config);
    let start = state;
    state.pause();
    assert!(state.is_paused);
    state.resume();
    assert!(!state.is_paused);
    assert_eq!(state, start);
    state.toggle_pause();
    assert!(state.is_paused);
    state.toggle_pause();
    assert_eq!(state, start);
    state.stop();
    assert!(!state.is_running);
    assert_eq!(state.difficulty, Difficulty::Easy);
}

#[test]
fn game_state_camera_cycle() {
    let mut state = GameState::default();
    state.cycle_camera_mode();
    assert_eq!(state.camera_mode, CameraMode::FirstPerson);
    state.cycle_camera_mode();
    assert_eq!(state.camera_mode, CameraMode::Hood);
    state.cycle_camera_mode();
    assert_eq!(state.camera_mode, CameraMode::Cinematic);
    state.cycle_camera_mode();
    assert_eq!(state.camera_mode, CameraMode::ThirdPerson);
    state.set_camera_mode(CameraMode::Cinematic);
    assert_eq!(state.camera_mode, CameraMode::Cinematic);
}

#[test]
fn weather_default_precipitation() {
    assert_eq!(WeatherType::Clear.default_precipitation(), PrecipitationType::NoPrecipitation);
    assert_eq!(WeatherType::Cloudy.default_precipitation(), PrecipitationType::NoPrecipitation);
    assert_eq!(WeatherType::Overcast.default_precipitation(), PrecipitationType::NoPrecipitation);
    assert_eq!(WeatherType::Fog.default_precipitation(), PrecipitationType::NoPrecipitation);
    assert_eq!(WeatherType::Rain.default_precipitation(), PrecipitationType::Rain);
    assert_eq!(WeatherType::Thunderstorm.default_precipitation(), PrecipitationType::Rain);
    assert_eq!(WeatherType::Snow.default_precipitation(), PrecipitationType::Snow);
    assert_eq!(WeatherType::Blizzard.default_precipitation(), PrecipitationType::Snow);
}

#[test]
fn audio_sound_categories() {
    assert_eq!(get_sound_category(SoundType::EngineIdle), AudioCategory::Engine);
    assert_eq!(get_sound_category(SoundType::CableSnap), AudioCategory::Engine);
    assert_eq!(get_sound_category(SoundType::WinchExtend), AudioCategory::Engine);
    assert_eq!(get_sound_category(SoundType::Rain), AudioCategory::Environment);
    assert_eq!(get_sound_category(SoundType::MudSquelch), AudioCategory::Environment);
    assert_eq!(get_sound_category(SoundType::MenuClick), AudioCategory::UI);
    assert_eq!(get_sound_category(SoundType::MissionFail), AudioCategory::UI);
    assert_eq!(get_sound_category(SoundType::MetalImpact), AudioCategory::SFX);
    assert_eq!(get_sound_category(SoundType::GlassBreak), AudioCategory::SFX);
}

#[test]
fn clamp_integers_and_floats() {
    assert_eq!(clamp(5, 1, 3), 3);
    assert_eq!(clamp(-4, 1, 3), 1);
    assert_eq!(clamp(2, 1, 3), 2);
    assert_eq!(clamp(1, 1, 3), 1);
    assert_eq!(clamp(3u8, 1, 3), 3);
    assert_eq!(clamp(0.5f32, 0.0, 1.0), 0.5);
    assert_eq!(clamp(1.5f64, 0.0, 1.0), 1.0);
    // a value above min is compared with max next
    assert_eq!(clamp(10, 5, 0), 0);
    // clamping twice gives the same as once
    assert_eq!(clamp(clamp(9, 1, 4), 1, 4), 4);
}

use offroad_frontier::game::world::{
    activate_checkpoint, checked_total_collectibles_value, collect_first_in_reach, reach_checkpoints_in_order,
    get_total_collectibles_value, Checkpoint,
    Collectible, CollectibleType,
};

fn checkpoint(id: usize) -> Checkpoint<(i32, i32)> {
    Checkpoint { id, area: (id as i32, 5), is_activated: false, next_checkpoint: None }
}

fn collectible(id: u32, value: u32, is_collected: bool) -> Collectible<()> {
    Collectible { id, spot: (), collectible_type: CollectibleType::Scrap, is_collected, value }
}

#[test]
fn activate_checkpoint_once() {
    let mut cps = vec![checkpoint(0), checkpoint(1)];
    assert!(activate_checkpoint(&mut cps, 1));
    assert!(cps[1].is_activated && !cps[0].is_activated);
    assert!(!activate_checkpoint(&mut cps, 1));
    assert!(!activate_checkpoint(&mut cps, 2));
    assert!(cps[1].is_activated);
    assert_eq!(cps[1].area, (1, 5));
}

#[test]
fn total_collectibles_counts_collected_only() {
    let items = vec![collectible(0, 100, true), collectible(1, 150, false), collectible(2, 200, true)];
    assert_eq!(get_total_collectibles_value(&items), 300);
    assert_eq!(checked_total_collectibles_value(&items), Some(300));
    let none: Vec<Collectible<()>> = Vec::new();
    assert_eq!(get_total_collectibles_value(&none), 0);
    let big = vec![collectible(0, u32::MAX, true), collectible(1, 1, true)];
    assert_eq!(checked_total_collectibles_value(&big), None);
    let fits = vec![collectible(0, u32::MAX, true), collectible(1, 1, false)];
    assert_eq!(checked_total_collectibles_value(&fits), Some(u32::MAX));
}

#[test]
fn collect_first_uncollected_in_reach() {
    let mut items = vec![collectible(0, 10, true), collectible(1, 20, false), collectible(2, 30, false)];
    assert_eq!(collect_first_in_reach(&mut items, &[true, false, true]), Some(2));
    assert!(items[2].is_collected && !items[1].is_collected);
    assert_eq!(collect_first_in_reach(&mut items, &[true, false, true]), None);
    assert_eq!(collect_first_in_reach(&mut items, &[true, true, true]), Some(1));
    assert_eq!(get_total_collectibles_value(&items), 60);
}

#[test]
fn checkpoints_are_reached_in_order() {
    let mut cps = vec![checkpoint(0), checkpoint(1), checkpoint(2), checkpoint(3)];
    // the second checkpoint is in reach, but the first is not yet activated
    assert_eq!(reach_checkpoints_in_order(&mut cps, &[false, true, false, false]), 0);
    assert!(cps.iter().all(|c| !c.is_activated));
    assert_eq!(reach_checkpoints_in_order(&mut cps, &[true, true, false, true]), 2);
    let flags: Vec<bool> = cps.iter().map(|c| c.is_activated).collect();
    assert_eq!(flags, vec![true, true, false, false]);
    assert_eq!(reach_checkpoints_in_order(&mut cps, &[false, false, true, true]), 2);
    assert!(cps.iter().all(|c| c.is_activated));
    assert_eq!(reach_checkpoints_in_order(&mut cps, &[true, true, true, true]), 0);
}

#[test]
fn config_defaults() {
    let g = GraphicsConfig::default();
    assert_eq!((g.resolution_width, g.resolution_height), (1920, 1080));
    assert!(!g.fullscreen && g.vsync && g.anti_aliasing && g.bloom_enabled && !g.motion_blur);
    assert_eq!(g.shadow_quality, ShadowQuality::High);
    assert_eq!(g.texture_quality, TextureQuality::High);
    let p = GameplayConfig::default();
    assert_eq!(p.difficulty, Difficulty::Normal);
    assert_eq!(p.damage_model, DamageModel::Arcade);
    assert_eq!(p.camera_mode, CameraMode::ThirdPerson);
    assert!(p.assists_enabled && !p.fuel_consumption && p.auto_save);
}
