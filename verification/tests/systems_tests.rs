use offroad_frontier::game::config::CameraMode;
use offroad_frontier::systems::vehicle::{gear_after_shift_down, gear_after_shift_up};
use offroad_frontier::systems::winch::WinchState;
use offroad_frontier::ui::minimap::RotationMode;

#[test]
fn winch_controls() {
    assert_eq!(WinchState::Idle.after_extend(), WinchState::Extending);
    assert_eq!(WinchState::Retracting.after_extend(), WinchState::Extending);
    assert_eq!(WinchState::Extending.after_extend(), WinchState::Extending);
    assert_eq!(WinchState::UnderTension.after_extend(), WinchState::UnderTension);
    assert_eq!(WinchState::Idle.after_retract(), WinchState::Retracting);
    assert_eq!(WinchState::Extending.after_retract(), WinchState::Retracting);
    assert_eq!(WinchState::UnderTension.after_retract(), WinchState::UnderTension);
    assert_eq!(WinchState::Extending.after_stop(), WinchState::Idle);
    assert_eq!(WinchState::Retracting.after_stop(), WinchState::Idle);
    assert_eq!(WinchState::UnderTension.after_stop(), WinchState::UnderTension);
    assert_eq!(WinchState::Idle.after_stop(), WinchState::Idle);
    assert!(!WinchState::Idle.is_active());
    assert!(WinchState::Extending.is_active() && WinchState::Retracting.is_active() && WinchState::UnderTension.is_active());
}

#[test]
fn gear_shifting_bounds() {
    assert_eq!(gear_after_shift_up(0), 1);
    assert_eq!(gear_after_shift_up(4), 5);
    assert_eq!(gear_after_shift_up(5), 5);
    assert_eq!(gear_after_shift_up(-1), 0);
    assert_eq!(gear_after_shift_down(1), 0);
    assert_eq!(gear_after_shift_down(0), -1);
    assert_eq!(gear_after_shift_down(-1), -1);
    let mut g: i8 = 0;
    for _ in 0..10 {
        g = gear_after_shift_up(g);
    }
    assert_eq!(g, 5);
    for _ in 0..10 {
        g = gear_after_shift_down(g);
    }
    assert_eq!(g, -1);
}

#[test]
fn camera_mode_cycle() {
    assert_eq!(CameraMode::ThirdPerson.next(), CameraMode::FirstPerson);
    assert_eq!(CameraMode::FirstPerson.next(), CameraMode::Hood);
    assert_eq!(CameraMode::Hood.next(), CameraMode::Cinematic);
    assert_eq!(CameraMode::Cinematic.next(), CameraMode::ThirdPerson);
}

#[test]
fn rotation_mode_toggle() {
    assert_eq!(RotationMode::FollowPlayer.toggled(), RotationMode::NorthUp);
    assert_eq!(RotationMode::NorthUp.toggled(), RotationMode::FollowPlayer);
}

use offroad_frontier::entities::particles::ParticleType;
use offroad_frontier::game::constants::SurfaceType;
use offroad_frontier::game::events::{EventType, WinchEventType};
use offroad_frontier::systems::weather::{surface_condition, PrecipitationType};

#[test]
fn particle_forces_by_type() {
    assert!(ParticleType::MudSplash.affected_by_gravity());
    assert!(ParticleType::WaterSpray.affected_by_gravity());
    assert!(!ParticleType::Smoke.affected_by_gravity());
    assert!(ParticleType::Smoke.affected_by_wind());
    assert!(ParticleType::Dust.affected_by_wind());
    assert!(ParticleType::Snow.affected_by_wind());
    assert!(!ParticleType::Rain.affected_by_wind());
    assert!(!ParticleType::Exhaust.affected_by_gravity() && !ParticleType::Exhaust.affected_by_wind());
}

#[test]
fn winch_event_types() {
    assert_eq!(WinchEventType::Attached.event_type(), EventType::WinchAttach);
    assert_eq!(WinchEventType::Detached.event_type(), EventType::WinchDetach);
    assert_eq!(WinchEventType::CableBroken.event_type(), EventType::WinchCableBreak);
    assert_eq!(WinchEventType::MaxTensionReached.event_type(), EventType::UINotification);
}

#[test]
fn surface_conditions_under_weather() {
    let rain = PrecipitationType::Rain;
    let snow = PrecipitationType::Snow;
    assert_eq!(surface_condition(SurfaceType::Dirt, rain, true, false), SurfaceType::Mud);
    assert_eq!(surface_condition(SurfaceType::Dirt, rain, false, true), SurfaceType::Dirt);
    assert_eq!(surface_condition(SurfaceType::Sand, rain, true, false), SurfaceType::Sand);
    assert_eq!(surface_condition(SurfaceType::Asphalt, rain, true, true), SurfaceType::Asphalt);
    assert_eq!(surface_condition(SurfaceType::Asphalt, snow, false, true), SurfaceType::Snow);
    assert_eq!(surface_condition(SurfaceType::Grass, snow, true, true), SurfaceType::Snow);
    assert_eq!(surface_condition(SurfaceType::Rock, snow, true, true), SurfaceType::Rock);
    assert_eq!(surface_condition(SurfaceType::Dirt, snow, true, false), SurfaceType::Dirt);
    assert_eq!(
        surface_condition(SurfaceType::Dirt, PrecipitationType::Hail, true, true),
        SurfaceType::Dirt
    );
    assert_eq!(
        surface_condition(SurfaceType::Mud, PrecipitationType::NoPrecipitation, true, true),
        SurfaceType::Mud
    );
}

#[test]
fn winch_update_decisions() {
    assert_eq!(WinchState::Idle.after_update(true, true, true), (WinchState::Idle, false));
    assert_eq!(WinchState::Extending.after_update(false, false, false), (WinchState::Extending, false));
    assert_eq!(WinchState::Extending.after_update(true, false, false), (WinchState::Idle, false));
    assert_eq!(WinchState::Retracting.after_update(true, false, false), (WinchState::Idle, false));
    assert_eq!(WinchState::Retracting.after_update(false, true, true), (WinchState::Retracting, false));
    assert_eq!(WinchState::UnderTension.after_update(false, false, false), (WinchState::Idle, false));
    assert_eq!(WinchState::UnderTension.after_update(true, true, false), (WinchState::UnderTension, false));
    assert_eq!(WinchState::UnderTension.after_update(false, true, true), (WinchState::Idle, true));
}

#[test]
fn winch_attach_rule() {
    assert!(WinchState::Idle.can_attach(true, true));
    assert!(WinchState::UnderTension.can_attach(true, true));
    assert!(!WinchState::Extending.can_attach(true, true));
    assert!(!WinchState::Retracting.can_attach(true, true));
    assert!(!WinchState::Idle.can_attach(false, true));
    assert!(!WinchState::Idle.can_attach(true, false));
}
