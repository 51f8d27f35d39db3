//! Game state control: running, pausing, difficulty, camera mode and the
//! current mission.

use vstd::prelude::*;
use crate::game::config::{next_camera_mode, CameraMode, Difficulty, GameplayConfig};

verus! {

/// `state` with its pause flag set to `paused`.
pub open spec fn with_paused(state: GameState, paused: bool) -> GameState {
    GameState { is_paused: paused, ..state }
}

/// `state` with its camera mode advanced one step in the cycle.
pub open spec fn with_next_camera(state: GameState) -> GameState {
    GameState { camera_mode: next_camera_mode(state.camera_mode), ..state }
}

/// Current control state of the game
#[derive(Debug, Clone, Copy, PartialEq, Eq, Structural)]
pub struct GameState {
    /// Is the game running?
    pub is_running: bool,
    /// Is the game paused?
    pub is_paused: bool,
    /// Current difficulty
    pub difficulty: Difficulty,
    /// Current camera mode
    pub camera_mode: CameraMode,
    /// Current mission index
    pub current_mission: Option<usize>,
}

impl Default for GameState {
    fn default() -> (state: Self)
        ensures
            !state.is_running,
            !state.is_paused,
            state.difficulty == Difficulty::Normal,
            state.camera_mode == CameraMode::ThirdPerson,
            state.current_mission is None,
    {
        GameState {
            is_running: false,
            is_paused: false,
            difficulty: Difficulty::Normal,
            camera_mode: CameraMode::ThirdPerson,
            current_mission: None,
        }
    }
}

impl GameState {
    /// A running, unpaused game with the difficulty and camera mode of the
    /// gameplay settings and no mission.
    pub fn new(config: &GameplayConfig) -> (state: Self)
        ensures
            state.is_running,
            !state.is_paused,
            state.difficulty == config.difficulty,
            state.camera_mode == config.camera_mode,
            state.current_mission is None,
    {
        GameState {
            is_running: true,
            is_paused: false,
            difficulty: config.difficulty,
            camera_mode: config.camera_mode,
            current_mission: None,
        }
    }

    /// Pause the game
    pub fn pause(&mut self)
        ensures
            *final(self) == with_paused(*old(self), true),
    {
        self.is_paused = true;
    }

    /// Resume the game
    pub fn resume(&mut self)
        ensures
            *final(self) == with_paused(*old(self), false),
    {
        self.is_paused = false;
    }

    /// Toggle pause state
    pub fn toggle_pause(&mut self)
        ensures
            *final(self) == with_paused(*old(self), !old(self).is_paused),
    {
        self.is_paused = !self.is_paused;
    }

    /// Stop the game
    pub fn stop(&mut self)
        ensures
            *final(self) == (GameState { is_running: false, ..*old(self) }),
    {
        self.is_running = false;
    }

    /// Set camera mode
    pub fn set_camera_mode(&mut self, mode: CameraMode)
        ensures
            *final(self) == (GameState { camera_mode: mode, ..*old(self) }),
    {
        self.camera_mode = mode;
    }

    /// Cycle through camera modes
    pub fn cycle_camera_mode(&mut self)
        ensures
            *final(self) == with_next_camera(*old(self)),
    {
        self.camera_mode = self.camera_mode.next();
    }
}

/// Cycling the camera four times comes back to the starting mode, and the
/// four modes of the cycle are all different.
pub proof fn lemma_camera_cycle_period(mode: CameraMode)
    ensures
        next_camera_mode(next_camera_mode(next_camera_mode(next_camera_mode(mode)))) == mode,
        next_camera_mode(mode) != mode,
        next_camera_mode(next_camera_mode(mode)) != mode,
        next_camera_mode(next_camera_mode(next_camera_mode(mode))) != mode,
{
}

/// Toggling pause twice gives back the state one started from; pausing and
/// then resuming leaves the game unpaused with everything else unchanged.
pub proof fn lemma_pause_round_trips(state: GameState)
    ensures
        ({
            let once = with_paused(state, !state.is_paused);
            with_paused(once, !once.is_paused) == state
        }),
        with_paused(with_paused(state, true), false) == with_paused(state, false),
        !state.is_paused ==> with_paused(with_paused(state, true), false) == state,
{
}

/// Cycling the camera mode of a game state four times gives back the state.
pub proof fn lemma_state_camera_cycle(state: GameState)
    ensures
        with_next_camera(with_next_camera(with_next_camera(with_next_camera(state)))) == state,
{
}

/// The camera cycle goes third person, first person, hood, cinematic, and
/// back to third person.
pub proof fn lemma_camera_cycle_order()
    ensures
        next_camera_mode(CameraMode::ThirdPerson) == CameraMode::FirstPerson,
        next_camera_mode(CameraMode::FirstPerson) == CameraMode::Hood,
        next_camera_mode(CameraMode::Hood) == CameraMode::Cinematic,
        next_camera_mode(CameraMode::Cinematic) == CameraMode::ThirdPerson,
{
}

} // verus!
