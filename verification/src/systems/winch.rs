//! Winch states, the decisions of the winch controls and of each frame's
//! update, and anchor kinds. Cable length, tension and positions are
//! floating-point quantities kept by the application.

use vstd::prelude::*;

verus! {

/// Winch state
#[derive(Debug, Clone, Copy, PartialEq, Eq, Structural)]
pub enum WinchState {
    /// Winch is not in use
    Idle,
    /// Cable is being extended
    Extending,
    /// Cable is being retracted
    Retracting,
    /// Cable is attached and under tension
    UnderTension,
}

/// The state after the extend control: an idle or retracting winch starts
/// extending; otherwise the state stays.
pub open spec fn extend_step(state: WinchState) -> WinchState {
    if state == WinchState::Idle || state == WinchState::Retracting {
        WinchState::Extending
    } else {
        state
    }
}

/// The state after the retract control: an idle or extending winch starts
/// retracting; otherwise the state stays.
pub open spec fn retract_step(state: WinchState) -> WinchState {
    if state == WinchState::Idle || state == WinchState::Extending {
        WinchState::Retracting
    } else {
        state
    }
}

/// The state after the stop control: an extending or retracting winch
/// becomes idle; otherwise the state stays.
pub open spec fn stop_step(state: WinchState) -> WinchState {
    if state == WinchState::Extending || state == WinchState::Retracting {
        WinchState::Idle
    } else {
        state
    }
}

/// The state after a frame's update. `cable_at_end` says the cable reached
/// its end (full length while extending, shortest length while
/// retracting); `anchored` that an anchor is attached; `pulled_in` that the
/// cable is taut and the vehicle within half a metre past the shortest cable
/// length of the anchor. A moving cable stops at its end; a winch under
/// tension becomes idle without an anchor or once the vehicle is pulled in.
pub open spec fn update_step(state: WinchState, cable_at_end: bool, anchored: bool, pulled_in: bool) -> WinchState {
    match state {
        WinchState::Idle => WinchState::Idle,
        WinchState::Extending | WinchState::Retracting => if cable_at_end {
            WinchState::Idle
        } else {
            state
        },
        WinchState::UnderTension => if !anchored || pulled_in {
            WinchState::Idle
        } else {
            WinchState::UnderTension
        },
    }
}

/// Whether a frame's update lets go of the anchor: an anchored winch under
/// tension once the vehicle is pulled in.
pub open spec fn update_releases(state: WinchState, anchored: bool, pulled_in: bool) -> bool {
    state == WinchState::UnderTension && anchored && pulled_in
}

/// Whether an anchor can be attached: the winch is idle or already under
/// tension, the anchor is valid and within reach of the cable.
pub open spec fn attach_allowed(state: WinchState, anchor_valid: bool, in_reach: bool) -> bool {
    (state == WinchState::Idle || state == WinchState::UnderTension) && anchor_valid && in_reach
}

impl WinchState {
    /// The decisions of a frame's update: the next state, and whether the
    /// anchor is let go (detached, tension dropped).
    pub fn after_update(self, cable_at_end: bool, anchored: bool, pulled_in: bool) -> (next: (
        WinchState,
        bool,
    ))
        ensures
            next.0 == update_step(self, cable_at_end, anchored, pulled_in),
            next.1 == update_releases(self, anchored, pulled_in),
    {
        match self {
            WinchState::Idle => (WinchState::Idle, false),
            WinchState::Extending | WinchState::Retracting => if cable_at_end {
                (WinchState::Idle, false)
            } else {
                (self, false)
            },
            WinchState::UnderTension => if !anchored {
                (WinchState::Idle, false)
            } else if pulled_in {
                (WinchState::Idle, true)
            } else {
                (WinchState::UnderTension, false)
            },
        }
    }

    /// Whether an anchor can be attached (after which the winch is under
    /// tension): the winch is idle or under tension, the anchor is valid and
    /// within reach of the cable.
    pub fn can_attach(self, anchor_valid: bool, in_reach: bool) -> (allowed: bool)
        ensures
            allowed == attach_allowed(self, anchor_valid, in_reach),
    {
        (self == WinchState::Idle || self == WinchState::UnderTension) && anchor_valid && in_reach
    }

    /// The state after the extend control: an idle or retracting winch
    /// starts extending; otherwise the state stays.
    pub fn after_extend(self) -> (next: Self)
        ensures
            next == extend_step(self),
    {
        if self == WinchState::Idle || self == WinchState::Retracting {
            WinchState::Extending
        } else {
            self
        }
    }

    /// The state after the retract control: an idle or extending winch
    /// starts retracting; otherwise the state stays.
    pub fn after_retract(self) -> (next: Self)
        ensures
            next == retract_step(self),
    {
        if self == WinchState::Idle || self == WinchState::Extending {
            WinchState::Retracting
        } else {
            self
        }
    }

    /// The state after the stop control: an extending or retracting winch
    /// becomes idle; otherwise the state stays.
    pub fn after_stop(self) -> (next: Self)
        ensures
            next == stop_step(self),
    {
        if self == WinchState::Extending || self == WinchState::Retracting {
            WinchState::Idle
        } else {
            self
        }
    }

    /// Is the winch active (extending, retracting, or under tension)?
    pub fn is_active(self) -> (active: bool)
        ensures
            active == (self != WinchState::Idle),
    {
        self != WinchState::Idle
    }
}

/// The cable controls never attach or release a cable: a winch under tension
/// stays under tension whatever control is used, and no control puts a winch
/// under tension. Stopping always leaves the cable still.
pub proof fn lemma_controls_keep_tension(state: WinchState)
    ensures
        (state == WinchState::UnderTension) == (extend_step(state) == WinchState::UnderTension),
        (state == WinchState::UnderTension) == (retract_step(state) == WinchState::UnderTension),
        (state == WinchState::UnderTension) == (stop_step(state) == WinchState::UnderTension),
        stop_step(state) != WinchState::Extending && stop_step(state)
            != WinchState::Retracting,
        state != WinchState::UnderTension ==> extend_step(state) == WinchState::Extending
            && retract_step(state) == WinchState::Retracting,
{
}

/// A frame's update never sets a cable moving or puts a winch under
/// tension: it keeps the state or makes the winch idle. An idle winch stays
/// idle, and letting go of the anchor always leaves the winch idle.
pub proof fn lemma_update_only_stops(state: WinchState, cable_at_end: bool, anchored: bool, pulled_in: bool)
    ensures
        update_step(state, cable_at_end, anchored, pulled_in) == state || update_step(
            state,
            cable_at_end,
            anchored,
            pulled_in,
        ) == WinchState::Idle,
        state == WinchState::Idle ==> update_step(state, cable_at_end, anchored, pulled_in)
            == WinchState::Idle,
        update_releases(state, anchored, pulled_in) ==> update_step(
            state,
            cable_at_end,
            anchored,
            pulled_in,
        ) == WinchState::Idle,
        !attach_allowed(WinchState::Extending, true, true) && !attach_allowed(
            WinchState::Retracting,
            true,
            true,
        ),
{
}

/// An anchor can be attached only if it is valid and within reach of the
/// cable, and only by a winch that is idle or already under tension; when
/// all of that holds it can be.
pub proof fn lemma_attach_rule(state: WinchState, anchor_valid: bool, in_reach: bool)
    ensures
        !in_reach ==> !attach_allowed(state, anchor_valid, in_reach),
        !anchor_valid ==> !attach_allowed(state, anchor_valid, in_reach),
        attach_allowed(state, anchor_valid, in_reach) ==> state == WinchState::Idle || state
            == WinchState::UnderTension,
        anchor_valid && in_reach && (state == WinchState::Idle || state
            == WinchState::UnderTension) ==> attach_allowed(state, anchor_valid, in_reach),
{
}

/// Kind of a winch anchor point
#[derive(Debug, Clone, Copy, PartialEq, Eq, Structural)]
pub enum AnchorType {
    Tree,
    Rock,
    Building,
    AnotherVehicle,
    GroundStake,
}

/// What a frame's update does in each state: an idle winch stays idle; a
/// moving cable keeps moving until it reaches its end, then stops; a winch
/// under tension stays so while anchored and not pulled in, and lets go of
/// its anchor exactly when anchored and pulled in.
pub proof fn lemma_update_each_state(cable_at_end: bool, anchored: bool, pulled_in: bool)
    ensures
        update_step(WinchState::Idle, cable_at_end, anchored, pulled_in) == WinchState::Idle,
        update_step(WinchState::Extending, cable_at_end, anchored, pulled_in) == if cable_at_end {
            WinchState::Idle
        } else {
            WinchState::Extending
        },
        update_step(WinchState::Retracting, cable_at_end, anchored, pulled_in) == if cable_at_end {
            WinchState::Idle
        } else {
            WinchState::Retracting
        },
        update_step(WinchState::UnderTension, cable_at_end, anchored, pulled_in) == if anchored
            && !pulled_in {
            WinchState::UnderTension
        } else {
            WinchState::Idle
        },
        update_releases(WinchState::UnderTension, anchored, pulled_in) == (anchored && pulled_in),
        !update_releases(WinchState::Idle, anchored, pulled_in),
        !update_releases(WinchState::Extending, anchored, pulled_in),
        !update_releases(WinchState::Retracting, anchored, pulled_in),
{
}

} // verus!
