//! Which animation an NPC plays. Speed tests are made on the physics side and
//! handed in as booleans.
use vstd::prelude::*;

verus! {

/// The animation states of an NPC.
#[derive(Debug, Clone, Copy, PartialEq, Eq, Structural)]
pub enum NpcAnimationState {
    Standing,
    Airborne,
    Walking,
    Running,
    Dancing,
    Typing,
}

/// The animation clips of the NPC model.
#[derive(Debug, Clone, Copy, PartialEq, Eq, Structural)]
pub enum NpcClip {
    Idle,
    Walk,
    Run,
    Dance,
    Typing,
}

/// The state an NPC should be in: its locked state if it has one; otherwise
/// airborne when off the ground, running above running speed, walking when it
/// moves at all, and standing when it does not.
pub open spec fn spec_desired_state(lock: Option<NpcAnimationState>, grounded: bool, above_run_speed: bool, moving: bool) -> NpcAnimationState {
    match lock {
        Some(state) => state,
        None => if !grounded {
            NpcAnimationState::Airborne
        } else if above_run_speed {
            NpcAnimationState::Running
        } else if moving {
            NpcAnimationState::Walking
        } else {
            NpcAnimationState::Standing
        },
    }
}

/// The state an NPC should be in this frame.
pub fn desired_state(lock: Option<NpcAnimationState>, grounded: bool, above_run_speed: bool, moving: bool) -> (r: NpcAnimationState)
    ensures
        r == spec_desired_state(lock, grounded, above_run_speed, moving),
{
    match lock {
        Some(state) => state,
        None => if !grounded {
            NpcAnimationState::Airborne
        } else if above_run_speed {
            NpcAnimationState::Running
        } else if moving {
            NpcAnimationState::Walking
        } else {
            NpcAnimationState::Standing
        },
    }
}

/// The clip that a state plays on repeat, and the cross-fade into it in
/// milliseconds.
pub open spec fn spec_transition(state: NpcAnimationState) -> (NpcClip, u64) {
    match state {
        NpcAnimationState::Airborne => (NpcClip::Run, 200),
        NpcAnimationState::Standing => (NpcClip::Idle, 500),
        NpcAnimationState::Walking => (NpcClip::Walk, 300),
        NpcAnimationState::Running => (NpcClip::Run, 400),
        NpcAnimationState::Dancing => (NpcClip::Dance, 800),
        NpcAnimationState::Typing => (NpcClip::Typing, 100),
    }
}

/// The transition to play when an NPC in state `current` should be in state
/// `desired`: none when the state is kept, else the clip of the new state and
/// its cross-fade.
pub fn animation_transition(current: NpcAnimationState, desired: NpcAnimationState) -> (r: Option<(NpcClip, u64)>)
    ensures
        r == (if current == desired { None } else { Some(spec_transition(desired)) }),
        r is None <==> current == desired,
        r matches Some((clip, _)) ==> {
            &&& clip == NpcClip::Idle <==> desired == NpcAnimationState::Standing
            &&& clip == NpcClip::Walk <==> desired == NpcAnimationState::Walking
            &&& clip == NpcClip::Run <==> (desired == NpcAnimationState::Running || desired == NpcAnimationState::Airborne)
            &&& clip == NpcClip::Dance <==> desired == NpcAnimationState::Dancing
            &&& clip == NpcClip::Typing <==> desired == NpcAnimationState::Typing
        },
{
    proof {
        lemma_each_state_plays_its_clip(desired);
    }
    if current == desired {
        return None;
    }
    Some(
        match desired {
            NpcAnimationState::Airborne => (NpcClip::Run, 200),
            NpcAnimationState::Standing => (NpcClip::Idle, 500),
            NpcAnimationState::Walking => (NpcClip::Walk, 300),
            NpcAnimationState::Running => (NpcClip::Run, 400),
            NpcAnimationState::Dancing => (NpcClip::Dance, 800),
            NpcAnimationState::Typing => (NpcClip::Typing, 100),
        },
    )
}

/// Each state plays its own clip: standing plays the idle clip, walking the
/// walk clip, dancing the dance clip and typing the typing clip; running and
/// being airborne play the run clip; no two other states share a clip.
pub proof fn lemma_each_state_plays_its_clip(state: NpcAnimationState)
    ensures
        spec_transition(state).0 == NpcClip::Idle <==> state == NpcAnimationState::Standing,
        spec_transition(state).0 == NpcClip::Walk <==> state == NpcAnimationState::Walking,
        spec_transition(state).0 == NpcClip::Run <==> (state == NpcAnimationState::Running || state == NpcAnimationState::Airborne),
        spec_transition(state).0 == NpcClip::Dance <==> state == NpcAnimationState::Dancing,
        spec_transition(state).0 == NpcClip::Typing <==> state == NpcAnimationState::Typing,
{
}

/// A lock decides the state whatever the motion; without a lock an NPC on the
/// ground that does not move stands.
pub proof fn lemma_lock_wins(lock: NpcAnimationState, grounded: bool, above_run_speed: bool, moving: bool)
    ensures
        spec_desired_state(Some(lock), grounded, above_run_speed, moving) == lock,
        spec_desired_state(None, true, false, false) == NpcAnimationState::Standing,
{
}

/// The state of an NPC: a lock decides it; without one, it is airborne exactly
/// when off the ground, running exactly when on the ground above running speed,
/// walking exactly when on the ground, below running speed and moving, and
/// standing exactly when on the ground and still. Dancing and typing come only
/// from a lock.
pub proof fn lemma_desired_state_laws(lock: Option<NpcAnimationState>, grounded: bool, above_run_speed: bool, moving: bool)
    ensures
        lock matches Some(l) ==> spec_desired_state(lock, grounded, above_run_speed, moving) == l,
        lock is None ==> {
            let s = spec_desired_state(lock, grounded, above_run_speed, moving);
            &&& s == NpcAnimationState::Airborne <==> !grounded
            &&& s == NpcAnimationState::Running <==> (grounded && above_run_speed)
            &&& s == NpcAnimationState::Walking <==> (grounded && !above_run_speed && moving)
            &&& s == NpcAnimationState::Standing <==> (grounded && !above_run_speed && !moving)
            &&& s != NpcAnimationState::Dancing
            &&& s != NpcAnimationState::Typing
        },
{
}

} // verus!
