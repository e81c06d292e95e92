//! The rules that drive a hinged door's spring motor. The angle tests themselves
//! (closed, closing, which side the player is on) are made on the physics side
//! and handed in as booleans.
use vstd::prelude::*;

verus! {

/// The state of a door's hinge that the rules change.
#[derive(Debug, Clone, Copy, PartialEq, Eq, Structural)]
pub struct HingeState {
    /// The dominance of the door panel: 1 holds it against bodies pushing it.
    pub dominance: i8,
    /// Whether the spring motor that pulls the door shut is enabled.
    pub motor_enabled: bool,
}

/// The hinge state after a physics step.
pub open spec fn spec_close_step(state: HingeState, is_closed: bool, is_closing: bool) -> HingeState {
    HingeState {
        dominance: if is_closed { 1i8 } else { 0i8 },
        motor_enabled: state.motor_enabled || (is_closed && is_closing),
    }
}

/// The hinge state after a physics step: a closed door gets dominance 1 and,
/// while it is still swinging shut, its motor; an open door gets dominance 0.
pub fn close_door_step(state: HingeState, is_closed: bool, is_closing: bool) -> (r: HingeState)
    ensures
        r == spec_close_step(state, is_closed, is_closing),
{
    if is_closed {
        HingeState { dominance: 1, motor_enabled: if is_closing { true } else { state.motor_enabled } }
    } else {
        HingeState { dominance: 0, motor_enabled: state.motor_enabled }
    }
}

/// The motor after the door's settings change.
pub open spec fn spec_lock_step(locked: bool, motor_enabled: bool) -> bool {
    motor_enabled || locked
}

/// The motor after the blocked check.
pub open spec fn spec_blocked_step(locked: bool, motor_enabled: bool, force_over_limit: bool) -> bool {
    motor_enabled && (locked || !force_over_limit)
}

/// The motor after the door's settings change: a locked door's motor is enabled.
pub fn lock_step(locked: bool, motor_enabled: bool) -> (r: bool)
    ensures
        r == spec_lock_step(locked, motor_enabled),
        locked ==> r,
        !locked ==> r == motor_enabled,
{
    proof {
        lemma_lock_step_only_enables(locked, motor_enabled);
    }
    if locked {
        true
    } else {
        motor_enabled
    }
}

/// The motor after checking for a blocked door: an unlocked door whose enabled
/// motor pushes harder than the limit gives up closing.
pub fn blocked_step(locked: bool, motor_enabled: bool, force_over_limit: bool) -> (r: bool)
    ensures
        r == spec_blocked_step(locked, motor_enabled, force_over_limit),
{
    if !locked && motor_enabled && force_over_limit {
        false
    } else {
        motor_enabled
    }
}

/// The effect of the player interacting with a door: whether its motor is
/// enabled afterwards, and the sign of the angular impulse about the up axis.
#[derive(Debug, Clone, Copy, PartialEq, Eq, Structural)]
pub struct DoorPush {
    pub motor_enabled: bool,
    pub torque_sign: i8,
}

/// A closed door is pushed open away from the player with its motor off; an
/// open door has its motor turned on and is pushed back towards closed.
pub fn interact_with_door(is_closed: bool, player_in_front: bool, angle_positive: bool) -> (r: DoorPush)
    ensures
        r.motor_enabled == !is_closed,
        is_closed ==> r.torque_sign == (if player_in_front { -1i8 } else { 1i8 }),
        !is_closed ==> r.torque_sign == (if angle_positive { -1i8 } else { 1i8 }),
{
    if is_closed {
        DoorPush { motor_enabled: false, torque_sign: if player_in_front { -1 } else { 1 } }
    } else {
        DoorPush { motor_enabled: true, torque_sign: if angle_positive { -1 } else { 1 } }
    }
}

/// Whether a model part is named as the door panel.
pub open spec fn is_panel(name: Seq<char>) -> bool {
    name == "DoorPanel"@
}

/// Whether a model part is named as a doorknob.
pub open spec fn is_knob(name: Seq<char>) -> bool {
    name == "DoorknobFront"@ || name == "DoorknobBack"@
}

/// The doorknobs among named parts, in their order.
pub open spec fn knobs_of(parts: Seq<(u64, String)>) -> Seq<u64>
    decreases parts.len(),
{
    if parts.len() == 0 {
        Seq::empty()
    } else {
        let rest = knobs_of(parts.drop_last());
        if is_knob(parts.last().1@) {
            rest.push(parts.last().0)
        } else {
            rest
        }
    }
}

/// Whether position `i` holds the first part named as the door panel.
pub open spec fn is_first_panel(parts: Seq<(u64, String)>, i: int) -> bool {
    &&& 0 <= i < parts.len()
    &&& is_panel(parts[i].1@)
    &&& forall|j: int| 0 <= j < i ==> !is_panel(#[trigger] parts[j].1@)
}

/// The parts of a door model, among the named descendants of its scene in
/// their order: the first one named "DoorPanel", which becomes the moving
/// panel, and the doorknobs ("DoorknobFront", "DoorknobBack") in order, which
/// are attached to it. None when the model has no panel.
pub fn door_parts(parts: &Vec<(u64, String)>) -> (r: Option<(u64, Vec<u64>)>)
    ensures
        r is None <==> forall|i: int| 0 <= i < parts@.len() ==> !is_panel(#[trigger] parts@[i].1@),
        r matches Some((panel, knobs)) ==> {
            &&& exists|i: int| is_first_panel(parts@, i) && #[trigger] parts@[i].0 == panel
            &&& knobs@ == knobs_of(parts@)
        },
{
    let panel_name = "DoorPanel".to_owned();
    let front_name = "DoorknobFront".to_owned();
    let back_name = "DoorknobBack".to_owned();
    let mut panel: Option<u64> = None;
    let mut knobs: Vec<u64> = Vec::new();
    let mut i: usize = 0;
    while i < parts.len()
        invariant
            i <= parts.len(),
            panel_name@ == "DoorPanel"@,
            front_name@ == "DoorknobFront"@,
            back_name@ == "DoorknobBack"@,
            knobs@ == knobs_of(parts@.take(i as int)),
            panel is None <==> forall|j: int| 0 <= j < i ==> !is_panel(#[trigger] parts@[j].1@),
            panel matches Some(p) ==> exists|k: int| k < i && is_first_panel(parts@, k) && #[trigger] parts@[k].0 == p,
        decreases parts.len() - i,
    {
        proof {
            assert(parts@.take(i + 1).drop_last() == parts@.take(i as int));
        }
        let name = &parts[i].1;
        if panel.is_none() && *name == panel_name {
            assert(is_first_panel(parts@, i as int));
            panel = Some(parts[i].0);
        }
        if *name == front_name || *name == back_name {
            knobs.push(parts[i].0);
        }
        i = i + 1;
    }
    proof {
        assert(parts@.take(i as int) == parts@);
    }
    match panel {
        Some(p) => Some((p, knobs)),
        None => None,
    }
}

/// The lock step only ever turns the motor on: a locked door's motor is
/// enabled, and an unlocked door's motor is left as it was.
pub proof fn lemma_lock_step_only_enables(locked: bool, motor_enabled: bool)
    ensures
        spec_lock_step(true, motor_enabled),
        spec_lock_step(false, motor_enabled) == motor_enabled,
        motor_enabled ==> spec_lock_step(locked, motor_enabled),
{
}

/// A locked door's motor stays enabled: the lock step enables it, and neither
/// the blocked check nor the closing step turns it off.
pub proof fn lemma_locked_motor_stays_on(state: HingeState, force_over_limit: bool, is_closed: bool, is_closing: bool)
    ensures
        spec_lock_step(true, state.motor_enabled),
        spec_blocked_step(true, spec_lock_step(true, state.motor_enabled), force_over_limit),
        spec_close_step(
            HingeState { motor_enabled: spec_blocked_step(true, spec_lock_step(true, state.motor_enabled), force_over_limit), ..state },
            is_closed,
            is_closing,
        ).motor_enabled,
{
}

/// An unlocked door with an enabled motor that is blocked loses its motor, and
/// a door whose motor is off keeps it off through the blocked check.
pub proof fn lemma_blocked_unlocked_door_gives_up(motor_enabled: bool)
    ensures
        !spec_blocked_step(false, motor_enabled, true),
        !spec_blocked_step(true, false, true),
{
}

/// The close step: a door holds its position (dominance 1) exactly when it is
/// closed; it never turns the motor off; an open door, or a closed one that is
/// no longer swinging shut, keeps its motor as it was; and a closed door that
/// is still swinging shut gets its motor.
pub proof fn lemma_close_step_laws(state: HingeState, is_closed: bool, is_closing: bool)
    ensures
        spec_close_step(state, is_closed, is_closing).dominance == 1 <==> is_closed,
        spec_close_step(state, is_closed, is_closing).dominance == 0 <==> !is_closed,
        state.motor_enabled ==> spec_close_step(state, is_closed, is_closing).motor_enabled,
        !(is_closed && is_closing) ==> spec_close_step(state, is_closed, is_closing).motor_enabled == state.motor_enabled,
        is_closed && is_closing ==> spec_close_step(state, is_closed, is_closing).motor_enabled,
{
}

/// The blocked check only ever turns the motor off, and does so exactly for an
/// unlocked door whose enabled motor pushes harder than the limit.
pub proof fn lemma_blocked_step_laws(locked: bool, motor_enabled: bool, force_over_limit: bool)
    ensures
        spec_blocked_step(locked, motor_enabled, force_over_limit) ==> motor_enabled,
        locked ==> spec_blocked_step(locked, motor_enabled, force_over_limit) == motor_enabled,
        !force_over_limit ==> spec_blocked_step(locked, motor_enabled, force_over_limit) == motor_enabled,
        (!locked && force_over_limit) ==> !spec_blocked_step(locked, motor_enabled, force_over_limit),
{
}

} // verus!
