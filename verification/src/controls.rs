//! The motion composer: once per frame it combines directional intent, the
//! speed multiplier of the current crouch posture, the fall-through
//! arbitration result and the air action budget into one basis command
//! plus zero or more layered action commands.

use vstd::prelude::*;
use crate::air_actions::{count_of, update_spec, ActionKind, AirActionsTracker};
use crate::fall_through::{
    arbitration_spec, FallThroughHelperState, FallingThroughControlScheme, GhostSurfaceReading,
    ProximitySensorState,
};
use crate::math::{
    clamp_length_max_unit, lemma_mag_sq_component_bound, normalize_or_zero, scale_component,
    spec_clamp_unit, spec_normalize_or_zero, trunc_div, vel_component, Vec2Fixed, Vec3Fixed,
    MAX_TUNABLE, SCALE,
};

verus! {

/// Proximity threshold the composer hands to the arbitration step: ghost
/// platforms closer than one unit are ignored.
pub const DEFAULT_MIN_PROXIMITY: i64 = 1000;

/// Speed multiplier, in thousandths, while crouched and not rising.
pub const CROUCH_SPEED_FACTOR: i64 = 200;

/// Per-character tunables, fixed at spawn time. Distances and speeds are
/// in thousandths of a unit.
#[derive(Clone, Copy, Debug, PartialEq, Eq, Structural)]
pub struct CharacterMotionConfigForPlatformerExample {
    /// Base ground speed.
    pub speed: i64,
    /// Target hover distance of the walk basis above the ground.
    pub float_height: i64,
    /// How many extra in-air uses of each one-shot action are allowed.
    pub actions_in_air: u64,
    /// Height of the jump action.
    pub jump_height: i64,
    /// Offset the crouch action sinks the float height by (negative).
    pub crouch_float_offset: i64,
    /// Length of the dash action's displacement.
    pub dash_distance: i64,
}

impl CharacterMotionConfigForPlatformerExample {
    /// Tunables the composer's arithmetic is proved against.
    pub open spec fn wf(self) -> bool {
        &&& 0 <= self.speed <= MAX_TUNABLE
        &&& 0 <= self.float_height <= MAX_TUNABLE
        &&& 0 <= self.jump_height <= MAX_TUNABLE
        &&& -MAX_TUNABLE <= self.crouch_float_offset <= MAX_TUNABLE
        &&& 0 <= self.dash_distance <= MAX_TUNABLE
    }
}

/// Directional intent and the one-shot requests of one frame, rebuilt from
/// input state every frame.
#[derive(Clone, Copy, Debug, PartialEq, Eq, Structural)]
pub struct MotionIntent {
    /// Ground-plane movement direction, clamped to unit length.
    pub direction: Vec2Fixed,
    pub jump: bool,
    pub dash: bool,
    pub turn_in_place: bool,
    pub crouch: bool,
    pub crouch_just_pressed: bool,
}

impl MotionIntent {
    /// The direction is within the unit circle, as `direction_from_input`
    /// guarantees.
    pub open spec fn wf(self) -> bool {
        self.direction.mag_sq() <= SCALE * SCALE
    }
}

/// Flattened forward and right vectors of a follow camera, each within
/// one unit of length.
#[derive(Clone, Copy, Debug, PartialEq, Eq, Structural)]
pub struct CameraBasis {
    pub flat_forward: Vec2Fixed,
    pub flat_right: Vec2Fixed,
}

impl CameraBasis {
    pub open spec fn wf(self) -> bool {
        &&& -SCALE <= self.flat_forward.x <= SCALE
        &&& -SCALE <= self.flat_forward.z <= SCALE
        &&& -SCALE <= self.flat_right.x <= SCALE
        &&& -SCALE <= self.flat_right.z <= SCALE
    }
}

impl Default for CameraBasis {
    /// World-axis frame used when no follow camera is present: forward is
    /// the negative `z` axis and right the positive `x` axis.
    fn default() -> (r: CameraBasis)
        ensures
            r.flat_forward.x == 0 && r.flat_forward.z == -SCALE,
            r.flat_right.x == SCALE && r.flat_right.z == 0,
            r.wf(),
    {
        CameraBasis {
            flat_forward: Vec2Fixed { x: 0, z: -SCALE },
            flat_right: Vec2Fixed { x: SCALE, z: 0 },
        }
    }
}

/// The unclamped sum of the held directional keys over the camera basis.
pub open spec fn spec_direction_sum(
    forward: bool,
    backward: bool,
    left: bool,
    right: bool,
    basis: CameraBasis,
) -> (int, int) {
    (
        (if forward {
            basis.flat_forward.x as int
        } else {
            0int
        }) - (if backward {
            basis.flat_forward.x as int
        } else {
            0int
        }) + (if right {
            basis.flat_right.x as int
        } else {
            0int
        }) - (if left {
            basis.flat_right.x as int
        } else {
            0int
        }),
        (if forward {
            basis.flat_forward.z as int
        } else {
            0int
        }) - (if backward {
            basis.flat_forward.z as int
        } else {
            0int
        }) + (if right {
            basis.flat_right.z as int
        } else {
            0int
        }) - (if left {
            basis.flat_right.z as int
        } else {
            0int
        }),
    )
}

/// Build the movement direction from the four held directional keys,
/// summed over the camera basis and clamped to unit length, so diagonal
/// input is never faster than a single axis.
pub fn direction_from_input(
    forward: bool,
    backward: bool,
    left: bool,
    right: bool,
    basis: &CameraBasis,
) -> (r: Vec2Fixed)
    requires
        basis.wf(),
    ensures
        ({
            let (sx, sz) = spec_direction_sum(forward, backward, left, right, *basis);
            (r.x as int, r.z as int) == spec_clamp_unit(sx, sz)
        }),
        r.mag_sq() <= SCALE * SCALE,
{
    let mut x: i64 = 0;
    let mut z: i64 = 0;
    if forward {
        x = x + basis.flat_forward.x;
        z = z + basis.flat_forward.z;
    }
    if backward {
        x = x - basis.flat_forward.x;
        z = z - basis.flat_forward.z;
    }
    if left {
        x = x - basis.flat_right.x;
        z = z - basis.flat_right.z;
    }
    if right {
        x = x + basis.flat_right.x;
        z = z + basis.flat_right.z;
    }
    clamp_length_max_unit(Vec2Fixed { x, z })
}

/// Sub-state of an active crouch action, reported by the physics layer.
#[derive(Clone, Copy, Debug, PartialEq, Eq, Structural)]
pub enum CrouchActionState {
    /// Lowering toward the crouched height.
    Sinking,
    /// Holding the crouched height.
    Maintaining,
    /// Standing back up.
    Rising,
}

/// Coarse animation posture derived from the motion state; ground speeds
/// are in thousandths of a unit.
#[derive(Clone, Copy, Debug, PartialEq, Eq)]
pub enum AnimationState {
    Standing,
    Running(i64),
    Jumping,
    Falling,
    Crouching,
    Crawling(i64),
    Dashing,
}

/// Speed multiplier of the frame, in thousandths: one fifth while in a
/// crouching-and-not-rising posture, full speed otherwise.
pub open spec fn spec_speed_factor(active_crouch: Option<CrouchActionState>) -> int {
    match active_crouch {
        Some(CrouchActionState::Rising) => SCALE as int,
        Some(CrouchActionState::Sinking) => CROUCH_SPEED_FACTOR as int,
        Some(CrouchActionState::Maintaining) => CROUCH_SPEED_FACTOR as int,
        None => SCALE as int,
    }
}

/// Desired horizontal velocity: zero while turning in place, otherwise
/// the direction scaled by the speed factor and the base speed.
pub open spec fn spec_desired_velocity(
    dir: Vec2Fixed,
    active_crouch: Option<CrouchActionState>,
    speed: i64,
    turn_in_place: bool,
) -> (int, int) {
    if turn_in_place {
        (0, 0)
    } else {
        let f = spec_speed_factor(active_crouch);
        (trunc_div(dir.x * f * speed, 1_000_000), trunc_div(dir.z * f * speed, 1_000_000))
    }
}

/// The normalized facing direction as a ground-plane vector.
pub open spec fn spec_forward_of(dir: Vec2Fixed) -> Vec2Fixed {
    let (nx, nz) = spec_normalize_or_zero(dir.x as int, dir.z as int);
    Vec2Fixed { x: nx as i64, z: nz as i64 }
}

/// The basis of the composed command: what the walk layer is asked to do.
#[derive(Clone, Copy, Debug, PartialEq, Eq, Structural)]
pub struct BasisCommand {
    pub desired_velocity: Vec3Fixed,
    pub desired_forward: Vec3Fixed,
    pub float_height: i64,
}

/// One layered one-shot action request.
#[derive(Clone, Copy, Debug, PartialEq, Eq, Structural)]
pub enum ActionCommand {
    /// Sink the float height by the configured offset. The consumer hands
    /// this layer to its crouch enforcer, which keeps the character from
    /// rising again under geometry without headroom; that clearance check
    /// belongs to the physics side, not to this controller.
    Crouch { float_offset: i64 },
    Jump { height: i64, allow_in_air: bool },
    Dash { displacement: Vec3Fixed, desired_forward: Vec3Fixed, allow_in_air: bool },
}

/// The full per-frame output: exactly one basis plus the ordered action
/// layers, consumed by the physics integrator and never kept.
#[derive(Clone, Debug, PartialEq, Eq)]
pub struct MotionCommand {
    pub basis: BasisCommand,
    pub actions: Vec<ActionCommand>,
}

/// The action layers of one frame, in order: a crouch layer while the
/// arbitration still reports crouching, a jump layer while jump is held,
/// a dash layer while dash is held. Each is gated only by its own
/// request; none blocks another.
pub open spec fn spec_action_layers(
    still_crouching: bool,
    jump: bool,
    dash: bool,
    config: CharacterMotionConfigForPlatformerExample,
    counter: AirActionsTracker,
    fwd: Vec2Fixed,
) -> Seq<ActionCommand> {
    let crouch_part: Seq<ActionCommand> = if still_crouching {
        seq![ActionCommand::Crouch { float_offset: config.crouch_float_offset }]
    } else {
        seq![]
    };
    let jump_part: Seq<ActionCommand> = if jump {
        seq![
            ActionCommand::Jump {
                height: config.jump_height,
                allow_in_air: count_of(counter, ActionKind::Jump) <= config.actions_in_air,
            },
        ]
    } else {
        seq![]
    };
    let dash_part: Seq<ActionCommand> = if dash {
        seq![
            ActionCommand::Dash {
                displacement: Vec3Fixed {
                    x: trunc_div(fwd.x * config.dash_distance, SCALE as int) as i64,
                    y: 0,
                    z: trunc_div(fwd.z * config.dash_distance, SCALE as int) as i64,
                },
                desired_forward: Vec3Fixed { x: fwd.x, y: 0, z: fwd.z },
                allow_in_air: count_of(counter, ActionKind::Dash) <= config.actions_in_air,
            },
        ]
    } else {
        seq![]
    };
    crouch_part + jump_part + dash_part
}

/// Law: turning in place forces the desired horizontal velocity to the
/// zero vector whatever the direction input and crouch posture, while the
/// desired facing never depends on turn-in-place at all — it is
/// `spec_forward_of` of the direction alone.
pub proof fn lemma_turn_in_place_zero_velocity(
    dir: Vec2Fixed,
    active_crouch: Option<CrouchActionState>,
    speed: i64,
)
    ensures
        spec_desired_velocity(dir, active_crouch, speed, true) == (0int, 0int),
{
}

/// Compose the motion command of one frame.
///
/// The air action counters absorb the frame's motion state first; the
/// fall-through arbitration then runs with a one-unit proximity threshold,
/// possibly redirecting the proximity sensor and updating the latch; the
/// basis and the action layers are built from what both decided.
pub fn apply_controls(
    intent: &MotionIntent,
    config: &CharacterMotionConfigForPlatformerExample,
    scheme: &FallingThroughControlScheme,
    active_crouch: Option<CrouchActionState>,
    grounded: bool,
    action_started: Option<ActionKind>,
    fall_through_helper: &mut FallThroughHelperState,
    proximity_sensor: &mut ProximitySensorState,
    ghost_sensor: &Vec<GhostSurfaceReading>,
    air_actions_counter: &mut AirActionsTracker,
) -> (cmd: MotionCommand)
    requires
        intent.wf(),
        config.wf(),
    ensures
        *final(air_actions_counter) == update_spec(*old(air_actions_counter), grounded, action_started),
        ({
            let o = arbitration_spec(
                *scheme,
                intent.crouch,
                intent.crouch_just_pressed,
                old(fall_through_helper).falling_through,
                old(proximity_sensor).selected,
                ghost_sensor@,
                DEFAULT_MIN_PROXIMITY as int,
            );
            let fwd = spec_forward_of(intent.direction);
            &&& final(fall_through_helper).falling_through == o.latch
            &&& final(proximity_sensor).selected == o.selected
            &&& cmd.basis.float_height == config.float_height
            &&& (cmd.basis.desired_velocity.x as int, cmd.basis.desired_velocity.z as int)
                == spec_desired_velocity(
                intent.direction,
                active_crouch,
                config.speed,
                intent.turn_in_place,
            )
            &&& cmd.basis.desired_velocity.y == 0
            &&& cmd.basis.desired_forward == (Vec3Fixed { x: fwd.x, y: 0, z: fwd.z })
            &&& cmd.actions@ == spec_action_layers(
                o.still_crouching,
                intent.jump,
                intent.dash,
                *config,
                update_spec(*old(air_actions_counter), grounded, action_started),
                fwd,
            )
        }),
{
    air_actions_counter.update(grounded, action_started);
    let still_crouching = scheme.perform_and_check_if_still_crouching(
        intent.crouch,
        intent.crouch_just_pressed,
        fall_through_helper,
        proximity_sensor,
        ghost_sensor,
        DEFAULT_MIN_PROXIMITY,
    );
    let factor: i64 = match active_crouch {
        Some(CrouchActionState::Rising) => SCALE,
        Some(CrouchActionState::Sinking) => CROUCH_SPEED_FACTOR,
        Some(CrouchActionState::Maintaining) => CROUCH_SPEED_FACTOR,
        None => SCALE,
    };
    proof {
        lemma_mag_sq_component_bound(intent.direction.x as int, intent.direction.z as int);
    }
    let desired_velocity: Vec3Fixed = if intent.turn_in_place {
        Vec3Fixed { x: 0, y: 0, z: 0 }
    } else {
        let vx = vel_component(intent.direction.x, factor, config.speed);
        let vz = vel_component(intent.direction.z, factor, config.speed);
        Vec3Fixed { x: vx, y: 0, z: vz }
    };
    let fwd2 = normalize_or_zero(intent.direction);
    let desired_forward = Vec3Fixed { x: fwd2.x, y: 0, z: fwd2.z };
    let mut actions: Vec<ActionCommand> = Vec::new();
    if still_crouching {
        actions.push(ActionCommand::Crouch { float_offset: config.crouch_float_offset });
    }
    if intent.jump {
        let allow = air_actions_counter.allow_in_air(ActionKind::Jump, config.actions_in_air);
        actions.push(ActionCommand::Jump { height: config.jump_height, allow_in_air: allow });
    }
    if intent.dash {
        let allow = air_actions_counter.allow_in_air(ActionKind::Dash, config.actions_in_air);
        let dx = scale_component(fwd2.x, config.dash_distance);
        let dz = scale_component(fwd2.z, config.dash_distance);
        actions.push(
            ActionCommand::Dash {
                displacement: Vec3Fixed { x: dx, y: 0, z: dz },
                desired_forward,
                allow_in_air: allow,
            },
        );
    }
    proof {
        let o = arbitration_spec(
            *scheme,
            intent.crouch,
            intent.crouch_just_pressed,
            old(fall_through_helper).falling_through,
            old(proximity_sensor).selected,
            ghost_sensor@,
            DEFAULT_MIN_PROXIMITY as int,
        );
        let fwd = spec_forward_of(intent.direction);
        assert(fwd2 == fwd);
        assert(actions@ =~= spec_action_layers(
            o.still_crouching,
            intent.jump,
            intent.dash,
            *config,
            update_spec(*old(air_actions_counter), grounded, action_started),
            fwd,
        ));
    }
    MotionCommand {
        basis: BasisCommand {
            desired_velocity,
            desired_forward,
            float_height: config.float_height,
        },
        actions,
    }
}

} // verus!

