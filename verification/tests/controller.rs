use motion_controller::air_actions::{ActionKind, AirActionsTracker};
use motion_controller::controls::{
    apply_controls, direction_from_input, ActionCommand, CameraBasis,
    CharacterMotionConfigForPlatformerExample, CrouchActionState, MotionIntent,
};
use motion_controller::fall_through::{
    FallThroughHelperState, FallingThroughControlScheme, GhostSurfaceReading,
    ProximitySensorState,
};
use motion_controller::math::{ceil_sqrt, clamp_length_max_unit, normalize_or_zero, Vec2Fixed};

fn example_config() -> CharacterMotionConfigForPlatformerExample {
    CharacterMotionConfigForPlatformerExample {
        speed: 20_000,
        float_height: 2_000,
        actions_in_air: 1,
        jump_height: 4_000,
        crouch_float_offset: -900,
        dash_distance: 10_000,
    }
}

fn still_crouching_after(
    scheme: FallingThroughControlScheme,
    crouch: bool,
    crouch_just_pressed: bool,
    helper: &mut FallThroughHelperState,
    sensor: &mut ProximitySensorState,
    ghosts: &Vec<GhostSurfaceReading>,
) -> bool {
    scheme.perform_and_check_if_still_crouching(
        crouch,
        crouch_just_pressed,
        helper,
        sensor,
        ghosts,
        1000,
    )
}

#[test]
fn empty_ghost_set_never_redirects() {
    let ghosts: Vec<GhostSurfaceReading> = Vec::new();
    for scheme in [
        FallingThroughControlScheme::JumpThroughOnly,
        FallingThroughControlScheme::WithoutHelper,
        FallingThroughControlScheme::SingleFall,
        FallingThroughControlScheme::KeepFalling,
    ] {
        for crouch in [false, true] {
            let mut helper = FallThroughHelperState::new();
            let mut sensor = ProximitySensorState { selected: None };
            let flag = still_crouching_after(scheme, crouch, crouch, &mut helper, &mut sensor, &ghosts);
            assert_eq!(flag, crouch);
            assert_eq!(sensor.selected, None);
        }
    }
}

#[test]
fn jump_through_only_redirects_to_first_qualifying() {
    let ghosts = vec![
        GhostSurfaceReading { surface: 7, proximity: 500 },
        GhostSurfaceReading { surface: 8, proximity: 1500 },
        GhostSurfaceReading { surface: 9, proximity: 2500 },
    ];
    for crouch in [false, true] {
        let mut helper = FallThroughHelperState::new();
        let mut sensor = ProximitySensorState { selected: None };
        let flag = still_crouching_after(
            FallingThroughControlScheme::JumpThroughOnly,
            crouch,
            false,
            &mut helper,
            &mut sensor,
            &ghosts,
        );
        assert_eq!(flag, crouch);
        assert_eq!(sensor.selected, Some(GhostSurfaceReading { surface: 8, proximity: 1500 }));
        assert_eq!(helper.falling_through, None);
    }
}

#[test]
fn without_helper_falls_through_on_crouch() {
    let ghosts = vec![GhostSurfaceReading { surface: 3, proximity: 1200 }];
    let mut helper = FallThroughHelperState::new();
    let mut sensor = ProximitySensorState { selected: None };
    let flag = still_crouching_after(
        FallingThroughControlScheme::WithoutHelper,
        true,
        true,
        &mut helper,
        &mut sensor,
        &ghosts,
    );
    assert!(!flag);
    assert_eq!(helper.falling_through, None);
    assert_eq!(sensor.selected, None);
}

#[test]
fn without_helper_keeps_crouch_without_qualifying_reading() {
    let ghosts = vec![GhostSurfaceReading { surface: 3, proximity: 400 }];
    let mut helper = FallThroughHelperState::new();
    let mut sensor = ProximitySensorState { selected: None };
    let flag = still_crouching_after(
        FallingThroughControlScheme::WithoutHelper,
        true,
        true,
        &mut helper,
        &mut sensor,
        &ghosts,
    );
    assert!(flag);
    assert_eq!(sensor.selected, None);
}

#[test]
fn without_helper_redirects_to_first_qualifying_when_not_crouching() {
    let ghosts = vec![
        GhostSurfaceReading { surface: 1, proximity: 1100 },
        GhostSurfaceReading { surface: 2, proximity: 900 },
        GhostSurfaceReading { surface: 3, proximity: 1300 },
    ];
    let mut helper = FallThroughHelperState::new();
    let mut sensor = ProximitySensorState { selected: None };
    let flag = still_crouching_after(
        FallingThroughControlScheme::WithoutHelper,
        false,
        false,
        &mut helper,
        &mut sensor,
        &ghosts,
    );
    assert!(!flag);
    // The first reading at or beyond the threshold wins, as under
    // JumpThroughOnly; the nearer reading on surface 2 does not qualify.
    assert_eq!(sensor.selected, Some(GhostSurfaceReading { surface: 1, proximity: 1100 }));
}

#[test]
fn single_fall_drops_once_per_press() {
    let ghosts = vec![GhostSurfaceReading { surface: 5, proximity: 1500 }];
    let mut helper = FallThroughHelperState::new();
    let mut sensor = ProximitySensorState { selected: None };

    // A fresh press over a qualifying platform starts the fall episode.
    let flag1 = still_crouching_after(
        FallingThroughControlScheme::SingleFall,
        true,
        true,
        &mut helper,
        &mut sensor,
        &ghosts,
    );
    assert!(!flag1);
    assert_eq!(helper.falling_through, Some(5));
    assert_eq!(sensor.selected, None);

    // Holding crouch the next frame continues the episode without a new
    // decision: same answer, same latch, still no redirection.
    let flag2 = still_crouching_after(
        FallingThroughControlScheme::SingleFall,
        true,
        false,
        &mut helper,
        &mut sensor,
        &ghosts,
    );
    assert!(!flag2);
    assert_eq!(helper.falling_through, Some(5));
    assert_eq!(sensor.selected, None);
}

#[test]
fn single_fall_without_press_stands_on_platform() {
    let ghosts = vec![GhostSurfaceReading { surface: 5, proximity: 1500 }];
    let mut helper = FallThroughHelperState::new();
    let mut sensor = ProximitySensorState { selected: None };
    let flag = still_crouching_after(
        FallingThroughControlScheme::SingleFall,
        true,
        false,
        &mut helper,
        &mut sensor,
        &ghosts,
    );
    assert!(flag);
    assert_eq!(helper.falling_through, None);
    assert_eq!(sensor.selected, Some(GhostSurfaceReading { surface: 5, proximity: 1500 }));
}

#[test]
fn single_fall_release_clears_latch() {
    let ghosts = vec![GhostSurfaceReading { surface: 5, proximity: 1500 }];
    let mut helper = FallThroughHelperState::new();
    let mut sensor = ProximitySensorState { selected: None };
    let flag1 = still_crouching_after(
        FallingThroughControlScheme::SingleFall,
        true,
        true,
        &mut helper,
        &mut sensor,
        &ghosts,
    );
    assert!(!flag1);
    assert_eq!(helper.falling_through, Some(5));
    // Crouch released: the latch clears; the surface still being fallen
    // through is not selected again.
    let flag2 = still_crouching_after(
        FallingThroughControlScheme::SingleFall,
        false,
        false,
        &mut helper,
        &mut sensor,
        &ghosts,
    );
    assert!(!flag2);
    assert_eq!(helper.falling_through, None);
    assert_eq!(sensor.selected, None);
}

#[test]
fn keep_falling_retriggers_every_frame() {
    let ghosts = vec![
        GhostSurfaceReading { surface: 5, proximity: 1500 },
        GhostSurfaceReading { surface: 6, proximity: 1500 },
    ];
    let mut helper = FallThroughHelperState::new();
    let mut sensor = ProximitySensorState { selected: None };
    for _frame in 0..4 {
        let flag = still_crouching_after(
            FallingThroughControlScheme::KeepFalling,
            true,
            false,
            &mut helper,
            &mut sensor,
            &ghosts,
        );
        assert!(!flag);
        assert_eq!(sensor.selected, None);
    }
    assert_eq!(helper.falling_through, Some(5));
}

#[test]
fn single_fall_episode_outlasts_a_new_platform_in_range() {
    // A fall committed to surface 5 is idempotent while 5 is sensed: a
    // new platform coming into range does not interrupt the episode; the
    // character lands on it only once 5 is out of range.
    let mut helper = FallThroughHelperState::new();
    let mut sensor = ProximitySensorState { selected: None };
    let ghosts1 = vec![GhostSurfaceReading { surface: 5, proximity: 1500 }];
    let flag1 = still_crouching_after(
        FallingThroughControlScheme::SingleFall,
        true,
        true,
        &mut helper,
        &mut sensor,
        &ghosts1,
    );
    assert!(!flag1);
    assert_eq!(helper.falling_through, Some(5));

    // Surface 4 appears ahead of 5 in sensing order while 5 still
    // qualifies: no new decision, no redirection, the latch stands.
    let ghosts2 = vec![
        GhostSurfaceReading { surface: 4, proximity: 1100 },
        GhostSurfaceReading { surface: 5, proximity: 2500 },
    ];
    let flag2 = still_crouching_after(
        FallingThroughControlScheme::SingleFall,
        true,
        false,
        &mut helper,
        &mut sensor,
        &ghosts2,
    );
    assert!(!flag2);
    assert_eq!(helper.falling_through, Some(5));
    assert_eq!(sensor.selected, None);

    // Surface 5 leaves sensing range: the episode is over, and without a
    // fresh press the character stands on the new platform.
    let ghosts3 = vec![GhostSurfaceReading { surface: 4, proximity: 1100 }];
    let flag3 = still_crouching_after(
        FallingThroughControlScheme::SingleFall,
        true,
        false,
        &mut helper,
        &mut sensor,
        &ghosts3,
    );
    assert!(flag3);
    assert_eq!(helper.falling_through, None);
    assert_eq!(sensor.selected, Some(GhostSurfaceReading { surface: 4, proximity: 1100 }));
}

#[test]
fn keep_falling_drops_through_successive_platforms() {
    // Holding crouch under KeepFalling latches each platform in turn.
    let mut helper = FallThroughHelperState::new();
    let mut sensor = ProximitySensorState { selected: None };
    let ghosts1 = vec![GhostSurfaceReading { surface: 5, proximity: 1500 }];
    let flag1 = still_crouching_after(
        FallingThroughControlScheme::KeepFalling,
        true,
        false,
        &mut helper,
        &mut sensor,
        &ghosts1,
    );
    assert!(!flag1);
    assert_eq!(helper.falling_through, Some(5));
    let ghosts2 = vec![GhostSurfaceReading { surface: 6, proximity: 1200 }];
    let flag2 = still_crouching_after(
        FallingThroughControlScheme::KeepFalling,
        true,
        false,
        &mut helper,
        &mut sensor,
        &ghosts2,
    );
    assert!(!flag2);
    assert_eq!(helper.falling_through, Some(6));
    assert_eq!(sensor.selected, None);
}

#[test]
fn air_budget_denies_second_air_jump_and_resets_on_landing() {
    // actions_in_air = 1: one extra air use beyond the jump that left the
    // ground.
    let limit: u64 = 1;
    let mut tracker = AirActionsTracker::new();

    tracker.update(true, None);
    assert_eq!(tracker.air_count_for(ActionKind::Jump), 0);

    // The jump that leaves the ground registers once airborne.
    tracker.update(false, Some(ActionKind::Jump));
    assert_eq!(tracker.air_count_for(ActionKind::Jump), 1);
    assert!(tracker.allow_in_air(ActionKind::Jump, limit));

    // First in-air re-jump is granted and registers.
    tracker.update(false, Some(ActionKind::Jump));
    assert_eq!(tracker.air_count_for(ActionKind::Jump), 2);
    // Second in-air request is refused.
    assert!(!tracker.allow_in_air(ActionKind::Jump, limit));

    // Landing resets the counter; one air jump is permitted again.
    tracker.update(true, None);
    assert_eq!(tracker.air_count_for(ActionKind::Jump), 0);
    tracker.update(false, Some(ActionKind::Jump));
    assert!(tracker.allow_in_air(ActionKind::Jump, limit));
}

#[test]
fn air_budget_counts_actions_independently() {
    let mut tracker = AirActionsTracker::new();
    tracker.update(false, Some(ActionKind::Jump));
    tracker.update(false, Some(ActionKind::Dash));
    tracker.update(false, None);
    assert_eq!(tracker.air_count_for(ActionKind::Jump), 1);
    assert_eq!(tracker.air_count_for(ActionKind::Dash), 1);
    assert_eq!(tracker.air_count_for(ActionKind::Crouch), 0);
}

#[test]
fn ceil_sqrt_exact_values() {
    assert_eq!(ceil_sqrt(0), 0);
    assert_eq!(ceil_sqrt(1), 1);
    assert_eq!(ceil_sqrt(2), 2);
    assert_eq!(ceil_sqrt(4), 2);
    assert_eq!(ceil_sqrt(1_000_000), 1000);
    assert_eq!(ceil_sqrt(2_000_000), 1415);
}

#[test]
fn diagonal_input_is_clamped_to_unit_length() {
    let basis = CameraBasis {
        flat_forward: Vec2Fixed { x: 0, z: -1000 },
        flat_right: Vec2Fixed { x: 1000, z: 0 },
    };
    // Forward and right held together: the raw sum (1000, -1000) has
    // squared length two, and is scaled back inside the unit circle.
    let d = direction_from_input(true, false, false, true, &basis);
    assert_eq!(d, Vec2Fixed { x: 706, z: -706 });
    assert!(d.x * d.x + d.z * d.z <= 1_000_000);
    // A single axis passes through unchanged.
    let d2 = direction_from_input(true, false, false, false, &basis);
    assert_eq!(d2, Vec2Fixed { x: 0, z: -1000 });
}

#[test]
fn opposing_keys_cancel_out() {
    let basis = CameraBasis {
        flat_forward: Vec2Fixed { x: 0, z: -1000 },
        flat_right: Vec2Fixed { x: 1000, z: 0 },
    };
    let d = direction_from_input(true, true, true, true, &basis);
    assert_eq!(d, Vec2Fixed { x: 0, z: 0 });
}

#[test]
fn direction_follows_a_rotated_camera_basis() {
    // A camera yawed an eighth of a turn: forward keys move diagonally in
    // world axes.
    let basis = CameraBasis {
        flat_forward: Vec2Fixed { x: 707, z: -707 },
        flat_right: Vec2Fixed { x: 707, z: 707 },
    };
    let d = direction_from_input(true, false, false, false, &basis);
    assert_eq!(d, Vec2Fixed { x: 707, z: -707 });
}

#[test]
fn clamp_keeps_short_vectors_unchanged() {
    let v = Vec2Fixed { x: 300, z: -400 };
    assert_eq!(clamp_length_max_unit(v), v);
    let n = normalize_or_zero(v);
    assert_eq!(n, Vec2Fixed { x: 600, z: -800 });
    assert_eq!(normalize_or_zero(Vec2Fixed { x: 0, z: 0 }), Vec2Fixed { x: 0, z: 0 });
}

fn compose(
    intent: &MotionIntent,
    active_crouch: Option<CrouchActionState>,
) -> motion_controller::controls::MotionCommand {
    let config = example_config();
    let scheme = FallingThroughControlScheme::SingleFall;
    let mut helper = FallThroughHelperState::new();
    let mut sensor = ProximitySensorState { selected: None };
    let ghosts: Vec<GhostSurfaceReading> = Vec::new();
    let mut tracker = AirActionsTracker::new();
    apply_controls(
        intent,
        &config,
        &scheme,
        active_crouch,
        true,
        None,
        &mut helper,
        &mut sensor,
        &ghosts,
        &mut tracker,
    )
}

fn plain_intent(direction: Vec2Fixed) -> MotionIntent {
    MotionIntent {
        direction,
        jump: false,
        dash: false,
        turn_in_place: false,
        crouch: false,
        crouch_just_pressed: false,
    }
}

#[test]
fn full_speed_walk_to_the_right() {
    // Base speed 20 units, direction purely right, no crouch: the basis
    // asks for velocity (20, 0, 0) at the full speed multiplier.
    let cmd = compose(&plain_intent(Vec2Fixed { x: 1000, z: 0 }), None);
    assert_eq!(cmd.basis.desired_velocity.x, 20_000);
    assert_eq!(cmd.basis.desired_velocity.y, 0);
    assert_eq!(cmd.basis.desired_velocity.z, 0);
    assert_eq!(cmd.basis.desired_forward.x, 1000);
    assert_eq!(cmd.basis.desired_forward.z, 0);
    assert_eq!(cmd.basis.float_height, 2_000);
    assert!(cmd.actions.is_empty());
}

#[test]
fn crouched_walk_applies_one_fifth_multiplier() {
    let cmd = compose(
        &plain_intent(Vec2Fixed { x: 1000, z: 0 }),
        Some(CrouchActionState::Maintaining),
    );
    assert_eq!(cmd.basis.desired_velocity.x, 4_000);
    assert_eq!(cmd.basis.desired_velocity.z, 0);
}

#[test]
fn rising_crouch_restores_full_speed() {
    let cmd = compose(
        &plain_intent(Vec2Fixed { x: 1000, z: 0 }),
        Some(CrouchActionState::Rising),
    );
    assert_eq!(cmd.basis.desired_velocity.x, 20_000);
}

#[test]
fn turn_in_place_zeroes_velocity_but_not_facing() {
    let mut intent = plain_intent(Vec2Fixed { x: 1000, z: 0 });
    intent.turn_in_place = true;
    let cmd = compose(&intent, None);
    assert_eq!(cmd.basis.desired_velocity.x, 0);
    assert_eq!(cmd.basis.desired_velocity.y, 0);
    assert_eq!(cmd.basis.desired_velocity.z, 0);
    assert_eq!(cmd.basis.desired_forward.x, 1000);
    assert_eq!(cmd.basis.desired_forward.z, 0);
}

#[test]
fn jump_and_dash_layers_carry_config_and_budget() {
    let mut intent = plain_intent(Vec2Fixed { x: 1000, z: 0 });
    intent.jump = true;
    intent.dash = true;
    let cmd = compose(&intent, None);
    assert_eq!(cmd.actions.len(), 2);
    match cmd.actions[0] {
        ActionCommand::Jump { height, allow_in_air } => {
            assert_eq!(height, 4_000);
            assert!(allow_in_air);
        }
        _ => panic!("expected a jump layer first"),
    }
    match cmd.actions[1] {
        ActionCommand::Dash { displacement, desired_forward, allow_in_air } => {
            assert_eq!(displacement.x, 10_000);
            assert_eq!(displacement.y, 0);
            assert_eq!(displacement.z, 0);
            assert_eq!(desired_forward.x, 1000);
            assert_eq!(desired_forward.z, 0);
            assert!(allow_in_air);
        }
        _ => panic!("expected a dash layer second"),
    }
}

#[test]
fn crouch_layer_carries_configured_offset() {
    let config = example_config();
    let scheme = FallingThroughControlScheme::SingleFall;
    let mut helper = FallThroughHelperState::new();
    let mut sensor = ProximitySensorState { selected: None };
    // A qualifying platform with no fresh press: the arbitration blocks
    // the drop, so the character stays crouching on the platform.
    let ghosts = vec![GhostSurfaceReading { surface: 4, proximity: 1500 }];
    let mut tracker = AirActionsTracker::new();
    let mut intent = plain_intent(Vec2Fixed { x: 0, z: 0 });
    intent.crouch = true;
    let cmd = apply_controls(
        &intent,
        &config,
        &scheme,
        None,
        true,
        None,
        &mut helper,
        &mut sensor,
        &ghosts,
        &mut tracker,
    );
    assert_eq!(cmd.actions.len(), 1);
    match cmd.actions[0] {
        ActionCommand::Crouch { float_offset } => assert_eq!(float_offset, -900),
        _ => panic!("expected a crouch layer"),
    }
    assert_eq!(sensor.selected, Some(GhostSurfaceReading { surface: 4, proximity: 1500 }));
}

#[test]
fn zero_direction_requests_no_facing_change_and_no_dash_motion() {
    let mut intent = plain_intent(Vec2Fixed { x: 0, z: 0 });
    intent.dash = true;
    let cmd = compose(&intent, None);
    assert_eq!(cmd.basis.desired_forward.x, 0);
    assert_eq!(cmd.basis.desired_forward.z, 0);
    match cmd.actions[0] {
        ActionCommand::Dash { displacement, .. } => {
            assert_eq!(displacement.x, 0);
            assert_eq!(displacement.z, 0);
        }
        _ => panic!("expected a dash layer"),
    }
}
