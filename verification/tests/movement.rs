use drone_target::drone::{control_player, Stats};
use drone_target::input::{Action, InputState};
use drone_target::vec3::Vec3;

fn player() -> Stats {
    Stats { is_player: true, ..Stats::default() }
}

fn fwd() -> Vec3 {
    Vec3::new(1_000, 0, 0)
}

fn side() -> Vec3 {
    Vec3::new(0, 0, 1_000)
}

fn run_frame(stats: &mut Stats, input: &InputState, velocity: Vec3) -> drone_target::drone::PlayerForces {
    control_player(stats, input, fwd(), side(), Vec3::zero(), 0, velocity)
}

#[test]
fn actions_map_to_the_snapshot() {
    let held = vec![Action::MoveForward, Action::Accelerate];
    let input = InputState::from_actions(&held, false);
    assert!(input.move_forward);
    assert!(input.accelerate);
    assert!(!input.move_backward);
    assert!(!input.move_left);
    assert!(!input.move_right);
    assert!(!input.strike);
    assert!(!input.strike_deactivated);

    let release = InputState::from_actions(&Vec::new(), true);
    assert!(release.strike_deactivated);
    assert_eq!(InputState::from_actions(&Vec::new(), false), InputState::released());
}

#[test]
fn accelerate_deducts_only_when_affordable() {
    // enough charge: the boost is paid for
    let mut stats = player();
    stats.charge = 100_000;
    let mut input = InputState::released();
    input.accelerate = true;
    run_frame(&mut stats, &input, Vec3::zero());
    assert_eq!(stats.charge, 99_750);

    // below the cost, nothing is deducted: the multiplier silently stays 1
    let mut poor = player();
    poor.charge = 100; // 0.1 of a point, below the 0.25 cost
    run_frame(&mut poor, &input, Vec3::zero());
    assert_eq!(poor.charge, 100);
}

#[test]
fn movement_costs_charge_and_requests_thrust() {
    let mut stats = player();
    stats.charge = 1_000;
    let mut input = InputState::released();
    input.move_forward = true;
    let forces = run_frame(&mut stats, &input, Vec3::zero());
    assert_eq!(stats.charge, 950);
    assert_eq!(forces.thrust, Some(Vec3::new(1_000, 0, 0)));
    assert_eq!(forces.drag, None);
    assert_eq!(forces.impulse, None);
}

#[test]
fn boosted_movement_scales_thrust() {
    let mut stats = player();
    stats.charge = 1_000;
    let mut input = InputState::released();
    input.move_forward = true;
    input.accelerate = true;
    let forces = run_frame(&mut stats, &input, Vec3::zero());
    // 250 for the boost, 50 for the movement
    assert_eq!(stats.charge, 700);
    assert_eq!(forces.thrust, Some(Vec3::new(10_000, 0, 0)));
}

#[test]
fn opposite_actions_cancel_and_cost_nothing() {
    let mut stats = player();
    stats.charge = 1_000;
    let mut input = InputState::released();
    input.move_forward = true;
    input.move_backward = true;
    let forces = run_frame(&mut stats, &input, Vec3::zero());
    assert_eq!(stats.charge, 1_000);
    assert_eq!(forces.thrust, None);
}

#[test]
fn movement_needs_charge() {
    let mut stats = player();
    stats.charge = 40; // below the 0.05-point cost
    let mut input = InputState::released();
    input.move_forward = true;
    let forces = run_frame(&mut stats, &input, Vec3::zero());
    assert_eq!(stats.charge, 40);
    assert_eq!(forces.thrust, None);
}

#[test]
fn cross_track_compensation_tilts_thrust() {
    let mut stats = player();
    stats.charge = 1_000;
    let mut input = InputState::released();
    input.move_forward = true;
    // drifting sideways while thrusting forward: the request leans against
    // the drift
    let forces = run_frame(&mut stats, &input, Vec3::new(0, 0, -20_000));
    assert_eq!(forces.thrust, Some(Vec3::new(707, 0, 707)));
}

#[test]
fn drag_kicks_in_past_the_floor() {
    let mut stats = player();
    let input = InputState::released();
    // at 20 units per frame the excess is 10 units: drag 1.2 points
    let forces = run_frame(&mut stats, &input, Vec3::new(0, 0, -20_000));
    assert_eq!(forces.drag, Some(Vec3::new(0, 0, 1_200)));

    // at the floor there is no drag
    let still = run_frame(&mut stats, &input, Vec3::new(0, 0, -10_000));
    assert_eq!(still.drag, None);
}

#[test]
fn torque_follows_the_orientation_delta() {
    let mut stats = player();
    let input = InputState::released();
    let forces = control_player(
        &mut stats,
        &input,
        fwd(),
        side(),
        Vec3::new(0, 1_000, 0),
        3_142,
        Vec3::zero(),
    );
    assert_eq!(forces.torque, Vec3::new(0, 157_100, 0));

    // an identity rotation (zero axis) asks for no torque
    let still = control_player(&mut stats, &input, fwd(), side(), Vec3::zero(), 0, Vec3::zero());
    assert_eq!(still.torque, Vec3::zero());
}

#[test]
fn strike_builds_and_releases() {
    let mut stats = player();
    stats.charge = 10_000;
    let mut held = InputState::released();
    held.strike = true;
    for _ in 0..4 {
        run_frame(&mut stats, &held, Vec3::zero());
    }
    assert_eq!(stats.strike_charge, 2_000);
    assert_eq!(stats.charge, 10_000);

    let mut release = InputState::released();
    release.strike_deactivated = true;
    let forces = run_frame(&mut stats, &release, Vec3::zero());
    // impulse = forward * reserve * 2
    assert_eq!(forces.impulse, Some(Vec3::new(4_000, 0, 0)));
    assert_eq!(stats.strike_charge, 0);
    assert_eq!(stats.charge, 8_000);
}

#[test]
fn strike_reserve_never_exceeds_charge() {
    let mut stats = player();
    stats.charge = 300;
    let mut held = InputState::released();
    held.strike = true;
    for _ in 0..10 {
        run_frame(&mut stats, &held, Vec3::zero());
        assert!(0 <= stats.strike_charge);
        assert!(stats.strike_charge <= stats.charge);
        assert!(stats.charge <= 100_000);
    }
    // clamped to the available charge every frame
    assert_eq!(stats.strike_charge, 300);
}

#[test]
fn release_is_clamped_by_available_charge() {
    let mut stats = player();
    stats.charge = 500;
    stats.strike_charge = 500;
    // the boost eats into the charge on the same frame the strike fires
    let mut input = InputState::released();
    input.accelerate = true;
    input.strike_deactivated = true;
    let forces = run_frame(&mut stats, &input, Vec3::zero());
    // 250 left after the boost; only that much can be spent
    assert_eq!(forces.impulse, Some(Vec3::new(500, 0, 0)));
    assert_eq!(stats.charge, 0);
    assert_eq!(stats.strike_charge, 0);
}
