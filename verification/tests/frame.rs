use drone_target::beam::{Beam, Stats as BeamStats};
use drone_target::drone::{control, exile, FrameInput, Stats};
use drone_target::input::InputState;
use drone_target::lifecycle::ToExile;
use drone_target::vec3::Vec3;

fn frame_at(position: Vec3) -> FrameInput {
    FrameInput {
        position,
        velocity: Vec3::zero(),
        fwd: Vec3::new(1_000, 0, 0),
        side: Vec3::new(0, 0, 1_000),
        delta_axis: Vec3::zero(),
        delta_angle: 0,
    }
}

fn one_beam() -> Vec<Beam> {
    vec![Beam { stats: BeamStats::default(), position: Vec3::zero() }]
}

#[test]
fn medium_band_frame() {
    // a drone 50 units from the hazard: slow charge, no damage
    let mut stats = Stats::default();
    let mut to_exile = ToExile::new();
    let fx = control(
        &mut stats,
        1,
        &frame_at(Vec3::new(50_000, 0, 0)),
        &InputState::released(),
        &one_beam(),
        false,
        &mut to_exile,
    );
    assert_eq!(stats.charge, 50);
    assert_eq!(stats.health, 100_000);
    assert_eq!(stats.dist_to_beam, 50_000);
    assert_eq!(stats.x, 50_000);
    assert!(!fx.marked);
    assert!(!fx.camera_follow);
    assert!(fx.forces.is_none());
    assert_eq!(to_exile.entity_list.len(), 0);
}

#[test]
fn far_zone_drains_until_removal() {
    // 200 units out, past the far radius: 0.2 health per frame, removal
    // scheduled the frame health reaches zero
    let mut stats = Stats::default();
    let mut to_exile = ToExile::new();
    let frame = frame_at(Vec3::new(200_000, 0, 0));
    let beams = one_beam();
    let input = InputState::released();
    for i in 1..=499 {
        let fx = control(&mut stats, 7, &frame, &input, &beams, false, &mut to_exile);
        assert_eq!(stats.health, 100_000 - 200 * i);
        assert!(!fx.marked);
        assert_eq!(stats.charge, 0);
    }
    let fx = control(&mut stats, 7, &frame, &input, &beams, false, &mut to_exile);
    assert_eq!(stats.health, 0);
    assert!(fx.marked);
    assert_eq!(to_exile.entity_list, vec![7]);

    // marking again on the next frame does not duplicate the entry
    let fx2 = control(&mut stats, 7, &frame, &input, &beams, false, &mut to_exile);
    assert!(fx2.marked);
    assert_eq!(to_exile.entity_list, vec![7]);
}

#[test]
fn health_just_above_zero_is_not_marked() {
    let mut stats = Stats::default();
    stats.health = 210;
    let mut to_exile = ToExile::new();
    let fx = control(
        &mut stats,
        3,
        &frame_at(Vec3::new(200_000, 0, 0)),
        &InputState::released(),
        &one_beam(),
        false,
        &mut to_exile,
    );
    // at 0.01 of a point the drone still lives
    assert_eq!(stats.health, 10);
    assert!(!fx.marked);
    assert_eq!(to_exile.entity_list.len(), 0);
}

#[test]
fn god_mode_restores_the_player_only() {
    // the player is healed in the same frame the far zone drove it down
    let mut player = Stats { is_player: true, ..Stats::default() };
    player.health = 200;
    let mut to_exile = ToExile::new();
    let fx = control(
        &mut player,
        1,
        &frame_at(Vec3::new(200_000, 0, 0)),
        &InputState::released(),
        &one_beam(),
        true,
        &mut to_exile,
    );
    assert_eq!(player.health, 100_000);
    assert!(!fx.marked);
    assert!(fx.camera_follow);

    // a bot with the same state is not helped
    let mut bot = Stats::default();
    bot.health = 200;
    let fx = control(
        &mut bot,
        2,
        &frame_at(Vec3::new(200_000, 0, 0)),
        &InputState::released(),
        &one_beam(),
        true,
        &mut to_exile,
    );
    assert_eq!(bot.health, 0);
    assert!(fx.marked);
}

#[test]
fn player_forces_flow_through_the_frame() {
    let mut player = Stats { is_player: true, charge: 1_000, ..Stats::default() };
    let mut to_exile = ToExile::new();
    let mut input = InputState::released();
    input.move_forward = true;
    let fx = control(
        &mut player,
        1,
        &frame_at(Vec3::new(50_000, 0, 0)),
        &input,
        &one_beam(),
        false,
        &mut to_exile,
    );
    let forces = fx.forces.expect("the player is driven");
    assert_eq!(forces.thrust, Some(Vec3::new(1_000, 0, 0)));
    // 50 paid for movement, 50 gained back in the medium band
    assert_eq!(player.charge, 1_000);
}

#[test]
fn two_beams_apply_in_order() {
    let mut stats = Stats::default();
    let mut to_exile = ToExile::new();
    let beams = vec![
        Beam { stats: BeamStats::default(), position: Vec3::zero() },
        Beam { stats: BeamStats::default(), position: Vec3::new(40_000, 0, 0) },
    ];
    control(
        &mut stats,
        1,
        &frame_at(Vec3::new(50_000, 0, 0)),
        &InputState::released(),
        &beams,
        false,
        &mut to_exile,
    );
    // medium band of the first beam, near band of the second
    assert_eq!(stats.charge, 550);
    assert_eq!(stats.health, 99_800);
    // the last beam's distance is the one on record
    assert_eq!(stats.dist_to_beam, 10_000);
}

#[test]
fn marking_is_stable_and_sweep_selects_the_marked() {
    let mut to_exile = ToExile::new();
    to_exile.mark(5);
    to_exile.mark(9);
    to_exile.mark(5);
    assert_eq!(to_exile.entity_list, vec![5, 9]);
    assert!(to_exile.contains(5));
    assert!(!to_exile.contains(6));

    let present = vec![1, 5, 6, 9, 12];
    let removed = exile(&present, &to_exile);
    assert_eq!(removed, vec![5, 9]);

    to_exile.clear();
    assert_eq!(to_exile.entity_list.len(), 0);
    assert_eq!(exile(&present, &to_exile), Vec::<u64>::new());
}
