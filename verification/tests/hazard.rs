use drone_target::beam::{gravity, zone_effects, Stats as BeamStats};
use drone_target::drone::Stats;
use drone_target::vec3::Vec3;

fn drone() -> Stats {
    Stats { charge: 10_000, ..Stats::default() }
}

#[test]
fn beam_defaults() {
    let b = BeamStats::default();
    assert_eq!(b.gravity_radius, 125_000);
    assert_eq!(b.gravity_max_force, 2_500);
    assert_eq!(b.radius_near, 25_000);
    assert_eq!(b.radius_medium, 75_000);
    assert_eq!(b.radius_far, 125_000);
}

#[test]
fn near_band_charges_fast_and_drains_health() {
    let mut s = drone();
    zone_effects(&mut s, &BeamStats::default(), 24_999);
    assert_eq!(s.charge, 10_500);
    assert_eq!(s.health, 99_800);
    assert_eq!(s.dist_to_beam, 24_999);
}

#[test]
fn medium_band_charges_slowly() {
    let mut s = drone();
    zone_effects(&mut s, &BeamStats::default(), 74_999);
    assert_eq!(s.charge, 10_050);
    assert_eq!(s.health, 100_000);
}

#[test]
fn far_zone_drains_health() {
    let mut s = drone();
    zone_effects(&mut s, &BeamStats::default(), 125_001);
    assert_eq!(s.charge, 10_000);
    assert_eq!(s.health, 99_800);
}

#[test]
fn band_boundaries_are_strict() {
    // at exactly the medium radius neither inner band fires
    let mut s = drone();
    zone_effects(&mut s, &BeamStats::default(), 75_000);
    assert_eq!(s.charge, 10_000);
    assert_eq!(s.health, 100_000);
    assert_eq!(s.dist_to_beam, 75_000);

    // at exactly the far radius the far penalty does not fire either
    let mut t = drone();
    zone_effects(&mut t, &BeamStats::default(), 125_000);
    assert_eq!(t.charge, 10_000);
    assert_eq!(t.health, 100_000);
    assert_eq!(t.dist_to_beam, 125_000);

    // at exactly the near radius the near band gives way to the medium one
    let mut u = drone();
    zone_effects(&mut u, &BeamStats::default(), 25_000);
    assert_eq!(u.charge, 10_050);
    assert_eq!(u.health, 100_000);
}

#[test]
fn near_band_charge_clamps_at_full() {
    let mut s = drone();
    s.charge = 99_800;
    zone_effects(&mut s, &BeamStats::default(), 10_000);
    assert_eq!(s.charge, 100_000);
}

#[test]
fn gravity_is_linear_in_the_distance() {
    let b = BeamStats::default();
    let beam_pos = Vec3::zero();
    // halfway out: half the maximum force, pulling back towards the beam
    let halfway = gravity(&b, beam_pos, Vec3::new(62_500, 0, 0));
    assert_eq!(halfway, Some(Vec3::new(-1_250, 0, 0)));
    // a fifth of the way out: four fifths of the maximum force
    let fifth = gravity(&b, beam_pos, Vec3::new(25_000, 0, 0));
    assert_eq!(fifth, Some(Vec3::new(-2_000, 0, 0)));
}

#[test]
fn gravity_ends_at_the_radius() {
    let b = BeamStats::default();
    let beam_pos = Vec3::zero();
    assert_eq!(gravity(&b, beam_pos, Vec3::new(125_000, 0, 0)), None);
    assert_eq!(gravity(&b, beam_pos, Vec3::new(200_000, 0, 0)), None);
    // just inside, the pull is barely there
    assert_eq!(gravity(&b, beam_pos, Vec3::new(124_999, 0, 0)), Some(Vec3::new(0, 0, 0)));
}

#[test]
fn gravity_at_the_emitter_is_degenerate() {
    let b = BeamStats::default();
    // a body sitting exactly on the emitter has no direction to be pulled
    // in: the force is zero rather than undefined
    assert_eq!(gravity(&b, Vec3::zero(), Vec3::zero()), Some(Vec3::zero()));
}
