//! The energy-beam hazard: distance-banded effects and gravity pull.
//!
//! A beam is a static emitter with three concentric effect bands around it.
//! Each frame, every drone feels the first band its distance falls into:
//! close up it charges fast but loses health, in the medium band it charges
//! slowly and safely, past the far radius it loses health with nothing in
//! return, and between the medium and far radii lies a deliberate neutral
//! zone. Separately, the beam pulls every rigid body within its gravity
//! radius towards itself with a linearly falling force.

use vstd::prelude::*;

use crate::drone;
use crate::drone::{D_CHARGE, D_HEALTH, MAX_CHARGE, MIN_HEALTH};
use crate::vec3::{
    dist_spec, div_t, lemma_div_t_bound, lemma_product_bound2, Vec3, COORD_LIMIT, MILLI,
};

verus! {

/// Largest radius the hazard model accepts, in millis.
pub const RADIUS_LIMIT: i64 = 1_000_000_000;

/// Largest gravity force the hazard model accepts, in millis.
pub const FORCE_LIMIT: i64 = 1_000_000;

/// Band and gravity parameters of one hazard emitter, in millis.
#[derive(Debug, PartialEq, Eq, Structural, Copy, Clone)]
pub struct Stats {
    pub gravity_radius: i64,
    pub gravity_max_force: i64,
    pub radius_near: i64,
    pub radius_medium: i64,
    pub radius_far: i64,
}

impl Stats {
    /// The bands are ordered outwards and everything stays on the scales
    /// the arithmetic needs.
    pub open spec fn wf(self) -> bool {
        &&& 0 < self.gravity_radius <= RADIUS_LIMIT
        &&& 0 <= self.gravity_max_force <= FORCE_LIMIT
        &&& 0 < self.radius_near <= self.radius_medium
        &&& self.radius_medium <= self.radius_far <= RADIUS_LIMIT
    }
}

impl Default for Stats {
    /// The stock emitter: gravity reaching 125 units with force 2.5, bands
    /// at 25, 75 and 125 units.
    fn default() -> (r: Stats)
        ensures
            r == (Stats {
                gravity_radius: 125_000i64,
                gravity_max_force: 2_500i64,
                radius_near: 25_000i64,
                radius_medium: 75_000i64,
                radius_far: 125_000i64,
            }),
            r.wf(),
    {
        Stats {
            gravity_radius: 125_000,
            gravity_max_force: 2_500,
            radius_near: 25_000,
            radius_medium: 75_000,
            radius_far: 125_000,
        }
    }
}

/// A hazard emitter placed in the world: its parameters and the position
/// of its static body.
#[derive(Debug, PartialEq, Eq, Structural, Copy, Clone)]
pub struct Beam {
    pub stats: Stats,
    pub position: Vec3,
}

impl Beam {
    pub open spec fn wf(self) -> bool {
        &&& self.stats.wf()
        &&& self.position.bounded(COORD_LIMIT as int)
    }
}

/// Battery charge clamped to its scale after a gain.
pub open spec fn clamp_charge_spec(charge: int) -> int {
    if charge <= MAX_CHARGE {
        charge
    } else {
        MAX_CHARGE as int
    }
}

/// Health after one frame of band damage, saturating at the lower clamp.
pub open spec fn drop_health_spec(health: int) -> int {
    if health - D_HEALTH >= MIN_HEALTH {
        health - D_HEALTH
    } else {
        MIN_HEALTH as int
    }
}

/// Effect of one emitter on one drone for one frame. The three bands are
/// evaluated near to far and the first match wins; both band boundaries
/// are strict, so at exactly the medium radius and at exactly the far
/// radius nothing fires. The measured distance is always recorded for the
/// HUD.
pub open spec fn zone_effects_spec(s: drone::Stats, beam: Stats, distance: int) -> drone::Stats {
    let s1 = if distance < beam.radius_near {
        drone::Stats {
            charge: clamp_charge_spec(s.charge + D_CHARGE) as i64,
            health: drop_health_spec(s.health as int) as i64,
            ..s
        }
    } else if distance < beam.radius_medium {
        drone::Stats { charge: clamp_charge_spec(s.charge + D_CHARGE / 10) as i64, ..s }
    } else if distance > beam.radius_far {
        drone::Stats { health: drop_health_spec(s.health as int) as i64, ..s }
    } else {
        s
    };
    drone::Stats { dist_to_beam: distance as i64, ..s1 }
}

/// Apply one emitter's band effects to a drone and record the distance.
pub fn zone_effects(stats: &mut drone::Stats, beam: &Stats, distance: i64)
    requires
        old(stats).wf(),
        beam.wf(),
        0 <= distance,
    ensures
        *final(stats) == zone_effects_spec(*old(stats), *beam, distance as int),
        final(stats).wf(),
{
    if distance < beam.radius_near {
        stats.charge = stats.charge + D_CHARGE;
        if stats.charge > MAX_CHARGE {
            stats.charge = MAX_CHARGE;
        }
        stats.health = stats.health - D_HEALTH;
        if stats.health < MIN_HEALTH {
            stats.health = MIN_HEALTH;
        }
    } else if distance < beam.radius_medium {
        stats.charge = stats.charge + D_CHARGE / 10;
        if stats.charge > MAX_CHARGE {
            stats.charge = MAX_CHARGE;
        }
    } else if distance > beam.radius_far {
        stats.health = stats.health - D_HEALTH;
        if stats.health < MIN_HEALTH {
            stats.health = MIN_HEALTH;
        }
    }
    stats.dist_to_beam = distance;
}

/// Numerator of the gravity falloff at a distance: the force times the
/// remaining depth inside the gravity radius. The real force magnitude is
/// this value divided by the gravity radius.
pub open spec fn falloff_spec(beam: Stats, distance: int) -> int {
    beam.gravity_max_force * (beam.gravity_radius - distance)
}

/// Gravity force magnitude at a distance inside the radius, in millis,
/// rounded down: the maximum force scaled by the linear falloff.
pub open spec fn gravity_magnitude_spec(beam: Stats, distance: int) -> int {
    falloff_spec(beam, distance) / beam.gravity_radius as int
}

/// Gravity force one emitter exerts on a body for one frame: nothing at or
/// past the gravity radius, otherwise the falloff magnitude along the unit
/// direction from the body to the emitter. A body sitting exactly on the
/// emitter has no direction to be pulled in and feels the zero force.
pub open spec fn gravity_spec(beam: Stats, beam_position: Vec3, body_position: Vec3) -> Option<
    Vec3,
> {
    let d = dist_spec(body_position, beam_position);
    if d < beam.gravity_radius {
        let delta = beam_position.sub_spec(body_position);
        if delta.is_zero_spec() {
            Some(Vec3 { x: 0i64, y: 0i64, z: 0i64 })
        } else {
            let dirn = delta.normalized_spec();
            let mag = gravity_magnitude_spec(beam, d);
            Some(
                Vec3 {
                    x: div_t(mag * dirn.x, MILLI as int) as i64,
                    y: div_t(mag * dirn.y, MILLI as int) as i64,
                    z: div_t(mag * dirn.z, MILLI as int) as i64,
                },
            )
        }
    } else {
        None
    }
}

/// Compute the gravity pull of an emitter on one rigid body.
pub fn gravity(beam: &Stats, beam_position: Vec3, body_position: Vec3) -> (r: Option<Vec3>)
    requires
        beam.wf(),
        beam_position.bounded(COORD_LIMIT as int),
        body_position.bounded(COORD_LIMIT as int),
    ensures
        r == gravity_spec(*beam, beam_position, body_position),
{
    let d = crate::vec3::dist(body_position, beam_position);
    if d < beam.gravity_radius {
        let delta = beam_position.sub(body_position);
        if delta.is_zero() {
            Some(Vec3 { x: 0, y: 0, z: 0 })
        } else {
            let dirn = delta.normalized();
            proof {
                lemma_product_bound2(
                    beam.gravity_max_force as int,
                    beam.gravity_radius - d,
                    FORCE_LIMIT as int,
                    RADIUS_LIMIT as int,
                );
            }
            let num: i64 = beam.gravity_max_force * (beam.gravity_radius - d);
            proof {
                assert(num <= beam.gravity_max_force * beam.gravity_radius) by (nonlinear_arith)
                    requires
                        num == beam.gravity_max_force * (beam.gravity_radius - d),
                        0 <= beam.gravity_max_force,
                        0 <= d,
                ;
                assert(num >= 0) by (nonlinear_arith)
                    requires
                        num == beam.gravity_max_force * (beam.gravity_radius - d),
                        0 <= beam.gravity_max_force,
                        d < beam.gravity_radius,
                ;
                crate::vec3::lemma_div_quotient_upper(
                    num as int,
                    beam.gravity_radius as int,
                    beam.gravity_max_force as int,
                );
            }
            let mag: i64 = num / beam.gravity_radius;
            proof {
                lemma_product_bound2(mag as int, dirn.x as int, FORCE_LIMIT as int, MILLI as int);
                lemma_product_bound2(mag as int, dirn.y as int, FORCE_LIMIT as int, MILLI as int);
                lemma_product_bound2(mag as int, dirn.z as int, FORCE_LIMIT as int, MILLI as int);
                lemma_div_t_bound(mag as int * dirn.x as int, MILLI as int, FORCE_LIMIT as int);
                lemma_div_t_bound(mag as int * dirn.y as int, MILLI as int, FORCE_LIMIT as int);
                lemma_div_t_bound(mag as int * dirn.z as int, MILLI as int, FORCE_LIMIT as int);
            }
            Some(
                Vec3 {
                    x: mag * dirn.x / MILLI,
                    y: mag * dirn.y / MILLI,
                    z: mag * dirn.z / MILLI,
                },
            )
        }
    } else {
        None
    }
}

/// Effects of a whole list of emitters on one drone for one frame, applied
/// in order: each emitter adjusts charge and health by its band and
/// overwrites the recorded distance, so the last emitter's distance is the
/// one the HUD shows.
pub open spec fn beams_fold_spec(s: drone::Stats, beams: Seq<Beam>, position: Vec3) -> drone::Stats
    decreases beams.len(),
{
    if beams.len() == 0 {
        s
    } else {
        let prev = beams_fold_spec(s, beams.drop_last(), position);
        zone_effects_spec(
            prev,
            beams.last().stats,
            dist_spec(position, beams.last().position),
        )
    }
}

/// One emitter's band effects keep the drone well-formed, never touch who
/// it is or where it is, and never raise its health.
pub proof fn lemma_zone_wf(s: drone::Stats, beam: Stats, d: int)
    requires
        s.wf(),
        0 <= d <= 2_000_000_000,
    ensures
        zone_effects_spec(s, beam, d).wf(),
        zone_effects_spec(s, beam, d).is_player == s.is_player,
        zone_effects_spec(s, beam, d).strike_charge == s.strike_charge,
        zone_effects_spec(s, beam, d).health <= s.health,
        zone_effects_spec(s, beam, d).charge >= s.charge,
        zone_effects_spec(s, beam, d).x == s.x,
        zone_effects_spec(s, beam, d).y == s.y,
        zone_effects_spec(s, beam, d).z == s.z,
{
}

/// A whole frame of hazard effects keeps the drone well-formed and never
/// raises its health; who the drone is and where it is stay untouched.
pub proof fn lemma_beams_fold_wf(s: drone::Stats, beams: Seq<Beam>, position: Vec3)
    requires
        s.wf(),
        position.bounded(COORD_LIMIT as int),
        forall|k: int| 0 <= k < beams.len() ==> beams[k].wf(),
    ensures
        beams_fold_spec(s, beams, position).wf(),
        beams_fold_spec(s, beams, position).is_player == s.is_player,
        beams_fold_spec(s, beams, position).health <= s.health,
        beams_fold_spec(s, beams, position).x == s.x,
        beams_fold_spec(s, beams, position).y == s.y,
        beams_fold_spec(s, beams, position).z == s.z,
    decreases beams.len(),
{
    if beams.len() > 0 {
        assert(forall|k: int|
            0 <= k < beams.drop_last().len() ==> beams.drop_last()[k] == beams[k]);
        lemma_beams_fold_wf(s, beams.drop_last(), position);
        let prev = beams_fold_spec(s, beams.drop_last(), position);
        assert(beams.last().wf());
        crate::vec3::lemma_dist_bounds(position, beams.last().position);
        lemma_zone_wf(prev, beams.last().stats, dist_spec(position, beams.last().position));
    }
}

/// In the three bands and the neutral gap, one and only one effect fires:
/// fast charge and damage up close, slow charge in the medium band, damage
/// past the far radius, and nothing in between — in particular nothing at
/// exactly the medium radius and nothing at exactly the far radius, as
/// both boundaries are strict.
pub proof fn lemma_zone_bands(s: drone::Stats, beam: Stats, d: int)
    requires
        beam.wf(),
        0 <= d,
    ensures
        d < beam.radius_near ==> zone_effects_spec(s, beam, d) == (drone::Stats {
            charge: clamp_charge_spec(s.charge + D_CHARGE) as i64,
            health: drop_health_spec(s.health as int) as i64,
            dist_to_beam: d as i64,
            ..s
        }),
        beam.radius_near <= d < beam.radius_medium ==> zone_effects_spec(s, beam, d)
            == (drone::Stats {
            charge: clamp_charge_spec(s.charge + D_CHARGE / 10) as i64,
            dist_to_beam: d as i64,
            ..s
        }),
        beam.radius_medium <= d <= beam.radius_far ==> zone_effects_spec(s, beam, d)
            == (drone::Stats { dist_to_beam: d as i64, ..s }),
        d > beam.radius_far ==> zone_effects_spec(s, beam, d) == (drone::Stats {
            health: drop_health_spec(s.health as int) as i64,
            dist_to_beam: d as i64,
            ..s
        }),
{
}

/// The gravity falloff is full at the emitter, spent exactly at the
/// gravity radius, and linear in between: each extra milli of distance
/// costs the same slice of force.
pub proof fn lemma_gravity_falloff(beam: Stats)
    requires
        beam.wf(),
    ensures
        gravity_magnitude_spec(beam, 0) == beam.gravity_max_force,
        falloff_spec(beam, beam.gravity_radius as int) == 0,
        forall|d: int|
            #![trigger falloff_spec(beam, d)]
            falloff_spec(beam, d) - falloff_spec(beam, d + 1) == beam.gravity_max_force,
{
    assert(falloff_spec(beam, 0) == beam.gravity_max_force * beam.gravity_radius);
    vstd::arithmetic::div_mod::lemma_div_multiples_vanish(
        beam.gravity_max_force as int,
        beam.gravity_radius as int,
    );
    assert(beam.gravity_max_force * beam.gravity_radius == beam.gravity_radius
        * beam.gravity_max_force) by (nonlinear_arith);
    assert(falloff_spec(beam, beam.gravity_radius as int) == 0) by (nonlinear_arith)
        requires
            falloff_spec(beam, beam.gravity_radius as int) == beam.gravity_max_force * (
            beam.gravity_radius - beam.gravity_radius),
    ;
    assert forall|d: int|
        #![trigger falloff_spec(beam, d)]
        falloff_spec(beam, d) - falloff_spec(beam, d + 1)
            == beam.gravity_max_force by {
        assert(beam.gravity_max_force * (beam.gravity_radius - d) - beam.gravity_max_force * (
        beam.gravity_radius - (d + 1)) == beam.gravity_max_force) by (nonlinear_arith);
    }
}

} // verus!
