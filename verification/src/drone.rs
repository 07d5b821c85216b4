//! Drone state and the per-frame movement controller.
//!
//! A drone carries a battery charge, an energy reserve built up for the next
//! strike, and a health value, all in millis (one thousandth of a display
//! point), together with its cached world position. The movement controller
//! turns the held input actions into force, torque and impulse requests and
//! spends the charge budget; every arithmetic step saturates through explicit
//! clamps, and an action whose resource precondition fails is simply a no-op
//! for that frame.
//!
//! All rates are per frame, as the game balances them against its target
//! frame rate; a caller running a variable timestep owns that coupling.

use vstd::prelude::*;

use crate::beam;
use crate::input::InputState;
use crate::lifecycle::ToExile;
use crate::vec3::{
    div_t, lemma_div_t_bound, lemma_product_bound2, lemma_sqrt_floor_unique, Vec3, COORD_LIMIT,
    MILLI,
};

verus! {

/// Charge gained per frame in the hazard's near band, in millis.
pub const D_CHARGE: i64 = 500;

/// Health lost per frame in the hazard's near and far bands, in millis.
pub const D_HEALTH: i64 = 200;

/// Charge spent per frame of directed movement, in millis.
pub const D_MOVE_CHARGE: i64 = 50;

/// Charge spent per frame of boosted acceleration, in millis.
pub const D_ACC_CHARGE: i64 = 250;

/// Strike reserve built per frame while Strike is held, in millis.
pub const D_STRIKE_CHARGE: i64 = 500;

/// Upper clamp of the battery charge, in millis.
pub const MAX_CHARGE: i64 = 100_000;

/// Full health, in millis; also the value god mode restores.
pub const MAX_HEALTH: i64 = 100_000;

/// Lower clamp of the health value: once an entity is this far past zero it
/// has long been marked for removal, and the value stops falling.
pub const MIN_HEALTH: i64 = -100_000;

/// Speed floor below which no drag applies, in millis per frame.
pub const VELO_MIN: i64 = 10_000;

/// Thrust multiplier while the boost is paid for.
pub const BOOST_FACTOR: i64 = 10;

/// Gain applied to the orientation delta when steering torque is requested.
pub const TORQUE_GAIN: i64 = 50;

/// Gain applied to the spent strike reserve on impulse release.
pub const STRIKE_IMPULSE_GAIN: i64 = 2;

/// Upper bound accepted for an orientation delta angle: pi radians in
/// millis, rounded up.
pub const ANGLE_LIMIT: i64 = 3_142;

/// Per-drone gameplay state. One entity in the world is the player and is
/// driven by input and camera; the others only feel hazards and lifecycle.
#[derive(Debug, PartialEq, Eq, Structural, Copy, Clone)]
pub struct Stats {
    pub is_player: bool,
    /// Battery state of charge, millis of a display point, `0 ..= 100_000`.
    pub charge: i64,
    /// Energy reserved for the next strike; never exceeds `charge`.
    pub strike_charge: i64,
    /// Health, millis of a display point; starts full and only god mode
    /// ever raises it.
    pub health: i64,
    /// Cached world position, millis, mirroring the physics body.
    pub x: i64,
    pub y: i64,
    pub z: i64,
    /// Distance to the hazard measured last frame, for the HUD.
    pub dist_to_beam: i64,
}

impl Stats {
    /// Resource-model invariant: the battery stays on its scale, the strike
    /// reserve never exceeds it, health stays on its clamped band, and the
    /// cached position is an in-range world position.
    pub open spec fn wf(self) -> bool {
        &&& 0 <= self.charge <= MAX_CHARGE
        &&& 0 <= self.strike_charge <= self.charge
        &&& MIN_HEALTH <= self.health <= MAX_HEALTH
        &&& -COORD_LIMIT <= self.x <= COORD_LIMIT
        &&& -COORD_LIMIT <= self.y <= COORD_LIMIT
        &&& -COORD_LIMIT <= self.z <= COORD_LIMIT
        &&& 0 <= self.dist_to_beam
    }

}

impl Default for Stats {
    /// A freshly spawned drone: full health, empty battery, not the player.
    fn default() -> (r: Stats)
        ensures
            r == (Stats {
                is_player: false,
                charge: 0i64,
                strike_charge: 0i64,
                health: MAX_HEALTH,
                x: 0i64,
                y: 0i64,
                z: 0i64,
                dist_to_beam: 0i64,
            }),
            r.wf(),
    {
        Stats {
            is_player: false,
            charge: 0,
            strike_charge: 0,
            health: MAX_HEALTH,
            x: 0,
            y: 0,
            z: 0,
            dist_to_beam: 0,
        }
    }
}

/// Force, torque and impulse requests the movement controller asks the
/// physics engine to apply to the player's body for one frame.
#[derive(Debug, Copy, Clone)]
pub struct PlayerForces {
    /// Directed thrust, when movement is held and paid for and the
    /// direction is not degenerate.
    pub thrust: Option<Vec3>,
    /// Quadratic drag, when the body is faster than the drag floor.
    pub drag: Option<Vec3>,
    /// Steering torque towards the camera-driven target orientation.
    pub torque: Vec3,
    /// Strike impulse, on the frame Strike is released.
    pub impulse: Option<Vec3>,
}

/// Battery charge after the acceleration step: the boost costs
/// [`D_ACC_CHARGE`] and only triggers while it can be paid for.
pub open spec fn accel_charge_spec(charge: int, accelerate: bool) -> int {
    if accelerate && charge >= D_ACC_CHARGE {
        charge - D_ACC_CHARGE
    } else {
        charge
    }
}

/// Thrust multiplier of the acceleration step: boosted exactly when the
/// boost was paid for, otherwise one.
pub open spec fn accel_speed_spec(charge: int, accelerate: bool) -> int {
    if accelerate && charge >= D_ACC_CHARGE {
        BOOST_FACTOR as int
    } else {
        1
    }
}

/// Desired direction accumulated from the four held movement actions:
/// forward and backward add and subtract the forward vector, left and
/// right add and subtract the side vector, and opposite actions cancel.
pub open spec fn dir_accum_spec(fwd: Vec3, side: Vec3, input: InputState) -> Vec3 {
    let d0 = Vec3 { x: 0i64, y: 0i64, z: 0i64 };
    let d1 = if input.move_forward { d0.add_spec(fwd) } else { d0 };
    let d2 = if input.move_backward { d1.sub_spec(fwd) } else { d1 };
    let d3 = if input.move_left { d2.add_spec(side) } else { d2 };
    let d4 = if input.move_right { d3.sub_spec(side) } else { d3 };
    d4
}

/// Strike reserve after one held frame: it builds by [`D_STRIKE_CHARGE`]
/// while Strike is held and the reserve is still below the charge.
pub open spec fn strike_accum_spec(strike_charge: int, charge: int, strike_held: bool) -> int {
    if strike_held && strike_charge < charge {
        strike_charge + D_STRIKE_CHARGE
    } else {
        strike_charge
    }
}

/// Steering torque: the orientation delta's axis scaled by its angle and
/// [`TORQUE_GAIN`], coordinates rounded towards zero.
pub open spec fn torque_spec(delta_axis: Vec3, delta_angle: int) -> Vec3 {
    Vec3 {
        x: div_t(delta_axis.x * delta_angle * TORQUE_GAIN, MILLI as int) as i64,
        y: div_t(delta_axis.y * delta_angle * TORQUE_GAIN, MILLI as int) as i64,
        z: div_t(delta_axis.z * delta_angle * TORQUE_GAIN, MILLI as int) as i64,
    }
}

/// Strike impulse on release: the forward unit vector scaled by the spent
/// reserve and [`STRIKE_IMPULSE_GAIN`], coordinates rounded towards zero.
pub open spec fn strike_impulse_spec(fwd: Vec3, spent: int) -> Vec3 {
    Vec3 {
        x: div_t(fwd.x * spent * STRIKE_IMPULSE_GAIN, MILLI as int) as i64,
        y: div_t(fwd.y * spent * STRIKE_IMPULSE_GAIN, MILLI as int) as i64,
        z: div_t(fwd.z * spent * STRIKE_IMPULSE_GAIN, MILLI as int) as i64,
    }
}

/// Thrust request for a held movement direction: the accumulated direction
/// is scaled to unit length; if the body is already moving, the part of the
/// velocity direction lying outside the desired direction is subtracted so
/// thrust counteracts cross-track drift, and the result is scaled to unit
/// length again; the unit direction is then scaled by the speed multiplier.
/// A direction cancelled out by the compensation yields no thrust at all
/// rather than a degenerate one.
pub open spec fn thrust_spec(dir0: Vec3, velocity: Vec3, speed: int) -> Option<Vec3> {
    let dirn = dir0.normalized_spec();
    if velocity.is_zero_spec() {
        Some(
            Vec3 {
                x: (dirn.x * speed) as i64,
                y: (dirn.y * speed) as i64,
                z: (dirn.z * speed) as i64,
            },
        )
    } else {
        let vh = velocity.normalized_spec();
        let dd = dirn.dot_spec(dirn);
        let dv = vh.dot_spec(dirn);
        let dir2 = Vec3 {
            x: (dirn.x - (vh.x - div_t(dv * dirn.x, dd))) as i64,
            y: (dirn.y - (vh.y - div_t(dv * dirn.y, dd))) as i64,
            z: (dirn.z - (vh.z - div_t(dv * dirn.z, dd))) as i64,
        };
        if dir2.is_zero_spec() {
            None
        } else {
            let dir3 = dir2.normalized_spec();
            Some(
                Vec3 {
                    x: (dir3.x * speed) as i64,
                    y: (dir3.y * speed) as i64,
                    z: (dir3.z * speed) as i64,
                },
            )
        }
    }
}

/// Quadratic drag request, slowing the body once it is faster than
/// [`VELO_MIN`]: magnitude `s / 10 + s * s / 500_000` millis against the
/// velocity direction, where `s` is the speed beyond the floor. Drag is
/// never resource-gated.
pub open spec fn drag_spec(velocity: Vec3) -> Option<Vec3> {
    let s = velocity.norm_spec() - VELO_MIN;
    if s > 0 {
        let vh = velocity.normalized_spec();
        let mag = s / 10 + (s * s) / 500_000;
        Some(
            Vec3 {
                x: (-div_t(mag * vh.x, MILLI as int)) as i64,
                y: (-div_t(mag * vh.y, MILLI as int)) as i64,
                z: (-div_t(mag * vh.z, MILLI as int)) as i64,
            },
        )
    } else {
        None
    }
}

/// Compute the thrust request for one frame of held movement.
pub fn thrust_force(dir0: Vec3, velocity: Vec3, speed: i64) -> (r: Option<Vec3>)
    requires
        dir0.bounded(4 * MILLI as int),
        !dir0.is_zero_spec(),
        velocity.bounded(COORD_LIMIT as int),
        1 <= speed <= BOOST_FACTOR,
    ensures
        r == thrust_spec(dir0, velocity, speed as int),
        (match r {
            Some(t) => t.bounded(BOOST_FACTOR as int * MILLI as int),
            None => true,
        }),
{
    let dirn = dir0.normalized();
    if velocity.is_zero() {
        proof {
            lemma_product_bound2(dirn.x as int, speed as int, MILLI as int, BOOST_FACTOR as int);
            lemma_product_bound2(dirn.y as int, speed as int, MILLI as int, BOOST_FACTOR as int);
            lemma_product_bound2(dirn.z as int, speed as int, MILLI as int, BOOST_FACTOR as int);
        }
        Some(Vec3 { x: dirn.x * speed, y: dirn.y * speed, z: dirn.z * speed })
    } else {
        let vh = velocity.normalized();
        let dd = dirn.dot(dirn);
        let dv = vh.dot(dirn);
        proof {
            lemma_product_bound2(vh.x as int, dirn.x as int, MILLI as int, MILLI as int);
            lemma_product_bound2(vh.y as int, dirn.y as int, MILLI as int, MILLI as int);
            lemma_product_bound2(vh.z as int, dirn.z as int, MILLI as int, MILLI as int);
            assert(-3_000_000 <= dv <= 3_000_000);
            assert(dd == dirn.norm_sq_spec());
            lemma_product_bound2(dv as int, dirn.x as int, 3_000_000, MILLI as int);
            lemma_product_bound2(dv as int, dirn.y as int, 3_000_000, MILLI as int);
            lemma_product_bound2(dv as int, dirn.z as int, 3_000_000, MILLI as int);
            lemma_div_t_bound(dv as int * dirn.x as int, dd as int, 12_000);
            lemma_div_t_bound(dv as int * dirn.y as int, dd as int, 12_000);
            lemma_div_t_bound(dv as int * dirn.z as int, dd as int, 12_000);
        }
        let cx: i64 = dv * dirn.x / dd;
        let cy: i64 = dv * dirn.y / dd;
        let cz: i64 = dv * dirn.z / dd;
        let dir2 = Vec3 {
            x: dirn.x - (vh.x - cx),
            y: dirn.y - (vh.y - cy),
            z: dirn.z - (vh.z - cz),
        };
        if dir2.is_zero() {
            None
        } else {
            let dir3 = dir2.normalized();
            proof {
                lemma_product_bound2(
                    dir3.x as int,
                    speed as int,
                    MILLI as int,
                    BOOST_FACTOR as int,
                );
                lemma_product_bound2(
                    dir3.y as int,
                    speed as int,
                    MILLI as int,
                    BOOST_FACTOR as int,
                );
                lemma_product_bound2(
                    dir3.z as int,
                    speed as int,
                    MILLI as int,
                    BOOST_FACTOR as int,
                );
            }
            Some(Vec3 { x: dir3.x * speed, y: dir3.y * speed, z: dir3.z * speed })
        }
    }
}

/// Compute the drag request for one frame.
pub fn drag_force(velocity: Vec3) -> (r: Option<Vec3>)
    requires
        velocity.bounded(COORD_LIMIT as int),
    ensures
        r == drag_spec(velocity),
{
    let ghost ns = velocity.norm_sq_spec();
    let n = velocity.norm();
    proof {
        assert(0 <= ns <= 750_000_000_000_000_000) by (nonlinear_arith)
            requires
                ns == velocity.x * velocity.x + velocity.y * velocity.y + velocity.z
                    * velocity.z,
                -500_000_000 <= velocity.x <= 500_000_000,
                -500_000_000 <= velocity.y <= 500_000_000,
                -500_000_000 <= velocity.z <= 500_000_000,
        ;
        crate::vec3::lemma_sqrt_floor(ns);
        assert(n <= 900_000_000) by (nonlinear_arith)
            requires
                0 <= n,
                n * n <= ns,
                ns <= 750_000_000_000_000_000,
        ;
    }
    if n > VELO_MIN {
        proof {
            if velocity.is_zero_spec() {
                assert(ns == 0) by (nonlinear_arith)
                    requires
                        ns == velocity.x * velocity.x + velocity.y * velocity.y + velocity.z
                            * velocity.z,
                        velocity.x == 0 && velocity.y == 0 && velocity.z == 0,
                ;
                lemma_sqrt_floor_unique(0, 0);
                assert(false);
            }
        }
        let s: i64 = n - VELO_MIN;
        let vh = velocity.normalized();
        proof {
            assert(s * s <= 810_000_000_000_000_000) by (nonlinear_arith)
                requires
                    0 <= s <= 900_000_000,
            ;
            vstd::arithmetic::div_mod::lemma_div_pos_is_pos(s as int, 10);
            vstd::arithmetic::div_mod::lemma_div_pos_is_pos(s as int * s as int, 500_000);
            crate::vec3::lemma_div_quotient_upper(s as int, 10, 90_000_000);
            crate::vec3::lemma_div_quotient_upper(
                s as int * s as int,
                500_000,
                1_620_000_000_000,
            );
        }
        let mag: i64 = s / 10 + (s * s) / 500_000;
        proof {
            lemma_product_bound2(mag as int, vh.x as int, 1_710_000_000_000, MILLI as int);
            lemma_product_bound2(mag as int, vh.y as int, 1_710_000_000_000, MILLI as int);
            lemma_product_bound2(mag as int, vh.z as int, 1_710_000_000_000, MILLI as int);
            lemma_div_t_bound(mag as int * vh.x as int, MILLI as int, 1_710_000_000_000);
            lemma_div_t_bound(mag as int * vh.y as int, MILLI as int, 1_710_000_000_000);
            lemma_div_t_bound(mag as int * vh.z as int, MILLI as int, 1_710_000_000_000);
        }
        Some(
            Vec3 {
                x: -(mag * vh.x / MILLI),
                y: -(mag * vh.y / MILLI),
                z: -(mag * vh.z / MILLI),
            },
        )
    } else {
        None
    }
}

/// Compute the steering torque request: the orientation delta's axis scaled
/// by its angle and [`TORQUE_GAIN`]. An identity delta (zero axis) yields
/// zero torque.
pub fn torque_request(delta_axis: Vec3, delta_angle: i64) -> (r: Vec3)
    requires
        delta_axis.bounded(MILLI as int),
        0 <= delta_angle <= ANGLE_LIMIT,
    ensures
        r == torque_spec(delta_axis, delta_angle as int),
{
    proof {
        lemma_product_bound2(delta_axis.x as int, delta_angle as int, MILLI as int, ANGLE_LIMIT as int);
        lemma_product_bound2(delta_axis.y as int, delta_angle as int, MILLI as int, ANGLE_LIMIT as int);
        lemma_product_bound2(delta_axis.z as int, delta_angle as int, MILLI as int, ANGLE_LIMIT as int);
        lemma_div_t_bound(
            delta_axis.x as int * delta_angle as int * TORQUE_GAIN as int,
            MILLI as int,
            157_100_000,
        );
        lemma_div_t_bound(
            delta_axis.y as int * delta_angle as int * TORQUE_GAIN as int,
            MILLI as int,
            157_100_000,
        );
        lemma_div_t_bound(
            delta_axis.z as int * delta_angle as int * TORQUE_GAIN as int,
            MILLI as int,
            157_100_000,
        );
    }
    Vec3 {
        x: delta_axis.x * delta_angle * TORQUE_GAIN / MILLI,
        y: delta_axis.y * delta_angle * TORQUE_GAIN / MILLI,
        z: delta_axis.z * delta_angle * TORQUE_GAIN / MILLI,
    }
}

/// One frame of the player's movement controller, as a mathematical
/// function from the old drone state and the frame's inputs to the new
/// state and the force requests. The steps run in this order: pay for the
/// boost, accumulate and pay for directed thrust, always apply drag and
/// steering torque, build the strike reserve, release it as an impulse on
/// the Strike falling edge, and finally clamp the charge to its scale and
/// the reserve to the charge.
pub open spec fn player_step_spec(
    stats: Stats,
    input: InputState,
    fwd: Vec3,
    side: Vec3,
    delta_axis: Vec3,
    delta_angle: int,
    velocity: Vec3,
) -> (Stats, PlayerForces) {
    let charge1 = accel_charge_spec(stats.charge as int, input.accelerate);
    let speed = accel_speed_spec(stats.charge as int, input.accelerate);
    let dir0 = dir_accum_spec(fwd, side, input);
    let move_active = !dir0.is_zero_spec() && charge1 >= D_MOVE_CHARGE;
    let thrust = if move_active {
        thrust_spec(dir0, velocity, speed)
    } else {
        None
    };
    let charge2 = if move_active {
        charge1 - D_MOVE_CHARGE
    } else {
        charge1
    };
    let drag = drag_spec(velocity);
    let torque = torque_spec(delta_axis, delta_angle);
    let strike1 = strike_accum_spec(stats.strike_charge as int, charge2, input.strike);
    let spent = if input.strike_deactivated {
        if strike1 <= charge2 {
            strike1
        } else {
            charge2
        }
    } else {
        0
    };
    let impulse = if input.strike_deactivated {
        Some(strike_impulse_spec(fwd, spent))
    } else {
        None
    };
    let charge3 = charge2 - spent;
    let strike2: int = if input.strike_deactivated {
        0
    } else {
        strike1
    };
    let charge4 = if charge3 <= MAX_CHARGE {
        charge3
    } else {
        MAX_CHARGE as int
    };
    let strike3 = if strike2 <= charge4 {
        strike2
    } else {
        charge4
    };
    (
        Stats { charge: charge4 as i64, strike_charge: strike3 as i64, ..stats },
        PlayerForces { thrust, drag, torque, impulse },
    )
}

/// One frame of the player's movement controller: updates the charge and
/// strike reserve in place and returns the force requests for the physics
/// engine. `fwd` and `side` are the unit movement directions derived from
/// the body's orientation, `delta_axis` and `delta_angle` the axis (unit)
/// and angle of the rotation still separating the body from its target
/// orientation, and `velocity` the body's current linear velocity, all in
/// millis.
#[verifier::rlimit(100)]
pub fn control_player(
    stats: &mut Stats,
    input: &InputState,
    fwd: Vec3,
    side: Vec3,
    delta_axis: Vec3,
    delta_angle: i64,
    velocity: Vec3,
) -> (forces: PlayerForces)
    requires
        old(stats).wf(),
        fwd.bounded(MILLI as int),
        side.bounded(MILLI as int),
        delta_axis.bounded(MILLI as int),
        0 <= delta_angle <= ANGLE_LIMIT,
        velocity.bounded(COORD_LIMIT as int),
    ensures
        (*final(stats), forces) == player_step_spec(
            *old(stats),
            *input,
            fwd,
            side,
            delta_axis,
            delta_angle as int,
            velocity,
        ),
        final(stats).wf(),
        final(stats).health == old(stats).health,
        final(stats).is_player == old(stats).is_player,
{
    let ghost s0 = *stats;
    let mut speed: i64 = 1;
    if input.accelerate && stats.charge >= D_ACC_CHARGE {
        stats.charge = stats.charge - D_ACC_CHARGE;
        speed = BOOST_FACTOR;
    }
    let ghost charge1 = accel_charge_spec(s0.charge as int, input.accelerate);
    proof {
        assert(stats.charge == charge1);
        assert(speed == accel_speed_spec(s0.charge as int, input.accelerate));
    }
    let mut dir = Vec3::zero();
    if input.move_forward {
        dir = dir.add(fwd);
    }
    if input.move_backward {
        dir = dir.sub(fwd);
    }
    if input.move_left {
        dir = dir.add(side);
    }
    if input.move_right {
        dir = dir.sub(side);
    }
    let ghost dir0 = dir_accum_spec(fwd, side, *input);
    proof {
        assert(dir == dir0);
    }
    let ghost move_active = !dir0.is_zero_spec() && charge1 >= D_MOVE_CHARGE;
    let mut thrust: Option<Vec3> = None;
    if !dir.is_zero() && stats.charge >= D_MOVE_CHARGE {
        thrust = thrust_force(dir, velocity, speed);
        stats.charge = stats.charge - D_MOVE_CHARGE;
    }
    let ghost charge2 = if move_active {
        charge1 - D_MOVE_CHARGE
    } else {
        charge1
    };
    proof {
        assert(stats.charge == charge2);
        assert(thrust == (if move_active {
            thrust_spec(dir0, velocity, accel_speed_spec(s0.charge as int, input.accelerate))
        } else {
            Option::<Vec3>::None
        }));
    }
    let drag = drag_force(velocity);
    let torque = torque_request(delta_axis, delta_angle);
    if input.strike && stats.strike_charge < stats.charge {
        stats.strike_charge = stats.strike_charge + D_STRIKE_CHARGE;
    }
    let ghost strike1 = strike_accum_spec(s0.strike_charge as int, charge2, input.strike);
    proof {
        assert(stats.strike_charge == strike1);
    }
    let mut impulse: Option<Vec3> = None;
    if input.strike_deactivated {
        let spent: i64 = if stats.strike_charge <= stats.charge {
            stats.strike_charge
        } else {
            stats.charge
        };
        impulse = Some(strike_impulse(fwd, spent));
        stats.charge = stats.charge - spent;
        stats.strike_charge = 0;
    }
    let ghost spent0 = if input.strike_deactivated {
        if strike1 <= charge2 {
            strike1
        } else {
            charge2
        }
    } else {
        0
    };
    proof {
        assert(stats.charge == charge2 - spent0);
        assert(stats.strike_charge == (if input.strike_deactivated {
            0
        } else {
            strike1
        }));
        assert(impulse == (if input.strike_deactivated {
            Some(strike_impulse_spec(fwd, spent0))
        } else {
            Option::<Vec3>::None
        }));
    }
    if stats.charge > MAX_CHARGE {
        stats.charge = MAX_CHARGE;
    }
    if stats.strike_charge > stats.charge {
        stats.strike_charge = stats.charge;
    }
    let forces = PlayerForces { thrust, drag, torque, impulse };
    proof {
        let r = player_step_spec(
            s0,
            *input,
            fwd,
            side,
            delta_axis,
            delta_angle as int,
            velocity,
        );
        assert(*stats == r.0);
        assert(forces == r.1);
    }
    forces
}

/// Everything the caller reads off the physics body and the orientation
/// controller for one drone before its frame: the body's position and
/// linear velocity, the unit forward and side movement directions, and the
/// axis (unit) and angle of the rotation separating the body from its
/// target orientation, all in millis.
#[derive(Debug, Copy, Clone)]
pub struct FrameInput {
    pub position: Vec3,
    pub velocity: Vec3,
    pub fwd: Vec3,
    pub side: Vec3,
    pub delta_axis: Vec3,
    pub delta_angle: i64,
}

impl FrameInput {
    pub open spec fn wf(self) -> bool {
        &&& self.position.bounded(COORD_LIMIT as int)
        &&& self.velocity.bounded(COORD_LIMIT as int)
        &&& self.fwd.bounded(MILLI as int)
        &&& self.side.bounded(MILLI as int)
        &&& self.delta_axis.bounded(MILLI as int)
        &&& 0 <= self.delta_angle <= ANGLE_LIMIT
    }
}

/// What one frame of the drone controller asks its caller to do.
#[derive(Debug, Copy, Clone)]
pub struct FrameEffects {
    /// Force requests for the physics body; only the player is driven.
    pub forces: Option<PlayerForces>,
    /// The camera should follow this drone: true exactly for the player.
    pub camera_follow: bool,
    /// Health is gone and the entity was marked for removal.
    pub marked: bool,
}

/// One frame of the drone controller as a mathematical function: the
/// movement controller runs for the player, every hazard emitter applies
/// its band effects in order, the cached position is refreshed, god mode
/// restores the player's health, and the drone is marked once health is at
/// or below zero.
pub open spec fn control_spec(
    s: Stats,
    frame: FrameInput,
    input: InputState,
    beams: Seq<beam::Beam>,
    god_mode: bool,
) -> (Stats, FrameEffects) {
    let step = player_step_spec(
        s,
        input,
        frame.fwd,
        frame.side,
        frame.delta_axis,
        frame.delta_angle as int,
        frame.velocity,
    );
    let s1 = if s.is_player {
        step.0
    } else {
        s
    };
    let forces = if s.is_player {
        Some(step.1)
    } else {
        None
    };
    let s2 = beam::beams_fold_spec(s1, beams, frame.position);
    let s3 = Stats { x: frame.position.x, y: frame.position.y, z: frame.position.z, ..s2 };
    let s4 = if s3.is_player && god_mode {
        Stats { health: MAX_HEALTH, ..s3 }
    } else {
        s3
    };
    let marked = s4.health <= 0;
    (s4, FrameEffects { forces, camera_follow: s.is_player, marked })
}

/// One frame of the drone controller for one entity. Mutates the drone's
/// state in place, marks it for removal when its health is gone, and
/// returns the force requests and camera decision for the caller to carry
/// out.
#[verifier::rlimit(100)]
pub fn control(
    stats: &mut Stats,
    entity: u64,
    frame: &FrameInput,
    input: &InputState,
    beams: &Vec<beam::Beam>,
    god_mode: bool,
    to_exile: &mut ToExile,
) -> (fx: FrameEffects)
    requires
        old(stats).wf(),
        frame.wf(),
        forall|k: int| 0 <= k < beams@.len() ==> beams@[k].wf(),
        old(to_exile).wf(),
    ensures
        (*final(stats), fx) == control_spec(*old(stats), *frame, *input, beams@, god_mode),
        final(stats).wf(),
        final(to_exile).wf(),
        fx.marked == (final(stats).health <= 0),
        fx.marked ==> final(to_exile).contains_spec(entity),
        final(to_exile).entity_list@ == (if fx.marked && !old(to_exile).contains_spec(entity) {
            old(to_exile).entity_list@.push(entity)
        } else {
            old(to_exile).entity_list@
        }),
{
    let player0 = stats.is_player;
    let mut forces: Option<PlayerForces> = None;
    if player0 {
        forces = Some(
            control_player(
                stats,
                input,
                frame.fwd,
                frame.side,
                frame.delta_axis,
                frame.delta_angle,
                frame.velocity,
            ),
        );
    }
    let ghost s1 = *stats;
    let mut i: usize = 0;
    while i < beams.len()
        invariant
            0 <= i <= beams@.len(),
            forall|k: int| 0 <= k < beams@.len() ==> beams@[k].wf(),
            frame.wf(),
            stats.wf(),
            *stats == beam::beams_fold_spec(s1, beams@.take(i as int), frame.position),
        decreases beams@.len() - i,
    {
        let ghost prev = *stats;
        let b = beams[i];
        let d = crate::vec3::dist(frame.position, b.position);
        beam::zone_effects(stats, &b.stats, d);
        proof {
            assert(beams@.take(i + 1).drop_last() =~= beams@.take(i as int));
            assert(beams@.take(i + 1).last() == beams@[i as int]);
            assert(*stats == beam::beams_fold_spec(s1, beams@.take(i + 1), frame.position));
        }
        i = i + 1;
    }
    proof {
        assert(beams@.take(beams@.len() as int) =~= beams@);
    }
    stats.x = frame.position.x;
    stats.y = frame.position.y;
    stats.z = frame.position.z;
    if stats.is_player && god_mode {
        stats.health = MAX_HEALTH;
    }
    let marked = stats.health <= 0;
    if marked {
        to_exile.mark(entity);
    }
    FrameEffects { forces, camera_follow: player0, marked }
}

/// Which of the entities present in the world the sweep removes: exactly
/// those marked for removal, in world order.
pub fn exile(present: &Vec<u64>, to_exile: &ToExile) -> (r: Vec<u64>)
    ensures
        r@ == present@.filter(crate::lifecycle::marked_pred(*to_exile)),
{
    let ghost pred = crate::lifecycle::marked_pred(*to_exile);
    let mut r: Vec<u64> = Vec::new();
    let mut i: usize = 0;
    proof {
        reveal(Seq::filter);
    }
    while i < present.len()
        invariant
            0 <= i <= present@.len(),
            pred == crate::lifecycle::marked_pred(*to_exile),
            r@ == present@.take(i as int).filter(pred),
        decreases present@.len() - i,
    {
        let e = present[i];
        proof {
            reveal(Seq::filter);
            assert(present@.take(i + 1).drop_last() =~= present@.take(i as int));
            assert(present@.take(i + 1).last() == e);
            assert(pred(e) == to_exile.entity_list@.contains(e));
        }
        if to_exile.contains(e) {
            r.push(e);
        }
        i = i + 1;
    }
    proof {
        assert(present@.take(present@.len() as int) =~= present@);
    }
    r
}

/// The input snapshot of a frame on which only Strike is held.
pub open spec fn strike_held_input() -> InputState {
    InputState {
        move_forward: false,
        move_backward: false,
        move_left: false,
        move_right: false,
        accelerate: false,
        strike: true,
        strike_deactivated: false,
    }
}

/// The input snapshot of the frame on which Strike is released.
pub open spec fn strike_release_input() -> InputState {
    InputState {
        move_forward: false,
        move_backward: false,
        move_left: false,
        move_right: false,
        accelerate: false,
        strike: false,
        strike_deactivated: true,
    }
}

/// The drone's state after `n` frames of the movement controller under one
/// unchanging input and environment.
pub open spec fn player_frames_spec(
    s: Stats,
    input: InputState,
    fwd: Vec3,
    side: Vec3,
    delta_axis: Vec3,
    delta_angle: int,
    velocity: Vec3,
    n: nat,
) -> Stats
    decreases n,
{
    if n == 0 {
        s
    } else {
        player_step_spec(
            player_frames_spec(s, input, fwd, side, delta_axis, delta_angle, velocity, (n - 1) as nat),
            input,
            fwd,
            side,
            delta_axis,
            delta_angle,
            velocity,
        ).0
    }
}

/// Law: one Accelerate-held frame pays for the boost exactly when the
/// charge covers the cost, and otherwise changes nothing — the deduction
/// never happens on an insufficient battery, so the charge never saturates
/// at zero through acceleration.
pub proof fn lemma_accelerate_branches(charge: int)
    requires
        0 <= charge <= MAX_CHARGE,
    ensures
        charge >= D_ACC_CHARGE ==> accel_charge_spec(charge, true) == charge - D_ACC_CHARGE
            && accel_speed_spec(charge, true) == BOOST_FACTOR,
        charge < D_ACC_CHARGE ==> accel_charge_spec(charge, true) == charge && accel_speed_spec(
            charge,
            true,
        ) == 1,
        accel_charge_spec(charge, true) >= 0,
{
}

/// One frame of the movement controller keeps the resource model
/// well-formed and touches nothing but the charge and the strike reserve.
pub proof fn lemma_player_step_wf(
    s: Stats,
    input: InputState,
    fwd: Vec3,
    side: Vec3,
    delta_axis: Vec3,
    delta_angle: int,
    velocity: Vec3,
)
    requires
        s.wf(),
    ensures
        player_step_spec(s, input, fwd, side, delta_axis, delta_angle, velocity).0.wf(),
        player_step_spec(s, input, fwd, side, delta_axis, delta_angle, velocity).0.is_player
            == s.is_player,
        player_step_spec(s, input, fwd, side, delta_axis, delta_angle, velocity).0.health
            == s.health,
        player_step_spec(s, input, fwd, side, delta_axis, delta_angle, velocity).0.x == s.x,
        player_step_spec(s, input, fwd, side, delta_axis, delta_angle, velocity).0.y == s.y,
        player_step_spec(s, input, fwd, side, delta_axis, delta_angle, velocity).0.z == s.z,
        player_step_spec(s, input, fwd, side, delta_axis, delta_angle, velocity).0.dist_to_beam
            == s.dist_to_beam,
{
}

/// Law: the clamp invariant holds after any frame, whatever was pressed,
/// wherever the drone stands, and however many hazards fired — the strike
/// reserve never exceeds the charge, the charge never leaves its scale,
/// and health stays on its band and, god mode aside, never rises. Since
/// the invariant also holds of a freshly spawned drone, it holds after
/// every sequence of frames.
pub proof fn lemma_control_preserves_bounds(
    s: Stats,
    frame: FrameInput,
    input: InputState,
    beams: Seq<beam::Beam>,
    god_mode: bool,
)
    requires
        s.wf(),
        frame.wf(),
        forall|k: int| 0 <= k < beams.len() ==> beams[k].wf(),
    ensures
        control_spec(s, frame, input, beams, god_mode).0.wf(),
        0 <= control_spec(s, frame, input, beams, god_mode).0.strike_charge <= control_spec(
            s,
            frame,
            input,
            beams,
            god_mode,
        ).0.charge <= MAX_CHARGE,
        !god_mode ==> control_spec(s, frame, input, beams, god_mode).0.health <= s.health,
{
    lemma_player_step_wf(
        s,
        input,
        frame.fwd,
        frame.side,
        frame.delta_axis,
        frame.delta_angle as int,
        frame.velocity,
    );
    let s1 = if s.is_player {
        player_step_spec(
            s,
            input,
            frame.fwd,
            frame.side,
            frame.delta_axis,
            frame.delta_angle as int,
            frame.velocity,
        ).0
    } else {
        s
    };
    beam::lemma_beams_fold_wf(s1, beams, frame.position);
}

/// Law: god mode forces the player's health to full in the same frame
/// whatever else happened — even one that drove it to zero — and a frame
/// with god mode on is indistinguishable from one with it off for any
/// drone that is not the player.
pub proof fn lemma_god_mode(
    s: Stats,
    frame: FrameInput,
    input: InputState,
    beams: Seq<beam::Beam>,
)
    requires
        s.wf(),
        frame.wf(),
        forall|k: int| 0 <= k < beams.len() ==> beams[k].wf(),
    ensures
        s.is_player ==> control_spec(s, frame, input, beams, true).0.health == MAX_HEALTH,
        !s.is_player ==> control_spec(s, frame, input, beams, true) == control_spec(
            s,
            frame,
            input,
            beams,
            false,
        ),
{
    lemma_player_step_wf(
        s,
        input,
        frame.fwd,
        frame.side,
        frame.delta_axis,
        frame.delta_angle as int,
        frame.velocity,
    );
    let s1 = if s.is_player {
        player_step_spec(
            s,
            input,
            frame.fwd,
            frame.side,
            frame.delta_axis,
            frame.delta_angle as int,
            frame.velocity,
        ).0
    } else {
        s
    };
    beam::lemma_beams_fold_wf(s1, beams, frame.position);
}

/// Law: while Strike is held and nothing else is pressed, the reserve
/// builds by [`D_STRIKE_CHARGE`] every frame and the charge stands still,
/// as long as the charge covers the whole build-up.
pub proof fn lemma_strike_buildup(
    s: Stats,
    fwd: Vec3,
    side: Vec3,
    delta_axis: Vec3,
    delta_angle: int,
    velocity: Vec3,
    n: nat,
)
    requires
        s.wf(),
        s.strike_charge + n * D_STRIKE_CHARGE <= s.charge,
    ensures
        player_frames_spec(s, strike_held_input(), fwd, side, delta_axis, delta_angle, velocity, n)
            == (Stats {
            strike_charge: (s.strike_charge + n * D_STRIKE_CHARGE) as i64,
            ..s
        }),
    decreases n,
{
    if n == 0 {
        assert(s == (Stats { strike_charge: (s.strike_charge + 0 * D_STRIKE_CHARGE) as i64, ..s }));
    } else {
        assert((n - 1) * D_STRIKE_CHARGE == n * D_STRIKE_CHARGE - D_STRIKE_CHARGE)
            by (nonlinear_arith);
        assert(0 <= (n - 1) * D_STRIKE_CHARGE) by (nonlinear_arith)
            requires
                n >= 1,
        ;
        lemma_strike_buildup(s, fwd, side, delta_axis, delta_angle, velocity, (n - 1) as nat);
        let prev = player_frames_spec(
            s,
            strike_held_input(),
            fwd,
            side,
            delta_axis,
            delta_angle,
            velocity,
            (n - 1) as nat,
        );
        lemma_player_step_wf(
            prev,
            strike_held_input(),
            fwd,
            side,
            delta_axis,
            delta_angle,
            velocity,
        );
    }
}

/// Law: releasing Strike after `n` held frames with sufficient charge
/// applies an impulse of the forward direction scaled by the built-up
/// reserve and [`STRIKE_IMPULSE_GAIN`], deducts exactly that reserve from
/// the charge, and resets the reserve to zero.
pub proof fn lemma_strike_release(
    s: Stats,
    fwd: Vec3,
    side: Vec3,
    delta_axis: Vec3,
    delta_angle: int,
    velocity: Vec3,
    n: nat,
)
    requires
        s.wf(),
        s.strike_charge + n * D_STRIKE_CHARGE <= s.charge,
    ensures
        ({
            let held = player_frames_spec(
                s,
                strike_held_input(),
                fwd,
                side,
                delta_axis,
                delta_angle,
                velocity,
                n,
            );
            let released = player_step_spec(
                held,
                strike_release_input(),
                fwd,
                side,
                delta_axis,
                delta_angle,
                velocity,
            );
            let reserve = s.strike_charge + n * D_STRIKE_CHARGE;
            &&& released.1.impulse == Some(strike_impulse_spec(fwd, reserve))
            &&& released.0.strike_charge == 0
            &&& released.0.charge == s.charge - reserve
            &&& released.0.health == s.health
        }),
{
    lemma_strike_buildup(s, fwd, side, delta_axis, delta_angle, velocity, n);
    assert(0 <= n * D_STRIKE_CHARGE) by (nonlinear_arith)
        requires
            n >= 0,
    ;
}

/// Compute the strike impulse for a released reserve of `spent` millis.
pub fn strike_impulse(fwd: Vec3, spent: i64) -> (r: Vec3)
    requires
        fwd.bounded(MILLI as int),
        0 <= spent <= MAX_CHARGE,
    ensures
        r == strike_impulse_spec(fwd, spent as int),
{
    proof {
        lemma_product_bound2(fwd.x as int, spent as int, MILLI as int, MAX_CHARGE as int);
        lemma_product_bound2(fwd.y as int, spent as int, MILLI as int, MAX_CHARGE as int);
        lemma_product_bound2(fwd.z as int, spent as int, MILLI as int, MAX_CHARGE as int);
        lemma_div_t_bound(
            fwd.x as int * spent as int * STRIKE_IMPULSE_GAIN as int,
            MILLI as int,
            200_000_000,
        );
        lemma_div_t_bound(
            fwd.y as int * spent as int * STRIKE_IMPULSE_GAIN as int,
            MILLI as int,
            200_000_000,
        );
        lemma_div_t_bound(
            fwd.z as int * spent as int * STRIKE_IMPULSE_GAIN as int,
            MILLI as int,
            200_000_000,
        );
    }
    Vec3 {
        x: fwd.x * spent * STRIKE_IMPULSE_GAIN / MILLI,
        y: fwd.y * spent * STRIKE_IMPULSE_GAIN / MILLI,
        z: fwd.z * spent * STRIKE_IMPULSE_GAIN / MILLI,
    }
}

} // verus!
