//! The stock level: where the hazard and the drones start.

use vstd::prelude::*;

use crate::vec3::{Vec3, COORD_LIMIT};

verus! {

/// The hazard emitter sits at the origin.
pub fn beam_spawn_position() -> (r: Vec3)
    ensures
        r == (Vec3 { x: 0i64, y: 0i64, z: 0i64 }),
{
    Vec3 { x: 0, y: 0, z: 0 }
}

/// The player starts ten units along the x axis.
pub fn player_spawn_position() -> (r: Vec3)
    ensures
        r == (Vec3 { x: 10_000i64, y: 0i64, z: 0i64 }),
{
    Vec3 { x: 10_000, y: 0, z: 0 }
}

/// Starting positions of the twenty non-player drones, in millis.
pub open spec fn ai_spawn_positions_spec() -> Seq<Vec3> {
    seq![
        Vec3 { x: 80_000i64, y: 10_000i64, z: -90_000i64 },
        Vec3 { x: -50_000i64, y: 20_000i64, z: 30_000i64 },
        Vec3 { x: 100_000i64, y: -50_000i64, z: -40_000i64 },
        Vec3 { x: 0i64, y: -25_000i64, z: 20_000i64 },
        Vec3 { x: 15_000i64, y: 35_000i64, z: -2_000i64 },
        Vec3 { x: -90_000i64, y: -85_000i64, z: 10_000i64 },
        Vec3 { x: -45_000i64, y: 25_000i64, z: -95_000i64 },
        Vec3 { x: -80_000i64, y: -10_000i64, z: 90_000i64 },
        Vec3 { x: 50_000i64, y: -20_000i64, z: -30_000i64 },
        Vec3 { x: -95_000i64, y: 50_000i64, z: 40_000i64 },
        Vec3 { x: 10_000i64, y: 25_000i64, z: -20_000i64 },
        Vec3 { x: -15_000i64, y: -35_000i64, z: 2_000i64 },
        Vec3 { x: 90_000i64, y: 85_000i64, z: -10_000i64 },
        Vec3 { x: 45_000i64, y: -25_000i64, z: 95_000i64 },
        Vec3 { x: 80_000i64, y: -10_000i64, z: -90_000i64 },
        Vec3 { x: 50_000i64, y: 20_000i64, z: -30_000i64 },
        Vec3 { x: 100_000i64, y: 50_000i64, z: -40_000i64 },
        Vec3 { x: 0i64, y: -25_000i64, z: -20_000i64 },
        Vec3 { x: -15_000i64, y: 35_000i64, z: 2_000i64 },
        Vec3 { x: -90_000i64, y: 85_000i64, z: 10_000i64 },
    ]
}

/// Starting positions of the twenty non-player drones.
pub fn ai_spawn_positions() -> (r: Vec<Vec3>)
    ensures
        r@ == ai_spawn_positions_spec(),
        forall|k: int| 0 <= k < r@.len() ==> (#[trigger] r@[k]).bounded(COORD_LIMIT as int),
{
    let mut r: Vec<Vec3> = Vec::new();
    r.push(Vec3 { x: 80_000, y: 10_000, z: -90_000 });
    r.push(Vec3 { x: -50_000, y: 20_000, z: 30_000 });
    r.push(Vec3 { x: 100_000, y: -50_000, z: -40_000 });
    r.push(Vec3 { x: 0, y: -25_000, z: 20_000 });
    r.push(Vec3 { x: 15_000, y: 35_000, z: -2_000 });
    r.push(Vec3 { x: -90_000, y: -85_000, z: 10_000 });
    r.push(Vec3 { x: -45_000, y: 25_000, z: -95_000 });
    r.push(Vec3 { x: -80_000, y: -10_000, z: 90_000 });
    r.push(Vec3 { x: 50_000, y: -20_000, z: -30_000 });
    r.push(Vec3 { x: -95_000, y: 50_000, z: 40_000 });
    r.push(Vec3 { x: 10_000, y: 25_000, z: -20_000 });
    r.push(Vec3 { x: -15_000, y: -35_000, z: 2_000 });
    r.push(Vec3 { x: 90_000, y: 85_000, z: -10_000 });
    r.push(Vec3 { x: 45_000, y: -25_000, z: 95_000 });
    r.push(Vec3 { x: 80_000, y: -10_000, z: -90_000 });
    r.push(Vec3 { x: 50_000, y: 20_000, z: -30_000 });
    r.push(Vec3 { x: 100_000, y: 50_000, z: -40_000 });
    r.push(Vec3 { x: 0, y: -25_000, z: -20_000 });
    r.push(Vec3 { x: -15_000, y: 35_000, z: 2_000 });
    r.push(Vec3 { x: -90_000, y: 85_000, z: 10_000 });
    proof {
        assert(r@ =~= ai_spawn_positions_spec());
    }
    r
}

} // verus!
