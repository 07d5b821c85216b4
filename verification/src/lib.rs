//! Game-logic core of a small 3D flying-drone arcade game.
//!
//! The library holds the per-frame rules of the game: the battery/health
//! resource model of a drone, the movement controller that turns held input
//! actions into force, torque and impulse requests, the distance-banded
//! effects of an energy-beam hazard, the lifecycle bookkeeping that removes
//! drained drones, and the pause-menu settings. All world quantities are
//! carried as fixed-point integers (thousandths of a world unit), so every
//! rule is exact and proved. The physics integrator, the renderer and the
//! input device are external collaborators: a caller reads body positions and
//! velocities, hands them in as plain values, and applies the force requests
//! the library hands back.

pub mod beam;
pub mod drone;
pub mod info_panel;
pub mod input;
pub mod level;
pub mod lifecycle;
pub mod settings;
pub mod vec3;
