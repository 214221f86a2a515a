//! Game rules of a small tank shooter, in fixed-point arithmetic.
//!
//! A player tank drives and turns, fires bullets on a key press, and the
//! bullets fly until their lifetime runs out or they hit the enemy tank.
//! The engine around these rules owns the entities; each system here takes
//! the rows that the engine's queries hand out, changes them in place and
//! queues the entities to create or remove.
pub mod bullets;
pub mod collision;
pub mod commands;
pub mod components;
pub mod controls;
pub mod fixed;
pub mod input;
pub mod level;
pub mod timer;
pub mod transform;

pub use crate::components::Bullet;
pub use crate::components::Enemy;
pub use crate::components::Hitbox;
pub use crate::components::Player;
