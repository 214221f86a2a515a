//! Requests to create or remove entities, queued during a tick and carried
//! out by the engine once every system of the tick has run.
use crate::components::Bullet;
use crate::components::Enemy;
use crate::components::Hitbox;
use crate::components::Player;
use crate::transform::Transform;
use bevy::ecs::entity::Entity;
use vstd::prelude::*;

verus! {

/// `bevy::ecs::entity::Entity`, carried as an opaque value.
#[verifier::external_type_specification]
#[verifier::external_body]
pub struct ExEntity(Entity);

/// One queued request.
#[derive(Debug)]
pub enum Command {
    /// Create the player's tank.
    SpawnPlayer { transform: Transform, player: Player, hitbox: Hitbox },
    /// Create the enemy tank.
    SpawnEnemy { transform: Transform, enemy: Enemy, hitbox: Hitbox },
    /// Create a bullet.
    SpawnBullet { transform: Transform, hitbox: Hitbox, bullet: Bullet },
    /// Remove an entity, with whatever is attached below it.
    Despawn(Entity),
}

} // verus!
