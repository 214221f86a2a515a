//! The two tanks that the game starts with.
use crate::commands::Command;
use crate::components::Enemy;
use crate::components::Hitbox;
use crate::components::Player;
use crate::components::FULL_HEALTH;
use crate::fixed::Vec3;
use crate::fixed::UNIT;
use crate::transform::Rotation;
use crate::transform::Transform;
use vstd::prelude::*;

verus! {

/// Each side of a tank's box: one unit.
pub const TANK_SIDE: i64 = 1_000_000_000;

/// Where the player's tank starts: five units to one side of the origin,
/// half a unit up, facing down the negative depth axis.
pub open spec fn player_start() -> Transform {
    Transform {
        translation: Vec3 { x: 5_000_000_000, y: 500_000_000, z: 0 },
        rotation: Rotation::unturned(),
    }
}

/// Where the enemy tank starts: five units to the other side of the origin,
/// half a unit up, facing down the negative depth axis.
pub open spec fn enemy_start() -> Transform {
    Transform {
        translation: Vec3 { x: -5_000_000_000i64, y: 500_000_000, z: 0 },
        rotation: Rotation::unturned(),
    }
}

/// Whether `hitbox` is the box of a tank.
pub open spec fn tank_sized(hitbox: Hitbox) -> bool {
    hitbox@ == (Vec3 { x: TANK_SIDE, y: TANK_SIDE, z: TANK_SIDE })
}

/// Whether `command` creates the player's tank as the game starts it: at
/// its start, with full health and a tank's box.
pub open spec fn spawns_player(command: Command) -> bool {
    &&& command matches Command::SpawnPlayer { transform, player, hitbox }
    &&& transform == player_start()
    &&& player == (Player { health: FULL_HEALTH })
    &&& tank_sized(hitbox)
}

/// Whether `command` creates the enemy tank as the game starts it: at its
/// start, with full health and a tank's box.
pub open spec fn spawns_enemy(command: Command) -> bool {
    &&& command matches Command::SpawnEnemy { transform, enemy, hitbox }
    &&& transform == enemy_start()
    &&& enemy == (Enemy { health: FULL_HEALTH })
    &&& tank_sized(hitbox)
}

fn tank_box() -> (hitbox: Hitbox)
    ensures
        tank_sized(hitbox),
{
    Hitbox::new(Vec3 { x: TANK_SIDE, y: TANK_SIDE, z: TANK_SIDE }).unwrap()
}

/// Queues the creation of the player's tank.
pub fn spawn_player_tank(commands: &mut Vec<Command>)
    ensures
        final(commands)@.len() == old(commands)@.len() + 1,
        final(commands)@.drop_last() == old(commands)@,
        spawns_player(final(commands)@.last()),
{
    commands.push(
        Command::SpawnPlayer {
            transform: Transform::from_xyz(5 * UNIT, UNIT / 2, 0),
            player: Player { health: FULL_HEALTH },
            hitbox: tank_box(),
        },
    );
    assert(final(commands)@.drop_last() == old(commands)@);
}

/// Queues the creation of the enemy tank.
pub fn spawn_enemy_tank(commands: &mut Vec<Command>)
    ensures
        final(commands)@.len() == old(commands)@.len() + 1,
        final(commands)@.drop_last() == old(commands)@,
        spawns_enemy(final(commands)@.last()),
{
    commands.push(
        Command::SpawnEnemy {
            transform: Transform::from_xyz(-5 * UNIT, UNIT / 2, 0),
            enemy: Enemy { health: FULL_HEALTH },
            hitbox: tank_box(),
        },
    );
    assert(final(commands)@.drop_last() == old(commands)@);
}

} // verus!
