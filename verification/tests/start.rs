use tank_game::commands::Command;
use tank_game::components::{Enemy, Player, FULL_HEALTH};
use tank_game::fixed::{Vec3, UNIT};
use tank_game::level::{spawn_enemy_tank, spawn_player_tank, TANK_SIDE};
use tank_game::transform::{Rotation, Transform};

#[test]
fn player_tank_starts_five_units_to_one_side() {
    let mut commands = Vec::new();
    spawn_player_tank(&mut commands);
    assert_eq!(commands.len(), 1);
    match &commands[0] {
        Command::SpawnPlayer { transform, player, hitbox } => {
            assert_eq!(*transform, Transform::from_xyz(5 * UNIT, UNIT / 2, 0));
            assert_eq!(transform.rotation, Rotation::identity());
            assert_eq!(*player, Player { health: FULL_HEALTH });
            assert_eq!(hitbox.dimensions(), Vec3::new(UNIT, UNIT, UNIT));
        }
        other => panic!("not the player: {:?}", other),
    }
}

#[test]
fn enemy_tank_starts_five_units_to_the_other_side() {
    let mut commands = Vec::new();
    spawn_enemy_tank(&mut commands);
    assert_eq!(commands.len(), 1);
    match &commands[0] {
        Command::SpawnEnemy { transform, enemy, hitbox } => {
            assert_eq!(*transform, Transform::from_xyz(-5 * UNIT, UNIT / 2, 0));
            assert_eq!(*enemy, Enemy { health: 100 * UNIT });
            assert_eq!(hitbox.dimensions(), Vec3::new(TANK_SIDE, TANK_SIDE, TANK_SIDE));
        }
        other => panic!("not the enemy: {:?}", other),
    }
}

#[test]
fn tanks_are_queued_behind_what_is_queued() {
    let mut commands = Vec::new();
    spawn_player_tank(&mut commands);
    spawn_enemy_tank(&mut commands);
    spawn_player_tank(&mut commands);
    assert_eq!(commands.len(), 3);
    assert!(matches!(commands[0], Command::SpawnPlayer { .. }));
    assert!(matches!(commands[1], Command::SpawnEnemy { .. }));
    assert!(matches!(commands[2], Command::SpawnPlayer { .. }));
}
