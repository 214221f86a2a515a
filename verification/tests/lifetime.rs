use bevy::ecs::entity::Entity;
use tank_game::bullets::{bullet_despawn, BulletRow};
use tank_game::commands::Command;
use tank_game::components::{Bullet, Hitbox};
use tank_game::fixed::{Vec3, UNIT};
use tank_game::transform::Transform;

const SECOND: u64 = 1_000_000_000;

fn row(id: u32, duration: u64) -> BulletRow {
    BulletRow {
        entity: Entity::from_raw(id),
        bullet: Bullet::new(duration, 5 * UNIT),
        hitbox: Hitbox::new(Vec3::new(UNIT / 10, UNIT / 10, UNIT / 10)).unwrap(),
        transform: Transform::from_xyz(UNIT, 2 * UNIT, 3 * UNIT),
    }
}

fn removed(commands: &[Command]) -> Vec<Entity> {
    commands
        .iter()
        .map(|command| match command {
            Command::Despawn(entity) => *entity,
            other => panic!("not a removal: {:?}", other),
        })
        .collect()
}

#[test]
fn new_bullet_has_not_finished() {
    let bullet = Bullet::new(2 * SECOND, 5 * UNIT);
    assert!(!bullet.finished());
    assert!(!bullet.just_finished());
    assert_eq!(bullet.speed(), 5 * UNIT);
}

#[test]
fn bullet_expires_in_the_tick_that_reaches_two_seconds() {
    let mut bullet = Bullet::new(2 * SECOND, 5 * UNIT);
    assert!(!bullet.tick(SECOND / 2));
    assert!(!bullet.tick(SECOND / 2));
    assert!(!bullet.tick(SECOND / 2));
    assert!(!bullet.finished());
    assert!(bullet.tick(SECOND / 2));
    assert!(bullet.finished());
    assert!(bullet.just_finished());
}

#[test]
fn bullet_expires_once_and_never_again() {
    let mut bullet = Bullet::new(2 * SECOND, 5 * UNIT);
    let mut expiries = 0;
    for _ in 0..100 {
        if bullet.tick(SECOND / 10) {
            expiries += 1;
        }
    }
    assert_eq!(expiries, 1);
    assert!(bullet.finished());
    assert!(!bullet.just_finished());
}

#[test]
fn one_nanosecond_short_is_not_expired() {
    let mut bullet = Bullet::new(2 * SECOND, 5 * UNIT);
    assert!(!bullet.tick(2 * SECOND - 1));
    assert!(!bullet.finished());
    assert!(bullet.tick(1));
}

#[test]
fn two_seconds_in_a_single_tick_expire_in_that_tick() {
    let mut bullet = Bullet::new(2 * SECOND, 5 * UNIT);
    assert!(bullet.tick(2 * SECOND));
    assert!(bullet.just_finished());
    assert!(!bullet.tick(2 * SECOND));
}

#[test]
fn a_very_long_tick_expires_in_that_tick() {
    let mut bullet = Bullet::new(2 * SECOND, 5 * UNIT);
    assert!(bullet.tick(u64::MAX));
    assert!(!bullet.tick(u64::MAX));
    assert!(bullet.finished());
}

#[test]
fn ticks_of_no_time_do_not_expire() {
    let mut bullet = Bullet::new(2 * SECOND, 5 * UNIT);
    for _ in 0..10 {
        assert!(!bullet.tick(0));
    }
    assert!(!bullet.finished());
}

#[test]
fn a_bullet_with_no_lifetime_expires_in_its_first_tick() {
    let mut bullet = Bullet::new(0, 5 * UNIT);
    assert!(!bullet.finished());
    assert!(bullet.tick(0));
    assert!(!bullet.tick(0));
}

#[test]
fn a_copy_of_a_bullet_carries_its_count() {
    let mut bullet = Bullet::new(2 * SECOND, 3 * UNIT);
    assert!(!bullet.tick(3 * SECOND / 2));
    let mut copy = bullet.clone();
    assert_eq!(copy.speed(), 3 * UNIT);
    assert!(!copy.finished());
    assert!(copy.tick(SECOND / 2));
    assert!(!bullet.finished());
    assert!(!bullet.tick(SECOND / 4));
    assert!(bullet.tick(SECOND / 4));
}

#[test]
fn despawn_queues_each_bullet_in_the_tick_it_expires() {
    let mut bullets = vec![row(1, 2 * SECOND), row(2, SECOND), row(3, 2 * SECOND), row(4, 3 * SECOND)];
    let mut commands = Vec::new();

    bullet_despawn(&mut commands, &mut bullets, SECOND);
    assert_eq!(removed(&commands), vec![Entity::from_raw(2)]);

    bullet_despawn(&mut commands, &mut bullets, SECOND);
    assert_eq!(
        removed(&commands),
        vec![Entity::from_raw(2), Entity::from_raw(1), Entity::from_raw(3)]
    );

    bullet_despawn(&mut commands, &mut bullets, SECOND);
    assert_eq!(
        removed(&commands),
        vec![
            Entity::from_raw(2),
            Entity::from_raw(1),
            Entity::from_raw(3),
            Entity::from_raw(4),
        ]
    );

    bullet_despawn(&mut commands, &mut bullets, SECOND);
    assert_eq!(commands.len(), 4);
}

#[test]
fn despawn_leaves_the_rest_of_the_row_alone() {
    let mut bullets = vec![row(7, 2 * SECOND)];
    let mut commands = Vec::new();
    bullet_despawn(&mut commands, &mut bullets, SECOND);
    assert!(commands.is_empty());
    assert_eq!(bullets.len(), 1);
    assert_eq!(bullets[0].entity, Entity::from_raw(7));
    assert_eq!(bullets[0].transform, Transform::from_xyz(UNIT, 2 * UNIT, 3 * UNIT));
    assert_eq!(bullets[0].hitbox.dimensions(), Vec3::new(UNIT / 10, UNIT / 10, UNIT / 10));
    assert_eq!(bullets[0].bullet.speed(), 5 * UNIT);
    assert!(!bullets[0].bullet.finished());
}

#[test]
fn despawn_of_no_bullets_queues_nothing() {
    let mut bullets: Vec<BulletRow> = Vec::new();
    let mut commands = vec![Command::Despawn(Entity::from_raw(5))];
    bullet_despawn(&mut commands, &mut bullets, SECOND);
    assert_eq!(removed(&commands), vec![Entity::from_raw(5)]);
}
