//! The two systems that run on bullets: the one that ends their lives and
//! the one that flies them and tests them against the enemies.
use crate::collision::collides;
use crate::collision::overlap;
use crate::commands::Command;
use crate::components::Bullet;
use crate::components::Enemy;
use crate::components::Hitbox;
use crate::fixed::distance;
use crate::fixed::travel;
use crate::transform::Transform;
use bevy::ecs::entity::Entity;
use vstd::prelude::*;

verus! {

/// One bullet as the engine's query hands it out.
#[derive(Debug)]
pub struct BulletRow {
    pub entity: Entity,
    pub bullet: Bullet,
    pub hitbox: Hitbox,
    pub transform: Transform,
}

/// One enemy as the engine's query hands it out. No enemy is a bullet too.
#[derive(Debug)]
pub struct EnemyRow {
    pub entity: Entity,
    pub enemy: Enemy,
    pub hitbox: Hitbox,
    pub transform: Transform,
}

impl BulletRow {
    /// Whether `after` is this row with `delta` nanoseconds more counted on
    /// its timer and nothing else changed.
    pub open spec fn aged(self, after: BulletRow, delta: u64) -> bool {
        &&& after.entity == self.entity
        &&& after.hitbox == self.hitbox
        &&& after.transform == self.transform
        &&& after.bullet.speed() == self.bullet.speed()
        &&& after.bullet.lifetime() == self.bullet.lifetime().after(delta as nat)
    }

    /// The distance that the bullet covers in `delta` nanoseconds.
    pub open spec fn reach(self, delta: u64) -> int {
        distance(self.bullet.speed() as int, delta as int)
    }

    /// Whether `after` is this row flown for `delta` nanoseconds along its
    /// forward axis and nothing else changed.
    pub open spec fn flown(self, after: BulletRow, delta: u64) -> bool {
        &&& after.entity == self.entity
        &&& after.bullet == self.bullet
        &&& after.hitbox == self.hitbox
        &&& after.transform == self.transform.moved(self.reach(delta))
    }

    /// Whether the bullet, where it is after this tick's flight, hits
    /// `enemy`: the boxes overlap once the bullet's is widened by what the
    /// bullet covered in this tick.
    pub open spec fn hits(self, enemy: EnemyRow, delta: u64) -> bool {
        overlap(
            self.transform.translation,
            self.hitbox@,
            enemy.transform.translation,
            enemy.hitbox@,
            self.reach(delta),
        )
    }
}

impl EnemyRow {
    /// The row after one hit.
    pub open spec fn struck(self) -> EnemyRow {
        EnemyRow { enemy: self.enemy.damaged(), ..self }
    }
}

/// The removals that `bullet_despawn` queues: one for each bullet whose
/// life ends in this tick, in the order of the rows.
pub open spec fn expired(bullets: Seq<BulletRow>, delta: u64) -> Seq<Command>
    decreases bullets.len(),
{
    if bullets.len() == 0 {
        Seq::empty()
    } else {
        let rest = expired(bullets.drop_last(), delta);
        if bullets.last().bullet.lifetime().expires(delta as nat) {
            rest.push(Command::Despawn(bullets.last().entity))
        } else {
            rest
        }
    }
}

/// Counts `delta` nanoseconds on every bullet's timer and queues the removal
/// of each bullet whose life ends in this tick. A bullet whose life ended
/// in an earlier tick is not queued again.
pub fn bullet_despawn(commands: &mut Vec<Command>, bullets: &mut Vec<BulletRow>, delta: u64)
    ensures
        final(bullets)@.len() == old(bullets)@.len(),
        forall|k: int|
            0 <= k < old(bullets)@.len() ==> (#[trigger] old(bullets)@[k]).aged(
                final(bullets)@[k],
                delta,
            ),
        final(commands)@ == old(commands)@ + expired(old(bullets)@, delta),
{
    let mut i: usize = 0;
    while i < bullets.len()
        invariant
            i <= bullets@.len(),
            bullets@.len() == old(bullets)@.len(),
            forall|k: int| 0 <= k < i ==> (#[trigger] old(bullets)@[k]).aged(bullets@[k], delta),
            forall|k: int| i <= k < bullets@.len() ==> bullets@[k] == old(bullets)@[k],
            commands@ == old(commands)@ + expired(old(bullets)@.take(i as int), delta),
        decreases bullets@.len() - i,
    {
        assert(old(bullets)@.take(i + 1).drop_last() == old(bullets)@.take(i as int));
        let ended = bullets[i].bullet.tick(delta);
        if ended {
            commands.push(Command::Despawn(bullets[i].entity));
        }
        i += 1;
    }
    assert(old(bullets)@.take(i as int) == old(bullets)@);
}

/// The enemies after one bullet was tested against each of them: every
/// enemy that the bullet hits has taken one hit.
pub open spec fn strike(enemies: Seq<EnemyRow>, bullet: BulletRow, delta: u64) -> Seq<EnemyRow> {
    Seq::new(
        enemies.len(),
        |j: int|
            if bullet.hits(enemies[j], delta) {
                enemies[j].struck()
            } else {
                enemies[j]
            },
    )
}

/// The removals that one bullet causes, enemy by enemy: for each enemy that
/// it hits the bullet's own, followed by the enemy's if that hit leaves the
/// enemy destroyed.
pub open spec fn strike_commands(enemies: Seq<EnemyRow>, bullet: BulletRow, delta: u64) -> Seq<
    Command,
>
    decreases enemies.len(),
{
    if enemies.len() == 0 {
        Seq::empty()
    } else {
        let rest = strike_commands(enemies.drop_last(), bullet, delta);
        let enemy = enemies.last();
        if !bullet.hits(enemy, delta) {
            rest
        } else if enemy.struck().enemy.destroyed() {
            rest.push(Command::Despawn(bullet.entity)).push(Command::Despawn(enemy.entity))
        } else {
            rest.push(Command::Despawn(bullet.entity))
        }
    }
}

/// The enemies after every bullet in turn was tested against each of them.
/// The bullets are taken where they are after this tick's flight.
pub open spec fn volley(enemies: Seq<EnemyRow>, bullets: Seq<BulletRow>, delta: u64) -> Seq<
    EnemyRow,
>
    decreases bullets.len(),
{
    if bullets.len() == 0 {
        enemies
    } else {
        strike(volley(enemies, bullets.drop_last(), delta), bullets.last(), delta)
    }
}

/// The removals that `bullet_movement` queues, bullet by bullet.
pub open spec fn volley_commands(enemies: Seq<EnemyRow>, bullets: Seq<BulletRow>, delta: u64) -> Seq<
    Command,
>
    decreases bullets.len(),
{
    if bullets.len() == 0 {
        Seq::empty()
    } else {
        volley_commands(enemies, bullets.drop_last(), delta) + strike_commands(
            volley(enemies, bullets.drop_last(), delta),
            bullets.last(),
            delta,
        )
    }
}

/// How many of `bullets` hit `enemy`.
pub open spec fn hit_count(enemy: EnemyRow, bullets: Seq<BulletRow>, delta: u64) -> nat
    decreases bullets.len(),
{
    if bullets.len() == 0 {
        0
    } else {
        let earlier = hit_count(enemy, bullets.drop_last(), delta);
        if bullets.last().hits(enemy, delta) {
            earlier + 1
        } else {
            earlier
        }
    }
}

/// Every bullet that hits an enemy in one tick counts: after the volley
/// each enemy has taken as many hits as bullets hit it, and is otherwise as
/// it was. Its health has not gone up.
pub proof fn lemma_volley_counts_hits(enemies: Seq<EnemyRow>, bullets: Seq<BulletRow>, delta: u64)
    ensures
        volley(enemies, bullets, delta).len() == enemies.len(),
        forall|j: int|
            0 <= j < enemies.len() ==> #[trigger] volley(enemies, bullets, delta)[j] == (EnemyRow {
                enemy: enemies[j].enemy.hit_times(hit_count(enemies[j], bullets, delta)),
                ..enemies[j]
            }),
        forall|j: int|
            0 <= j < enemies.len() ==> (#[trigger] volley(
                enemies,
                bullets,
                delta,
            )[j]).enemy.health <= enemies[j].enemy.health,
    decreases bullets.len(),
{
    if bullets.len() > 0 {
        lemma_volley_counts_hits(enemies, bullets.drop_last(), delta);
    }
    assert forall|j: int| 0 <= j < enemies.len() implies (#[trigger] volley(
        enemies,
        bullets,
        delta,
    )[j]).enemy.health <= enemies[j].enemy.health by {
        enemies[j].enemy.lemma_hits_add_up(hit_count(enemies[j], bullets, delta));
    }
}

/// Flies every bullet for `delta` nanoseconds along its forward axis, then
/// tests it against every enemy. Each hit queues the bullet's removal and
/// takes a hit's worth of health from the enemy; an enemy left without
/// health has its removal queued too. Removals happen after the tick, so a
/// bullet that has hit goes on to the next enemy, and an enemy that is
/// already destroyed can be hit again by the next bullet.
pub fn bullet_movement(
    commands: &mut Vec<Command>,
    delta: u64,
    bullets: &mut Vec<BulletRow>,
    enemies: &mut Vec<EnemyRow>,
)
    ensures
        final(bullets)@.len() == old(bullets)@.len(),
        forall|k: int|
            0 <= k < old(bullets)@.len() ==> (#[trigger] old(bullets)@[k]).flown(
                final(bullets)@[k],
                delta,
            ),
        final(enemies)@ == volley(old(enemies)@, final(bullets)@, delta),
        final(commands)@ == old(commands)@ + volley_commands(
            old(enemies)@,
            final(bullets)@,
            delta,
        ),
{
    let mut i: usize = 0;
    while i < bullets.len()
        invariant
            i <= bullets@.len(),
            bullets@.len() == old(bullets)@.len(),
            forall|k: int| 0 <= k < i ==> (#[trigger] old(bullets)@[k]).flown(bullets@[k], delta),
            forall|k: int| i <= k < bullets@.len() ==> bullets@[k] == old(bullets)@[k],
            enemies@ == volley(old(enemies)@, bullets@.take(i as int), delta),
            commands@ == old(commands)@ + volley_commands(
                old(enemies)@,
                bullets@.take(i as int),
                delta,
            ),
        decreases bullets@.len() - i,
    {
        let ghost flown_so_far = bullets@.take(i as int);
        let reach: i64 = travel(bullets[i].bullet.speed(), delta);
        bullets[i].transform.advance(reach);
        let at = bullets[i].transform.translation;
        let ghost bullet = bullets@[i as int];
        let ghost enemies_before = enemies@;
        let ghost commands_before = commands@;
        assert(bullets@.take(i as int) == flown_so_far);
        assert(bullets@.take(i + 1).drop_last() == flown_so_far);
        assert(bullets@.take(i + 1).last() == bullet);
        let mut j: usize = 0;
        while j < enemies.len()
            invariant
                j <= enemies@.len(),
                i < bullets@.len(),
                bullets@[i as int] == bullet,
                at == bullet.transform.translation,
                reach == bullet.reach(delta),
                enemies@.len() == enemies_before.len(),
                forall|k: int|
                    0 <= k < j ==> enemies@[k] == strike(enemies_before, bullet, delta)[k],
                forall|k: int| j <= k < enemies@.len() ==> enemies@[k] == enemies_before[k],
                commands@ == commands_before + strike_commands(
                    enemies_before.take(j as int),
                    bullet,
                    delta,
                ),
            decreases enemies@.len() - j,
        {
            assert(enemies_before.take(j + 1).drop_last() == enemies_before.take(j as int));
            if collides(
                at,
                &bullets[i].hitbox,
                enemies[j].transform.translation,
                &enemies[j].hitbox,
                reach,
            ) {
                commands.push(Command::Despawn(bullets[i].entity));
                if enemies[j].enemy.hit() {
                    commands.push(Command::Despawn(enemies[j].entity));
                }
            }
            j += 1;
        }
        assert(enemies_before.take(j as int) == enemies_before);
        assert(enemies@ == strike(enemies_before, bullet, delta));
        i += 1;
    }
    assert(bullets@.take(i as int) == bullets@);
}

} // verus!
