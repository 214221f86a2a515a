//! The components that the rules read and change.
use crate::fixed::clamp;
use crate::fixed::minus;
use crate::fixed::Vec3;
use crate::timer::timer_counts_once;
use crate::timer::timer_duration;
use crate::timer::timer_elapsed;
use crate::timer::timer_finished;
use crate::timer::timer_just_finished;
use bevy::time::Timer;
use vstd::prelude::*;

verus! {

/// The health that a tank starts with: one hundred points.
pub const FULL_HEALTH: i64 = 100_000_000_000;

/// The health that one hit takes: five points.
pub const DAMAGE: i64 = 5_000_000_000;

/// An axis-aligned box centred on its entity: full width, height and depth.
#[derive(Clone, Copy, Debug)]
pub struct Hitbox {
    dimensions: Vec3,
}

impl View for Hitbox {
    type V = Vec3;

    closed spec fn view(&self) -> Vec3 {
        self.dimensions
    }
}

impl Hitbox {
    #[verifier::type_invariant]
    spec fn valid(self) -> bool {
        Self::non_negative(self.dimensions)
    }

    /// Whether no side of `dimensions` is negative.
    pub open spec fn non_negative(dimensions: Vec3) -> bool {
        dimensions.x >= 0 && dimensions.y >= 0 && dimensions.z >= 0
    }

    /// A box of the given sides, unless one of them is negative.
    pub fn new(dimensions: Vec3) -> (r: Option<Hitbox>)
        ensures
            r is Some <==> Self::non_negative(dimensions),
            r matches Some(h) ==> h@ == dimensions,
    {
        if dimensions.x >= 0 && dimensions.y >= 0 && dimensions.z >= 0 {
            Some(Hitbox { dimensions })
        } else {
            None
        }
    }

    /// The sides of the box, none of them negative.
    pub fn dimensions(&self) -> (d: Vec3)
        ensures
            d == self@,
            Self::non_negative(d),
    {
        proof {
            use_type_invariant(self);
        }
        self.dimensions
    }
}

/// The player's tank.
#[derive(Clone, Copy, Debug, PartialEq, Eq, Structural)]
pub struct Player {
    pub health: i64,
}

/// The enemy tank.
#[derive(Clone, Copy, Debug, PartialEq, Eq, Structural)]
pub struct Enemy {
    pub health: i64,
}

impl Enemy {
    /// The enemy after one hit.
    pub open spec fn damaged(self) -> Enemy {
        Enemy { health: clamp(self.health - DAMAGE) as i64 }
    }

    /// Whether the enemy has no health left.
    pub open spec fn destroyed(self) -> bool {
        self.health <= 0
    }

    /// The enemy after `hits` hits.
    pub open spec fn hit_times(self, hits: nat) -> Enemy
        decreases hits,
    {
        if hits == 0 {
            self
        } else {
            self.hit_times((hits - 1) as nat).damaged()
        }
    }

    /// Hits add up: after `hits` hits the enemy has lost that many times the
    /// damage of one, down to the least health there is. No hit raises the
    /// health, and each one lowers it as long as there is room below.
    pub proof fn lemma_hits_add_up(self, hits: nat)
        ensures
            self.hit_times(hits).health == clamp(self.health - hits * DAMAGE),
            self.hit_times(hits + 1).health <= self.hit_times(hits).health,
            self.health - (hits + 1) * DAMAGE >= i64::MIN ==> self.hit_times(hits + 1).health
                < self.hit_times(hits).health,
        decreases hits,
    {
        if hits > 0 {
            self.lemma_hits_add_up((hits - 1) as nat);
        }
        assert(self.hit_times(hits + 1) == self.hit_times(hits).damaged());
    }

    /// An enemy at full health is destroyed by its twentieth hit and by none
    /// before it.
    pub proof fn lemma_twenty_hits_destroy(hits: nat)
        ensures
            (Enemy { health: FULL_HEALTH }).hit_times(hits).destroyed() <==> hits >= 20,
    {
        (Enemy { health: FULL_HEALTH }).lemma_hits_add_up(hits);
    }

    /// Takes one hit, and says whether the enemy is destroyed by now.
    pub fn hit(&mut self) -> (destroyed: bool)
        ensures
            *final(self) == old(self).damaged(),
            destroyed == final(self).destroyed(),
    {
        self.health = minus(self.health, DAMAGE);
        self.health <= 0
    }
}

/// The sum of `deltas`.
pub open spec fn total(deltas: Seq<u64>) -> nat
    decreases deltas.len(),
{
    if deltas.len() == 0 {
        0
    } else {
        total(deltas.drop_last()) + deltas.last() as nat
    }
}

/// What a bullet's timer has counted.
pub struct Lifetime {
    /// Nanoseconds counted so far.
    pub elapsed: nat,
    /// Nanoseconds that the bullet lives.
    pub duration: nat,
    /// Whether the duration has been reached.
    pub finished: bool,
    /// Whether the duration was reached in the latest tick.
    pub just_finished: bool,
}

impl Lifetime {
    /// A lifetime of `duration` nanoseconds of which none has passed.
    pub open spec fn fresh(duration: nat) -> Lifetime {
        Lifetime { elapsed: 0, duration, finished: false, just_finished: false }
    }

    /// Whether a tick of `delta` nanoseconds reaches the duration.
    pub open spec fn expires(self, delta: nat) -> bool {
        !self.finished && self.elapsed + delta >= self.duration
    }

    /// The lifetime after a tick of `delta` nanoseconds.
    pub open spec fn after(self, delta: nat) -> Lifetime {
        if self.finished {
            Lifetime { just_finished: false, ..self }
        } else if self.elapsed + delta >= self.duration {
            Lifetime { elapsed: self.duration, finished: true, just_finished: true, ..self }
        } else {
            Lifetime { elapsed: self.elapsed + delta, just_finished: false, ..self }
        }
    }

    /// The lifetime after one tick for each of `deltas`, in their order.
    pub open spec fn run(self, deltas: Seq<u64>) -> Lifetime
        decreases deltas.len(),
    {
        if deltas.len() == 0 {
            self
        } else {
            self.run(deltas.drop_last()).after(deltas.last() as nat)
        }
    }

    /// In how many of the ticks of `run` the lifetime ended.
    pub open spec fn expiries(self, deltas: Seq<u64>) -> nat
        decreases deltas.len(),
    {
        if deltas.len() == 0 {
            0
        } else {
            let earlier = self.expiries(deltas.drop_last());
            if self.run(deltas.drop_last()).expires(deltas.last() as nat) {
                earlier + 1
            } else {
                earlier
            }
        }
    }

    /// A fresh lifetime ends in exactly one tick once the ticks add up to
    /// its duration, however they are cut, and in none before that. Until
    /// then it holds the sum of the ticks, afterwards its duration.
    pub proof fn lemma_expires_once(duration: nat, deltas: Seq<u64>)
        ensures
            Self::fresh(duration).expiries(deltas) == (if deltas.len() > 0 && total(deltas)
                >= duration {
                1nat
            } else {
                0nat
            }),
            Self::fresh(duration).run(deltas).finished <==> deltas.len() > 0 && total(deltas)
                >= duration,
            Self::fresh(duration).run(deltas).duration == duration,
            Self::fresh(duration).run(deltas).elapsed == (if Self::fresh(duration).run(
                deltas,
            ).finished {
                duration
            } else {
                total(deltas)
            }),
        decreases deltas.len(),
    {
        if deltas.len() > 0 {
            Self::lemma_expires_once(duration, deltas.drop_last());
        }
    }
}

/// A bullet in flight.
#[derive(Debug)]
pub struct Bullet {
    lifetime: Timer,
    speed: i64,
}

impl Clone for Bullet {
    fn clone(&self) -> (b: Bullet)
        ensures
            b.lifetime() == self.lifetime(),
            b.speed() == self.speed(),
    {
        proof {
            use_type_invariant(self);
        }
        Bullet { lifetime: self.lifetime.clone(), speed: self.speed }
    }
}

impl Bullet {
    #[verifier::type_invariant]
    spec fn valid(self) -> bool {
        &&& timer_counts_once(self.lifetime)
        &&& timer_elapsed(self.lifetime) <= timer_duration(self.lifetime) <= u64::MAX
    }

    /// What the bullet's timer has counted.
    pub closed spec fn lifetime(self) -> Lifetime {
        Lifetime {
            elapsed: timer_elapsed(self.lifetime),
            duration: timer_duration(self.lifetime),
            finished: timer_finished(self.lifetime),
            just_finished: timer_just_finished(self.lifetime),
        }
    }

    /// Steps per second along the bullet's forward axis.
    pub closed spec fn spec_speed(&self) -> i64 {
        self.speed
    }

    /// A bullet that lives `duration` nanoseconds and flies at `speed`.
    pub fn new(duration: u64, speed: i64) -> (b: Bullet)
        ensures
            b.lifetime() == Lifetime::fresh(duration as nat),
            b.speed() == speed,
    {
        Bullet { lifetime: crate::timer::once(duration), speed }
    }

    /// Steps per second along the bullet's forward axis.
    #[verifier::when_used_as_spec(spec_speed)]
    pub fn speed(&self) -> (s: i64)
        ensures
            s == self.spec_speed(),
    {
        self.speed
    }

    /// Counts `delta` nanoseconds of the bullet's life, and says whether
    /// the life ended in this tick.
    pub fn tick(&mut self, delta: u64) -> (expired: bool)
        ensures
            final(self).lifetime() == old(self).lifetime().after(delta as nat),
            final(self).speed() == old(self).speed(),
            expired == old(self).lifetime().expires(delta as nat),
    {
        proof {
            use_type_invariant(&*self);
        }
        crate::timer::tick(&mut self.lifetime, delta);
        crate::timer::just_finished(&self.lifetime)
    }

    /// Whether the bullet's life has ended.
    pub fn finished(&self) -> (b: bool)
        ensures
            b == self.lifetime().finished,
    {
        crate::timer::finished(&self.lifetime)
    }

    /// Whether the bullet's life ended in the latest tick.
    pub fn just_finished(&self) -> (b: bool)
        ensures
            b == self.lifetime().just_finished,
    {
        crate::timer::just_finished(&self.lifetime)
    }
}

} // verus!
