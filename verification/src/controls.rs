//! Driving, turning and firing the player's tank.
use crate::commands::Command;
use crate::components::Bullet;
use crate::components::Hitbox;
use crate::components::Lifetime;
use crate::fixed::clamp;
use crate::fixed::distance;
use crate::fixed::minus;
use crate::fixed::plus;
use crate::fixed::travel;
use crate::fixed::Vec3;
use crate::input::just_pressed_keys;
use crate::input::pressed_keys;
use crate::transform::Rotation;
use crate::transform::Transform;
use bevy::input::keyboard::KeyCode;
use bevy::input::Input;
use vstd::prelude::*;

verus! {

/// Steps per second that the tank drives: one unit.
pub const DRIVE_SPEED: i64 = 1_000_000_000;

/// Steps of angle per second that the tank turns: one radian.
pub const TURN_RATE: i64 = 1_000_000_000;

/// How far in front of the tank a bullet appears: 0.552 units, half the
/// tank's depth plus a little more than half the bullet's.
pub const MUZZLE: i64 = 552_000_000;

/// Each side of a bullet's box: 0.1 units.
pub const BULLET_SIDE: i64 = 100_000_000;

/// Nanoseconds that a bullet lives: two seconds.
pub const BULLET_LIFETIME: u64 = 2_000_000_000;

/// Steps per second that a bullet flies: five units.
pub const BULLET_SPEED: i64 = 5_000_000_000;

/// What the keyboard asks of the tank in one tick.
#[derive(Clone, Copy, Debug, PartialEq, Eq, Structural)]
pub struct Controls {
    /// Drive forward, for as long as the key is down.
    pub forward: bool,
    /// Drive backward, for as long as the key is down.
    pub back: bool,
    /// Turn left, for as long as the key is down.
    pub left: bool,
    /// Turn right, for as long as the key is down.
    pub right: bool,
    /// Fire one bullet: set only in the tick in which the key went down.
    pub fire: bool,
}

/// The controls that a keyboard state asks for: W and S drive, A and D
/// turn, and Space fires in the tick in which it goes down.
pub open spec fn bindings(keys: Input<KeyCode>) -> Controls {
    Controls {
        forward: pressed_keys(keys).contains(KeyCode::W),
        back: pressed_keys(keys).contains(KeyCode::S),
        left: pressed_keys(keys).contains(KeyCode::A),
        right: pressed_keys(keys).contains(KeyCode::D),
        fire: just_pressed_keys(keys).contains(KeyCode::Space),
    }
}

impl Controls {
    /// The yaw after this tick's turn: first to the left, then to the right.
    pub open spec fn steered(self, yaw: i64, delta: u64) -> i64 {
        let angle = distance(TURN_RATE as int, delta as int);
        let left = if self.left {
            clamp(yaw + angle)
        } else {
            yaw as int
        };
        if self.right {
            clamp(left - angle) as i64
        } else {
            left as i64
        }
    }

    /// The orientation after this tick's turn, where `turned` is the forward
    /// axis at the steered yaw. With neither turning key down the orientation
    /// stays as it is.
    pub open spec fn faced(self, from: Rotation, delta: u64, turned: Vec3) -> Rotation {
        if self.left || self.right {
            Rotation { yaw: self.steered(from.yaw, delta), forward: turned }
        } else {
            from
        }
    }

    /// The tank's transform after this tick: forward along the axis it had,
    /// then the turn, then backward along the axis it has after the turn.
    pub open spec fn driven(self, from: Transform, delta: u64, turned: Vec3) -> Transform {
        let step = distance(DRIVE_SPEED as int, delta as int);
        let ahead = if self.forward {
            from.moved(step)
        } else {
            from
        };
        let around = Transform {
            translation: ahead.translation,
            rotation: self.faced(from.rotation, delta, turned),
        };
        if self.back {
            around.moved(-step)
        } else {
            around
        }
    }
}

/// Driving forward for one tick and backward for the next, equally long and
/// with no turn in either, brings the tank back to where it was, as long as
/// the step is taken in full both ways.
pub proof fn lemma_forward_then_back(
    ahead: Controls,
    astern: Controls,
    from: Transform,
    delta: u64,
    turned: Vec3,
)
    requires
        ahead.forward && !ahead.back && !ahead.left && !ahead.right,
        astern.back && !astern.forward && !astern.left && !astern.right,
        from.clear(distance(DRIVE_SPEED as int, delta as int)),
    ensures
        astern.driven(ahead.driven(from, delta, turned), delta, turned) == from,
{
    from.lemma_there_and_back(distance(DRIVE_SPEED as int, delta as int));
}

/// Where a bullet fired from `at` appears: the muzzle's distance along the
/// forward axis, facing as the tank does.
pub open spec fn muzzle(at: Transform) -> Transform {
    at.moved(MUZZLE as int)
}

/// Whether `command` creates a bullet at the muzzle of a tank at `at`, with
/// the box, lifetime and speed that every bullet starts with.
pub open spec fn fires_from(command: Command, at: Transform) -> bool {
    &&& command matches Command::SpawnBullet { transform, hitbox, bullet }
    &&& transform == muzzle(at)
    &&& hitbox@ == (Vec3 { x: BULLET_SIDE, y: BULLET_SIDE, z: BULLET_SIDE })
    &&& bullet.lifetime() == Lifetime::fresh(BULLET_LIFETIME as nat)
    &&& bullet.speed() == BULLET_SPEED
}

/// Whether the queue `after` is the queue `before` with one command more,
/// which creates a bullet fired from `at`.
pub open spec fn fired(before: Seq<Command>, after: Seq<Command>, at: Transform) -> bool {
    &&& after.len() == before.len() + 1
    &&& after.drop_last() == before
    &&& fires_from(after.last(), at)
}

/// Reads the controls off the keyboard state.
pub fn read_controls(keys: &Input<KeyCode>) -> (controls: Controls)
    ensures
        controls == bindings(*keys),
{
    Controls {
        forward: crate::input::pressed(keys, KeyCode::W),
        back: crate::input::pressed(keys, KeyCode::S),
        left: crate::input::pressed(keys, KeyCode::A),
        right: crate::input::pressed(keys, KeyCode::D),
        fire: crate::input::just_pressed(keys, KeyCode::Space),
    }
}

impl Controls {
    /// The yaw that a tank at `yaw` has after this tick's turn.
    pub fn steer(&self, yaw: i64, delta: u64) -> (r: i64)
        ensures
            r == self.steered(yaw, delta),
    {
        let angle: i64 = travel(TURN_RATE, delta);
        let left: i64 = if self.left {
            plus(yaw, angle)
        } else {
            yaw
        };
        if self.right {
            minus(left, angle)
        } else {
            left
        }
    }

    /// Drives and turns the tank for one tick. `turned` is the forward axis
    /// at the yaw that `steer` gives for this tick.
    pub fn drive(&self, transform: &mut Transform, delta: u64, turned: Vec3)
        ensures
            *final(transform) == self.driven(*old(transform), delta, turned),
    {
        let step: i64 = travel(DRIVE_SPEED, delta);
        if self.forward {
            transform.advance(step);
        }
        if self.left || self.right {
            transform.rotation = Rotation {
                yaw: self.steer(transform.rotation.yaw, delta),
                forward: turned,
            };
        }
        if self.back {
            transform.advance(-step);
        }
    }

    /// Queues one bullet at the muzzle of a tank at `at` if these controls
    /// fire, and nothing otherwise.
    pub fn shoot(&self, at: &Transform, commands: &mut Vec<Command>)
        ensures
            self.fire ==> fired(old(commands)@, final(commands)@, *at),
            !self.fire ==> final(commands)@ == old(commands)@,
    {
        if self.fire {
            let mut spawn: Transform = *at;
            spawn.advance(MUZZLE);
            let sides = Vec3 { x: BULLET_SIDE, y: BULLET_SIDE, z: BULLET_SIDE };
            let hitbox = Hitbox::new(sides).unwrap();
            let bullet = Bullet::new(BULLET_LIFETIME, BULLET_SPEED);
            commands.push(Command::SpawnBullet { transform: spawn, hitbox, bullet });
            assert(final(commands)@.drop_last() == old(commands)@);
        }
    }
}

/// The yaw that the player's tank has after this tick's turn. The forward
/// axis at this yaw is what `player_tank_controls` takes as `turned`.
pub fn steered_yaw(keys: &Input<KeyCode>, yaw: i64, delta: u64) -> (r: i64)
    ensures
        r == bindings(*keys).steered(yaw, delta),
{
    read_controls(keys).steer(yaw, delta)
}

/// Runs one tick of the controls on the player's tank: drives and turns it
/// as the keys that are down ask, and queues a bullet if the fire key went
/// down in this tick.
pub fn player_tank_controls(
    keys: &Input<KeyCode>,
    transform: &mut Transform,
    delta: u64,
    turned: Vec3,
    commands: &mut Vec<Command>,
)
    ensures
        *final(transform) == bindings(*keys).driven(*old(transform), delta, turned),
        bindings(*keys).fire ==> fired(old(commands)@, final(commands)@, *final(transform)),
        !bindings(*keys).fire ==> final(commands)@ == old(commands)@,
{
    let controls = read_controls(keys);
    controls.drive(transform, delta, turned);
    controls.shoot(transform, commands);
}

} // verus!
