//! Where an entity is and which way it faces.
use crate::fixed::toward_zero;
use crate::fixed::Vec3;
use crate::fixed::UNIT;
use vstd::prelude::*;

verus! {

/// An orientation about the vertical axis.
///
/// `yaw` is the angle turned so far, counted to the left. `forward` is the
/// axis that the entity moves and fires along at that angle; whoever sets
/// a yaw supplies the axis that belongs to it.
#[derive(Clone, Copy, Debug, PartialEq, Eq, Structural)]
pub struct Rotation {
    pub yaw: i64,
    pub forward: Vec3,
}

impl Rotation {
    /// Facing down the negative depth axis, with nothing turned.
    pub open spec fn unturned() -> Rotation {
        Rotation { yaw: 0, forward: Vec3 { x: 0, y: 0, z: (-UNIT) as i64 } }
    }

    /// Facing down the negative depth axis, with nothing turned.
    pub fn identity() -> (r: Rotation)
        ensures
            r == Self::unturned(),
    {
        Rotation { yaw: 0, forward: Vec3 { x: 0, y: 0, z: -UNIT } }
    }
}

/// Whether a point at `at` on one axis takes a step of `step` along a
/// direction with `along` on that axis, and the same step back, in full:
/// neither the step nor the point it leads to leaves the range.
pub open spec fn unhindered(at: int, along: int, step: int) -> bool {
    let span = toward_zero(along * step, UNIT as int);
    -i64::MAX <= span <= i64::MAX && i64::MIN <= at + span <= i64::MAX
}

/// Position and orientation of an entity.
#[derive(Clone, Copy, Debug, PartialEq, Eq, Structural)]
pub struct Transform {
    pub translation: Vec3,
    pub rotation: Rotation,
}

impl Transform {
    /// The transform after `step` along its forward axis; a negative step
    /// goes backward.
    pub open spec fn moved(self, step: int) -> Transform {
        Transform {
            translation: self.translation.shifted(self.rotation.forward, step),
            rotation: self.rotation,
        }
    }

    /// Whether `step` along the forward axis, and the same step back, are
    /// taken in full on every axis.
    pub open spec fn clear(self, step: int) -> bool {
        &&& unhindered(self.translation.x as int, self.rotation.forward.x as int, step)
        &&& unhindered(self.translation.y as int, self.rotation.forward.y as int, step)
        &&& unhindered(self.translation.z as int, self.rotation.forward.z as int, step)
    }

    /// A step forward and the same step back lead to where they began, as
    /// long as both are taken in full.
    pub proof fn lemma_there_and_back(self, step: int)
        requires
            self.clear(step),
        ensures
            self.moved(step).moved(-step) == self,
    {
        let along = self.rotation.forward;
        assert(along.x * (-step) == -(along.x * step)) by (nonlinear_arith);
        assert(along.y * (-step) == -(along.y * step)) by (nonlinear_arith);
        assert(along.z * (-step) == -(along.z * step)) by (nonlinear_arith);
    }

    /// At the given point, with nothing turned.
    pub fn from_xyz(x: i64, y: i64, z: i64) -> (t: Transform)
        ensures
            t == (Transform { translation: Vec3 { x, y, z }, rotation: Rotation::unturned() }),
    {
        Transform { translation: Vec3 { x, y, z }, rotation: Rotation::identity() }
    }

    /// Moves `step` along the forward axis; a negative step goes backward.
    pub fn advance(&mut self, step: i64)
        ensures
            *final(self) == old(self).moved(step as int),
    {
        self.translation = self.translation.advance(self.rotation.forward, step);
    }
}

} // verus!
