//! The box test between a bullet and an enemy.
use crate::components::Hitbox;
use crate::fixed::magnitude;
use crate::fixed::Vec3;
use vstd::prelude::*;

verus! {

/// Whether two boxes meet along one axis: the centres lie `gap` apart, the
/// boxes are `enemy_side` and `bullet_side` wide, and the bullet covered
/// `reach` in this tick. The boxes meet when the gap is no more than half
/// of each side plus the reach.
pub open spec fn meets(gap: int, enemy_side: int, bullet_side: int, reach: int) -> bool {
    2 * magnitude(gap) <= enemy_side + bullet_side + 2 * reach
}

/// Whether the bullet's box, widened by `reach`, meets the enemy's box
/// along all three axes.
pub open spec fn overlap(
    bullet_at: Vec3,
    bullet_box: Vec3,
    enemy_at: Vec3,
    enemy_box: Vec3,
    reach: int,
) -> bool {
    &&& meets(bullet_at.x - enemy_at.x, enemy_box.x as int, bullet_box.x as int, reach)
    &&& meets(bullet_at.y - enemy_at.y, enemy_box.y as int, bullet_box.y as int, reach)
    &&& meets(bullet_at.z - enemy_at.z, enemy_box.z as int, bullet_box.z as int, reach)
}

fn meets_on_axis(bullet_at: i64, enemy_at: i64, enemy_side: i64, bullet_side: i64, reach: i64) -> (hit:
    bool)
    ensures
        hit == meets(bullet_at - enemy_at, enemy_side as int, bullet_side as int, reach as int),
{
    let gap: i128 = bullet_at as i128 - enemy_at as i128;
    let apart: i128 = if gap < 0 {
        -gap
    } else {
        gap
    };
    2 * apart <= enemy_side as i128 + bullet_side as i128 + 2 * (reach as i128)
}

/// Tests a bullet at `bullet_at` that covered `reach` in this tick against
/// an enemy at `enemy_at`.
pub fn collides(
    bullet_at: Vec3,
    bullet_box: &Hitbox,
    enemy_at: Vec3,
    enemy_box: &Hitbox,
    reach: i64,
) -> (hit: bool)
    ensures
        hit == overlap(bullet_at, bullet_box@, enemy_at, enemy_box@, reach as int),
{
    let bullet_sides = bullet_box.dimensions();
    let enemy_sides = enemy_box.dimensions();
    meets_on_axis(bullet_at.z, enemy_at.z, enemy_sides.z, bullet_sides.z, reach) && meets_on_axis(
        bullet_at.x,
        enemy_at.x,
        enemy_sides.x,
        bullet_sides.x,
        reach,
    ) && meets_on_axis(bullet_at.y, enemy_at.y, enemy_sides.y, bullet_sides.y, reach)
}

/// A larger reach never turns a hit into a miss: whatever meets at `reach`
/// still meets at any `wider` reach.
pub proof fn lemma_reach_widens(
    bullet_at: Vec3,
    bullet_box: Vec3,
    enemy_at: Vec3,
    enemy_box: Vec3,
    reach: int,
    wider: int,
)
    requires
        reach <= wider,
        overlap(bullet_at, bullet_box, enemy_at, enemy_box, reach),
    ensures
        overlap(bullet_at, bullet_box, enemy_at, enemy_box, wider),
{
}

} // verus!
