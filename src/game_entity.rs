use vstd::prelude::*;

use crate::fixed::{div_toward_zero, div_trunc, dist_sq, within, Vec2, POS_MAX, RADIUS_MAX, VEL_MAX};

verus! {

/// Width of the play field, in sub-units.
pub const WIDTH: i64 = 1_280_000;

/// Height of the play field, in sub-units.
pub const HEIGHT: i64 = 960_000;

/// Collision category of the player.
pub const COL_PLAYER: u8 = 1;

/// Collision category of enemies.
pub const COL_ENEMY: u8 = 2;

/// Collision category of bullets.
pub const COL_BULLET: u8 = 4;

/// What a collision test reads of an entity: a copy, so that reading it
/// can never change the entity.
#[derive(Clone, Copy, Debug, PartialEq, Eq, Structural)]
pub struct ColliderInfo {
    pub mask: u8,
    pub layer: u8,
    pub pos: Vec2,
    pub radius: i64,
}

/// A collider whose geometry the collision test can compute on.
pub open spec fn collider_ok(c: ColliderInfo) -> bool {
    within(c.pos, POS_MAX as int) && -RADIUS_MAX <= c.radius <= RADIUS_MAX
}

/// Whether either entity reacts to the other's category.
pub open spec fn masks_meet(a: ColliderInfo, b: ColliderInfo) -> bool {
    (a.layer & b.mask) | (a.mask & b.layer) != 0
}

/// Whether the two circles touch or overlap: the distance between the
/// centres is at most the sum of the radii.
pub open spec fn circles_touch(a: ColliderInfo, b: ColliderInfo) -> bool {
    a.radius + b.radius >= 0 && dist_sq(a.pos, b.pos) <= (a.radius + b.radius) * (a.radius
        + b.radius)
}

/// Whether two entities collide.
pub open spec fn collides(a: ColliderInfo, b: ColliderInfo) -> bool {
    masks_meet(a, b) && circles_touch(a, b)
}

/// The capabilities shared by the player, enemies and bullets.
pub trait GameEntity: Sized {
    /// What the collision test reads of this entity.
    spec fn collider(&self) -> ColliderInfo;

    /// Whether `update` can run for a frame of `dt` milliseconds.
    spec fn can_update(&self, dt: int) -> bool;

    /// The entity after a frame of `dt` milliseconds.
    spec fn after_update(&self, dt: int) -> Self;

    /// Whether the entity is kept after a frame of `dt` milliseconds.
    spec fn kept(&self, dt: int) -> bool;

    /// Whether `deal_damage` can run on these arguments.
    spec fn can_take_damage(&self, other_vel: Vec2, other_mass: int) -> bool;

    /// The entity after being struck by a body moving at `other_vel` with
    /// mass `other_mass`.
    spec fn after_damage(&self, other_vel: Vec2, other_mass: int) -> Self;

    /// Advances the entity by `dt` milliseconds; returns whether it is kept.
    fn update(&mut self, dt: i64) -> (r: bool)
        requires
            old(self).can_update(dt as int),
        ensures
            *final(self) == old(self).after_update(dt as int),
            r == old(self).kept(dt as int),
    ;

    fn collider_info(&self) -> (r: ColliderInfo)
        ensures
            r == self.collider(),
    ;

    /// Applies the response to a hit.
    fn deal_damage(&mut self, other_vel: Vec2, other_mass: i64)
        requires
            old(self).can_take_damage(other_vel, other_mass as int),
        ensures
            *final(self) == old(self).after_damage(other_vel, other_mass as int),
    ;
}

/// Squared distance between two points in range.
fn distance_sq(a: Vec2, b: Vec2) -> (r: i128)
    requires
        within(a, POS_MAX as int),
        within(b, POS_MAX as int),
    ensures
        r == dist_sq(a, b),
{
    let dx = (a.x as i128) - (b.x as i128);
    let dy = (a.y as i128) - (b.y as i128);
    assert(dx * dx <= 4_000_000_000_000_000_000_000_000_000_000) by (nonlinear_arith)
        requires
            -2_000_000_000_000_000 <= dx <= 2_000_000_000_000_000,
    ;
    assert(dy * dy <= 4_000_000_000_000_000_000_000_000_000_000) by (nonlinear_arith)
        requires
            -2_000_000_000_000_000 <= dy <= 2_000_000_000_000_000,
    ;
    assert(0 <= dx * dx && 0 <= dy * dy) by (nonlinear_arith);
    dx * dx + dy * dy
}

/// Whether the collision test on two colliders succeeds.
pub fn colliders_touch(c1: ColliderInfo, c2: ColliderInfo) -> (r: bool)
    requires
        collider_ok(c1),
        collider_ok(c2),
    ensures
        r == collides(c1, c2),
{
    let can_collide = (c1.layer & c2.mask) | (c1.mask & c2.layer);
    if can_collide != 0 {
        let d = distance_sq(c1.pos, c2.pos);
        let s: i128 = (c1.radius as i128) + (c2.radius as i128);
        assert(0 <= s * s <= 4_000_000_000_000_000_000_000_000) by (nonlinear_arith)
            requires
                -2_000_000_000_000 <= s <= 2_000_000_000_000,
        ;
        s >= 0 && d <= s * s
    } else {
        false
    }
}

/// Whether two entities collide: their categories meet and their circles
/// touch.
pub fn collide<A: GameEntity, B: GameEntity>(e1: &A, e2: &B) -> (r: bool)
    requires
        collider_ok(e1.collider()),
        collider_ok(e2.collider()),
    ensures
        r == collides(e1.collider(), e2.collider()),
{
    let c1 = e1.collider_info();
    let c2 = e2.collider_info();
    colliders_touch(c1, c2)
}

/// One component of the mass-weighted velocity blend:
/// `(u1 * m1 + (u2 - u1) * m2) / (m1 + m2)`, rounded toward zero.
pub open spec fn impulse_part(u1: int, m1: int, u2: int, m2: int) -> int {
    div_trunc(u1 * m1 + (u2 - u1) * m2, m1 + m2)
}

/// The velocity blend of two bodies, componentwise.
pub open spec fn impulse_spec(v1: Vec2, m1: int, v2: Vec2, m2: int) -> (int, int) {
    (impulse_part(v1.x as int, m1, v2.x as int, m2), impulse_part(v1.y as int, m1, v2.y as int, m2))
}

/// Masses and velocities on which the velocity blend is defined.
pub open spec fn impulse_ok(v1: Vec2, m1: int, v2: Vec2, m2: int) -> bool {
    within(v1, VEL_MAX as int) && within(v2, VEL_MAX as int) && 0 <= m1 <= RADIUS_MAX && 0
        <= m2 <= RADIUS_MAX && m1 + m2 > 0
}

fn impulse_component(u1: i64, m1: i64, u2: i64, m2: i64) -> (r: i64)
    requires
        -VEL_MAX <= u1 <= VEL_MAX,
        -VEL_MAX <= u2 <= VEL_MAX,
        0 <= m1 <= RADIUS_MAX,
        0 <= m2 <= RADIUS_MAX,
        m1 + m2 > 0,
    ensures
        r == impulse_part(u1 as int, m1 as int, u2 as int, m2 as int),
        -2 * VEL_MAX <= r <= 2 * VEL_MAX,
{
    let u1w = u1 as i128;
    let u2w = u2 as i128;
    let m1w = m1 as i128;
    let m2w = m2 as i128;
    let s = m1w + m2w;
    assert(-2_000_000_000 * s <= u1w * m1w + (u2w - u1w) * m2w <= 2_000_000_000 * s)
        by (nonlinear_arith)
        requires
            -1_000_000_000 <= u1w <= 1_000_000_000,
            -1_000_000_000 <= u2w <= 1_000_000_000,
            0 <= m1w,
            0 <= m2w,
            s == m1w + m2w,
    ;
    assert(s <= 2_000_000_000_000);
    assert(-2_000_000_000 * s >= -4_000_000_000_000_000_000_000) by (nonlinear_arith)
        requires
            0 <= s <= 2_000_000_000_000,
    ;
    assert(-1_000_000_000_000_000_000_000 <= u1w * m1w <= 1_000_000_000_000_000_000_000)
        by (nonlinear_arith)
        requires
            -1_000_000_000 <= u1w <= 1_000_000_000,
            0 <= m1w <= 1_000_000_000_000,
    ;
    assert(-2_000_000_000_000_000_000_000 <= (u2w - u1w) * m2w <= 2_000_000_000_000_000_000_000)
        by (nonlinear_arith)
        requires
            -2_000_000_000 <= u2w - u1w <= 2_000_000_000,
            0 <= m2w <= 1_000_000_000_000,
    ;
    let num = u1w * m1w + (u2w - u1w) * m2w;
    let q = div_toward_zero(num, s);
    assert(-2_000_000_000 <= q <= 2_000_000_000) by (nonlinear_arith)
        requires
            q == div_trunc(num as int, s as int),
            -2_000_000_000 * s <= num <= 2_000_000_000 * s,
            s > 0,
    ;
    q as i64
}

/// The mass-weighted velocity blend `(v1 * m1 + (v2 - v1) * m2) / (m1 + m2)`,
/// each component rounded toward zero.
pub fn impulse(v1: Vec2, m1: i64, v2: Vec2, m2: i64) -> (r: Vec2)
    requires
        impulse_ok(v1, m1 as int, v2, m2 as int),
    ensures
        (r.x as int, r.y as int) == impulse_spec(v1, m1 as int, v2, m2 as int),
        within(r, 2 * VEL_MAX),
{
    let x = impulse_component(v1.x, m1, v2.x, m2);
    let y = impulse_component(v1.y, m1, v2.y, m2);
    Vec2 { x, y }
}

} // verus!

verus! {

/// Collision is symmetric: `a` collides with `b` exactly when `b` collides
/// with `a`.
pub proof fn lemma_collide_symmetric(a: ColliderInfo, b: ColliderInfo)
    ensures
        collides(a, b) == collides(b, a),
{
    let (al, am, bl, bm) = (a.layer, a.mask, b.layer, b.mask);
    assert((al & bm) | (am & bl) == (bl & am) | (bm & al)) by (bit_vector);
    assert(dist_sq(a.pos, b.pos) == dist_sq(b.pos, a.pos)) by (nonlinear_arith);
}

/// Two entities neither of which reacts to the other's category never
/// collide, however much their circles overlap.
pub proof fn lemma_masks_disjoint_no_collision(a: ColliderInfo, b: ColliderInfo)
    requires
        (a.layer & b.mask) | (a.mask & b.layer) == 0,
    ensures
        !collides(a, b),
{
}

/// Where the categories meet and the distance `d` between the centres is a
/// whole number of sub-units, the entities collide exactly when
/// `d <= a.radius + b.radius`.
pub proof fn lemma_collide_distance_threshold(a: ColliderInfo, b: ColliderInfo, d: int)
    requires
        masks_meet(a, b),
        d >= 0,
        d * d == dist_sq(a.pos, b.pos),
    ensures
        collides(a, b) == (d <= a.radius + b.radius),
{
    let s = a.radius + b.radius;
    assert(s >= 0 && d * d <= s * s <==> d <= s) by (nonlinear_arith)
        requires
            d >= 0,
    ;
}

/// `(a * m) / (2 * m)`, rounded toward zero, is `a / 2` rounded toward zero.
proof fn lemma_half_of_multiple(a: int, m: int)
    requires
        m > 0,
    ensures
        div_trunc(a * m, 2 * m) == div_trunc(a, 2),
{
    let b = if a >= 0 { a } else { -a };
    let q = b / 2;
    let r = b % 2;
    assert(b == q * 2 + r && 0 <= r < 2);
    assert(b * m == q * (2 * m) + r * m && 0 <= r * m < 2 * m) by (nonlinear_arith)
        requires
            b == q * 2 + r,
            0 <= r < 2,
            m > 0,
    ;
    vstd::arithmetic::div_mod::lemma_fundamental_div_mod_converse(b * m, 2 * m, q, r * m);
    if a >= 0 {
        assert(a * m >= 0) by (nonlinear_arith)
            requires
                a >= 0,
                m > 0,
        ;
    } else {
        assert(a * m < 0 && -(a * m) == b * m) by (nonlinear_arith)
            requires
                a < 0,
                b == -a,
                m > 0,
        ;
    }
}

/// For equal masses and opposite velocities the blend is half the first
/// velocity, reversed: each component is `-v1 / 2`, rounded toward zero.
/// (It equals `(v2 - v1) * m2 / (m1 + m2)` only where `v1` is zero.)
pub proof fn lemma_impulse_equal_masses_opposite(v1: Vec2, v2: Vec2, m: int)
    requires
        m > 0,
        v1.x == -v2.x,
        v1.y == -v2.y,
    ensures
        impulse_spec(v1, m, v2, m) == (div_trunc(-v1.x, 2), div_trunc(-v1.y, 2)),
{
    assert(v1.x * m + (v2.x - v1.x) * m == (-v1.x) * m && m + m == 2 * m) by (nonlinear_arith)
        requires
            v2.x == -v1.x,
    ;
    assert(v1.y * m + (v2.y - v1.y) * m == (-v1.y) * m) by (nonlinear_arith)
        requires
            v2.y == -v1.y,
    ;
    lemma_half_of_multiple(-v1.x, m);
    lemma_half_of_multiple(-v1.y, m);
}

} // verus!
