use vstd::prelude::*;

use crate::chance::draw_below;
use crate::fixed::{
    advance, advance_pos, clamp_spec, color_ok, is_direction, lemma_scaled_length, length_near,
    norm_sq, scale_dir, scaled, within, Color, Vec2, DT_MAX, POS_MAX, RADIUS_MAX, SCALE, VEL_MAX,
};
use crate::game_entity::{
    impulse, impulse_spec, ColliderInfo, GameEntity, COL_BULLET, COL_ENEMY, COL_PLAYER, HEIGHT,
    WIDTH,
};

verus! {

/// How much an enemy shrinks on each hit.
pub const ENEMY_SHRINK: i64 = 5_000;

/// An enemy whose radius is at most this is removed.
pub const ENEMY_MIN_RADIUS: i64 = 3_000;

/// Nearest and farthest spawn distance from the target.
pub const SPAWN_DIST_MIN: i64 = 300_000;

pub const SPAWN_DIST_SPAN: i64 = 100_000;

/// Smallest spawn radius, and the width of the range of spawn radii.
pub const SPAWN_RADIUS_MIN: i64 = 10_000;

pub const SPAWN_RADIUS_SPAN: i64 = 20_000;

/// Slowest spawn speed, and the width of the range of spawn speeds.
pub const SPAWN_SPEED_MIN: i64 = 20_000;

pub const SPAWN_SPEED_SPAN: i64 = 30_000;

#[derive(Clone, Copy, Debug, PartialEq, Eq, Structural)]
pub struct Enemy {
    pub pos: Vec2,
    pub vel: Vec2,
    pub radius: i64,
    pub color: Color,
    pub layer: u8,
    pub mask: u8,
}

/// A coordinate after the toroidal wrap: a circle wholly past one edge of a
/// field of size `size` reappears touching the opposite edge.
pub open spec fn wrap(c: int, r: int, size: int) -> int {
    if c + r < 0 {
        size - r
    } else if c - r > size {
        r
    } else {
        c
    }
}

/// An enemy whose state the simulation can compute on.
pub open spec fn enemy_ok(e: Enemy) -> bool {
    within(e.pos, POS_MAX as int) && within(e.vel, VEL_MAX as int) && 0 <= e.radius <= RADIUS_MAX
}

/// The radius after one hit: shrunk by `ENEMY_SHRINK`, never below zero.
pub open spec fn shrunk(radius: int) -> int {
    if radius - ENEMY_SHRINK > 0 {
        radius - ENEMY_SHRINK
    } else {
        0
    }
}

/// The enemy that `spawn_with` builds.
pub open spec fn spawned(
    target: Vec2,
    dir: Vec2,
    dist: int,
    radius: int,
    speed: int,
    color: Color,
) -> Enemy {
    Enemy {
        pos: Vec2 {
            x: (target.x + scaled(dir, dist).0) as i64,
            y: (target.y + scaled(dir, dist).1) as i64,
        },
        vel: Vec2 { x: (-scaled(dir, speed).0) as i64, y: (-scaled(dir, speed).1) as i64 },
        radius: radius as i64,
        color,
        layer: COL_ENEMY,
        mask: COL_PLAYER | COL_BULLET | COL_ENEMY,
    }
}

impl GameEntity for Enemy {
    open spec fn collider(&self) -> ColliderInfo {
        ColliderInfo { mask: self.mask, layer: self.layer, pos: self.pos, radius: self.radius }
    }

    open spec fn can_update(&self, dt: int) -> bool {
        enemy_ok(*self) && 0 <= dt <= DT_MAX
    }

    open spec fn after_update(&self, dt: int) -> Enemy {
        let p = advance(self.pos, self.vel, dt);
        Enemy {
            pos: Vec2 {
                x: wrap(p.0, self.radius as int, WIDTH as int) as i64,
                y: wrap(p.1, self.radius as int, HEIGHT as int) as i64,
            },
            ..*self
        }
    }

    open spec fn kept(&self, dt: int) -> bool {
        self.radius > ENEMY_MIN_RADIUS
    }

    /// The blend needs some mass: the remaining radius and the other mass
    /// may not both be zero.
    open spec fn can_take_damage(&self, other_vel: Vec2, other_mass: int) -> bool {
        enemy_ok(*self) && within(other_vel, VEL_MAX as int) && 0 <= other_mass <= RADIUS_MAX
            && shrunk(self.radius as int) + other_mass > 0
    }

    /// Shrinks, then takes the velocity blend with the remaining radius as
    /// mass, each component held within `VEL_MAX`.
    open spec fn after_damage(&self, other_vel: Vec2, other_mass: int) -> Enemy {
        let r = shrunk(self.radius as int);
        let v = impulse_spec(self.vel, r, other_vel, other_mass);
        Enemy {
            radius: r as i64,
            vel: Vec2 {
                x: clamp_spec(v.0, VEL_MAX as int) as i64,
                y: clamp_spec(v.1, VEL_MAX as int) as i64,
            },
            ..*self
        }
    }

    fn update(&mut self, dt: i64) -> (r: bool) {
        let p = advance_pos(self.pos, self.vel, dt);
        let mut x = p.x;
        let mut y = p.y;
        if x + self.radius < 0 {
            x = WIDTH - self.radius;
        } else if x - self.radius > WIDTH {
            x = self.radius;
        }
        if y + self.radius < 0 {
            y = HEIGHT - self.radius;
        } else if y - self.radius > HEIGHT {
            y = self.radius;
        }
        self.pos = Vec2 { x, y };
        self.radius > ENEMY_MIN_RADIUS
    }

    fn collider_info(&self) -> (r: ColliderInfo) {
        ColliderInfo { mask: self.mask, layer: self.layer, pos: self.pos, radius: self.radius }
    }

    fn deal_damage(&mut self, other_vel: Vec2, other_mass: i64) {
        let r = if self.radius - ENEMY_SHRINK > 0 {
            self.radius - ENEMY_SHRINK
        } else {
            0
        };
        self.radius = r;
        let v = impulse(self.vel, r, other_vel, other_mass);
        self.vel = Vec2 { x: clamp_vel(v.x), y: clamp_vel(v.y) };
    }
}

fn clamp_vel(v: i64) -> (r: i64)
    ensures
        r == clamp_spec(v as int, VEL_MAX as int),
{
    if v > VEL_MAX {
        VEL_MAX
    } else if v < -VEL_MAX {
        -VEL_MAX
    } else {
        v
    }
}

/// An update keeps an enemy in a state the simulation can compute on: the
/// wrap holds it within a radius of the play field.
pub proof fn lemma_enemy_update_ok(e: Enemy, dt: int)
    requires
        e.can_update(dt),
    ensures
        enemy_ok(e.after_update(dt)),
        e.after_update(dt).color == e.color,
        e.after_update(dt).radius == e.radius,
{
    crate::fixed::lemma_advance_bounded(e.pos, e.vel, dt);
}

/// A hit keeps an enemy in a state the simulation can compute on.
pub proof fn lemma_enemy_damage_ok(e: Enemy, other_vel: Vec2, other_mass: int)
    requires
        e.can_take_damage(other_vel, other_mass),
    ensures
        enemy_ok(e.after_damage(other_vel, other_mass)),
        e.after_damage(other_vel, other_mass).color == e.color,
        e.after_damage(other_vel, other_mass).pos == e.pos,
{
}

/// A hit shrinks an enemy by `ENEMY_SHRINK` but never below zero, and it is
/// kept only while its radius stays above `ENEMY_MIN_RADIUS`.
pub proof fn lemma_enemy_hit_shrinks(e: Enemy, other_vel: Vec2, other_mass: int, dt: int)
    ensures
        e.after_damage(other_vel, other_mass).radius >= 0,
        e.radius >= ENEMY_SHRINK ==> e.after_damage(other_vel, other_mass).radius == e.radius
            - ENEMY_SHRINK,
        e.radius <= ENEMY_SHRINK ==> e.after_damage(other_vel, other_mass).radius == 0,
        e.after_damage(other_vel, other_mass).kept(dt) == (e.radius - ENEMY_SHRINK
            > ENEMY_MIN_RADIUS),
{
}

/// A hit on an enemy, as the frame applies it: the shrink and velocity blend
/// of `after_damage` where the blend is defined; where neither body has any
/// mass left the enemy is destroyed (radius zero) and keeps its velocity.
pub open spec fn struck(e: Enemy, other_vel: Vec2, other_mass: int) -> Enemy {
    if shrunk(e.radius as int) + other_mass > 0 {
        e.after_damage(other_vel, other_mass)
    } else {
        Enemy { radius: 0, ..e }
    }
}

/// Applies a hit as `struck` describes it.
pub fn strike(e: &mut Enemy, other_vel: Vec2, other_mass: i64)
    requires
        enemy_ok(*old(e)),
        within(other_vel, VEL_MAX as int),
        0 <= other_mass <= RADIUS_MAX,
    ensures
        *final(e) == struck(*old(e), other_vel, other_mass as int),
        enemy_ok(*final(e)),
        final(e).color == old(e).color,
        final(e).pos == old(e).pos,
{
    let r = if e.radius - ENEMY_SHRINK > 0 {
        e.radius - ENEMY_SHRINK
    } else {
        0
    };
    if r + other_mass > 0 {
        proof {
            lemma_enemy_damage_ok(*e, other_vel, other_mass as int);
        }
        e.deal_damage(other_vel, other_mass);
    } else {
        e.radius = 0;
    }
}

impl Enemy {
    /// An enemy `dist` away from `target` along `dir`, heading back toward
    /// `target` at `speed`.
    pub fn spawn_with(
        target: Vec2,
        dir: Vec2,
        dist: i64,
        radius: i64,
        speed: i64,
        color: Color,
    ) -> (e: Enemy)
        requires
            within(target, (POS_MAX - RADIUS_MAX) as int),
            is_direction(dir),
            0 <= dist <= RADIUS_MAX,
            0 <= radius <= RADIUS_MAX,
            0 <= speed <= VEL_MAX,
        ensures
            e == spawned(target, dir, dist as int, radius as int, speed as int, color),
            enemy_ok(e),
    {
        let pos = Vec2 { x: target.x + scale_dir(dir.x, dist), y: target.y + scale_dir(dir.y, dist) };
        let vel = Vec2 { x: -scale_dir(dir.x, speed), y: -scale_dir(dir.y, speed) };
        Enemy {
            pos,
            vel,
            radius,
            color,
            layer: COL_ENEMY,
            mask: COL_PLAYER | COL_BULLET | COL_ENEMY,
        }
    }

    /// An enemy placed along `dir` from `target`, at a random distance in
    /// `[300, 400)` units, with a random radius in `[10, 30)`, a random
    /// opaque colour, heading toward `target` at a random speed in
    /// `[20, 50)` units per second.
    pub fn spawn(target: Vec2, dir: Vec2) -> (e: Enemy)
        requires
            within(target, (POS_MAX - RADIUS_MAX) as int),
            is_direction(dir),
        ensures
            is_spawned_around(e, target, dir),
    {
        let dist = SPAWN_DIST_MIN + draw_below(SPAWN_DIST_SPAN);
        let radius = SPAWN_RADIUS_MIN + draw_below(SPAWN_RADIUS_SPAN);
        let r = draw_below(SCALE) as u16;
        let g = draw_below(SCALE) as u16;
        let b = draw_below(SCALE) as u16;
        let speed = SPAWN_SPEED_MIN + draw_below(SPAWN_SPEED_SPAN);
        let e = Enemy::spawn_with(target, dir, dist, radius, speed, Color { r, g, b, a: 1000 });
        proof {
            lemma_spawned_ranges(target, dir, dist as int, radius as int, speed as int, e.color);
        }
        e
    }

    /// Pushes one enemy spawned around `target` for each direction of `dirs`.
    pub fn spawn_n(enemies: &mut Vec<Enemy>, target: Vec2, dirs: &Vec<Vec2>)
        requires
            within(target, (POS_MAX - RADIUS_MAX) as int),
            forall|i: int| 0 <= i < dirs.len() ==> is_direction(#[trigger] dirs[i]),
        ensures
            final(enemies).len() == old(enemies).len() + dirs.len(),
            forall|i: int|
                0 <= i < old(enemies).len() ==> final(enemies)[i] == old(enemies)[i],
            forall|i: int|
                0 <= i < dirs.len() ==> is_spawned_around(
                    #[trigger] final(enemies)[old(enemies).len() + i],
                    target,
                    dirs[i],
                ),
    {
        let ghost n0 = enemies.len();
        let mut k: usize = 0;
        while k < dirs.len()
            invariant
                k <= dirs.len(),
                n0 == old(enemies).len(),
                enemies.len() == n0 + k,
                within(target, (POS_MAX - RADIUS_MAX) as int),
                forall|i: int| 0 <= i < dirs.len() ==> is_direction(#[trigger] dirs[i]),
                forall|i: int| 0 <= i < n0 ==> enemies[i] == old(enemies)[i],
                forall|i: int|
                    0 <= i < k ==> is_spawned_around(#[trigger] enemies[n0 + i], target, dirs[i]),
            decreases dirs.len() - k,
        {
            let e = Enemy::spawn(target, dirs[k]);
            enemies.push(e);
            assert(enemies[n0 + k as int] == e);
            k = k + 1;
        }
    }
}

/// What `spawn` promises of `e`, spawned around `target` along `dir`: a
/// radius in `[10, 30)` units, an opaque colour, and for some distance in
/// `[300, 400)` units and speed in `[20, 50)` units per second, the enemy
/// that `spawned` builds from them. Its offset from `target` then has the
/// distance as its length and its velocity the speed, up to rounding; the
/// velocity is never zero.
pub open spec fn is_spawned_around(e: Enemy, target: Vec2, dir: Vec2) -> bool {
    &&& enemy_ok(e)
    &&& color_ok(e.color)
    &&& e.color.a == SCALE
    &&& SPAWN_RADIUS_MIN <= e.radius < SPAWN_RADIUS_MIN + SPAWN_RADIUS_SPAN
    &&& (e.vel.x != 0 || e.vel.y != 0)
    &&& exists|dist: int, speed: int|
        SPAWN_DIST_MIN <= dist < SPAWN_DIST_MIN + SPAWN_DIST_SPAN && SPAWN_SPEED_MIN <= speed
            < SPAWN_SPEED_MIN + SPAWN_SPEED_SPAN && e == #[trigger] spawned(
            target,
            dir,
            dist,
            e.radius as int,
            speed,
            e.color,
        ) && length_near((e.pos.x - target.x, e.pos.y - target.y), dist) && length_near(
            (e.vel.x as int, e.vel.y as int),
            speed,
        )
}

proof fn lemma_spawned_ranges(
    target: Vec2,
    dir: Vec2,
    dist: int,
    radius: int,
    speed: int,
    color: Color,
)
    requires
        within(target, (POS_MAX - RADIUS_MAX) as int),
        is_direction(dir),
        SPAWN_DIST_MIN <= dist < SPAWN_DIST_MIN + SPAWN_DIST_SPAN,
        SPAWN_SPEED_MIN <= speed < SPAWN_SPEED_MIN + SPAWN_SPEED_SPAN,
        SPAWN_RADIUS_MIN <= radius < SPAWN_RADIUS_MIN + SPAWN_RADIUS_SPAN,
        color_ok(color),
        color.a == SCALE,
        enemy_ok(spawned(target, dir, dist, radius, speed, color)),
    ensures
        is_spawned_around(spawned(target, dir, dist, radius, speed, color), target, dir),
{
    let e = spawned(target, dir, dist, radius, speed, color);
    lemma_scaled_length(dir, dist);
    lemma_scaled_length(dir, speed);
    let v = scaled(dir, speed);
    assert(-speed <= v.0 <= speed && -speed <= v.1 <= speed) by (nonlinear_arith)
        requires
            v.0 * v.0 + v.1 * v.1 <= speed * speed,
            speed >= 0,
    ;
    assert(norm_sq((e.vel.x as int, e.vel.y as int)) == norm_sq(v)) by (nonlinear_arith)
        requires
            e.vel.x == -v.0,
            e.vel.y == -v.1,
    ;
    assert(994_009 * speed * speed - 4_000_000 * speed > 0) by (nonlinear_arith)
        requires
            speed >= 20_000,
    ;
    if e.vel.x == 0 && e.vel.y == 0 {
        assert(norm_sq((e.vel.x as int, e.vel.y as int)) == 0) by (nonlinear_arith)
            requires
                e.vel.x == 0,
                e.vel.y == 0,
        ;
    }
    let o = scaled(dir, dist);
    assert(-dist <= o.0 <= dist && -dist <= o.1 <= dist) by (nonlinear_arith)
        requires
            o.0 * o.0 + o.1 * o.1 <= dist * dist,
            dist >= 0,
    ;
    assert((e.pos.x - target.x, e.pos.y - target.y) == o);
}

} // verus!
