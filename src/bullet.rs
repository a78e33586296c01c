use vstd::prelude::*;

use crate::chance::draw_below;
use crate::fixed::{
    advance, advance_pos, is_direction, lemma_scaled_length, length_near, scale_dir, scaled,
    within, Color, Vec2, DT_MAX, POS_MAX, RADIUS_MAX, VEL_MAX,
};
use crate::game_entity::{ColliderInfo, GameEntity, COL_BULLET, COL_ENEMY};

verus! {

/// Speed of an aimed bullet, in sub-units per second.
pub const BULLET_SPEED: i64 = 200_000;

/// Radius of an aimed bullet.
pub const BULLET_RADIUS: i64 = 5_000;

/// Frames an aimed bullet lives.
pub const BULLET_TTL: i32 = 600;

/// Radius of a burst bullet.
pub const BURST_RADIUS: i64 = 2_000;

/// Frames a burst bullet lives.
pub const BURST_TTL: i32 = 200;

/// Opacity of a burst bullet, in thousandths.
pub const BURST_ALPHA: u16 = 300;

/// Slowest burst speed, and the width of the range of burst speeds.
pub const BURST_SPEED_MIN: i64 = 100_000;

pub const BURST_SPEED_SPAN: i64 = 200_000;

#[derive(Clone, Copy, Debug, PartialEq, Eq, Structural)]
pub struct Bullet {
    pub pos: Vec2,
    pub vel: Vec2,
    pub radius: i64,
    pub color: Color,
    pub health: i32,
    pub layer: u8,
    pub mask: u8,
}

/// A bullet whose state the simulation can compute on.
pub open spec fn bullet_ok(b: Bullet) -> bool {
    within(b.pos, POS_MAX as int) && within(b.vel, VEL_MAX as int) && 0 <= b.radius
        <= RADIUS_MAX && b.health > i32::MIN
}

/// The bullet of a burst moving along `dir` at `speed` from `pos`.
pub open spec fn burst_bullet(pos: Vec2, dir: Vec2, speed: int) -> Bullet {
    Bullet {
        pos,
        vel: Vec2 { x: scaled(dir, speed).0 as i64, y: scaled(dir, speed).1 as i64 },
        radius: BURST_RADIUS,
        color: Color { r: 1000, g: 1000, b: 1000, a: BURST_ALPHA },
        health: BURST_TTL,
        layer: COL_BULLET,
        mask: COL_ENEMY,
    }
}

/// Whether `b` is a burst bullet from `pos` along `dir`, at a speed in
/// `[100, 300)` units per second: its velocity has that speed as its length,
/// up to rounding.
pub open spec fn is_burst_bullet(b: Bullet, pos: Vec2, dir: Vec2) -> bool {
    exists|speed: int|
        BURST_SPEED_MIN <= speed < BURST_SPEED_MIN + BURST_SPEED_SPAN && b == #[trigger] burst_bullet(
            pos,
            dir,
            speed,
        ) && length_near((b.vel.x as int, b.vel.y as int), speed)
}

impl GameEntity for Bullet {
    open spec fn collider(&self) -> ColliderInfo {
        ColliderInfo { mask: self.mask, layer: self.layer, pos: self.pos, radius: self.radius }
    }

    open spec fn can_update(&self, dt: int) -> bool {
        bullet_ok(*self) && 0 <= dt <= DT_MAX
    }

    /// Moves, and ages by one frame.
    open spec fn after_update(&self, dt: int) -> Bullet {
        let p = advance(self.pos, self.vel, dt);
        Bullet { pos: Vec2 { x: p.0 as i64, y: p.1 as i64 }, health: (self.health - 1) as i32, ..*self }
    }

    /// Kept while life remains after the frame's ageing.
    open spec fn kept(&self, dt: int) -> bool {
        self.health - 1 > 0
    }

    open spec fn can_take_damage(&self, other_vel: Vec2, other_mass: int) -> bool {
        true
    }

    /// A bullet that scores a hit has no life left.
    open spec fn after_damage(&self, other_vel: Vec2, other_mass: int) -> Bullet {
        Bullet { health: 0, ..*self }
    }

    fn update(&mut self, dt: i64) -> (r: bool) {
        self.pos = advance_pos(self.pos, self.vel, dt);
        self.health = self.health - 1;
        self.health > 0
    }

    fn collider_info(&self) -> (r: ColliderInfo) {
        ColliderInfo { mask: self.mask, layer: self.layer, pos: self.pos, radius: self.radius }
    }

    fn deal_damage(&mut self, _other_vel: Vec2, _other_mass: i64) {
        self.health = 0;
    }
}

/// A bullet after `n` frames of `dt` milliseconds.
pub open spec fn bullet_after_frames(b: Bullet, dt: int, n: nat) -> Bullet
    decreases n,
{
    if n == 0 {
        b
    } else {
        bullet_after_frames(b, dt, (n - 1) as nat).after_update(dt)
    }
}

/// A bullet's life goes down by one per frame: with `health = h > 0` the
/// update of each of its first `h - 1` frames keeps it, and that of frame
/// `h` drops it.
pub proof fn lemma_bullet_lifetime(b: Bullet, dt: int, n: nat)
    requires
        0 < b.health,
        n <= b.health,
    ensures
        bullet_after_frames(b, dt, n).health == b.health - n,
        n < b.health ==> bullet_after_frames(b, dt, n).kept(dt) == (n + 1 < b.health),
        n + 1 == b.health ==> !bullet_after_frames(b, dt, n).kept(dt),
    decreases n,
{
    if n > 0 {
        lemma_bullet_lifetime(b, dt, (n - 1) as nat);
    }
}

impl Bullet {
    /// The bullet that `new` builds.
    pub open spec fn new_spec(pos: Vec2, vel: Vec2, radius: i64) -> Bullet {
        Bullet {
            pos,
            vel,
            radius,
            color: Color { r: 1000, g: 1000, b: 1000, a: 1000 },
            health: BULLET_TTL,
            layer: COL_BULLET,
            mask: COL_ENEMY,
        }
    }

    /// An aimed bullet: white, with the full time to live.
    pub fn new(pos: Vec2, vel: Vec2, radius: i64) -> (b: Bullet)
        ensures
            b == Bullet::new_spec(pos, vel, radius),
            b == (Bullet {
                pos,
                vel,
                radius,
                color: Color { r: 1000, g: 1000, b: 1000, a: 1000 },
                health: BULLET_TTL,
                layer: COL_BULLET,
                mask: COL_ENEMY,
            }),
    {
        Bullet {
            pos,
            vel,
            radius,
            color: Color::white(),
            health: BULLET_TTL,
            layer: COL_BULLET,
            mask: COL_ENEMY,
        }
    }

    /// Pushes one translucent burst bullet from `pos` for each direction of
    /// `dirs`, each at a random speed in `[100, 300)` units per second.
    pub fn super_bang(bullets: &mut Vec<Bullet>, pos: Vec2, dirs: &Vec<Vec2>)
        requires
            within(pos, POS_MAX as int),
            forall|i: int| 0 <= i < dirs.len() ==> is_direction(#[trigger] dirs[i]),
        ensures
            final(bullets).len() == old(bullets).len() + dirs.len(),
            forall|i: int| 0 <= i < old(bullets).len() ==> final(bullets)[i] == old(bullets)[i],
            forall|i: int|
                0 <= i < dirs.len() ==> bullet_ok(#[trigger] final(bullets)[old(bullets).len() + i]),
            forall|i: int|
                0 <= i < dirs.len() ==> is_burst_bullet(
                    #[trigger] final(bullets)[old(bullets).len() + i],
                    pos,
                    dirs[i],
                ),
    {
        let ghost n0 = bullets.len();
        let mut k: usize = 0;
        while k < dirs.len()
            invariant
                k <= dirs.len(),
                n0 == old(bullets).len(),
                bullets.len() == n0 + k,
                within(pos, POS_MAX as int),
                forall|i: int| 0 <= i < dirs.len() ==> is_direction(#[trigger] dirs[i]),
                forall|i: int| 0 <= i < n0 ==> bullets[i] == old(bullets)[i],
                forall|i: int| 0 <= i < k ==> bullet_ok(#[trigger] bullets[n0 + i]),
                forall|i: int|
                    0 <= i < k ==> is_burst_bullet(#[trigger] bullets[n0 + i], pos, dirs[i]),
            decreases dirs.len() - k,
        {
            let dir = dirs[k];
            let speed = BURST_SPEED_MIN + draw_below(BURST_SPEED_SPAN);
            let vel = Vec2 { x: scale_dir(dir.x, speed), y: scale_dir(dir.y, speed) };
            let b = Bullet {
                pos,
                vel,
                radius: BURST_RADIUS,
                color: Color { r: 1000, g: 1000, b: 1000, a: BURST_ALPHA },
                health: BURST_TTL,
                layer: COL_BULLET,
                mask: COL_ENEMY,
            };
            assert(b == burst_bullet(pos, dirs[k as int], speed as int));
            proof {
                lemma_scaled_length(dir, speed as int);
            }
            bullets.push(b);
            assert(bullets[n0 + k as int] == b);
            k = k + 1;
        }
    }
}

} // verus!
