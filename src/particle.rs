use vstd::prelude::*;

use crate::chance::draw_below;
use crate::fixed::{
    advance, advance_pos, color_ok, div_trunc, is_direction, lemma_scaled_length, length_near,
    mul_scaled, scale_dir, scaled, within, Color, Vec2, DT_MAX, POS_MAX, RADIUS_MAX, SCALE, VEL_MAX,
};

verus! {

/// Radius of a new particle.
pub const PARTICLE_RADIUS: i64 = 5_000;

/// Velocity kept per frame, in thousandths.
pub const PARTICLE_DRAG: i64 = 990;

/// Alpha kept per frame, in thousandths; `SCALE` turns alpha decay off.
pub const PARTICLE_ALPHA_DECAY: i64 = 1000;

/// Radius lost per frame.
pub const PARTICLE_SHRINK: i64 = 100;

/// A particle whose radius is at most this is removed.
pub const PARTICLE_MIN_RADIUS: i64 = 10;

/// Alpha below this is cut to zero.
pub const PARTICLE_MIN_ALPHA: i64 = 10;

/// A purely cosmetic dot that drifts, slows and fades.
#[derive(Clone, Copy, Debug, PartialEq, Eq, Structural)]
pub struct Particle {
    pub pos: Vec2,
    pub vel: Vec2,
    /// Velocity kept per frame, in thousandths.
    pub drag_friction: i64,
    /// Alpha kept per frame, in thousandths.
    pub alpha_decay: i64,
    pub radius: i64,
    pub color: Color,
}

/// A particle whose state the simulation can compute on.
pub open spec fn particle_ok(p: Particle) -> bool {
    within(p.pos, POS_MAX as int) && within(p.vel, VEL_MAX as int) && 0 <= p.drag_friction
        <= SCALE && 0 <= p.alpha_decay <= SCALE && -RADIUS_MAX <= p.radius <= RADIUS_MAX
        && color_ok(p.color)
}

/// A particle is kept while its radius is above `PARTICLE_MIN_RADIUS` and
/// its alpha has not faded below `PARTICLE_MIN_ALPHA`.
pub open spec fn particle_visible(p: Particle) -> bool {
    p.radius > PARTICLE_MIN_RADIUS && p.color.a >= PARTICLE_MIN_ALPHA
}

/// The alpha after one frame's fade.
pub open spec fn faded_alpha(alpha: int, decay: int) -> int {
    if decay < SCALE {
        let a = alpha * decay / SCALE as int;
        if a < PARTICLE_MIN_ALPHA {
            0
        } else {
            a
        }
    } else {
        alpha
    }
}

/// The fade never raises alpha above full.
pub proof fn lemma_faded_alpha_bounded(alpha: int, decay: int)
    requires
        0 <= alpha <= SCALE,
        0 <= decay <= SCALE,
    ensures
        0 <= faded_alpha(alpha, decay) <= SCALE,
{
    assert(0 <= alpha * decay / 1000 <= 1000) by (nonlinear_arith)
        requires
            0 <= alpha <= 1000,
            0 <= decay <= 1000,
    ;
}

/// The particle after a frame of `dt` milliseconds: faded, shrunk, slowed by
/// drag, then moved by the slowed velocity.
pub open spec fn particle_after(p: Particle, dt: int) -> Particle {
    let vel = Vec2 {
        x: div_trunc(p.vel.x * p.drag_friction, SCALE as int) as i64,
        y: div_trunc(p.vel.y * p.drag_friction, SCALE as int) as i64,
    };
    let q = advance(p.pos, vel, dt);
    Particle {
        pos: Vec2 { x: q.0 as i64, y: q.1 as i64 },
        vel,
        radius: (p.radius - PARTICLE_SHRINK) as i64,
        color: Color { a: faded_alpha(p.color.a as int, p.alpha_decay as int) as u16, ..p.color },
        ..p
    }
}

/// A frame of no time leaves a particle where it is, but still fades,
/// shrinks and slows it once: the decay is per frame, not per unit of time.
pub proof fn lemma_particle_zero_dt(p: Particle)
    requires
        particle_ok(p),
    ensures
        particle_after(p, 0).pos == p.pos,
        particle_after(p, 0).radius == p.radius - PARTICLE_SHRINK,
        particle_after(p, 0).color.a == faded_alpha(p.color.a as int, p.alpha_decay as int) as u16,
        particle_after(p, 0).vel.x == div_trunc(p.vel.x * p.drag_friction, SCALE as int) as i64,
        particle_after(p, 0).vel.y == div_trunc(p.vel.y * p.drag_friction, SCALE as int) as i64,
{
    let v = particle_after(p, 0).vel;
    assert(v.x * 0 == 0 && v.y * 0 == 0);
}

/// The particle of a burst moving along `dir` at `speed` from `pos`.
pub open spec fn burst_particle(color: Color, pos: Vec2, dir: Vec2, speed: int) -> Particle {
    Particle {
        pos,
        vel: Vec2 { x: scaled(dir, speed).0 as i64, y: scaled(dir, speed).1 as i64 },
        drag_friction: PARTICLE_DRAG,
        alpha_decay: PARTICLE_ALPHA_DECAY,
        radius: PARTICLE_RADIUS,
        color,
    }
}

/// Whether `p` is a burst particle from `pos` along `dir` at a speed below
/// `max_speed` (zero where `max_speed` is zero): its velocity is at most
/// that speed long, and at least 0.997 of it up to rounding.
pub open spec fn is_burst_particle(
    p: Particle,
    color: Color,
    pos: Vec2,
    dir: Vec2,
    max_speed: int,
) -> bool {
    exists|speed: int|
        0 <= speed && (speed < max_speed || speed == 0) && p == #[trigger] burst_particle(
            color,
            pos,
            dir,
            speed,
        ) && length_near((p.vel.x as int, p.vel.y as int), speed)
}

impl Particle {
    pub fn new(
        radius: i64,
        color: Color,
        pos: Vec2,
        vel: Vec2,
        drag_friction: i64,
        alpha_decay: i64,
    ) -> (p: Particle)
        ensures
            p == (Particle { pos, vel, drag_friction, alpha_decay, radius, color }),
    {
        Particle { pos, vel, drag_friction, alpha_decay, radius, color }
    }

    /// Whether the particle is still large enough and opaque enough to be kept.
    fn retain(&self) -> (r: bool)
        ensures
            r == particle_visible(*self),
    {
        self.radius > PARTICLE_MIN_RADIUS && self.color.a as i64 >= PARTICLE_MIN_ALPHA
    }

    /// Advances the particle by `dt` milliseconds; returns whether it is kept.
    /// The fade, shrink and drag are per call, whatever `dt` is.
    pub fn update(&mut self, dt: i64) -> (r: bool)
        requires
            particle_ok(*old(self)),
            0 <= dt <= DT_MAX,
        ensures
            *final(self) == particle_after(*old(self), dt as int),
            r == particle_visible(*final(self)),
    {
        if self.alpha_decay < SCALE {
            let a: u32 = self.color.a as u32;
            let d: u32 = self.alpha_decay as u32;
            assert(a * d <= 1000 * 1000 && a * d / 1000 <= 1000) by (nonlinear_arith)
                requires
                    a <= 1000,
                    d <= 1000,
            ;
            let mut alpha: u32 = a * d / 1000;
            if alpha < PARTICLE_MIN_ALPHA as u32 {
                alpha = 0;
            }
            self.color = Color { a: alpha as u16, ..self.color };
        }
        self.radius = self.radius - PARTICLE_SHRINK;
        self.vel = Vec2 {
            x: mul_scaled(self.vel.x, self.drag_friction),
            y: mul_scaled(self.vel.y, self.drag_friction),
        };
        self.pos = advance_pos(self.pos, self.vel, dt);
        self.retain()
    }

    /// Pushes one particle at `pos` for each direction of `dirs`, each at a
    /// random speed below `speed`.
    pub fn spawn_particles(
        particles: &mut Vec<Particle>,
        dirs: &Vec<Vec2>,
        speed: i64,
        color: Color,
        pos: Vec2,
    )
        requires
            0 <= speed <= VEL_MAX,
            forall|i: int| 0 <= i < dirs.len() ==> is_direction(#[trigger] dirs[i]),
            within(pos, POS_MAX as int),
            color_ok(color),
        ensures
            forall|i: int|
                0 <= i < dirs.len() ==> particle_ok(
                    #[trigger] final(particles)[old(particles).len() + i],
                ),
            final(particles).len() == old(particles).len() + dirs.len(),
            forall|i: int|
                0 <= i < old(particles).len() ==> final(particles)[i] == old(particles)[i],
            forall|i: int|
                0 <= i < dirs.len() ==> is_burst_particle(
                    #[trigger] final(particles)[old(particles).len() + i],
                    color,
                    pos,
                    dirs[i],
                    speed as int,
                ),
    {
        let ghost n0 = particles.len();
        let mut k: usize = 0;
        while k < dirs.len()
            invariant
                k <= dirs.len(),
                n0 == old(particles).len(),
                particles.len() == n0 + k,
                0 <= speed <= VEL_MAX,
                within(pos, POS_MAX as int),
                color_ok(color),
                forall|i: int| 0 <= i < dirs.len() ==> is_direction(#[trigger] dirs[i]),
                forall|i: int| 0 <= i < n0 ==> particles[i] == old(particles)[i],
                forall|i: int| 0 <= i < k ==> particle_ok(#[trigger] particles[n0 + i]),
                forall|i: int|
                    0 <= i < k ==> is_burst_particle(
                        #[trigger] particles[n0 + i],
                        color,
                        pos,
                        dirs[i],
                        speed as int,
                    ),
            decreases dirs.len() - k,
        {
            let dir = dirs[k];
            let s = if speed > 0 {
                draw_below(speed)
            } else {
                0
            };
            let vel = Vec2 { x: scale_dir(dir.x, s), y: scale_dir(dir.y, s) };
            let p = Particle::new(
                PARTICLE_RADIUS,
                color,
                pos,
                vel,
                PARTICLE_DRAG,
                PARTICLE_ALPHA_DECAY,
            );
            assert(p == burst_particle(color, pos, dirs[k as int], s as int));
            proof {
                lemma_scaled_length(dir, s as int);
            }
            particles.push(p);
            assert(particles[n0 + k as int] == p);
            k = k + 1;
        }
    }
}

} // verus!
