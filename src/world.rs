use vstd::prelude::*;

use crate::bullet::{bullet_ok, is_burst_bullet, Bullet, BULLET_RADIUS};
use crate::charge::{burst_size, sat_u32, ticked, SuperBang, BANKED_PER_LEVEL};
use crate::enemy::{enemy_ok, is_spawned_around, strike, struck, Enemy};
use crate::fixed::{color_ok, is_direction, within, Color, Vec2, DT_MAX, POS_MAX, RADIUS_MAX, VEL_MAX};
use crate::game_entity::{collide, collides, GameEntity, HEIGHT, WIDTH};
use crate::particle::{is_burst_particle, particle_ok, Particle};
use crate::player::{player_ok, Player};

verus! {

/// Particles in the burst of an enemy striking the player.
pub const PLAYER_HIT_PARTICLES: u32 = 10;

/// Particles in the burst of a bullet striking an enemy.
pub const BULLET_HIT_PARTICLES: u32 = 80;

/// Top speed of burst particles, in sub-units per second.
pub const HIT_PARTICLE_SPEED: i64 = 500_000;

/// The player's radius at the start of a run.
pub const START_RADIUS: i64 = 20_000;

/// A burst of particles that a frame asks for.
#[derive(Clone, Copy, Debug, PartialEq, Eq, Structural)]
pub struct Burst {
    pub count: u32,
    pub speed: i64,
    pub color: Color,
    pub pos: Vec2,
}

/// The burst at an enemy struck by the player, in the player's colour.
pub open spec fn player_hit_burst(p: Player, e: Enemy) -> Burst {
    Burst { count: PLAYER_HIT_PARTICLES, speed: HIT_PARTICLE_SPEED, color: p.color, pos: e.pos }
}

/// The burst at an enemy struck by a bullet, in the enemy's colour.
pub open spec fn bullet_hit_burst(e: Enemy) -> Burst {
    Burst { count: BULLET_HIT_PARTICLES, speed: HIT_PARTICLE_SPEED, color: e.color, pos: e.pos }
}

/// The mass the player strikes with: its radius, never below zero.
pub open spec fn player_mass(p: Player) -> int {
    if p.radius > 0 {
        p.radius as int
    } else {
        0
    }
}

/// An enemy tested against each bullet in order: each bullet it collides
/// with damages it, is dropped, and asks for a burst; the others stay.
/// Gives the enemy, the bullets left and the bursts.
pub open spec fn bullet_hits(e: Enemy, bs: Seq<Bullet>) -> (Enemy, Seq<Bullet>, Seq<Burst>)
    decreases bs.len(),
{
    if bs.len() == 0 {
        (e, Seq::empty(), Seq::empty())
    } else {
        let r = bullet_hits(e, bs.drop_last());
        let b = bs.last();
        if collides(r.0.collider(), b.collider()) {
            (struck(r.0, b.vel, b.radius as int), r.1, r.2.push(bullet_hit_burst(r.0)))
        } else {
            (r.0, r.1.push(b), r.2)
        }
    }
}

/// One enemy's turn: tested against the player, then against the bullets,
/// then advanced. Gives the player, the enemy, whether it is kept, the
/// bullets left and the bursts.
pub open spec fn enemy_turn(p: Player, e: Enemy, bs: Seq<Bullet>, dt: int) -> (
    Player,
    Enemy,
    bool,
    Seq<Bullet>,
    Seq<Burst>,
) {
    let hit = collides(e.collider(), p.collider());
    let e1 = if hit {
        struck(e, p.vel, player_mass(p))
    } else {
        e
    };
    let p1 = if hit {
        p.after_damage(e1.vel, e1.radius as int)
    } else {
        p
    };
    let first: Seq<Burst> = if hit {
        seq![player_hit_burst(p, e)]
    } else {
        Seq::empty()
    };
    let r = bullet_hits(e1, bs);
    (p1, r.0.after_update(dt), r.0.kept(dt), r.1, first + r.2)
}

/// Every enemy's turn, in order. Gives the player, the enemies kept, the
/// bullets left and the bursts.
pub open spec fn enemy_turns(p: Player, es: Seq<Enemy>, bs: Seq<Bullet>, dt: int) -> (
    Player,
    Seq<Enemy>,
    Seq<Bullet>,
    Seq<Burst>,
)
    decreases es.len(),
{
    if es.len() == 0 {
        (p, Seq::empty(), bs, Seq::empty())
    } else {
        let r = enemy_turns(p, es.drop_last(), bs, dt);
        let t = enemy_turn(r.0, es.last(), r.2, dt);
        (t.0, if t.2 {
            r.1.push(t.1)
        } else {
            r.1
        }, t.3, r.3 + t.4)
    }
}

/// The frame in which a bullet first meets the only enemy, which is clear
/// of the player: the bullet is gone, the enemy is struck once (shrunk by
/// `ENEMY_SHRINK`, never below zero) and then moves, and exactly one burst of
/// `BULLET_HIT_PARTICLES` particles in the enemy's colour is asked for at the
/// enemy's position at impact; the player is untouched.
pub proof fn lemma_bullet_hit_frame(p: Player, e: Enemy, b: Bullet, dt: int)
    requires
        bullet_ok(b),
        !collides(e.collider(), p.collider()),
        collides(e.collider(), b.collider()),
    ensures
        enemy_turns(p, seq![e], seq![b], dt).0 == p,
        enemy_turns(p, seq![e], seq![b], dt).2 == Seq::<Bullet>::empty(),
        enemy_turns(p, seq![e], seq![b], dt).3 == seq![bullet_hit_burst(e)],
        enemy_turns(p, seq![e], seq![b], dt).1 == if struck(e, b.vel, b.radius as int).kept(dt) {
            seq![struck(e, b.vel, b.radius as int).after_update(dt)]
        } else {
            Seq::<Enemy>::empty()
        },
        bullet_hit_burst(e).count == BULLET_HIT_PARTICLES,
        e.radius > crate::enemy::ENEMY_SHRINK ==> struck(e, b.vel, b.radius as int).radius
            == e.radius - crate::enemy::ENEMY_SHRINK,
{
    if e.radius > crate::enemy::ENEMY_SHRINK {
        assert(crate::enemy::shrunk(e.radius as int) == e.radius - crate::enemy::ENEMY_SHRINK);
        assert(crate::enemy::shrunk(e.radius as int) + b.radius > 0);
        assert(struck(e, b.vel, b.radius as int) == e.after_damage(b.vel, b.radius as int));
    }
    let es = seq![e];
    let bs = seq![b];
    assert(es.drop_last() =~= Seq::<Enemy>::empty());
    assert(bs.drop_last() =~= Seq::<Bullet>::empty());
    assert(es.last() == e);
    assert(bs.last() == b);
    let h0 = bullet_hits(e, bs.drop_last());
    assert(h0 == bullet_hits(e, Seq::<Bullet>::empty()));
    assert(h0.0 == e && h0.1 == Seq::<Bullet>::empty() && h0.2 == Seq::<Burst>::empty());
    let h = bullet_hits(e, bs);
    assert(h.2 == h0.2.push(bullet_hit_burst(e)));
    assert(h.1 =~= Seq::<Bullet>::empty());
    assert(h.2 =~= seq![bullet_hit_burst(e)]);
    let t = enemy_turn(p, e, bs, dt);
    assert(t.4 =~= seq![bullet_hit_burst(e)]);
    let r0 = enemy_turns(p, es.drop_last(), bs, dt);
    assert(r0 == enemy_turns(p, Seq::<Enemy>::empty(), bs, dt));
    let r = enemy_turns(p, es, bs, dt);
    assert(r.3 =~= seq![bullet_hit_burst(e)]);
    assert(r.1 =~= (if struck(e, b.vel, b.radius as int).kept(dt) {
        seq![struck(e, b.vel, b.radius as int).after_update(dt)]
    } else {
        Seq::<Enemy>::empty()
    }));
}

/// Whether a point lies strictly inside the play field.
pub open spec fn in_field(v: Vec2) -> bool {
    0 < v.x < WIDTH && 0 < v.y < HEIGHT
}

/// The bullets advanced by a frame, keeping those with life left that are
/// still inside the play field.
pub open spec fn bullets_advanced(bs: Seq<Bullet>, dt: int) -> Seq<Bullet>
    decreases bs.len(),
{
    if bs.len() == 0 {
        Seq::empty()
    } else {
        let r = bullets_advanced(bs.drop_last(), dt);
        let b = bs.last().after_update(dt);
        if bs.last().kept(dt) && in_field(b.pos) {
            r.push(b)
        } else {
            r
        }
    }
}

/// The particles advanced by a frame, keeping those still large enough,
/// still visible, and within the representable range.
pub open spec fn particles_advanced(ps: Seq<Particle>, dt: int) -> Seq<Particle>
    decreases ps.len(),
{
    if ps.len() == 0 {
        Seq::empty()
    } else {
        let r = particles_advanced(ps.drop_last(), dt);
        let q = crate::particle::particle_after(ps.last(), dt);
        if crate::particle::particle_visible(q) && within(q.pos, POS_MAX as int) {
            r.push(q)
        } else {
            r
        }
    }
}

/// Tests `e` against each bullet of `bullets` in order; see `bullet_hits`.
/// The bursts asked for are appended to `bursts`.
fn strike_bullets(e: Enemy, bullets: &Vec<Bullet>, bursts: &mut Vec<Burst>) -> (r: (
    Enemy,
    Vec<Bullet>,
))
    requires
        enemy_ok(e),
        color_ok(e.color),
        forall|i: int| 0 <= i < bullets.len() ==> bullet_ok(#[trigger] bullets[i]),
    ensures
        (r.0, r.1@) == (bullet_hits(e, bullets@).0, bullet_hits(e, bullets@).1),
        final(bursts)@ == old(bursts)@ + bullet_hits(e, bullets@).2,
        enemy_ok(r.0),
        r.0.color == e.color,
        r.0.pos == e.pos,
        forall|i: int| 0 <= i < r.1.len() ==> bullet_ok(#[trigger] r.1[i]),
{
    let ghost b0 = bursts@;
    let mut cur = e;
    let mut left: Vec<Bullet> = Vec::new();
    let mut j: usize = 0;
    while j < bullets.len()
        invariant
            j <= bullets.len(),
            forall|i: int| 0 <= i < bullets.len() ==> bullet_ok(#[trigger] bullets[i]),
            (cur, left@) == (bullet_hits(e, bullets@.take(j as int)).0, bullet_hits(
                e,
                bullets@.take(j as int),
            ).1),
            bursts@ == b0 + bullet_hits(e, bullets@.take(j as int)).2,
            enemy_ok(cur),
            cur.color == e.color,
            cur.pos == e.pos,
            forall|i: int| 0 <= i < left.len() ==> bullet_ok(#[trigger] left[i]),
        decreases bullets.len() - j,
    {
        let b = bullets[j];
        assert(bullets@.take(j + 1).drop_last() =~= bullets@.take(j as int));
        assert(bullets@.take(j + 1).last() == b);
        if collide(&cur, &b) {
            bursts.push(
                Burst {
                    count: BULLET_HIT_PARTICLES,
                    speed: HIT_PARTICLE_SPEED,
                    color: cur.color,
                    pos: cur.pos,
                },
            );
            strike(&mut cur, b.vel, b.radius);
            assert(bursts@ =~= b0 + bullet_hits(e, bullets@.take(j + 1)).2);
        } else {
            left.push(b);
        }
        j = j + 1;
    }
    assert(bullets@.take(bullets.len() as int) =~= bullets@);
    (cur, left)
}

/// The whole game state of one run.
pub struct World {
    pub player: Player,
    pub enemies: Vec<Enemy>,
    pub bullets: Vec<Bullet>,
    pub particles: Vec<Particle>,
    pub level: u32,
    pub weapon: SuperBang,
}

impl World {
    /// Every entity is in a state the simulation can compute on.
    pub open spec fn world_ok(&self) -> bool {
        &&& player_ok(self.player)
        &&& within(self.player.pos, (POS_MAX - RADIUS_MAX) as int)
        &&& color_ok(self.player.color)
        &&& forall|i: int|
            0 <= i < self.enemies.len() ==> enemy_ok(#[trigger] self.enemies[i]) && color_ok(
                self.enemies[i].color,
            )
        &&& forall|i: int| 0 <= i < self.bullets.len() ==> bullet_ok(#[trigger] self.bullets[i])
        &&& forall|i: int|
            0 <= i < self.particles.len() ==> particle_ok(#[trigger] self.particles[i])
    }

    /// Whether `step` can run for a frame of `dt` milliseconds: the player's
    /// next position stays in range.
    pub open spec fn can_step(&self, dt: int) -> bool {
        &&& self.world_ok()
        &&& 0 <= dt <= DT_MAX
        &&& within(self.player.after_update(dt).pos, (POS_MAX - RADIUS_MAX) as int)
    }

    /// A new run: the player at rest in the middle of the field with radius
    /// 20, no other entity, level 1, nothing banked.
    pub fn new() -> (w: World)
        ensures
            w.player == Player::new_spec(Vec2 { x: 640_000, y: 480_000 }, START_RADIUS),
            w.enemies@ == Seq::<Enemy>::empty(),
            w.bullets@ == Seq::<Bullet>::empty(),
            w.particles@ == Seq::<Particle>::empty(),
            w.level == 1,
            w.weapon == (SuperBang { banked: 0, charging: false, charged: 0 }),
            w.world_ok(),
    {
        World {
            player: Player::new(Vec2 { x: WIDTH / 2, y: HEIGHT / 2 }, START_RADIUS),
            enemies: Vec::new(),
            bullets: Vec::new(),
            particles: Vec::new(),
            level: 1,
            weapon: SuperBang::new(),
        }
    }

    /// Whether the wave is over: no enemy and no bullet is left.
    pub fn wave_cleared(&self) -> (r: bool)
        ensures
            r == (self.enemies.len() == 0 && self.bullets.len() == 0),
    {
        self.enemies.len() == 0 && self.bullets.len() == 0
    }

    /// Starts the next wave: one enemy spawned around the player along each
    /// direction of `dirs`, one per level; charges banked for the level; the
    /// level raised by one.
    pub fn start_wave(&mut self, dirs: &Vec<Vec2>)
        requires
            old(self).world_ok(),
            dirs.len() == old(self).level,
            old(self).level < u32::MAX,
            forall|i: int| 0 <= i < dirs.len() ==> is_direction(#[trigger] dirs[i]),
        ensures
            final(self).world_ok(),
            final(self).level == old(self).level + 1,
            final(self).weapon == (SuperBang {
                banked: sat_u32(old(self).weapon.banked + BANKED_PER_LEVEL * old(self).level) as u32,
                ..old(self).weapon
            }),
            final(self).player == old(self).player,
            final(self).bullets@ == old(self).bullets@,
            final(self).particles@ == old(self).particles@,
            final(self).enemies.len() == old(self).enemies.len() + dirs.len(),
            forall|i: int|
                0 <= i < old(self).enemies.len() ==> final(self).enemies[i] == old(self).enemies[i],
            forall|i: int|
                0 <= i < dirs.len() ==> is_spawned_around(
                    #[trigger] final(self).enemies[old(self).enemies.len() + i],
                    old(self).player.pos,
                    dirs[i],
                ),
    {
        let target = self.player.pos;
        Enemy::spawn_n(&mut self.enemies, target, dirs);
        self.weapon.bank(self.level);
        self.level = self.level + 1;
        assert forall|i: int| 0 <= i < self.enemies.len() implies enemy_ok(
            #[trigger] self.enemies[i],
        ) && color_ok(self.enemies[i].color) by {
            if i >= old(self).enemies.len() {
                let k = i - old(self).enemies.len();
                assert(self.enemies[old(self).enemies.len() + k] == self.enemies[i]);
            }
        }
    }

    /// Fires an aimed bullet from the player at velocity `vel`.
    pub fn fire(&mut self, vel: Vec2)
        requires
            old(self).world_ok(),
            within(vel, VEL_MAX as int),
        ensures
            final(self).world_ok(),
            final(self).bullets@ == old(self).bullets@.push(
                Bullet::new_spec(old(self).player.pos, vel, BULLET_RADIUS),
            ),
            final(self).player == old(self).player,
            final(self).enemies@ == old(self).enemies@,
            final(self).particles@ == old(self).particles@,
            final(self).level == old(self).level,
            final(self).weapon == old(self).weapon,
    {
        let b = Bullet::new(self.player.pos, vel, BULLET_RADIUS);
        self.bullets.push(b);
    }

    /// The charge button is pressed.
    pub fn press_charge(&mut self)
        ensures
            final(self).weapon == (SuperBang { charging: true, ..old(self).weapon }),
            final(self).player == old(self).player,
            final(self).enemies@ == old(self).enemies@,
            final(self).bullets@ == old(self).bullets@,
            final(self).particles@ == old(self).particles@,
            final(self).level == old(self).level,
    {
        self.weapon.press();
    }

    /// The charge button is released: charging stops, the charge is spent,
    /// and a burst of `burst_size(weapon)` bullets (at least ten) leaves the
    /// player, one along each direction of `dirs`.
    pub fn release_super_bang(&mut self, dirs: &Vec<Vec2>)
        requires
            old(self).world_ok(),
            dirs.len() == burst_size(old(self).weapon),
            forall|i: int| 0 <= i < dirs.len() ==> is_direction(#[trigger] dirs[i]),
        ensures
            final(self).world_ok(),
            final(self).weapon == (SuperBang { charging: false, charged: 0, ..old(self).weapon }),
            final(self).bullets.len() == old(self).bullets.len() + burst_size(old(self).weapon),
            forall|i: int|
                0 <= i < old(self).bullets.len() ==> final(self).bullets[i] == old(self).bullets[i],
            forall|i: int|
                0 <= i < dirs.len() ==> is_burst_bullet(
                    #[trigger] final(self).bullets[old(self).bullets.len() + i],
                    old(self).player.pos,
                    dirs[i],
                ),
            final(self).player == old(self).player,
            final(self).enemies@ == old(self).enemies@,
            final(self).particles@ == old(self).particles@,
            final(self).level == old(self).level,
    {
        self.weapon.release();
        let pos = self.player.pos;
        Bullet::super_bang(&mut self.bullets, pos, dirs);
        assert forall|i: int| 0 <= i < self.bullets.len() implies bullet_ok(
            #[trigger] self.bullets[i],
        ) by {
            if i >= old(self).bullets.len() {
                let k = i - old(self).bullets.len();
                assert(self.bullets[old(self).bullets.len() + k] == self.bullets[i]);
            }
        }
    }

    /// Adds the `burst.count` particles of `burst`, one along each direction
    /// of `dirs`.
    pub fn spawn_burst(&mut self, burst: Burst, dirs: &Vec<Vec2>)
        requires
            old(self).world_ok(),
            within(burst.pos, POS_MAX as int),
            color_ok(burst.color),
            0 <= burst.speed <= VEL_MAX,
            dirs.len() == burst.count,
            forall|i: int| 0 <= i < dirs.len() ==> is_direction(#[trigger] dirs[i]),
        ensures
            final(self).world_ok(),
            final(self).particles.len() == old(self).particles.len() + burst.count,
            forall|i: int|
                0 <= i < old(self).particles.len() ==> final(self).particles[i]
                    == old(self).particles[i],
            forall|i: int|
                0 <= i < dirs.len() ==> is_burst_particle(
                    #[trigger] final(self).particles[old(self).particles.len() + i],
                    burst.color,
                    burst.pos,
                    dirs[i],
                    burst.speed as int,
                ),
            final(self).player == old(self).player,
            final(self).enemies@ == old(self).enemies@,
            final(self).bullets@ == old(self).bullets@,
            final(self).level == old(self).level,
            final(self).weapon == old(self).weapon,
    {
        Particle::spawn_particles(&mut self.particles, dirs, burst.speed, burst.color, burst.pos);
        assert forall|i: int| 0 <= i < self.particles.len() implies particle_ok(
            #[trigger] self.particles[i],
        ) by {
            if i >= old(self).particles.len() {
                let k = i - old(self).particles.len();
                assert(self.particles[old(self).particles.len() + k] == self.particles[i]);
            }
        }
    }

    /// Advances every particle by `dt` milliseconds, keeping those still
    /// large enough, still visible, and within the representable range.
    pub fn advance_particles(&mut self, dt: i64)
        requires
            old(self).world_ok(),
            0 <= dt <= DT_MAX,
        ensures
            final(self).world_ok(),
            final(self).particles@ == particles_advanced(old(self).particles@, dt as int),
            final(self).player == old(self).player,
            final(self).enemies@ == old(self).enemies@,
            final(self).bullets@ == old(self).bullets@,
            final(self).level == old(self).level,
            final(self).weapon == old(self).weapon,
    {
        let mut ps: Vec<Particle> = Vec::new();
        core::mem::swap(&mut ps, &mut self.particles);
        let ghost p0 = ps@;
        let mut out: Vec<Particle> = Vec::new();
        let mut j: usize = 0;
        while j < ps.len()
            invariant
                j <= ps.len(),
                0 <= dt <= DT_MAX,
                ps@ == p0,
                forall|k: int| 0 <= k < ps.len() ==> particle_ok(#[trigger] ps[k]),
                out@ == particles_advanced(p0.take(j as int), dt as int),
                forall|k: int| 0 <= k < out.len() ==> particle_ok(#[trigger] out[k]),
            decreases ps.len() - j,
        {
            let mut p = ps[j];
            assert(p0.take(j + 1).drop_last() =~= p0.take(j as int));
            assert(p0.take(j + 1).last() == p);
            proof {
                crate::fixed::lemma_scaling_shrinks(p.vel.x as int, p.drag_friction as int);
                crate::fixed::lemma_scaling_shrinks(p.vel.y as int, p.drag_friction as int);
                crate::particle::lemma_faded_alpha_bounded(p.color.a as int, p.alpha_decay as int);
            }
            let alive = p.update(dt);
            if alive && -POS_MAX <= p.pos.x && p.pos.x <= POS_MAX && -POS_MAX <= p.pos.y
                && p.pos.y <= POS_MAX {
                out.push(p);
            }
            j = j + 1;
        }
        assert(p0.take(p0.len() as int) =~= p0);
        self.particles = out;
    }

    /// The outcome of the enemies' turns in a frame of `dt` milliseconds.
    pub open spec fn turns(&self, dt: int) -> (Player, Seq<Enemy>, Seq<Bullet>, Seq<Burst>) {
        enemy_turns(self.player.after_update(dt), self.enemies@, self.bullets@, dt)
    }

    /// One frame of `dt` milliseconds, but for the particles: the weapon
    /// charges, the player moves, each enemy in order is tested against the
    /// player and against the bullets left and then moves, and the bullets
    /// left move and age. Returns the particle bursts the hits ask for.
    pub fn step(&mut self, dt: i64) -> (bursts: Vec<Burst>)
        requires
            old(self).can_step(dt as int),
        ensures
            final(self).player == old(self).turns(dt as int).0,
            final(self).enemies@ == old(self).turns(dt as int).1,
            final(self).bullets@ == bullets_advanced(old(self).turns(dt as int).2, dt as int),
            bursts@ == old(self).turns(dt as int).3,
            final(self).particles@ == old(self).particles@,
            final(self).level == old(self).level,
            final(self).weapon == ticked(old(self).weapon),
            final(self).world_ok(),
    {
        let ghost e0 = self.enemies@;
        let ghost b0 = self.bullets@;
        let ghost p0 = self.player;
        self.weapon.tick();
        let ghost p1 = self.player.after_update(dt as int);
        proof {
            crate::fixed::lemma_scaling_shrinks(p0.speed as int, p0.facing.x as int);
            crate::fixed::lemma_scaling_shrinks(p0.speed as int, p0.facing.y as int);
        }
        self.player.update(dt);
        assert(player_ok(self.player));
        let mut bullets: Vec<Bullet> = Vec::new();
        core::mem::swap(&mut bullets, &mut self.bullets);
        let mut kept: Vec<Enemy> = Vec::new();
        let mut bursts: Vec<Burst> = Vec::new();
        let n = self.enemies.len();
        let mut i: usize = 0;
        while i < n
            invariant
                n == self.enemies.len(),
                i <= n,
                self.enemies@ == e0,
                0 <= dt <= DT_MAX,
                self.particles@ == old(self).particles@,
                self.level == old(self).level,
                self.weapon == ticked(old(self).weapon),
                forall|k: int|
                    0 <= k < self.particles.len() ==> particle_ok(#[trigger] self.particles[k]),
                forall|k: int|
                    0 <= k < self.enemies.len() ==> enemy_ok(#[trigger] self.enemies[k])
                        && color_ok(self.enemies[k].color),
                (self.player, kept@, bullets@, bursts@) == enemy_turns(
                    p1,
                    e0.take(i as int),
                    b0,
                    dt as int,
                ),
                player_ok(self.player),
                within(self.player.pos, (POS_MAX - RADIUS_MAX) as int),
                color_ok(self.player.color),
                forall|k: int|
                    0 <= k < kept.len() ==> enemy_ok(#[trigger] kept[k]) && color_ok(
                        kept[k].color,
                    ),
                forall|k: int| 0 <= k < bullets.len() ==> bullet_ok(#[trigger] bullets[k]),
            decreases n - i,
        {
            let e = self.enemies[i];
            assert(e0.take(i + 1).drop_last() =~= e0.take(i as int));
            assert(e0.take(i + 1).last() == e);
            let ghost pb = self.player;
            let ghost kb = kept@;
            let ghost bb = bursts@;
            let ghost bl = bullets@;
            let mut e1 = e;
            let hit = collide(&e, &self.player);
            if hit {
                bursts.push(
                    Burst {
                        count: PLAYER_HIT_PARTICLES,
                        speed: HIT_PARTICLE_SPEED,
                        color: self.player.color,
                        pos: e.pos,
                    },
                );
                let mass = if self.player.radius > 0 {
                    self.player.radius
                } else {
                    0
                };
                strike(&mut e1, self.player.vel, mass);
                self.player.deal_damage(e1.vel, e1.radius);
            }
            let ghost first: Seq<Burst> = if hit {
                seq![player_hit_burst(pb, e)]
            } else {
                Seq::empty()
            };
            assert(bursts@ == bb + first);
            let (e2, left) = strike_bullets(e1, &bullets, &mut bursts);
            let ghost hits = bullet_hits(e1, bl);
            assert(bursts@ =~= bb + (first + hits.2));
            bullets = left;
            proof {
                crate::enemy::lemma_enemy_update_ok(e2, dt as int);
            }
            let mut e3 = e2;
            let keep = e3.update(dt);
            if keep {
                kept.push(e3);
            }
            assert(kept@ == (if keep {
                kb.push(e3)
            } else {
                kb
            }));
            i = i + 1;
        }
        assert(e0.take(n as int) =~= e0);
        self.enemies = kept;
        let ghost left = bullets@;
        let mut moved: Vec<Bullet> = Vec::new();
        let mut j: usize = 0;
        while j < bullets.len()
            invariant
                j <= bullets.len(),
                0 <= dt <= DT_MAX,
                bullets@ == left,
                forall|k: int| 0 <= k < bullets.len() ==> bullet_ok(#[trigger] bullets[k]),
                moved@ == bullets_advanced(left.take(j as int), dt as int),
                forall|k: int| 0 <= k < moved.len() ==> bullet_ok(#[trigger] moved[k]),
            decreases bullets.len() - j,
        {
            let mut b = bullets[j];
            assert(left.take(j + 1).drop_last() =~= left.take(j as int));
            assert(left.take(j + 1).last() == b);
            let alive = b.update(dt);
            if alive && 0 < b.pos.x && b.pos.x < WIDTH && 0 < b.pos.y && b.pos.y < HEIGHT {
                moved.push(b);
            }
            j = j + 1;
        }
        assert(left.take(left.len() as int) =~= left);
        self.bullets = moved;
        bursts
    }
}

} // verus!
