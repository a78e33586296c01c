use color_bang::bullet::{Bullet, BULLET_TTL, BURST_RADIUS, BURST_SPEED_MIN, BURST_TTL};
use color_bang::charge::SuperBang;
use color_bang::enemy::{strike, Enemy, ENEMY_MIN_RADIUS};
use color_bang::fixed::{div_toward_zero, is_unit_direction, Color, Vec2};
use color_bang::game_entity::{
    collide, colliders_touch, impulse, ColliderInfo, GameEntity, COL_BULLET, COL_ENEMY,
    COL_PLAYER, HEIGHT, WIDTH,
};
use color_bang::particle::{Particle, PARTICLE_RADIUS};
use color_bang::player::Player;
use color_bang::sound::{random_variant, variant_for_draw, SoundFamily, SoundType};

fn enemy_at(x: i64, y: i64, radius: i64) -> Enemy {
    Enemy {
        pos: Vec2::new(x, y),
        vel: Vec2::new(0, 0),
        radius,
        color: Color::from_rgba(500, 200, 100, 1000),
        layer: COL_ENEMY,
        mask: COL_PLAYER | COL_BULLET | COL_ENEMY,
    }
}

fn collider(layer: u8, mask: u8, x: i64, y: i64, radius: i64) -> ColliderInfo {
    ColliderInfo { mask, layer, pos: Vec2::new(x, y), radius }
}

#[test]
fn collision_is_symmetric() {
    let e = enemy_at(100_000, 100_000, 10_000);
    let b = Bullet::new(Vec2::new(112_000, 100_000), Vec2::new(0, 0), 5_000);
    let p = Player::new(Vec2::new(100_000, 125_000), 20_000);
    assert!(collide(&e, &b));
    assert!(collide(&b, &e));
    assert_eq!(collide(&e, &p), collide(&p, &e));
    assert!(collide(&p, &e));
    let far = Bullet::new(Vec2::new(500_000, 100_000), Vec2::new(0, 0), 5_000);
    assert!(!collide(&e, &far));
    assert!(!collide(&far, &e));
}

#[test]
fn disjoint_masks_never_collide() {
    let a = collider(COL_PLAYER, COL_ENEMY, 0, 0, 10_000);
    let b = collider(COL_BULLET, COL_ENEMY, 0, 0, 10_000);
    assert!(!colliders_touch(a, b));
    assert!(!colliders_touch(b, a));
    let p = Player::new(Vec2::new(50_000, 50_000), 20_000);
    let bullet = Bullet::new(Vec2::new(50_000, 50_000), Vec2::new(0, 0), 5_000);
    assert!(!collide(&p, &bullet));
}

#[test]
fn distance_threshold_is_inclusive() {
    // centres 3-4-5 apart: distance 5000 sub-units
    let a = collider(COL_ENEMY, COL_BULLET, 0, 0, 2_000);
    let touching = collider(COL_BULLET, COL_ENEMY, 3_000, 4_000, 3_000);
    assert!(colliders_touch(a, touching));
    let apart = collider(COL_BULLET, COL_ENEMY, 3_000, 4_000, 2_999);
    assert!(!colliders_touch(a, apart));
    let a2 = collider(COL_ENEMY, COL_BULLET, 0, 0, 10_000);
    let edge = collider(COL_BULLET, COL_ENEMY, 15_000, 0, 5_000);
    assert!(colliders_touch(a2, edge));
    let past = collider(COL_BULLET, COL_ENEMY, 15_001, 0, 5_000);
    assert!(!colliders_touch(a2, past));
}

#[test]
fn negative_radius_sum_never_touches() {
    let a = collider(COL_PLAYER, COL_ENEMY, 0, 0, -5_000);
    let b = collider(COL_ENEMY, COL_PLAYER, 0, 0, 2_000);
    assert!(!colliders_touch(a, b));
}

#[test]
fn impulse_formula_values() {
    // (10,0)*5 + ((-10,0) - (10,0))*5, over 10
    let r = impulse(Vec2::new(10_000, 0), 5_000, Vec2::new(-10_000, 0), 5_000);
    assert_eq!(r, Vec2::new(-5_000, 0));
    let r = impulse(Vec2::new(0, 0), 1_000, Vec2::new(4_000, 2_000), 1_000);
    assert_eq!(r, Vec2::new(2_000, 1_000));
    let r = impulse(Vec2::new(6_000, -3_000), 2_000, Vec2::new(0, 0), 1_000);
    assert_eq!(r, Vec2::new(2_000, -1_000));
    let r = impulse(Vec2::new(0, 0), 5_000, Vec2::new(200_000, 0), 5_000);
    assert_eq!(r, Vec2::new(100_000, 0));
}

#[test]
fn impulse_rounds_toward_zero() {
    let r = impulse(Vec2::new(0, 0), 2_000, Vec2::new(-1, 1), 1_000);
    assert_eq!(r, Vec2::new(0, 0));
    assert_eq!(div_toward_zero(-7, 2), -3);
    assert_eq!(div_toward_zero(7, 2), 3);
}

#[test]
fn enemy_shrinks_and_is_removed_at_threshold() {
    let mut e = enemy_at(300_000, 300_000, 8_000);
    e.deal_damage(Vec2::new(0, 0), 5_000);
    assert_eq!(e.radius, 3_000);
    assert_eq!(e.radius, ENEMY_MIN_RADIUS);
    assert!(!e.update(16));
    e.deal_damage(Vec2::new(0, 0), 5_000);
    assert_eq!(e.radius, 0);
    assert!(!e.update(16));
}

#[test]
fn enemy_damage_blends_velocity() {
    let mut e = enemy_at(300_000, 300_000, 15_000);
    e.deal_damage(Vec2::new(200_000, 0), 5_000);
    assert_eq!(e.radius, 10_000);
    // (0 * 10 + 200 * 5) / 15 units per second
    assert_eq!(e.vel, Vec2::new(66_666, 0));
    assert!(e.update(0));
}

#[test]
fn massless_strike_destroys_enemy() {
    let mut e = enemy_at(300_000, 300_000, 4_000);
    e.vel = Vec2::new(7_000, -3_000);
    strike(&mut e, Vec2::new(1_000, 1_000), 0);
    assert_eq!(e.radius, 0);
    assert_eq!(e.vel, Vec2::new(7_000, -3_000));
}

#[test]
fn enemy_wraps_around_the_field() {
    let mut e = enemy_at(-9_000, 500_000, 10_000);
    e.vel = Vec2::new(-2_000, 0);
    assert!(e.update(1_000));
    assert_eq!(e.pos, Vec2::new(WIDTH - 10_000, 500_000));
    let mut f = enemy_at(WIDTH + 9_000, HEIGHT + 11_000, 10_000);
    f.vel = Vec2::new(2_000, 0);
    assert!(f.update(1_000));
    assert_eq!(f.pos, Vec2::new(10_000, 10_000));
    let mut g = enemy_at(500_000, -10_500, 10_000);
    assert!(g.update(0));
    assert_eq!(g.pos, Vec2::new(500_000, HEIGHT - 10_000));
}

#[test]
fn enemy_moves_by_velocity() {
    let mut e = enemy_at(500_000, 400_000, 20_000);
    e.vel = Vec2::new(30_000, -40_000);
    assert!(e.update(500));
    assert_eq!(e.pos, Vec2::new(515_000, 380_000));
}

#[test]
fn enemy_spawn_with_is_exact() {
    let e = Enemy::spawn_with(
        Vec2::new(640_000, 480_000),
        Vec2::new(0, 1_000),
        300_000,
        10_000,
        20_000,
        Color::white(),
    );
    assert_eq!(e.pos, Vec2::new(640_000, 780_000));
    assert_eq!(e.vel, Vec2::new(0, -20_000));
    assert_eq!(e.radius, 10_000);
    assert_eq!(e.layer, COL_ENEMY);
    assert_eq!(e.mask, COL_PLAYER | COL_BULLET | COL_ENEMY);
}

#[test]
fn enemy_spawn_ranges() {
    let mut enemies = Vec::new();
    let dirs = vec![Vec2::new(1_000, 0), Vec2::new(0, -1_000), Vec2::new(-600, 800)];
    Enemy::spawn_n(&mut enemies, Vec2::new(640_000, 480_000), &dirs);
    assert_eq!(enemies.len(), 3);
    for e in &enemies {
        assert!(e.radius >= 10_000 && e.radius < 30_000);
        assert_eq!(e.color.a, 1_000);
        assert!(e.color.r < 1_000 && e.color.g < 1_000 && e.color.b < 1_000);
    }
    let dx = enemies[0].pos.x - 640_000;
    assert!(dx >= 300_000 && dx < 400_000);
    assert_eq!(enemies[0].pos.y, 480_000);
    assert!(enemies[0].vel.x <= -20_000 && enemies[0].vel.x > -50_000);
    let dy = 480_000 - enemies[1].pos.y;
    assert!(dy >= 300_000 && dy < 400_000);
    assert!(enemies[1].vel.y >= 20_000 && enemies[1].vel.y < 50_000);
}

#[test]
fn bullet_with_one_life_is_dropped() {
    let mut b = Bullet::new(Vec2::new(100_000, 100_000), Vec2::new(0, 0), 5_000);
    b.health = 1;
    assert!(!b.update(16));
    assert_eq!(b.health, 0);
}

#[test]
fn bullet_lives_its_ttl() {
    let mut b = Bullet::new(Vec2::new(100_000, 100_000), Vec2::new(0, 0), 5_000);
    assert_eq!(b.health, BULLET_TTL);
    for _ in 0..599 {
        assert!(b.update(16));
    }
    assert!(!b.update(16));
    assert_eq!(b.health, 0);
}

#[test]
fn bullet_hit_ends_its_life() {
    let mut b = Bullet::new(Vec2::new(100_000, 100_000), Vec2::new(200_000, 0), 5_000);
    b.deal_damage(Vec2::new(0, 0), 10_000);
    assert_eq!(b.health, 0);
    assert!(!b.update(16));
    assert_eq!(b.pos, Vec2::new(103_200, 100_000));
}

#[test]
fn super_bang_bullets() {
    let mut bullets = Vec::new();
    let dirs = vec![Vec2::new(1_000, 0); 12];
    Bullet::super_bang(&mut bullets, Vec2::new(640_000, 480_000), &dirs);
    assert_eq!(bullets.len(), 12);
    for b in &bullets {
        assert_eq!(b.radius, BURST_RADIUS);
        assert_eq!(b.health, BURST_TTL);
        assert_eq!(b.color, Color::from_rgba(1_000, 1_000, 1_000, 300));
        assert!(b.vel.x >= BURST_SPEED_MIN && b.vel.x < 300_000);
        assert_eq!(b.vel.y, 0);
        assert_eq!(b.pos, Vec2::new(640_000, 480_000));
    }
}

#[test]
fn particle_decay_at_zero_dt() {
    let mut p = Particle::new(
        5_000,
        Color::from_rgba(1_000, 1_000, 1_000, 800),
        Vec2::new(10_000, 20_000),
        Vec2::new(1_000, -500),
        990,
        500,
    );
    assert!(p.update(0));
    assert_eq!(p.pos, Vec2::new(10_000, 20_000));
    assert_eq!(p.radius, 4_900);
    assert_eq!(p.color.a, 400);
    assert_eq!(p.vel, Vec2::new(990, -495));
}

#[test]
fn particle_alpha_cut_below_threshold() {
    let mut p = Particle::new(
        5_000,
        Color::from_rgba(1_000, 1_000, 1_000, 19),
        Vec2::new(0, 0),
        Vec2::new(0, 0),
        990,
        500,
    );
    assert!(!p.update(16));
    assert_eq!(p.color.a, 0);
}

#[test]
fn particle_expires_when_small() {
    let mut p = Particle::new(
        PARTICLE_RADIUS,
        Color::white(),
        Vec2::new(0, 0),
        Vec2::new(100_000, 0),
        990,
        1_000,
    );
    let mut frames = 0;
    while p.update(10) {
        frames += 1;
    }
    assert_eq!(frames, 49);
    assert_eq!(p.radius, 0);
    assert_eq!(p.color.a, 1_000);
}

#[test]
fn particle_burst() {
    let mut ps = Vec::new();
    let dirs = vec![Vec2::new(0, 1_000); 10];
    Particle::spawn_particles(&mut ps, &dirs, 500_000, Color::white(), Vec2::new(5, 6));
    assert_eq!(ps.len(), 10);
    for p in &ps {
        assert_eq!(p.radius, PARTICLE_RADIUS);
        assert_eq!(p.pos, Vec2::new(5, 6));
        assert!(p.vel.y >= 0 && p.vel.y < 500_000);
        assert_eq!(p.vel.x, 0);
    }
}

#[test]
fn player_radius_stops_at_zero() {
    let mut p = Player::new(Vec2::new(640_000, 480_000), 500);
    p.deal_damage(Vec2::new(0, 0), 10_000);
    assert_eq!(p.radius, 0);
    p.deal_damage(Vec2::new(0, 0), 10_000);
    assert_eq!(p.radius, 0);
}

#[test]
fn unit_directions() {
    assert!(is_unit_direction(Vec2::new(1_000, 0)));
    assert!(is_unit_direction(Vec2::new(-600, 800)));
    assert!(is_unit_direction(Vec2::new(707, -706)));
    assert!(!is_unit_direction(Vec2::new(0, 0)));
    assert!(!is_unit_direction(Vec2::new(1_000, 1_000)));
    assert!(!is_unit_direction(Vec2::new(1_001, 0)));
    assert!(!is_unit_direction(Vec2::new(700, 700)));
}

#[test]
fn particle_burst_at_rest() {
    let mut ps = Vec::new();
    let dirs = vec![Vec2::new(-600, 800); 4];
    Particle::spawn_particles(&mut ps, &dirs, 0, Color::white(), Vec2::new(1, 2));
    assert_eq!(ps.len(), 4);
    for p in &ps {
        assert_eq!(p.vel, Vec2::new(0, 0));
    }
}

#[test]
fn particle_speed_within_bound() {
    let mut ps = Vec::new();
    let dirs = vec![Vec2::new(707, 707); 40];
    Particle::spawn_particles(&mut ps, &dirs, 1_000_000, Color::white(), Vec2::new(0, 0));
    for p in &ps {
        let n = (p.vel.x as i128) * (p.vel.x as i128) + (p.vel.y as i128) * (p.vel.y as i128);
        assert!(n <= 1_000_000i128 * 1_000_000i128);
    }
}

#[test]
fn player_damage_and_drag() {
    let mut p = Player::new(Vec2::new(640_000, 480_000), 20_000);
    p.deal_damage(Vec2::new(0, 0), 10_000);
    assert_eq!(p.radius, 19_000);
    assert!(p.update(16));
    assert_eq!(p.pos, Vec2::new(640_000, 480_000));
    p.speed = 100_000;
    p.facing = Vec2::new(0, -1_000);
    assert!(p.update(1_000));
    assert_eq!(p.vel, Vec2::new(0, -100_000));
    assert_eq!(p.pos, Vec2::new(640_000, 380_000));
    assert_eq!(p.speed, 50_000);
    p.speed = -30_000;
    assert!(p.update(1_000));
    assert_eq!(p.speed, 0);
}

#[test]
fn super_bang_charge_math() {
    let mut s = SuperBang::new();
    s.bank(10);
    assert_eq!(s.banked, 40);
    s.press();
    for _ in 0..3 {
        s.tick();
    }
    assert_eq!(s.charged, 30);
    assert_eq!(s.banked, 37);
    assert_eq!(s.release(), 30);
    assert_eq!(s.charged, 0);
    assert!(!s.charging);
    assert_eq!(s.release(), 10);
}

#[test]
fn charge_needs_button_and_bank() {
    let mut s = SuperBang::new();
    s.bank(1);
    s.tick();
    assert_eq!(s.banked, 4);
    assert_eq!(s.charged, 0);
    s.press();
    for _ in 0..6 {
        s.tick();
    }
    assert_eq!(s.banked, 0);
    assert_eq!(s.charged, 40);
    s.bank(u32::MAX);
    assert_eq!(s.banked, u32::MAX);
}

#[test]
fn sound_choices() {
    assert_eq!(SoundType::Fire.variants(), Some((7, 10)));
    assert_eq!(SoundType::Load.variants(), None);
    assert_eq!(SoundType::Wave.family(), SoundFamily::Incoming);
    assert_eq!(SoundType::Explode.family(), SoundFamily::Laser);
    assert_eq!(SoundType::Load.family(), SoundFamily::Part);
    assert_eq!(SoundType::MultiFire.volume_db(), -8);
    assert_eq!(SoundType::Wave.volume_db(), 10);
    assert_eq!(variant_for_draw(3, 7, 10), 5);
    assert_eq!(variant_for_draw(0, 3, 255), 0);
    for _ in 0..50 {
        let v = random_variant(7, 10);
        assert!(v >= 7 && v < 10);
    }
}
