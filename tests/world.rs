use color_bang::bullet::{Bullet, BULLET_RADIUS, BULLET_SPEED};
use color_bang::charge::SuperBang;
use color_bang::enemy::Enemy;
use color_bang::fixed::{Color, Vec2};
use color_bang::game_entity::{COL_BULLET, COL_ENEMY, COL_PLAYER, WIDTH};
use color_bang::player::Player;
use color_bang::world::{
    World, BULLET_HIT_PARTICLES, HIT_PARTICLE_SPEED, PLAYER_HIT_PARTICLES, START_RADIUS,
};

fn still_enemy(x: i64, y: i64, radius: i64) -> Enemy {
    Enemy {
        pos: Vec2::new(x, y),
        vel: Vec2::new(0, 0),
        radius,
        color: Color::from_rgba(900, 100, 100, 1_000),
        layer: COL_ENEMY,
        mask: COL_PLAYER | COL_BULLET | COL_ENEMY,
    }
}

fn world_with(player: Player, enemies: Vec<Enemy>) -> World {
    World {
        player,
        enemies,
        bullets: Vec::new(),
        particles: Vec::new(),
        level: 1,
        weapon: SuperBang::new(),
    }
}

#[test]
fn new_world_state() {
    let w = World::new();
    assert_eq!(w.player.pos, Vec2::new(WIDTH / 2, 480_000));
    assert_eq!(w.player.radius, START_RADIUS);
    assert_eq!(w.level, 1);
    assert!(w.wave_cleared());
    assert!(w.enemies.is_empty() && w.bullets.is_empty() && w.particles.is_empty());
}

#[test]
fn start_wave_spawns_banks_and_levels() {
    let mut w = World::new();
    w.start_wave(&vec![Vec2::new(1_000, 0)]);
    assert_eq!(w.enemies.len(), 1);
    assert_eq!(w.level, 2);
    assert_eq!(w.weapon.banked, 4);
    assert!(!w.wave_cleared());
    w.enemies.clear();
    w.start_wave(&vec![Vec2::new(0, 1_000), Vec2::new(0, -1_000)]);
    assert_eq!(w.enemies.len(), 2);
    assert_eq!(w.level, 3);
    assert_eq!(w.weapon.banked, 12);
}

#[test]
fn bullet_strikes_enemy_end_to_end() {
    // player and enemy 300 units apart on one line; the bullet flies at 200
    let player = Player::new(Vec2::new(100_000, 480_000), 20_000);
    let mut w = world_with(player, vec![still_enemy(400_000, 480_000, 10_000)]);
    w.fire(Vec2::new(BULLET_SPEED, 0));
    assert_eq!(w.bullets.len(), 1);
    assert_eq!(w.bullets[0].radius, BULLET_RADIUS);
    let mut frames = 0;
    let mut hit = Vec::new();
    while frames < 200 {
        frames += 1;
        let bursts = w.step(25);
        if !bursts.is_empty() {
            hit = bursts;
            break;
        }
    }
    // 300 - (10 + 5) units to close at 5 units per frame: seen on frame 58
    assert_eq!(frames, 58);
    assert_eq!(hit.len(), 1);
    assert_eq!(hit[0].count, BULLET_HIT_PARTICLES);
    assert_eq!(hit[0].speed, HIT_PARTICLE_SPEED);
    assert_eq!(hit[0].pos, Vec2::new(400_000, 480_000));
    assert_eq!(hit[0].color, Color::from_rgba(900, 100, 100, 1_000));
    assert_eq!(w.enemies.len(), 1);
    assert_eq!(w.enemies[0].radius, 5_000);
    assert!(w.bullets.is_empty());
    let dirs = vec![Vec2::new(600, 800); hit[0].count as usize];
    w.spawn_burst(hit[0], &dirs);
    assert_eq!(w.particles.len(), 80);
    assert_eq!(w.particles[0].pos, Vec2::new(400_000, 480_000));
    w.advance_particles(25);
    assert_eq!(w.particles.len(), 80);
    assert_eq!(w.particles[0].radius, 4_900);
}

#[test]
fn player_hits_stop_at_zero() {
    let player = Player::new(Vec2::new(500_000, 500_000), 1_500);
    let enemies = vec![still_enemy(505_000, 500_000, 12_000), still_enemy(495_000, 500_000, 12_000)];
    let mut w = world_with(player, enemies);
    let bursts = w.step(16);
    assert_eq!(bursts.len(), 2);
    assert_eq!(w.player.radius, 0);
}

#[test]
fn enemy_strikes_player() {
    let player = Player::new(Vec2::new(500_000, 500_000), 20_000);
    let mut w = world_with(player, vec![still_enemy(520_000, 500_000, 12_000)]);
    let bursts = w.step(16);
    assert_eq!(bursts.len(), 1);
    assert_eq!(bursts[0].count, PLAYER_HIT_PARTICLES);
    assert_eq!(bursts[0].color, Color::white());
    assert_eq!(w.player.radius, 19_000);
    assert_eq!(w.enemies.len(), 1);
    assert_eq!(w.enemies[0].radius, 7_000);
}

#[test]
fn bullet_scores_only_first_enemy() {
    let player = Player::new(Vec2::new(100_000, 100_000), 20_000);
    let enemies = vec![still_enemy(600_000, 500_000, 10_000), still_enemy(605_000, 500_000, 10_000)];
    let mut w = world_with(player, enemies);
    w.bullets.push(Bullet::new(Vec2::new(602_000, 500_000), Vec2::new(0, 0), 5_000));
    let bursts = w.step(16);
    assert_eq!(bursts.len(), 1);
    assert_eq!(w.enemies.len(), 2);
    assert_eq!(w.enemies[0].radius, 5_000);
    assert_eq!(w.enemies[1].radius, 10_000);
    assert!(w.bullets.is_empty());
}

#[test]
fn small_enemy_is_removed_after_hit() {
    let player = Player::new(Vec2::new(100_000, 100_000), 20_000);
    let mut w = world_with(player, vec![still_enemy(600_000, 500_000, 8_000)]);
    w.bullets.push(Bullet::new(Vec2::new(600_000, 500_000), Vec2::new(0, 0), 5_000));
    let bursts = w.step(16);
    assert_eq!(bursts.len(), 1);
    assert!(w.enemies.is_empty());
    assert!(w.wave_cleared());
}

#[test]
fn bullets_leaving_the_field_are_dropped() {
    let player = Player::new(Vec2::new(100_000, 100_000), 20_000);
    let mut w = world_with(player, Vec::new());
    w.bullets.push(Bullet::new(Vec2::new(WIDTH - 1_000, 300_000), Vec2::new(200_000, 0), 5_000));
    w.bullets.push(Bullet::new(Vec2::new(500_000, 300_000), Vec2::new(200_000, 0), 5_000));
    w.step(16);
    assert_eq!(w.bullets.len(), 1);
    assert_eq!(w.bullets[0].pos, Vec2::new(503_200, 300_000));
    assert_eq!(w.bullets[0].health, 599);
}

#[test]
fn charge_and_release_burst() {
    let mut w = World::new();
    w.weapon.banked = 40;
    w.press_charge();
    for _ in 0..3 {
        w.step(16);
    }
    assert_eq!(w.weapon.charged, 30);
    assert_eq!(w.weapon.banked, 37);
    let n = w.weapon.pending_burst();
    assert_eq!(n, 30);
    let dirs = vec![Vec2::new(0, 1_000); n as usize];
    w.release_super_bang(&dirs);
    assert_eq!(w.bullets.len(), 30);
    assert_eq!(w.weapon.charged, 0);
    assert!(!w.weapon.charging);
    let n = w.weapon.pending_burst();
    assert_eq!(n, 10);
    w.release_super_bang(&vec![Vec2::new(1_000, 0); n as usize]);
    assert_eq!(w.bullets.len(), 40);
}
