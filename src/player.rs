use vstd::prelude::*;

use crate::fixed::{
    advance, advance_pos, div_trunc, is_direction, mul_scaled, scale_dir, scaled, within, Color,
    Vec2, DT_MAX, POS_MAX, RADIUS_MAX, SCALE, VEL_MAX,
};
use crate::game_entity::{ColliderInfo, GameEntity, COL_ENEMY, COL_PLAYER};

verus! {

/// How much the player shrinks on each enemy hit.
pub const PLAYER_SHRINK: i64 = 1_000;

/// Speed lost per second to drag, in sub-units per second.
pub const PLAYER_DRAG: i64 = 50_000;

#[derive(Clone, Copy, Debug, PartialEq, Eq, Structural)]
pub struct Player {
    pub pos: Vec2,
    pub vel: Vec2,
    pub radius: i64,
    pub color: Color,
    pub layer: u8,
    pub mask: u8,
    /// The direction the player faces, as a unit vector scaled by `SCALE`.
    pub facing: Vec2,
    /// Signed thrust speed along `facing`, in sub-units per second.
    pub speed: i64,
    pub drag: i64,
}

/// A player whose state the simulation can compute on.
pub open spec fn player_ok(p: Player) -> bool {
    within(p.pos, POS_MAX as int) && within(p.vel, VEL_MAX as int) && 0 <= p.radius
        <= RADIUS_MAX && is_direction(p.facing) && -VEL_MAX <= p.speed <= VEL_MAX && 0 <= p.drag
        <= VEL_MAX
}

/// `|speed|` reduced by `loss`, not below zero, with the sign of `speed` kept.
pub open spec fn slowed(speed: int, loss: int) -> int {
    let m = if speed >= 0 {
        speed
    } else {
        -speed
    };
    let left = if m - loss > 0 {
        m - loss
    } else {
        0
    };
    if speed > 0 {
        left
    } else if speed < 0 {
        -left
    } else {
        0
    }
}

impl GameEntity for Player {
    open spec fn collider(&self) -> ColliderInfo {
        ColliderInfo { mask: self.mask, layer: self.layer, pos: self.pos, radius: self.radius }
    }

    open spec fn can_update(&self, dt: int) -> bool {
        player_ok(*self) && 0 <= dt <= DT_MAX
    }

    /// The velocity is the thrust speed along the facing; the position moves
    /// by it; then drag takes `drag * dt` off the speed's magnitude.
    open spec fn after_update(&self, dt: int) -> Player {
        let v = scaled(self.facing, self.speed as int);
        let vel = Vec2 { x: v.0 as i64, y: v.1 as i64 };
        let p = advance(self.pos, vel, dt);
        Player {
            vel,
            pos: Vec2 { x: p.0 as i64, y: p.1 as i64 },
            speed: slowed(self.speed as int, div_trunc(self.drag * dt, SCALE as int)) as i64,
            ..*self
        }
    }

    /// The player is never removed.
    open spec fn kept(&self, dt: int) -> bool {
        true
    }

    open spec fn can_take_damage(&self, other_vel: Vec2, other_mass: int) -> bool {
        true
    }

    /// A hit shrinks the player by `PLAYER_SHRINK`, never below zero; it
    /// takes no impulse.
    open spec fn after_damage(&self, other_vel: Vec2, other_mass: int) -> Player {
        Player {
            radius: if self.radius > PLAYER_SHRINK {
                (self.radius - PLAYER_SHRINK) as i64
            } else {
                0
            },
            ..*self
        }
    }

    fn update(&mut self, dt: i64) -> (r: bool) {
        let vel = Vec2 {
            x: scale_dir(self.facing.x, self.speed),
            y: scale_dir(self.facing.y, self.speed),
        };
        self.vel = vel;
        self.pos = advance_pos(self.pos, vel, dt);
        let loss = mul_scaled(self.drag, dt);
        let m = if self.speed >= 0 {
            self.speed
        } else {
            -self.speed
        };
        let left = if m - loss > 0 {
            m - loss
        } else {
            0
        };
        self.speed = if self.speed > 0 {
            left
        } else if self.speed < 0 {
            -left
        } else {
            0
        };
        true
    }

    fn collider_info(&self) -> (r: ColliderInfo) {
        ColliderInfo { mask: self.mask, layer: self.layer, pos: self.pos, radius: self.radius }
    }

    fn deal_damage(&mut self, _other_vel: Vec2, _other_mass: i64) {
        self.radius = if self.radius > PLAYER_SHRINK {
            self.radius - PLAYER_SHRINK
        } else {
            0
        };
    }
}

impl Player {
    /// The player that `new` builds.
    pub open spec fn new_spec(pos: Vec2, radius: i64) -> Player {
        Player {
            pos,
            vel: Vec2 { x: 0, y: 0 },
            radius,
            color: Color { r: 1000, g: 1000, b: 1000, a: 1000 },
            layer: COL_PLAYER,
            mask: COL_ENEMY,
            facing: Vec2 { x: 1000, y: 0 },
            speed: 0,
            drag: PLAYER_DRAG,
        }
    }

    /// A white player at rest at `pos`, facing along the x axis.
    pub fn new(pos: Vec2, radius: i64) -> (p: Player)
        ensures
            p == Player::new_spec(pos, radius),
            p == (Player {
                pos,
                vel: Vec2 { x: 0, y: 0 },
                radius,
                color: Color { r: 1000, g: 1000, b: 1000, a: 1000 },
                layer: COL_PLAYER,
                mask: COL_ENEMY,
                facing: Vec2 { x: 1000, y: 0 },
                speed: 0,
                drag: PLAYER_DRAG,
            }),
    {
        Player {
            pos,
            vel: Vec2 { x: 0, y: 0 },
            radius,
            color: Color::white(),
            layer: COL_PLAYER,
            mask: COL_ENEMY,
            facing: Vec2 { x: 1000, y: 0 },
            speed: 0,
            drag: PLAYER_DRAG,
        }
    }
}

} // verus!
