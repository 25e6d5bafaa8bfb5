//! The boss, the player's ship and the projectiles, as far as the stages
//! read or produce them.

use vstd::prelude::*;
use crate::geometry::{Shape, Vec2i};

verus! {

/// Travel speed of every projectile, in pixels per tick.
pub const SHOT_SPEED: i32 = 10;

/// Side of a projectile's square hitbox, in pixels.
pub const SHOT_WIDTH: u32 = 6;

/// The boss as the stages see it: its hitbox and its health.
///
/// Health is kept as two counts. The fraction of health left is
/// `health / max_health`, and is compared with thresholds exactly, without
/// rounding.
#[derive(Clone, Copy, Debug, PartialEq, Eq, Structural)]
pub struct Boss {
    pub shape: Shape,
    pub health: u32,
    pub max_health: u32,
}

impl Boss {
    /// The centre of the hitbox is a point and the health is a fraction
    /// between zero and one.
    pub open spec fn wf(self) -> bool {
        &&& self.shape.has_center()
        &&& 0 < self.max_health
        &&& self.health <= self.max_health
    }

    /// The fraction of health left is strictly below `tenths / 10`.
    pub open spec fn hp_below(self, tenths: int) -> bool {
        self.health * 10 < tenths * self.max_health
    }

    /// The same boss with the top-left corner of its hitbox at `pos`.
    pub open spec fn placed_at(self, pos: Vec2i) -> Boss {
        Boss {
            shape: Shape { pos, width: self.shape.width, height: self.shape.height },
            health: self.health,
            max_health: self.max_health,
        }
    }

    /// The same boss with the top-left corner of its hitbox at `pos`.
    pub fn moved_to(&self, pos: Vec2i) -> (boss: Boss)
        ensures
            boss == self.placed_at(pos),
    {
        Boss {
            shape: Shape { pos, width: self.shape.width, height: self.shape.height },
            health: self.health,
            max_health: self.max_health,
        }
    }

    /// Tests `wf` at run time.
    pub fn is_well_formed(&self) -> (ok: bool)
        ensures
            ok == self.wf(),
    {
        self.shape.center_in_range() && 0 < self.max_health && self.health <= self.max_health
    }

    /// The top-left corner of the hitbox.
    pub fn pos(&self) -> (p: Vec2i)
        ensures
            p == self.shape.pos,
    {
        self.shape.pos
    }

    /// The width of the hitbox.
    pub fn width(&self) -> (w: u32)
        ensures
            w == self.shape.width,
    {
        self.shape.width
    }

    /// The centre of the hitbox.
    pub fn center(&self) -> (c: Vec2i)
        requires
            self.shape.has_center(),
        ensures
            c == self.shape.center_point(),
            c.x == self.shape.center_x(),
            c.y == self.shape.center_y(),
    {
        self.shape.center()
    }

    /// Whether the fraction of health left is strictly below `tenths / 10`.
    pub fn hp_is_below(&self, tenths: u32) -> (below: bool)
        ensures
            below == self.hp_below(tenths as int),
    {
        let t: u64 = tenths as u64;
        let m: u64 = self.max_health as u64;
        assert(t * m <= 0xffff_ffff * 0xffff_ffff) by (nonlinear_arith)
            requires
                0 <= t <= 0xffff_ffff,
                0 <= m <= 0xffff_ffff,
        ;
        (self.health as u64) * 10 < t * m
    }
}

/// Health that is below a threshold stays below it as it goes down further:
/// if the fraction of health left in `after` is no larger than in `before`,
/// and `before` is below `tenths / 10`, then so is `after`.
pub proof fn lemma_hp_below_is_kept(before: Boss, after: Boss, tenths: int)
    requires
        0 < before.max_health,
        0 < after.max_health,
        after.health * before.max_health <= before.health * after.max_health,
        before.hp_below(tenths),
    ensures
        after.hp_below(tenths),
{
    let h1: int = before.health as int;
    let m1: int = before.max_health as int;
    let h2: int = after.health as int;
    let m2: int = after.max_health as int;
    assert(h2 * 10 < tenths * m2) by (nonlinear_arith)
        requires
            0 < m1,
            0 < m2,
            0 <= h1,
            0 <= h2,
            h2 * m1 <= h1 * m2,
            h1 * 10 < tenths * m1,
    ;
}

/// The player's ship as the stages see it: its hitbox.
#[derive(Clone, Copy, Debug, PartialEq, Eq, Structural)]
pub struct Ship {
    pub shape: Shape,
}

impl Ship {
    /// The top-left corner of the hitbox.
    pub fn pos(&self) -> (p: Vec2i)
        ensures
            p == self.shape.pos,
    {
        self.shape.pos
    }

    /// The centre of the hitbox.
    pub fn center(&self) -> (c: Vec2i)
        requires
            self.shape.has_center(),
        ensures
            c == self.shape.center_point(),
            c.x == self.shape.center_x(),
            c.y == self.shape.center_y(),
    {
        self.shape.center()
    }
}

/// A projectile at the moment it is spawned. `angle` is in degrees.
#[derive(Clone, Copy, Debug, PartialEq, Eq, Structural)]
pub struct Shot {
    pub shape: Shape,
    pub speed: i32,
    pub angle: i32,
    pub damage: i32,
}

impl Shot {
    /// A projectile with the given hitbox, speed, travel angle and damage.
    pub fn new(shape: Shape, speed: i32, angle: i32, damage: i32) -> (shot: Shot)
        ensures
            shot == (Shot { shape, speed, angle, damage }),
    {
        Shot { shape, speed, angle, damage }
    }
}

} // verus!
