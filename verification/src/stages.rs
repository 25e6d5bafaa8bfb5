//! The four stages of the fight. Each one says where the boss goes next,
//! whether it fires, and when the stage is over.
//!
//! A stage never changes the boss or the ship: it hands back the new position
//! and the projectiles, and whoever drives the fight applies them. Every tick
//! a stage is asked for the position first, then for the shots, then whether
//! it is completed.

use vstd::prelude::*;
use crate::cadence::{
    boss_shot, down_volley, due, is_due, make_boss_shot, shoot_down, stamped, volley, ANGLE_DOWN,
};
use crate::clock::now_millis;
use crate::entities::{Boss, Ship, Shot};
use crate::geometry::{Rect, Vec2i};
use crate::motion::{
    bounce_dir, bounce_x, can_bounce, move_horizontally, tracked_x, Direction,
};
use crate::spread::{fan_angles, spread_angles};

verus! {

/// Pixels per tick at which the boss comes down while it appears.
pub const APPEAR_MOVE_SPEED: i32 = 8;

/// The height the boss has to pass for its appearance to be over.
pub const APPEAR_TARGET_HEIGHT: i32 = 50;

/// Pixels per tick at which the boss bounces in the first attack stage.
pub const SIMPLE_SHOOTING_STAGE_MOVE_SPEED: i32 = 12;

/// Milliseconds between two shots of the first attack stage.
pub const SIMPLE_SHOOTING_STAGE_SHOOTING_INTERVAL: u64 = 300;

/// Pixels per tick at which the boss bounces in the fan stage.
pub const SPREAD_SHOOTING_STAGE_MOVE_SPEED: i32 = 8;

/// Milliseconds between two fans.
pub const SPREAD_SHOOTING_STAGE_SHOOTING_INTERVAL: u64 = 500;

/// Degrees that a fan spans in all, half of them to either side of straight
/// down.
pub const SPREAD_SHOOTING_ANGLE_RANGE: u32 = 120;

/// Degrees between two neighbouring projectiles of a fan.
pub const SPREAD_SHOOTING_ANGLE_STEP: u32 = 20;

/// Pixels per tick at which the boss follows the ship in the last stage.
pub const TARGETED_STAGE_MOVE_SPEED: i32 = 15;

/// Milliseconds between two shots of the last stage.
pub const TARGETED_STAGE_SHOOTING_INTERVAL: u64 = 500;

/// The first attack stage ends once less than this many tenths of the boss's
/// health are left.
pub const STAGE_1_FINISH_HP_TENTHS: u32 = 7;

/// The fan stage ends once less than this many tenths of the boss's health
/// are left.
pub const STAGE_2_FINISH_HP_TENTHS: u32 = 4;

/// The entry of the boss: it comes straight down until it has passed the
/// target height, and does not fire.
#[derive(Clone, Copy, Debug, PartialEq, Eq, Structural)]
pub struct AppearStage;

impl AppearStage {
    /// The stage is over for a boss at this position: it is strictly below
    /// the target height.
    pub open spec fn is_completed(boss: Boss) -> bool {
        boss.shape.pos.y > APPEAR_TARGET_HEIGHT
    }

    /// The position the stage moves the boss to: one move down, unless the
    /// stage is over, which leaves the boss where it is.
    pub open spec fn next_pos(boss: Boss) -> Vec2i {
        if Self::is_completed(boss) {
            boss.shape.pos
        } else {
            Vec2i { x: boss.shape.pos.x, y: (boss.shape.pos.y + APPEAR_MOVE_SPEED) as i32 }
        }
    }

    /// The new position of the boss.
    pub fn calc_new_pos(&mut self, boss: &Boss, ship: &Ship, screen: &Rect) -> (pos: Vec2i)
        ensures
            pos == Self::next_pos(*boss),
            pos.x == boss.shape.pos.x,
            pos.y == if Self::is_completed(*boss) {
                boss.shape.pos.y as int
            } else {
                boss.shape.pos.y + APPEAR_MOVE_SPEED
            },
    {
        let mut new_pos = boss.pos();
        if !self.completed(boss) {
            new_pos.y = new_pos.y + APPEAR_MOVE_SPEED;
        }

        new_pos
    }

    /// The boss does not fire while it appears, whatever the time.
    pub fn shoot_at(&mut self, boss: &Boss, ship: &Ship, now: u64) -> (shots: Option<Vec<Shot>>)
        ensures
            shots is None,
    {
        None
    }

    /// The boss does not fire while it appears.
    pub fn shoot(&mut self, boss: &Boss, ship: &Ship) -> (shots: Option<Vec<Shot>>)
        ensures
            shots is None,
    {
        None
    }

    /// Whether the stage is over.
    pub fn completed(&self, boss: &Boss) -> (done: bool)
        ensures
            done == Self::is_completed(*boss),
    {
        boss.pos().y > APPEAR_TARGET_HEIGHT
    }
}

/// The first attack stage: the boss bounces between the screen's edges and
/// fires straight down at a fast cadence, until its health has dropped below
/// seven tenths.
#[derive(Clone, Copy, Debug, PartialEq, Eq, Structural)]
pub struct SimpleShootingDown {
    /// The way the boss is travelling.
    pub direction: Direction,
    /// When the stage last fired, or when it began if it has not fired yet.
    pub shoot_time: u64,
}

impl SimpleShootingDown {
    /// The stage as it begins at `now`: travelling right, with the first shot
    /// due one interval later.
    pub fn starting_at(now: u64) -> (stage: Self)
        ensures
            stage == (SimpleShootingDown { direction: Direction::Right, shoot_time: now }),
    {
        SimpleShootingDown { direction: Direction::Right, shoot_time: now }
    }

    /// The stage as it begins now, by the wall clock.
    pub fn new() -> (stage: Self)
        ensures
            stage.direction == Direction::Right,
    {
        Self::starting_at(now_millis())
    }

    /// The new position of the boss after one bounce step, which may turn the
    /// stage's direction round.
    pub fn calc_new_pos(&mut self, boss: &Boss, ship: &Ship, screen: &Rect) -> (pos: Vec2i)
        requires
            can_bounce(
                old(self).direction,
                boss.shape,
                SIMPLE_SHOOTING_STAGE_MOVE_SPEED as int,
                *screen,
            ),
        ensures
            pos.x == bounce_x(
                old(self).direction,
                boss.shape,
                SIMPLE_SHOOTING_STAGE_MOVE_SPEED as int,
                *screen,
            ),
            pos.y == boss.shape.pos.y,
            final(self).direction == bounce_dir(
                old(self).direction,
                boss.shape,
                SIMPLE_SHOOTING_STAGE_MOVE_SPEED as int,
                *screen,
            ),
            final(self).shoot_time == old(self).shoot_time,
    {
        move_horizontally(&mut self.direction, boss, SIMPLE_SHOOTING_STAGE_MOVE_SPEED, screen)
    }

    /// One poll at `now`: one projectile straight down if the stage's
    /// interval has passed since the last shot, which then counts from `now`.
    pub fn shoot_at(&mut self, boss: &Boss, ship: &Ship, now: u64) -> (shots: Option<Vec<Shot>>)
        requires
            boss.shape.has_center(),
        ensures
            final(self).direction == old(self).direction,
            final(self).shoot_time == stamped(
                old(self).shoot_time,
                SIMPLE_SHOOTING_STAGE_SHOOTING_INTERVAL,
                now,
            ),
            volley(shots) == down_volley(
                old(self).shoot_time,
                *boss,
                SIMPLE_SHOOTING_STAGE_SHOOTING_INTERVAL,
                now,
            ),
    {
        shoot_down(&mut self.shoot_time, boss, SIMPLE_SHOOTING_STAGE_SHOOTING_INTERVAL, now)
    }

    /// One poll at the time the wall clock shows: `shoot_at` for some `now`.
    pub fn shoot(&mut self, boss: &Boss, ship: &Ship) -> (shots: Option<Vec<Shot>>)
        requires
            boss.shape.has_center(),
        ensures
            final(self).direction == old(self).direction,
            exists|now: u64|
                {
                    &&& final(self).shoot_time == #[trigger] stamped(
                        old(self).shoot_time,
                        SIMPLE_SHOOTING_STAGE_SHOOTING_INTERVAL,
                        now,
                    )
                    &&& volley(shots) == down_volley(
                        old(self).shoot_time,
                        *boss,
                        SIMPLE_SHOOTING_STAGE_SHOOTING_INTERVAL,
                        now,
                    )
                },
    {
        let now: u64 = now_millis();
        self.shoot_at(boss, ship, now)
    }

    /// Whether the stage is over: less than seven tenths of the boss's health
    /// are left.
    pub fn completed(&self, boss: &Boss) -> (done: bool)
        ensures
            done == boss.hp_below(STAGE_1_FINISH_HP_TENTHS as int),
    {
        boss.hp_is_below(STAGE_1_FINISH_HP_TENTHS)
    }
}

/// The projectiles of one fan: for each angle of the fan, in rising order,
/// the projectile the boss fires at that angle.
pub open spec fn fan_volley(boss: Boss, center: i32, range: u32, step: u32) -> Seq<Shot> {
    fan_angles(center, range, step).map_values(|angle: i32| boss_shot(boss, angle))
}

/// What a poll at `now` of the fan stage hands back: the stage's fan if a shot
/// is due, else nothing.
pub open spec fn spread_volley(shoot_time: u64, boss: Boss, now: u64) -> Option<Seq<Shot>> {
    if is_due(shoot_time, SPREAD_SHOOTING_STAGE_SHOOTING_INTERVAL, now) {
        Some(
            fan_volley(
                boss,
                ANGLE_DOWN,
                SPREAD_SHOOTING_ANGLE_RANGE,
                SPREAD_SHOOTING_ANGLE_STEP,
            ),
        )
    } else {
        None
    }
}

/// The fan of the fan stage has seven projectiles, 20 degrees apart, from 60
/// degrees to one side of straight down to 60 degrees to the other.
pub proof fn lemma_stage_fan_angles()
    ensures
        fan_angles(ANGLE_DOWN, SPREAD_SHOOTING_ANGLE_RANGE, SPREAD_SHOOTING_ANGLE_STEP) == seq![
            120i32,
            140i32,
            160i32,
            180i32,
            200i32,
            220i32,
            240i32,
        ],
{
    assert(fan_angles(ANGLE_DOWN, SPREAD_SHOOTING_ANGLE_RANGE, SPREAD_SHOOTING_ANGLE_STEP) =~= seq![
        120i32,
        140i32,
        160i32,
        180i32,
        200i32,
        220i32,
        240i32,
    ]);
}

/// The fan stage: the boss bounces between the screen's edges, more slowly
/// than before, and fires a fan of projectiles at a slower cadence, until its
/// health has dropped below four tenths.
#[derive(Clone, Copy, Debug, PartialEq, Eq, Structural)]
pub struct SpreadShooting {
    /// The way the boss is travelling.
    pub direction: Direction,
    /// When the stage last fired, or when it began if it has not fired yet.
    pub shoot_time: u64,
}

impl SpreadShooting {
    /// The stage as it begins at `now`: travelling right, with the first fan
    /// due one interval later.
    pub fn starting_at(now: u64) -> (stage: Self)
        ensures
            stage == (SpreadShooting { direction: Direction::Right, shoot_time: now }),
    {
        SpreadShooting { direction: Direction::Right, shoot_time: now }
    }

    /// The stage as it begins now, by the wall clock.
    pub fn new() -> (stage: Self)
        ensures
            stage.direction == Direction::Right,
    {
        Self::starting_at(now_millis())
    }

    /// The new position of the boss after one bounce step, which may turn the
    /// stage's direction round.
    pub fn calc_new_pos(&mut self, boss: &Boss, ship: &Ship, screen: &Rect) -> (pos: Vec2i)
        requires
            can_bounce(
                old(self).direction,
                boss.shape,
                SPREAD_SHOOTING_STAGE_MOVE_SPEED as int,
                *screen,
            ),
        ensures
            pos.x == bounce_x(
                old(self).direction,
                boss.shape,
                SPREAD_SHOOTING_STAGE_MOVE_SPEED as int,
                *screen,
            ),
            pos.y == boss.shape.pos.y,
            final(self).direction == bounce_dir(
                old(self).direction,
                boss.shape,
                SPREAD_SHOOTING_STAGE_MOVE_SPEED as int,
                *screen,
            ),
            final(self).shoot_time == old(self).shoot_time,
    {
        move_horizontally(&mut self.direction, boss, SPREAD_SHOOTING_STAGE_MOVE_SPEED, screen)
    }

    /// One poll at `now`: the whole fan at once if the stage's interval has
    /// passed since the last one, which then counts from `now`.
    pub fn shoot_at(&mut self, boss: &Boss, ship: &Ship, now: u64) -> (shots: Option<Vec<Shot>>)
        requires
            boss.shape.has_center(),
        ensures
            final(self).direction == old(self).direction,
            final(self).shoot_time == stamped(
                old(self).shoot_time,
                SPREAD_SHOOTING_STAGE_SHOOTING_INTERVAL,
                now,
            ),
            volley(shots) == spread_volley(old(self).shoot_time, *boss, now),
    {
        if !due(self.shoot_time, SPREAD_SHOOTING_STAGE_SHOOTING_INTERVAL, now) {
            return None;
        }
        self.shoot_time = now;

        let angles = spread_angles(
            ANGLE_DOWN,
            SPREAD_SHOOTING_ANGLE_RANGE,
            SPREAD_SHOOTING_ANGLE_STEP,
        );
        let mut shots: Vec<Shot> = Vec::new();
        let mut i: usize = 0;
        while i < angles.len()
            invariant
                boss.shape.has_center(),
                i <= angles.len(),
                shots@.len() == i,
                forall|k: int|
                    0 <= k < i ==> #[trigger] shots@[k] == boss_shot(*boss, angles@[k]),
            decreases angles.len() - i,
        {
            let shot = make_boss_shot(boss, angles[i]);
            shots.push(shot);
            i = i + 1;
        }
        assert(shots@ =~= fan_volley(
            *boss,
            ANGLE_DOWN,
            SPREAD_SHOOTING_ANGLE_RANGE,
            SPREAD_SHOOTING_ANGLE_STEP,
        ));

        Some(shots)
    }

    /// One poll at the time the wall clock shows: `shoot_at` for some `now`.
    pub fn shoot(&mut self, boss: &Boss, ship: &Ship) -> (shots: Option<Vec<Shot>>)
        requires
            boss.shape.has_center(),
        ensures
            final(self).direction == old(self).direction,
            exists|now: u64|
                {
                    &&& final(self).shoot_time == #[trigger] stamped(
                        old(self).shoot_time,
                        SPREAD_SHOOTING_STAGE_SHOOTING_INTERVAL,
                        now,
                    )
                    &&& volley(shots) == spread_volley(old(self).shoot_time, *boss, now)
                },
    {
        let now: u64 = now_millis();
        self.shoot_at(boss, ship, now)
    }

    /// Whether the stage is over: less than four tenths of the boss's health
    /// are left.
    pub fn completed(&self, boss: &Boss) -> (done: bool)
        ensures
            done == boss.hp_below(STAGE_2_FINISH_HP_TENTHS as int),
    {
        boss.hp_is_below(STAGE_2_FINISH_HP_TENTHS)
    }
}

/// The last stage: the boss follows the ship, kept between the screen's left
/// and right edges, and fires straight down. It is never completed.
#[derive(Clone, Copy, Debug, PartialEq, Eq, Structural)]
pub struct Targeted {
    /// When the stage last fired, or when it began if it has not fired yet.
    pub shoot_time: u64,
}

impl Targeted {
    /// The stage as it begins at `now`, with the first shot due one interval
    /// later.
    pub fn starting_at(now: u64) -> (stage: Self)
        ensures
            stage == (Targeted { shoot_time: now }),
    {
        Targeted { shoot_time: now }
    }

    /// The stage as it begins now, by the wall clock.
    pub fn new() -> (stage: Self) {
        Self::starting_at(now_millis())
    }

    /// The new position of the boss after one step of following the ship.
    ///
    /// If the centres of boss and ship are less than one move apart
    /// horizontally, the boss is centred over the ship; otherwise it makes one
    /// move towards the ship. Then its left edge is brought back between the
    /// left and right edges of `screen`. The height does not change.
    pub fn calc_new_pos(&mut self, boss: &Boss, ship: &Ship, screen: &Rect) -> (pos: Vec2i)
        requires
            screen.top_left.x <= screen.bottom_right.x,
        ensures
            pos.x == tracked_x(*boss, *ship, TARGETED_STAGE_MOVE_SPEED as int, *screen),
            screen.top_left.x <= pos.x <= screen.bottom_right.x,
            pos.y == boss.shape.pos.y,
            *final(self) == *old(self),
    {
        let half_width: i64 = (boss.width() / 2) as i64;
        let boss_center_x: i64 = boss.shape.pos.x as i64 + half_width;
        let ship_center_x: i64 = ship.shape.pos.x as i64 + (ship.shape.width / 2) as i64;
        let diff_x: i64 = boss_center_x - ship_center_x;
        let speed: i64 = TARGETED_STAGE_MOVE_SPEED as i64;

        let mut x: i64 = boss.shape.pos.x as i64;
        if -speed < diff_x && diff_x < speed {
            x = ship_center_x - half_width;
        } else if diff_x > 0 {
            x = x - speed;
        } else {
            x = x + speed;
        }

        let left: i64 = screen.top_left.x as i64;
        let right: i64 = screen.bottom_right.x as i64;
        if x < left {
            x = left;
        } else if x > right {
            x = right;
        }

        Vec2i { x: x as i32, y: boss.shape.pos.y }
    }

    /// One poll at `now`: one projectile straight down if the stage's
    /// interval has passed since the last shot, which then counts from `now`.
    pub fn shoot_at(&mut self, boss: &Boss, ship: &Ship, now: u64) -> (shots: Option<Vec<Shot>>)
        requires
            boss.shape.has_center(),
        ensures
            final(self).shoot_time == stamped(
                old(self).shoot_time,
                TARGETED_STAGE_SHOOTING_INTERVAL,
                now,
            ),
            volley(shots) == down_volley(
                old(self).shoot_time,
                *boss,
                TARGETED_STAGE_SHOOTING_INTERVAL,
                now,
            ),
    {
        shoot_down(&mut self.shoot_time, boss, TARGETED_STAGE_SHOOTING_INTERVAL, now)
    }

    /// One poll at the time the wall clock shows: `shoot_at` for some `now`.
    pub fn shoot(&mut self, boss: &Boss, ship: &Ship) -> (shots: Option<Vec<Shot>>)
        requires
            boss.shape.has_center(),
        ensures
            exists|now: u64|
                {
                    &&& final(self).shoot_time == #[trigger] stamped(
                        old(self).shoot_time,
                        TARGETED_STAGE_SHOOTING_INTERVAL,
                        now,
                    )
                    &&& volley(shots) == down_volley(
                        old(self).shoot_time,
                        *boss,
                        TARGETED_STAGE_SHOOTING_INTERVAL,
                        now,
                    )
                },
    {
        let now: u64 = now_millis();
        self.shoot_at(boss, ship, now)
    }

    /// The last stage is never over.
    pub fn completed(&self, boss: &Boss) -> (done: bool)
        ensures
            !done,
    {
        false
    }
}

} // verus!
