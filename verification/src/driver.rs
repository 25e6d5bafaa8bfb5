//! The fight as a whole: the stage the boss is in, and the tick that moves
//! the boss, lets it fire and goes on to the next stage once the current one
//! is completed.
//!
//! The stages follow one another in a fixed order: the appearance, the first
//! attack stage, the fan stage, the last stage. None is skipped and none comes
//! back.

use vstd::prelude::*;
use crate::cadence::{down_volley, stamped, volley};
use crate::clock::now_millis;
use crate::entities::{Boss, Ship, Shot};
use crate::geometry::{Rect, Vec2i};
use crate::motion::{
    bounce_dir, bounce_x, can_bounce, is_able_to_bounce, tracked_x, Direction,
};
use crate::stages::{
    spread_volley, AppearStage, SimpleShootingDown, SpreadShooting, Targeted,
    SIMPLE_SHOOTING_STAGE_MOVE_SPEED, SIMPLE_SHOOTING_STAGE_SHOOTING_INTERVAL,
    SPREAD_SHOOTING_STAGE_MOVE_SPEED, SPREAD_SHOOTING_STAGE_SHOOTING_INTERVAL,
    TARGETED_STAGE_MOVE_SPEED, TARGETED_STAGE_SHOOTING_INTERVAL, STAGE_1_FINISH_HP_TENTHS,
    STAGE_2_FINISH_HP_TENTHS,
};

verus! {

/// The stage the boss is in, with that stage's own state.
#[derive(Clone, Copy, Debug, PartialEq, Eq, Structural)]
pub enum Stage {
    Appear(AppearStage),
    SimpleShootingDown(SimpleShootingDown),
    SpreadShooting(SpreadShooting),
    Targeted(Targeted),
}

/// What one tick asks of the rest of the game.
#[derive(Debug, PartialEq, Eq)]
pub struct Tick {
    /// Where the boss is to be put.
    pub pos: Vec2i,
    /// The projectiles to be spawned, if the boss fired.
    pub shots: Option<Vec<Shot>>,
    /// Whether the stage was completed with this tick and the next one has
    /// begun.
    pub completed: bool,
}

impl Stage {
    /// The place of the stage in the order of the fight, from 0 for the
    /// appearance to 3 for the last stage.
    pub open spec fn rank(self) -> nat {
        match self {
            Stage::Appear(_) => 0,
            Stage::SimpleShootingDown(_) => 1,
            Stage::SpreadShooting(_) => 2,
            Stage::Targeted(_) => 3,
        }
    }

    /// The stage can compute a move for this boss on this screen: where the
    /// stage bounces, the place the step leads to is a coordinate; where it
    /// keeps the boss between the screen's left and right edges, the left
    /// edge is not right of the right one.
    pub open spec fn can_move(self, boss: Boss, screen: Rect) -> bool {
        match self {
            Stage::Appear(_) => true,
            Stage::SimpleShootingDown(s) => can_bounce(
                s.direction,
                boss.shape,
                SIMPLE_SHOOTING_STAGE_MOVE_SPEED as int,
                screen,
            ),
            Stage::SpreadShooting(s) => can_bounce(
                s.direction,
                boss.shape,
                SPREAD_SHOOTING_STAGE_MOVE_SPEED as int,
                screen,
            ),
            Stage::Targeted(_) => screen.top_left.x <= screen.bottom_right.x,
        }
    }

    /// Where the stage puts the boss.
    pub open spec fn pos_after(self, boss: Boss, ship: Ship, screen: Rect) -> Vec2i {
        match self {
            Stage::Appear(_) => AppearStage::next_pos(boss),
            Stage::SimpleShootingDown(s) => Vec2i {
                x: bounce_x(
                    s.direction,
                    boss.shape,
                    SIMPLE_SHOOTING_STAGE_MOVE_SPEED as int,
                    screen,
                ) as i32,
                y: boss.shape.pos.y,
            },
            Stage::SpreadShooting(s) => Vec2i {
                x: bounce_x(
                    s.direction,
                    boss.shape,
                    SPREAD_SHOOTING_STAGE_MOVE_SPEED as int,
                    screen,
                ) as i32,
                y: boss.shape.pos.y,
            },
            Stage::Targeted(_) => Vec2i {
                x: tracked_x(boss, ship, TARGETED_STAGE_MOVE_SPEED as int, screen) as i32,
                y: boss.shape.pos.y,
            },
        }
    }

    /// The stage after it has computed a move: a bouncing stage may have
    /// turned round.
    pub open spec fn moved(self, boss: Boss, screen: Rect) -> Stage {
        match self {
            Stage::Appear(_) => self,
            Stage::SimpleShootingDown(s) => Stage::SimpleShootingDown(
                SimpleShootingDown {
                    direction: bounce_dir(
                        s.direction,
                        boss.shape,
                        SIMPLE_SHOOTING_STAGE_MOVE_SPEED as int,
                        screen,
                    ),
                    shoot_time: s.shoot_time,
                },
            ),
            Stage::SpreadShooting(s) => Stage::SpreadShooting(
                SpreadShooting {
                    direction: bounce_dir(
                        s.direction,
                        boss.shape,
                        SPREAD_SHOOTING_STAGE_MOVE_SPEED as int,
                        screen,
                    ),
                    shoot_time: s.shoot_time,
                },
            ),
            Stage::Targeted(_) => self,
        }
    }

    /// What the stage fires when polled at `now`.
    pub open spec fn shots_at(self, boss: Boss, now: u64) -> Option<Seq<Shot>> {
        match self {
            Stage::Appear(_) => None,
            Stage::SimpleShootingDown(s) => down_volley(
                s.shoot_time,
                boss,
                SIMPLE_SHOOTING_STAGE_SHOOTING_INTERVAL,
                now,
            ),
            Stage::SpreadShooting(s) => spread_volley(s.shoot_time, boss, now),
            Stage::Targeted(s) => down_volley(
                s.shoot_time,
                boss,
                TARGETED_STAGE_SHOOTING_INTERVAL,
                now,
            ),
        }
    }

    /// The stage after it has been polled at `now`: if it fired, it counts
    /// its interval from `now`.
    pub open spec fn polled(self, now: u64) -> Stage {
        match self {
            Stage::Appear(_) => self,
            Stage::SimpleShootingDown(s) => Stage::SimpleShootingDown(
                SimpleShootingDown {
                    direction: s.direction,
                    shoot_time: stamped(s.shoot_time, SIMPLE_SHOOTING_STAGE_SHOOTING_INTERVAL, now),
                },
            ),
            Stage::SpreadShooting(s) => Stage::SpreadShooting(
                SpreadShooting {
                    direction: s.direction,
                    shoot_time: stamped(s.shoot_time, SPREAD_SHOOTING_STAGE_SHOOTING_INTERVAL, now),
                },
            ),
            Stage::Targeted(s) => Stage::Targeted(
                Targeted {
                    shoot_time: stamped(s.shoot_time, TARGETED_STAGE_SHOOTING_INTERVAL, now),
                },
            ),
        }
    }

    /// The stage is over for this boss.
    pub open spec fn is_completed(self, boss: Boss) -> bool {
        match self {
            Stage::Appear(_) => AppearStage::is_completed(boss),
            Stage::SimpleShootingDown(_) => boss.hp_below(STAGE_1_FINISH_HP_TENTHS as int),
            Stage::SpreadShooting(_) => boss.hp_below(STAGE_2_FINISH_HP_TENTHS as int),
            Stage::Targeted(_) => false,
        }
    }

    /// The stage that follows this one, as it begins at `now`. Nothing
    /// follows the last stage: it stays as it is.
    pub open spec fn successor(self, now: u64) -> Stage {
        match self {
            Stage::Appear(_) => Stage::SimpleShootingDown(
                SimpleShootingDown { direction: Direction::Right, shoot_time: now },
            ),
            Stage::SimpleShootingDown(_) => Stage::SpreadShooting(
                SpreadShooting { direction: Direction::Right, shoot_time: now },
            ),
            Stage::SpreadShooting(_) => Stage::Targeted(Targeted { shoot_time: now }),
            Stage::Targeted(_) => self,
        }
    }

    /// The stage can take a tick for this boss on this screen: it can compute
    /// a move, and the centre of the boss at the new position, where the
    /// projectiles are spawned, lies in the coordinate space.
    pub open spec fn can_tick(self, boss: Boss, ship: Ship, screen: Rect) -> bool {
        &&& self.can_move(boss, screen)
        &&& boss.placed_at(self.pos_after(boss, ship, screen)).shape.has_center()
    }

    /// The stage after one tick at `now`: it has computed its move and been
    /// polled, and if it is over for the boss at its new position, the next
    /// stage has taken its place, newly begun at `now`.
    pub open spec fn after_tick(self, boss: Boss, ship: Ship, screen: Rect, now: u64) -> Stage {
        let polled = self.moved(boss, screen).polled(now);
        if self.is_completed(boss.placed_at(self.pos_after(boss, ship, screen))) {
            polled.successor(now)
        } else {
            polled
        }
    }

    /// What one tick at `now` asks of the rest of the game: the new position,
    /// the shots fired from it, and whether the stage is over there.
    pub open spec fn tick_is(
        self,
        boss: Boss,
        ship: Ship,
        screen: Rect,
        now: u64,
        tick: Tick,
    ) -> bool {
        let pos = self.pos_after(boss, ship, screen);
        &&& tick.pos == pos
        &&& volley(tick.shots) == self.moved(boss, screen).shots_at(boss.placed_at(pos), now)
        &&& tick.completed == self.is_completed(boss.placed_at(pos))
    }

    /// The stage the fight begins with.
    pub fn first() -> (stage: Stage)
        ensures
            stage == Stage::Appear(AppearStage),
    {
        Stage::Appear(AppearStage)
    }

    /// Tests `can_move` at run time.
    pub fn is_able_to_move(&self, boss: &Boss, screen: &Rect) -> (ok: bool)
        ensures
            ok == self.can_move(*boss, *screen),
    {
        match self {
            Stage::Appear(_) => true,
            Stage::SimpleShootingDown(stage) => is_able_to_bounce(
                stage.direction,
                boss,
                SIMPLE_SHOOTING_STAGE_MOVE_SPEED,
                screen,
            ),
            Stage::SpreadShooting(stage) => is_able_to_bounce(
                stage.direction,
                boss,
                SPREAD_SHOOTING_STAGE_MOVE_SPEED,
                screen,
            ),
            Stage::Targeted(_) => screen.top_left.x <= screen.bottom_right.x,
        }
    }

    /// The new position of the boss, by the rule of the current stage.
    pub fn calc_new_pos(&mut self, boss: &Boss, ship: &Ship, screen: &Rect) -> (pos: Vec2i)
        requires
            old(self).can_move(*boss, *screen),
        ensures
            pos == old(self).pos_after(*boss, *ship, *screen),
            *final(self) == old(self).moved(*boss, *screen),
    {
        match self {
            Stage::Appear(stage) => stage.calc_new_pos(boss, ship, screen),
            Stage::SimpleShootingDown(stage) => stage.calc_new_pos(boss, ship, screen),
            Stage::SpreadShooting(stage) => stage.calc_new_pos(boss, ship, screen),
            Stage::Targeted(stage) => stage.calc_new_pos(boss, ship, screen),
        }
    }

    /// One poll of the current stage at `now`.
    pub fn shoot_at(&mut self, boss: &Boss, ship: &Ship, now: u64) -> (shots: Option<Vec<Shot>>)
        requires
            boss.shape.has_center(),
        ensures
            volley(shots) == old(self).shots_at(*boss, now),
            *final(self) == old(self).polled(now),
    {
        match self {
            Stage::Appear(stage) => stage.shoot_at(boss, ship, now),
            Stage::SimpleShootingDown(stage) => stage.shoot_at(boss, ship, now),
            Stage::SpreadShooting(stage) => stage.shoot_at(boss, ship, now),
            Stage::Targeted(stage) => stage.shoot_at(boss, ship, now),
        }
    }

    /// One poll of the current stage at the time the wall clock shows:
    /// `shoot_at` for some `now`.
    pub fn shoot(&mut self, boss: &Boss, ship: &Ship) -> (shots: Option<Vec<Shot>>)
        requires
            boss.shape.has_center(),
        ensures
            exists|now: u64|
                {
                    &&& volley(shots) == #[trigger] old(self).shots_at(*boss, now)
                    &&& *final(self) == old(self).polled(now)
                },
    {
        let now: u64 = now_millis();
        self.shoot_at(boss, ship, now)
    }

    /// Whether the current stage is over.
    pub fn completed(&self, boss: &Boss) -> (done: bool)
        ensures
            done == self.is_completed(*boss),
    {
        match self {
            Stage::Appear(stage) => stage.completed(boss),
            Stage::SimpleShootingDown(stage) => stage.completed(boss),
            Stage::SpreadShooting(stage) => stage.completed(boss),
            Stage::Targeted(stage) => stage.completed(boss),
        }
    }

    /// Tests `can_tick` at run time.
    pub fn is_able_to_tick(&self, boss: &Boss, ship: &Ship, screen: &Rect) -> (ok: bool)
        ensures
            ok == self.can_tick(*boss, *ship, *screen),
    {
        if !self.is_able_to_move(boss, screen) {
            return false;
        }
        let mut probe = *self;
        let pos = probe.calc_new_pos(boss, ship, screen);
        boss.moved_to(pos).shape.center_in_range()
    }

    /// One tick of the fight at `now`.
    ///
    /// The current stage is asked for the boss's new position, then, with the
    /// boss at that position, for its shots and whether it is over. If it is
    /// over, the next stage takes its place, newly begun at `now`; the last
    /// stage is never replaced. The boss itself is not changed: the result
    /// says where to put it and what to spawn.
    pub fn tick_at(&mut self, boss: &Boss, ship: &Ship, screen: &Rect, now: u64) -> (tick: Tick)
        requires
            old(self).can_tick(*boss, *ship, *screen),
        ensures
            old(self).tick_is(*boss, *ship, *screen, now, tick),
            *final(self) == old(self).after_tick(*boss, *ship, *screen, now),
            final(self).rank() == old(self).rank() + if tick.completed {
                1nat
            } else {
                0nat
            },
    {
        let pos = self.calc_new_pos(boss, ship, screen);
        let moved_boss = boss.moved_to(pos);
        let shots = self.shoot_at(&moved_boss, ship, now);
        let completed = self.completed(&moved_boss);
        if completed {
            *self = self.next_at(now);
        }
        Tick { pos, shots, completed }
    }

    /// One tick of the fight at the time the wall clock shows: `tick_at` for
    /// some `now`.
    pub fn tick(&mut self, boss: &Boss, ship: &Ship, screen: &Rect) -> (tick: Tick)
        requires
            old(self).can_tick(*boss, *ship, *screen),
        ensures
            exists|now: u64|
                {
                    &&& #[trigger] old(self).tick_is(*boss, *ship, *screen, now, tick)
                    &&& *final(self) == old(self).after_tick(*boss, *ship, *screen, now)
                },
            final(self).rank() == old(self).rank() + if tick.completed {
                1nat
            } else {
                0nat
            },
    {
        let now: u64 = now_millis();
        self.tick_at(boss, ship, screen, now)
    }

    /// The stage that follows this one, newly made as it begins at `now`.
    pub fn next_at(&self, now: u64) -> (next: Stage)
        ensures
            next == self.successor(now),
    {
        match self {
            Stage::Appear(_) => Stage::SimpleShootingDown(SimpleShootingDown::starting_at(now)),
            Stage::SimpleShootingDown(_) => Stage::SpreadShooting(SpreadShooting::starting_at(now)),
            Stage::SpreadShooting(_) => Stage::Targeted(Targeted::starting_at(now)),
            Stage::Targeted(stage) => Stage::Targeted(*stage),
        }
    }
}

/// The stages come in their fixed order: a tick leaves the fight in the stage
/// it was in, or, if that stage is over for the boss at its new position and
/// is not the last, in the one that follows it, newly begun at `now`. The
/// last stage is never left.
pub proof fn lemma_order_of_stages(stage: Stage, boss: Boss, ship: Ship, screen: Rect, now: u64)
    ensures
        ({
            let after = stage.after_tick(boss, ship, screen, now);
            let over = stage.is_completed(boss.placed_at(stage.pos_after(boss, ship, screen)));
            &&& over ==> after.rank() == stage.rank() + 1 && after == stage.successor(now)
            &&& !over ==> after.rank() == stage.rank()
            &&& stage.rank() <= after.rank() <= 3
            &&& stage is Targeted ==> !over
        }),
{
}

} // verus!
