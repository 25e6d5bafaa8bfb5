//! Firing at a fixed cadence: a shot is due once a set interval has passed
//! since the last one, however often the emitter is polled in between.
//!
//! Times are milliseconds on one clock; intervals are milliseconds too.

use vstd::prelude::*;
use crate::entities::{Boss, Shot, SHOT_SPEED, SHOT_WIDTH};
use crate::geometry::Shape;

verus! {

/// Damage dealt by every projectile of the boss.
pub const BOSS_DAMAGE: i32 = 10;

/// The travel angle, in degrees, of a projectile that goes straight down.
pub const ANGLE_DOWN: i32 = 180;

/// The projectile the boss fires at `angle`: spawned at the centre of the
/// boss, with the common projectile size and speed and the boss's damage.
pub open spec fn boss_shot(boss: Boss, angle: i32) -> Shot {
    Shot {
        shape: Shape { pos: boss.shape.center_point(), width: SHOT_WIDTH, height: SHOT_WIDTH },
        speed: SHOT_SPEED,
        angle,
        damage: BOSS_DAMAGE,
    }
}

/// A shot is due at `now`: the interval has passed in full since `shoot_time`.
pub open spec fn is_due(shoot_time: u64, interval: u64, now: u64) -> bool {
    shoot_time + interval <= now
}

/// The time of the last shot after a poll at `now`: `now` itself if a shot was
/// due, else unchanged.
pub open spec fn stamped(shoot_time: u64, interval: u64, now: u64) -> u64 {
    if is_due(shoot_time, interval, now) {
        now
    } else {
        shoot_time
    }
}

/// What a poll hands back, as a sequence: the projectiles fired, or `None`
/// where the poll did not fire.
pub open spec fn volley(shots: Option<Vec<Shot>>) -> Option<Seq<Shot>> {
    match shots {
        Some(v) => Some(v@),
        None => None,
    }
}

/// What a poll at `now` of an emitter that fires straight down hands back:
/// one projectile aimed down if a shot is due, else nothing.
pub open spec fn down_volley(shoot_time: u64, boss: Boss, interval: u64, now: u64) -> Option<
    Seq<Shot>,
> {
    if is_due(shoot_time, interval, now) {
        Some(seq![boss_shot(boss, ANGLE_DOWN)])
    } else {
        None
    }
}

/// Whether a shot is due at `now`.
pub fn due(shoot_time: u64, interval: u64, now: u64) -> (yes: bool)
    ensures
        yes == is_due(shoot_time, interval, now),
{
    shoot_time <= now && interval <= now - shoot_time
}

/// The projectile the boss fires at `angle`.
pub fn make_boss_shot(boss: &Boss, angle: i32) -> (shot: Shot)
    requires
        boss.shape.has_center(),
    ensures
        shot == boss_shot(*boss, angle),
{
    let shot_shape = Shape::new(boss.center(), SHOT_WIDTH);
    Shot::new(shot_shape, SHOT_SPEED, angle, BOSS_DAMAGE)
}

/// One poll of an emitter that fires straight down.
///
/// If `shooting_interval` has passed in full since `*shoot_time`, the poll
/// fires: `*shoot_time` becomes `now` and the result is one projectile, aimed
/// straight down from the centre of the boss. Otherwise nothing changes and
/// the result is `None`.
pub fn shoot_down(shoot_time: &mut u64, boss: &Boss, shooting_interval: u64, now: u64) -> (shots:
    Option<Vec<Shot>>)
    requires
        boss.shape.has_center(),
    ensures
        *final(shoot_time) == stamped(*old(shoot_time), shooting_interval, now),
        volley(shots) == down_volley(*old(shoot_time), *boss, shooting_interval, now),
{
    if due(*shoot_time, shooting_interval, now) {
        *shoot_time = now;

        let shot = make_boss_shot(boss, ANGLE_DOWN);
        let mut shots: Vec<Shot> = Vec::new();
        shots.push(shot);
        return Some(shots);
    }

    None
}

/// The number of projectiles in what a poll hands back.
pub open spec fn volley_len(shots: Option<Seq<Shot>>) -> nat {
    match shots {
        Some(v) => v.len(),
        None => 0,
    }
}

/// Two polls in a row of an emitter that fires straight down, the second no
/// earlier than the first.
///
/// If less than the interval lies between them, they yield one projectile
/// between them at most. If the interval or more lies between them, and the
/// last shot was not later than the first poll, the second poll yields
/// exactly one projectile, whatever the first did, and the time of the last
/// shot is then the time of the second poll.
pub proof fn lemma_cadence_of_two_polls(
    shoot_time: u64,
    boss: Boss,
    interval: u64,
    first: u64,
    second: u64,
)
    requires
        first <= second,
    ensures
        second - first < interval ==> volley_len(down_volley(shoot_time, boss, interval, first))
            + volley_len(
            down_volley(stamped(shoot_time, interval, first), boss, interval, second),
        ) <= 1,
        shoot_time <= first && second - first >= interval ==> {
            let between = stamped(shoot_time, interval, first);
            &&& volley_len(down_volley(between, boss, interval, second)) == 1
            &&& stamped(between, interval, second) == second
        },
{
}

} // verus!
