//! Horizontal motion of the boss: bouncing between the screen's edges, and
//! following the ship.

use vstd::prelude::*;
use crate::entities::{Boss, Ship};
use crate::geometry::{Rect, Shape, Vec2i};

verus! {

/// The way the boss is travelling.
#[derive(Clone, Copy, Debug, PartialEq, Eq, Structural)]
pub enum Direction {
    Left,
    Right,
}

impl Direction {
    /// The other direction.
    pub open spec fn opposite(self) -> Direction {
        match self {
            Direction::Left => Direction::Right,
            Direction::Right => Direction::Left,
        }
    }

    /// The horizontal offset of one move at `speed`: negative to the left,
    /// positive to the right.
    pub open spec fn offset(self, speed: int) -> int {
        match self {
            Direction::Left => -speed,
            Direction::Right => speed,
        }
    }

    /// The other direction.
    pub fn flip(self) -> (d: Direction)
        ensures
            d == self.opposite(),
    {
        match self {
            Direction::Left => Direction::Right,
            Direction::Right => Direction::Left,
        }
    }
}

/// A move of `speed` pixels in direction `dir` keeps `shape` wholly inside
/// `screen`, so the bounce takes it as it is.
pub open spec fn bounce_accepts(dir: Direction, shape: Shape, speed: int, screen: Rect) -> bool {
    shape.inside_at(shape.pos.x + dir.offset(speed), screen)
}

/// Where the left edge of `shape` stands after one bounce step: one move on in
/// direction `dir` where that stays inside `screen`, else one move back.
pub open spec fn bounce_x(dir: Direction, shape: Shape, speed: int, screen: Rect) -> int {
    if bounce_accepts(dir, shape, speed, screen) {
        shape.pos.x + dir.offset(speed)
    } else {
        shape.pos.x - dir.offset(speed)
    }
}

/// The direction after one bounce step: turned round exactly when the move
/// was refused.
pub open spec fn bounce_dir(dir: Direction, shape: Shape, speed: int, screen: Rect) -> Direction {
    if bounce_accepts(dir, shape, speed, screen) {
        dir
    } else {
        dir.opposite()
    }
}

/// The bounce step can be taken: the place it leads to is a coordinate.
pub open spec fn can_bounce(dir: Direction, shape: Shape, speed: int, screen: Rect) -> bool {
    i32::MIN <= bounce_x(dir, shape, speed, screen) <= i32::MAX
}

/// Where one bounce step leads, and whether the move was accepted. The place
/// may lie one move outside the coordinate space.
fn bounce_target(direction: Direction, shape: &Shape, move_speed: i32, screen: &Rect) -> (target: (
    i64,
    bool,
))
    requires
        0 < move_speed,
    ensures
        target.0 == bounce_x(direction, *shape, move_speed as int, *screen),
        target.1 == bounce_accepts(direction, *shape, move_speed as int, *screen),
{
    let x_offset: i64 = match direction {
        Direction::Left => -(move_speed as i64),
        Direction::Right => move_speed as i64,
    };

    let x: i64 = shape.pos.x as i64;
    if shape.in_rect_at(x + x_offset, screen) {
        (x + x_offset, true)
    } else {
        (x - x_offset, false)
    }
}

/// Tests `can_bounce` at run time.
pub fn is_able_to_bounce(direction: Direction, boss: &Boss, move_speed: i32, screen: &Rect) -> (ok:
    bool)
    requires
        0 < move_speed,
    ensures
        ok == can_bounce(direction, boss.shape, move_speed as int, *screen),
{
    let (x, _) = bounce_target(direction, &boss.shape, move_speed, screen);
    i32::MIN as i64 <= x && x <= i32::MAX as i64
}

/// One step of the bounce between the screen's edges.
///
/// The boss moves `move_speed` pixels in `direction`. If its hitbox would then
/// stick out of `screen` anywhere, the move is refused: the boss goes the same
/// distance the other way instead and `direction` is turned round. The result
/// is the new top-left corner of the boss; the boss itself is not changed.
pub fn move_horizontally(
    direction: &mut Direction,
    boss: &Boss,
    move_speed: i32,
    screen: &Rect,
) -> (pos: Vec2i)
    requires
        0 < move_speed,
        can_bounce(*old(direction), boss.shape, move_speed as int, *screen),
    ensures
        pos.x == bounce_x(*old(direction), boss.shape, move_speed as int, *screen),
        pos.y == boss.shape.pos.y,
        *final(direction) == bounce_dir(*old(direction), boss.shape, move_speed as int, *screen),
{
    let (x, accepted) = bounce_target(*direction, &boss.shape, move_speed, screen);
    if !accepted {
        *direction = direction.flip();
    }

    Vec2i { x: x as i32, y: boss.shape.pos.y }
}

/// There is room for one move: on at least one side of `shape` the free span
/// up to the edge of `screen` is `speed` pixels or more.
pub open spec fn has_room(shape: Shape, speed: int, screen: Rect) -> bool {
    ||| speed <= shape.pos.x - screen.top_left.x
    ||| speed <= screen.bottom_right.x - (shape.pos.x + shape.width)
}

/// The direction and the hitbox after `n` bounce steps in a row, each applied
/// to the outcome of the one before.
pub open spec fn bounce_run(dir: Direction, shape: Shape, speed: int, screen: Rect, n: nat) -> (
    Direction,
    Shape,
)
    decreases n,
{
    if n == 0 {
        (dir, shape)
    } else {
        let (d, s) = bounce_run(dir, shape, speed, screen, (n - 1) as nat);
        (bounce_dir(d, s, speed, screen), s.at_x(bounce_x(d, s, speed, screen)))
    }
}

/// A bounce step never takes a hitbox out of the screen: if the hitbox lies
/// inside the screen and has room for one move on at least one side, the step
/// can be taken, the hitbox lies inside the screen after it, and again has
/// room for one move.
pub proof fn lemma_bounce_stays_inside(dir: Direction, shape: Shape, speed: int, screen: Rect)
    requires
        0 < speed,
        shape.inside(screen),
        has_room(shape, speed, screen),
    ensures
        can_bounce(dir, shape, speed, screen),
        shape.inside_at(bounce_x(dir, shape, speed, screen), screen),
        shape.at_x(bounce_x(dir, shape, speed, screen)).inside(screen),
        has_room(shape.at_x(bounce_x(dir, shape, speed, screen)), speed, screen),
{
}

/// Without room for one move on either side the bounce step does take the
/// hitbox out of the screen: the condition of `lemma_bounce_stays_inside`
/// cannot be weakened.
pub proof fn lemma_bounce_leaves_without_room(
    dir: Direction,
    shape: Shape,
    speed: int,
    screen: Rect,
)
    requires
        0 < speed,
        shape.inside(screen),
        !has_room(shape, speed, screen),
    ensures
        !shape.inside_at(bounce_x(dir, shape, speed, screen), screen),
{
}

/// The direction turns round exactly on the step whose move is refused, and
/// the position taken then mirrors the refused one about the position the
/// hitbox had before the step. An accepted move keeps the direction.
pub proof fn lemma_bounce_mirrors(dir: Direction, shape: Shape, speed: int, screen: Rect)
    requires
        0 < speed,
    ensures
        bounce_dir(dir, shape, speed, screen) != dir <==> !bounce_accepts(
            dir,
            shape,
            speed,
            screen,
        ),
        bounce_accepts(dir, shape, speed, screen) ==> bounce_x(dir, shape, speed, screen)
            == shape.pos.x + dir.offset(speed),
        !bounce_accepts(dir, shape, speed, screen) ==> {
            let refused = shape.pos.x + dir.offset(speed);
            &&& bounce_dir(dir, shape, speed, screen) == dir.opposite()
            &&& bounce_x(dir, shape, speed, screen) - shape.pos.x == shape.pos.x - refused
        },
{
}

/// However many bounce steps follow one another, a hitbox that starts inside
/// the screen with room for one move stays inside the screen.
pub proof fn lemma_bounce_run_stays_inside(
    dir: Direction,
    shape: Shape,
    speed: int,
    screen: Rect,
    n: nat,
)
    requires
        0 < speed,
        shape.inside(screen),
        has_room(shape, speed, screen),
    ensures
        bounce_run(dir, shape, speed, screen, n).1.inside(screen),
        has_room(bounce_run(dir, shape, speed, screen, n).1, speed, screen),
    decreases n,
{
    if n > 0 {
        lemma_bounce_run_stays_inside(dir, shape, speed, screen, (n - 1) as nat);
        let (d, s) = bounce_run(dir, shape, speed, screen, (n - 1) as nat);
        lemma_bounce_stays_inside(d, s, speed, screen);
    }
}

/// Where the left edge of the boss stands after one step of following the
/// ship at `speed`, before the screen is taken into account.
///
/// If the centres of boss and ship are less than `speed` apart horizontally,
/// the boss is put so that its centre is over the ship's. Otherwise it moves
/// `speed` pixels towards the ship.
pub open spec fn pursuit_x(boss: Boss, ship: Ship, speed: int) -> int {
    let gap = boss.shape.center_x() - ship.shape.center_x();
    if -speed < gap < speed {
        ship.shape.center_x() - boss.shape.width / 2
    } else if gap > 0 {
        boss.shape.pos.x - speed
    } else {
        boss.shape.pos.x + speed
    }
}

/// `x` brought into the span from `lo` to `hi`, both ends included.
pub open spec fn clamp_between(x: int, lo: int, hi: int) -> int
    recommends
        lo <= hi,
{
    if x < lo {
        lo
    } else if x > hi {
        hi
    } else {
        x
    }
}

/// Where the left edge of the boss stands after one step of following the
/// ship at `speed` on `screen`: the step of `pursuit_x`, then brought back
/// between the screen's left and right edges.
pub open spec fn tracked_x(boss: Boss, ship: Ship, speed: int, screen: Rect) -> int {
    clamp_between(
        pursuit_x(boss, ship, speed),
        screen.top_left.x as int,
        screen.bottom_right.x as int,
    )
}

/// Wherever the ship is, following it leaves the boss's left edge between the
/// screen's left and right edges.
pub proof fn lemma_tracked_within_screen(boss: Boss, ship: Ship, speed: int, screen: Rect)
    requires
        screen.top_left.x <= screen.bottom_right.x,
    ensures
        screen.top_left.x <= tracked_x(boss, ship, speed, screen) <= screen.bottom_right.x,
{
}

/// One step of following the ship, the screen left aside, brings the boss's
/// centre over the ship's or `speed` pixels nearer to it, and never past it.
pub proof fn lemma_pursuit_closes_in(boss: Boss, ship: Ship, speed: int)
    requires
        0 < speed,
    ensures
        ({
            let before = boss.shape.center_x() - ship.shape.center_x();
            let after = pursuit_x(boss, ship, speed) + boss.shape.width / 2
                - ship.shape.center_x();
            &&& -speed < before < speed ==> after == 0
            &&& before >= speed ==> after == before - speed
            &&& before <= -speed ==> after == before + speed
        }),
{
}

} // verus!
