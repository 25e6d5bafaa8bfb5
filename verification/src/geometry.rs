//! Points, rectangles and hitboxes on the integer pixel grid.

use vstd::prelude::*;

verus! {

/// A point of the pixel grid. `x` grows to the right, `y` grows downwards.
#[derive(Clone, Copy, Debug, PartialEq, Eq, Structural)]
pub struct Vec2i {
    pub x: i32,
    pub y: i32,
}

/// An axis-aligned rectangle, given by its top-left and bottom-right corners.
/// Both corners belong to the rectangle.
#[derive(Clone, Copy, Debug, PartialEq, Eq, Structural)]
pub struct Rect {
    pub top_left: Vec2i,
    pub bottom_right: Vec2i,
}

impl Rect {
    /// The corners are in order: the rectangle holds at least one point.
    pub open spec fn wf(self) -> bool {
        &&& self.top_left.x <= self.bottom_right.x
        &&& self.top_left.y <= self.bottom_right.y
    }

    /// Tests `wf` at run time.
    pub fn is_well_formed(&self) -> (ok: bool)
        ensures
            ok == self.wf(),
    {
        self.top_left.x <= self.bottom_right.x && self.top_left.y <= self.bottom_right.y
    }
}

/// A hitbox: a box of `width` by `height` pixels whose top-left corner is `pos`.
#[derive(Clone, Copy, Debug, PartialEq, Eq, Structural)]
pub struct Shape {
    pub pos: Vec2i,
    pub width: u32,
    pub height: u32,
}

impl Shape {
    /// The centre of the box lies in the coordinate space: it is a `Vec2i`.
    pub open spec fn has_center(self) -> bool {
        &&& self.center_x() <= i32::MAX
        &&& self.center_y() <= i32::MAX
    }

    /// Would the box lie wholly inside `rect` if its left edge stood at `x`?
    /// The vertical position is the box's own.
    pub open spec fn inside_at(self, x: int, rect: Rect) -> bool {
        &&& rect.top_left.x <= x
        &&& x + self.width <= rect.bottom_right.x
        &&& rect.top_left.y <= self.pos.y
        &&& self.pos.y + self.height <= rect.bottom_right.y
    }

    /// The box lies wholly inside `rect`.
    pub open spec fn inside(self, rect: Rect) -> bool {
        self.inside_at(self.pos.x as int, rect)
    }

    /// The same box with its left edge at `x`.
    pub open spec fn at_x(self, x: int) -> Shape
        recommends
            i32::MIN <= x <= i32::MAX,
    {
        Shape { pos: Vec2i { x: x as i32, y: self.pos.y }, width: self.width, height: self.height }
    }

    /// The horizontal coordinate of the box's centre, the half rounded down.
    pub open spec fn center_x(self) -> int {
        self.pos.x + self.width / 2
    }

    /// The vertical coordinate of the box's centre, the half rounded down.
    pub open spec fn center_y(self) -> int {
        self.pos.y + self.height / 2
    }

    /// The centre of the box as a point.
    pub open spec fn center_point(self) -> Vec2i
        recommends
            self.has_center(),
    {
        Vec2i { x: self.center_x() as i32, y: self.center_y() as i32 }
    }

    /// A square box of side `width` with its top-left corner at `pos`.
    pub fn new(pos: Vec2i, width: u32) -> (shape: Shape)
        ensures
            shape == (Shape { pos, width, height: width }),
    {
        Shape { pos, width, height: width }
    }

    /// Tests `has_center` at run time.
    pub fn center_in_range(&self) -> (ok: bool)
        ensures
            ok == self.has_center(),
    {
        self.pos.x as i64 + (self.width / 2) as i64 <= i32::MAX as i64
            && self.pos.y as i64 + (self.height / 2) as i64 <= i32::MAX as i64
    }

    /// Whether the box would lie wholly inside `rect` if its left edge stood
    /// at `x`, which may be any place one move away from a coordinate.
    pub fn in_rect_at(&self, x: i64, rect: &Rect) -> (within: bool)
        requires
            2 * i32::MIN <= x <= 2 * i32::MAX,
        ensures
            within == self.inside_at(x as int, *rect),
    {
        rect.top_left.x as i64 <= x && x + self.width as i64 <= rect.bottom_right.x as i64
            && rect.top_left.y <= self.pos.y && self.pos.y as i64 + self.height as i64
            <= rect.bottom_right.y as i64
    }

    /// Whether the box lies wholly inside `rect`. A box that sticks out on any
    /// side, by however little, is not inside.
    pub fn in_rect(&self, rect: &Rect) -> (within: bool)
        ensures
            within == self.inside(*rect),
    {
        self.in_rect_at(self.pos.x as i64, rect)
    }

    /// The centre of the box.
    pub fn center(&self) -> (c: Vec2i)
        requires
            self.has_center(),
        ensures
            c == self.center_point(),
            c.x == self.center_x(),
            c.y == self.center_y(),
    {
        let cx: i64 = self.pos.x as i64 + (self.width / 2) as i64;
        let cy: i64 = self.pos.y as i64 + (self.height / 2) as i64;
        Vec2i { x: cx as i32, y: cy as i32 }
    }
}

} // verus!
