//! Points, rectangles and the arithmetic of a drag.
//!
//! Coordinates are held in the width that a configure request carries
//! (`i32` positions, `u32` extents), which is wider than anything an event or a
//! geometry reply reports. The contracts are stated over unbounded integers.

use vstd::prelude::*;

verus! {

/// The mathematical value of a [`Point`]: a position, or a displacement.
pub struct Vector {
    pub x: int,
    pub y: int,
}

/// The mathematical value of a [`Rect`].
pub struct Area {
    pub x: int,
    pub y: int,
    pub w: int,
    pub h: int,
}

/// The corner of a rectangle that a point is nearest to.
#[derive(Clone, Copy, Debug, PartialEq, Eq, Structural)]
pub enum Quadrant {
    TopLeft,
    TopRight,
    BottomLeft,
    BottomRight,
}

/// A position on the screen, or the displacement between two positions.
#[derive(Clone, Copy, Debug, PartialEq, Eq, Structural)]
pub struct Point {
    pub x: i32,
    pub y: i32,
}

/// A rectangle on the screen. A well-formed rectangle is at least one unit wide
/// and one unit high.
#[derive(Clone, Copy, Debug, PartialEq, Eq, Structural)]
pub struct Rect {
    pub x: i32,
    pub y: i32,
    pub w: u32,
    pub h: u32,
}

/// `v`, but never less than one.
pub open spec fn at_least_one(v: int) -> int {
    if v < 1 {
        1
    } else {
        v
    }
}

impl Vector {
    /// Componentwise difference `self - origin`.
    pub open spec fn minus(self, origin: Vector) -> Vector {
        Vector { x: self.x - origin.x, y: self.y - origin.y }
    }

    /// Componentwise sum.
    pub open spec fn plus(self, other: Vector) -> Vector {
        Vector { x: self.x + other.x, y: self.y + other.y }
    }

    /// The point with these coordinates, where they fit.
    pub open spec fn to_point(self) -> Point {
        Point { x: self.x as i32, y: self.y as i32 }
    }

    /// Both components fit the 32-bit fields of a [`Point`].
    pub open spec fn fits(self) -> bool {
        &&& i32::MIN <= self.x <= i32::MAX
        &&& i32::MIN <= self.y <= i32::MAX
    }

    /// Both components are within the range of the 16-bit coordinates that
    /// events and geometry replies carry.
    pub open spec fn on_wire(self) -> bool {
        &&& i16::MIN <= self.x <= i16::MAX
        &&& i16::MIN <= self.y <= i16::MAX
    }
}

impl Area {
    /// The top-left corner.
    pub open spec fn origin(self) -> Vector {
        Vector { x: self.x, y: self.y }
    }

    /// The rectangle with these components, where they fit.
    pub open spec fn to_rect(self) -> Rect {
        Rect { x: self.x as i32, y: self.y as i32, w: self.w as u32, h: self.h as u32 }
    }

    /// All four components fit the fields of a [`Rect`].
    pub open spec fn fits(self) -> bool {
        &&& i32::MIN <= self.x <= i32::MAX
        &&& i32::MIN <= self.y <= i32::MAX
        &&& 0 <= self.w <= u32::MAX
        &&& 0 <= self.h <= u32::MAX
    }

    /// The rectangle is one that a geometry reply can report: 16-bit position,
    /// 16-bit extents.
    pub open spec fn on_wire(self) -> bool {
        &&& i16::MIN <= self.x <= i16::MAX
        &&& i16::MIN <= self.y <= i16::MAX
        &&& 0 <= self.w <= u16::MAX
        &&& 0 <= self.h <= u16::MAX
    }

    /// Width and height are both at least one.
    pub open spec fn wf(self) -> bool {
        self.w >= 1 && self.h >= 1
    }

    /// `p` lies inside the rectangle; the right and bottom edges are outside.
    pub open spec fn contains(self, p: Vector) -> bool {
        &&& self.x <= p.x < self.x + self.w
        &&& self.y <= p.y < self.y + self.h
    }

    /// `p` is strictly nearer to the left edge than to the right edge.
    pub open spec fn in_left_half(self, p: Vector) -> bool {
        2 * (p.x - self.x) < self.w
    }

    /// `p` is strictly nearer to the top edge than to the bottom edge.
    pub open spec fn in_top_half(self, p: Vector) -> bool {
        2 * (p.y - self.y) < self.h
    }

    /// The quadrant of the rectangle, split at its centre, in which `p` falls.
    /// A point on a centre line counts to the right, respectively the bottom.
    pub open spec fn quadrant(self, p: Vector) -> Quadrant {
        if self.in_top_half(p) {
            if self.in_left_half(p) {
                Quadrant::TopLeft
            } else {
                Quadrant::TopRight
            }
        } else {
            if self.in_left_half(p) {
                Quadrant::BottomLeft
            } else {
                Quadrant::BottomRight
            }
        }
    }

    /// The rectangle after its corner `grabbed` has followed the pointer by
    /// `delta`, the opposite corner staying where it is. Neither extent goes
    /// below one.
    pub open spec fn resized(self, grabbed: Quadrant, delta: Vector) -> Area {
        match grabbed {
            Quadrant::TopLeft => Area {
                x: self.x + delta.x,
                y: self.y + delta.y,
                w: at_least_one(self.w - delta.x),
                h: at_least_one(self.h - delta.y),
            },
            Quadrant::TopRight => Area {
                x: self.x,
                y: self.y + delta.y,
                w: at_least_one(self.w + delta.x),
                h: at_least_one(self.h - delta.y),
            },
            Quadrant::BottomLeft => Area {
                x: self.x + delta.x,
                y: self.y,
                w: at_least_one(self.w - delta.x),
                h: at_least_one(self.h + delta.y),
            },
            Quadrant::BottomRight => Area {
                x: self.x,
                y: self.y,
                w: at_least_one(self.w + delta.x),
                h: at_least_one(self.h + delta.y),
            },
        }
    }

    /// The absolute position of the given corner.
    pub open spec fn corner(self, which: Quadrant) -> Vector {
        match which {
            Quadrant::TopLeft => Vector { x: self.x, y: self.y },
            Quadrant::TopRight => Vector { x: self.x + self.w, y: self.y },
            Quadrant::BottomLeft => Vector { x: self.x, y: self.y + self.h },
            Quadrant::BottomRight => Vector { x: self.x + self.w, y: self.y + self.h },
        }
    }
}

impl Quadrant {
    /// The diagonally opposite corner.
    pub open spec fn opposite(self) -> Quadrant {
        match self {
            Quadrant::TopLeft => Quadrant::BottomRight,
            Quadrant::TopRight => Quadrant::BottomLeft,
            Quadrant::BottomLeft => Quadrant::TopRight,
            Quadrant::BottomRight => Quadrant::TopLeft,
        }
    }

    /// The corner lies on the left edge.
    pub open spec fn is_left(self) -> bool {
        self == Quadrant::TopLeft || self == Quadrant::BottomLeft
    }

    /// The corner lies on the top edge.
    pub open spec fn is_top(self) -> bool {
        self == Quadrant::TopLeft || self == Quadrant::TopRight
    }
}

impl View for Point {
    type V = Vector;

    open spec fn view(&self) -> Vector {
        Vector { x: self.x as int, y: self.y as int }
    }
}

impl View for Rect {
    type V = Area;

    open spec fn view(&self) -> Area {
        Area { x: self.x as int, y: self.y as int, w: self.w as int, h: self.h as int }
    }
}

impl Point {
    pub fn new(x: i32, y: i32) -> (p: Point)
        ensures
            p == (Point { x, y }),
    {
        Point { x, y }
    }

    /// The point that an event reports in its 16-bit coordinates.
    pub fn from_wire(x: i16, y: i16) -> (p: Point)
        ensures
            p@ == (Vector { x: x as int, y: y as int }),
            p@.on_wire(),
    {
        Point { x: x as i32, y: y as i32 }
    }

    /// The displacement that leads from `origin` to `self`.
    pub fn delta_from(&self, origin: &Point) -> (d: Point)
        requires
            self@.minus(origin@).fits(),
        ensures
            d@ == self@.minus(origin@),
            d == self@.minus(origin@).to_point(),
    {
        Point { x: self.x - origin.x, y: self.y - origin.y }
    }

    /// `self` displaced by `delta`.
    pub fn offset(&self, delta: &Point) -> (p: Point)
        requires
            self@.plus(delta@).fits(),
        ensures
            p@ == self@.plus(delta@),
            p == self@.plus(delta@).to_point(),
    {
        Point { x: self.x + delta.x, y: self.y + delta.y }
    }
}

impl Rect {
    /// A rectangle at `(x, y)`. An extent of zero degenerates to one, so that
    /// the result is well formed whatever is passed.
    pub fn new(x: i32, y: i32, w: u32, h: u32) -> (r: Rect)
        ensures
            r@ == (Area { x: x as int, y: y as int, w: at_least_one(w as int), h: at_least_one(h as int) }),
            r@.wf(),
    {
        Rect { x, y, w: if w < 1 { 1 } else { w }, h: if h < 1 { 1 } else { h } }
    }

    /// The rectangle that a geometry reply reports in its 16-bit fields, taken
    /// as it is.
    pub fn from_wire(x: i16, y: i16, w: u16, h: u16) -> (r: Rect)
        ensures
            r@ == (Area { x: x as int, y: y as int, w: w as int, h: h as int }),
            r@.on_wire(),
    {
        Rect { x: x as i32, y: y as i32, w: w as u32, h: h as u32 }
    }

    /// The top-left corner.
    pub fn origin(&self) -> (p: Point)
        ensures
            p@ == self@.origin(),
    {
        Point { x: self.x, y: self.y }
    }

    /// Whether `p` lies inside the rectangle.
    pub fn contains(&self, p: &Point) -> (inside: bool)
        ensures
            inside == self@.contains(p@),
    {
        let px: i64 = p.x as i64;
        let py: i64 = p.y as i64;
        let left: i64 = self.x as i64;
        let top: i64 = self.y as i64;
        left <= px && px < left + self.w as i64 && top <= py && py < top + self.h as i64
    }

    /// The quadrant of the rectangle in which `p` falls.
    pub fn quadrant(&self, p: &Point) -> (q: Quadrant)
        ensures
            q == self@.quadrant(p@),
    {
        let left: bool = 2 * (p.x as i64 - self.x as i64) < self.w as i64;
        let top: bool = 2 * (p.y as i64 - self.y as i64) < self.h as i64;
        if top {
            if left {
                Quadrant::TopLeft
            } else {
                Quadrant::TopRight
            }
        } else {
            if left {
                Quadrant::BottomLeft
            } else {
                Quadrant::BottomRight
            }
        }
    }

    /// The rectangle after the corner `grabbed` has followed the pointer by
    /// `delta`.
    pub fn resized(&self, grabbed: Quadrant, delta: &Point) -> (r: Rect)
        requires
            self@.resized(grabbed, delta@).fits(),
        ensures
            r@ == self@.resized(grabbed, delta@),
            r == self@.resized(grabbed, delta@).to_rect(),
            r@.wf(),
    {
        let dx: i64 = delta.x as i64;
        let dy: i64 = delta.y as i64;
        let (x, w): (i64, i64) = match grabbed {
            Quadrant::TopLeft | Quadrant::BottomLeft => (self.x as i64 + dx, self.w as i64 - dx),
            Quadrant::TopRight | Quadrant::BottomRight => (self.x as i64, self.w as i64 + dx),
        };
        let (y, h): (i64, i64) = match grabbed {
            Quadrant::TopLeft | Quadrant::TopRight => (self.y as i64 + dy, self.h as i64 - dy),
            Quadrant::BottomLeft | Quadrant::BottomRight => (self.y as i64, self.h as i64 + dy),
        };
        let w: i64 = if w < 1 { 1 } else { w };
        let h: i64 = if h < 1 { 1 } else { h };
        Rect { x: x as i32, y: y as i32, w: w as u32, h: h as u32 }
    }
}

/// The target of a resize drag: the rectangle `initial`, whose corner nearest
/// to `anchor` has followed the pointer from `anchor` to `pointer`.
pub open spec fn drag_resize_target(initial: Area, anchor: Vector, pointer: Vector) -> Area {
    initial.resized(initial.quadrant(anchor), pointer.minus(anchor))
}

/// The target of a move drag: the origin of `initial`, displaced as the
/// pointer was from `anchor` to `pointer`.
pub open spec fn drag_move_target(initial: Area, anchor: Vector, pointer: Vector) -> Vector {
    initial.origin().plus(pointer.minus(anchor))
}

/// A drag between positions that events can report, of a rectangle that a
/// geometry reply can report, never leaves the range of a [`Rect`].
pub proof fn lemma_wire_drag_fits(initial: Area, anchor: Vector, pointer: Vector)
    requires
        initial.on_wire(),
        anchor.on_wire(),
        pointer.on_wire(),
    ensures
        pointer.minus(anchor).fits(),
        drag_move_target(initial, anchor, pointer).fits(),
        drag_resize_target(initial, anchor, pointer).fits(),
        drag_resize_target(initial, anchor, pointer).wf(),
{
}

/// A resize drag that begins in the top-left quadrant and leads to the right
/// and down shifts the origin as the pointer was displaced and shrinks each
/// extent by as much, down to one at the least. As long as neither extent has
/// been held at one, the bottom-right corner stays where it was.
pub proof fn lemma_top_left_drag_shrinks(initial: Area, anchor: Vector, pointer: Vector)
    requires
        initial.quadrant(anchor) == Quadrant::TopLeft,
        pointer.x > anchor.x,
        pointer.y > anchor.y,
    ensures
        ({
            let delta = pointer.minus(anchor);
            let target = drag_resize_target(initial, anchor, pointer);
            &&& target.origin() == initial.origin().plus(delta)
            &&& target.w == at_least_one(initial.w - delta.x)
            &&& target.h == at_least_one(initial.h - delta.y)
            &&& target.w <= at_least_one(initial.w)
            &&& target.h <= at_least_one(initial.h)
            &&& delta.x < initial.w && delta.y < initial.h ==> target.corner(Quadrant::BottomRight)
                == initial.corner(Quadrant::BottomRight)
        }),
{
}

/// A resize leaves the corner opposite to the grabbed one where it was, as
/// long as neither extent has been held at one.
pub proof fn lemma_resize_keeps_opposite_corner(initial: Area, grabbed: Quadrant, delta: Vector)
    requires
        (if grabbed.is_left() { initial.w - delta.x } else { initial.w + delta.x }) >= 1,
        (if grabbed.is_top() { initial.h - delta.y } else { initial.h + delta.y }) >= 1,
    ensures
        initial.resized(grabbed, delta).corner(grabbed.opposite()) == initial.corner(
            grabbed.opposite(),
        ),
{
}

/// A resize always gives a well-formed rectangle, and dragging by nothing
/// changes no well-formed rectangle.
pub proof fn lemma_resize_well_formed(initial: Area, grabbed: Quadrant, delta: Vector)
    ensures
        initial.resized(grabbed, delta).wf(),
        initial.wf() ==> initial.resized(grabbed, Vector { x: 0, y: 0 }) == initial,
{
}

} // verus!
