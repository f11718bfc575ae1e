//! Points and rectangles in screen space and in world space.
//!
//! Screen space counts whole pixels as the host reports them. World space is
//! screen space moved so that the centre of the viewport is the origin; an odd
//! extent has its centre at the pixel below the half.
//!
//! Contracts speak of [`Point`] and [`Rect`], which hold unbounded integers.
//! The executable types carry machine integers and are viewed as those.

use vstd::prelude::*;

verus! {

/// A position in the plane, as contracts speak of it.
pub struct Point {
    pub x: int,
    pub y: int,
}

/// An axis-aligned rectangle, as contracts speak of it. `top` is the larger y
/// and `right` the larger x of a normalized rectangle.
pub struct Rect {
    pub top: int,
    pub bottom: int,
    pub left: int,
    pub right: int,
}

impl Rect {
    /// The sides are the right way round.
    pub open spec fn normalized(self) -> bool {
        self.bottom <= self.top && self.left <= self.right
    }

    /// The smallest rectangle that holds both points.
    pub open spec fn spanning(a: Point, b: Point) -> Rect {
        Rect {
            top: if a.y >= b.y { a.y } else { b.y },
            bottom: if a.y <= b.y { a.y } else { b.y },
            left: if a.x <= b.x { a.x } else { b.x },
            right: if a.x >= b.x { a.x } else { b.x },
        }
    }

    /// The extent along x.
    pub open spec fn width(self) -> int {
        self.right - self.left
    }

    /// The extent along y.
    pub open spec fn height(self) -> int {
        self.top - self.bottom
    }

    /// The point lies inside the rectangle and on none of its sides.
    pub open spec fn encloses(self, p: Point) -> bool {
        self.left < p.x < self.right && self.bottom < p.y < self.top
    }
}

/// A pointer position in screen space.
#[derive(Clone, Copy, Debug, PartialEq, Eq, Structural)]
pub struct ScreenPoint {
    pub x: i32,
    pub y: i32,
}

impl View for ScreenPoint {
    type V = Point;

    open spec fn view(&self) -> Point {
        Point { x: self.x as int, y: self.y as int }
    }
}

/// A position in world space.
#[derive(Clone, Copy, Debug, PartialEq, Eq, Structural)]
pub struct WorldPoint {
    pub x: i64,
    pub y: i64,
}

impl View for WorldPoint {
    type V = Point;

    open spec fn view(&self) -> Point {
        Point { x: self.x as int, y: self.y as int }
    }
}

/// The extents of the window that the scene is shown in.
#[derive(Clone, Copy, Debug, PartialEq, Eq, Structural)]
pub struct Viewport {
    pub width: u32,
    pub height: u32,
}

impl Viewport {
    /// The screen position that world space takes as its origin.
    pub open spec fn center(self) -> Point {
        Point { x: self.width as int / 2, y: self.height as int / 2 }
    }

    /// Where a screen position lies in world space.
    pub open spec fn world_of(self, p: Point) -> Point {
        Point { x: p.x - self.center().x, y: p.y - self.center().y }
    }

    /// Where a screen rectangle lies in world space.
    pub open spec fn world_rect_of(self, r: Rect) -> Rect {
        Rect {
            top: r.top - self.center().y,
            bottom: r.bottom - self.center().y,
            left: r.left - self.center().x,
            right: r.right - self.center().x,
        }
    }

    /// Converts a screen position to world space.
    pub fn to_world(&self, p: ScreenPoint) -> (w: WorldPoint)
        ensures
            w@ == self.world_of(p@),
    {
        WorldPoint {
            x: p.x as i64 - (self.width / 2) as i64,
            y: p.y as i64 - (self.height / 2) as i64,
        }
    }
}

/// A normalized rectangle in screen space: the area that a drag covers.
#[derive(Clone, Copy, Debug, PartialEq, Eq, Structural)]
pub struct ScreenRect {
    top: i32,
    bottom: i32,
    left: i32,
    right: i32,
}

impl View for ScreenRect {
    type V = Rect;

    closed spec fn view(&self) -> Rect {
        Rect {
            top: self.top as int,
            bottom: self.bottom as int,
            left: self.left as int,
            right: self.right as int,
        }
    }
}

impl ScreenRect {
    /// Every value of this type is normalized.
    #[verifier::type_invariant]
    pub open spec fn well_formed(self) -> bool {
        self@.normalized()
    }

    /// Every side of a screen rectangle is a 32-bit coordinate.
    pub proof fn lemma_sides_in_range(self)
        ensures
            i32::MIN <= self@.top <= i32::MAX,
            i32::MIN <= self@.bottom <= i32::MAX,
            i32::MIN <= self@.left <= i32::MAX,
            i32::MIN <= self@.right <= i32::MAX,
    {
    }

    /// The rectangle between two corners, whichever way the drag went.
    pub fn from_corners(a: ScreenPoint, b: ScreenPoint) -> (r: ScreenRect)
        ensures
            r@ == Rect::spanning(a@, b@),
    {
        ScreenRect {
            top: if a.y >= b.y { a.y } else { b.y },
            bottom: if a.y <= b.y { a.y } else { b.y },
            left: if a.x <= b.x { a.x } else { b.x },
            right: if a.x >= b.x { a.x } else { b.x },
        }
    }

    /// The same rectangle in the world space of `viewport`.
    pub fn to_world(&self, viewport: Viewport) -> (b: BoundingBox)
        ensures
            b@ == viewport.world_rect_of(self@),
    {
        proof {
            use_type_invariant(self);
        }
        let cx: i64 = (viewport.width / 2) as i64;
        let cy: i64 = (viewport.height / 2) as i64;
        BoundingBox {
            top: self.top as i64 - cy,
            bottom: self.bottom as i64 - cy,
            left: self.left as i64 - cx,
            right: self.right as i64 - cx,
        }
    }

    /// The larger y.
    pub fn top(&self) -> (v: i32)
        ensures
            v == self@.top,
    {
        self.top
    }

    /// The smaller y.
    pub fn bottom(&self) -> (v: i32)
        ensures
            v == self@.bottom,
    {
        self.bottom
    }

    /// The smaller x.
    pub fn left(&self) -> (v: i32)
        ensures
            v == self@.left,
    {
        self.left
    }

    /// The larger x.
    pub fn right(&self) -> (v: i32)
        ensures
            v == self@.right,
    {
        self.right
    }
}

/// A normalized rectangle in world space, against which objects are tested.
#[derive(Clone, Copy, Debug, PartialEq, Eq, Structural)]
pub struct BoundingBox {
    top: i64,
    bottom: i64,
    left: i64,
    right: i64,
}

impl View for BoundingBox {
    type V = Rect;

    closed spec fn view(&self) -> Rect {
        Rect {
            top: self.top as int,
            bottom: self.bottom as int,
            left: self.left as int,
            right: self.right as int,
        }
    }
}

impl BoundingBox {
    /// Every value of this type is normalized.
    #[verifier::type_invariant]
    pub open spec fn well_formed(self) -> bool {
        self@.normalized()
    }

    /// The box between two corners given in world space.
    pub fn from_corners(a: WorldPoint, b: WorldPoint) -> (r: BoundingBox)
        ensures
            r@ == Rect::spanning(a@, b@),
    {
        BoundingBox {
            top: if a.y >= b.y { a.y } else { b.y },
            bottom: if a.y <= b.y { a.y } else { b.y },
            left: if a.x <= b.x { a.x } else { b.x },
            right: if a.x >= b.x { a.x } else { b.x },
        }
    }

    /// The hit test: whether `p` lies strictly inside the box. A point on a
    /// side is outside.
    pub fn contains(&self, p: WorldPoint) -> (hit: bool)
        ensures
            hit == self@.encloses(p@),
    {
        self.left < p.x && p.x < self.right && self.bottom < p.y && p.y < self.top
    }

    /// The larger y.
    pub fn top(&self) -> (v: i64)
        ensures
            v == self@.top,
    {
        self.top
    }

    /// The smaller y.
    pub fn bottom(&self) -> (v: i64)
        ensures
            v == self@.bottom,
    {
        self.bottom
    }

    /// The smaller x.
    pub fn left(&self) -> (v: i64)
        ensures
            v == self@.left,
    {
        self.left
    }

    /// The larger x.
    pub fn right(&self) -> (v: i64)
        ensures
            v == self@.right,
    {
        self.right
    }
}

/// Two corners span the same rectangle in either order.
pub proof fn lemma_spanning_symmetric(a: Point, b: Point)
    ensures
        Rect::spanning(a, b) == Rect::spanning(b, a),
{
}

/// The rectangle that two corners span is normalized, and its sides pass
/// through the corners.
pub proof fn lemma_spanning_normalized(a: Point, b: Point)
    ensures
        Rect::spanning(a, b).normalized(),
        Rect::spanning(a, b).left <= a.x <= Rect::spanning(a, b).right,
        Rect::spanning(a, b).left <= b.x <= Rect::spanning(a, b).right,
        Rect::spanning(a, b).bottom <= a.y <= Rect::spanning(a, b).top,
        Rect::spanning(a, b).bottom <= b.y <= Rect::spanning(a, b).top,
        Rect::spanning(a, b).width() == if a.x <= b.x { b.x - a.x } else { a.x - b.x },
        Rect::spanning(a, b).height() == if a.y <= b.y { b.y - a.y } else { a.y - b.y },
{
}

/// Moving a rectangle to world space keeps it normalized and keeps its
/// extents, and it is the rectangle that the moved corners span.
pub proof fn lemma_world_rect(viewport: Viewport, a: Point, b: Point)
    ensures
        viewport.world_rect_of(Rect::spanning(a, b)) == Rect::spanning(
            viewport.world_of(a),
            viewport.world_of(b),
        ),
        viewport.world_rect_of(Rect::spanning(a, b)).normalized(),
        viewport.world_rect_of(Rect::spanning(a, b)).width() == Rect::spanning(a, b).width(),
        viewport.world_rect_of(Rect::spanning(a, b)).height() == Rect::spanning(a, b).height(),
{
}

/// A point on any side of a rectangle, or on the line through a side, is not
/// enclosed by it.
pub proof fn lemma_sides_are_outside(r: Rect, p: Point)
    requires
        p.x == r.left || p.x == r.right || p.y == r.top || p.y == r.bottom,
    ensures
        !r.encloses(p),
{
}

/// A rectangle that is at most one unit wide or at most one unit high
/// encloses no point of the grid, wherever the viewport puts it. The rectangle
/// of a drag that ends where it began is such a rectangle.
pub proof fn lemma_empty_rect_encloses_nothing(r: Rect, viewport: Viewport, p: Point)
    requires
        r.width() <= 1 || r.height() <= 1,
    ensures
        !r.encloses(p),
        !viewport.world_rect_of(r).encloses(p),
{
}

/// The rectangle of a drag that ends where it began has no extent.
pub proof fn lemma_point_drag_is_empty(a: Point)
    ensures
        Rect::spanning(a, a).width() == 0,
        Rect::spanning(a, a).height() == 0,
{
}

} // verus!
