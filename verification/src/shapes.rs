//! The shapes a scene can fill or stroke, in layout units.

use vstd::prelude::*;
use crate::prim::Point;

verus! {

/// A circle around `(cx, cy)`.
#[derive(Clone, Copy, Debug, PartialEq, Eq, Structural)]
pub struct Circle {
    pub cx: i64,
    pub cy: i64,
    pub radius: i64,
}

impl Circle {
    pub fn new(cx: i64, cy: i64, radius: i64) -> (out: Circle)
        ensures
            out == (Circle { cx, cy, radius }),
    {
        Circle { cx, cy, radius }
    }
}

/// A rectangle between the corners `(x0, y0)` and `(x1, y1)`.
#[derive(Clone, Copy, Debug, PartialEq, Eq, Structural)]
pub struct Rect {
    pub x0: i64,
    pub y0: i64,
    pub x1: i64,
    pub y1: i64,
}

impl Rect {
    /// The rectangle with corner `(x, y)` and the given extent.
    pub fn new(x: i64, y: i64, width: i64, height: i64) -> (out: Rect)
        requires
            i64::MIN <= x + width <= i64::MAX,
            i64::MIN <= y + height <= i64::MAX,
        ensures
            out.x0 == x,
            out.y0 == y,
            out.x1 == x + width,
            out.y1 == y + height,
    {
        Rect { x0: x, y0: y, x1: x + width, y1: y + height }
    }

    /// The rectangle between two corners.
    pub fn abs(x0: i64, y0: i64, x1: i64, y1: i64) -> (out: Rect)
        ensures
            out == (Rect { x0, y0, x1, y1 }),
    {
        Rect { x0, y0, x1, y1 }
    }
}

/// A rectangle whose four corners are rounded with one radius.
#[derive(Clone, Copy, Debug, PartialEq, Eq, Structural)]
pub struct RoundedRect {
    pub x0: i64,
    pub y0: i64,
    pub x1: i64,
    pub y1: i64,
    pub radius: i64,
}

impl RoundedRect {
    /// The rounded rectangle with corner `(x, y)` and the given extent.
    pub fn new(x: i64, y: i64, width: i64, height: i64, radius: i64) -> (out: RoundedRect)
        requires
            i64::MIN <= x + width <= i64::MAX,
            i64::MIN <= y + height <= i64::MAX,
        ensures
            out.x0 == x,
            out.y0 == y,
            out.x1 == x + width,
            out.y1 == y + height,
            out.radius == radius,
    {
        RoundedRect { x0: x, y0: y, x1: x + width, y1: y + height, radius }
    }

    /// The rounded rectangle between two corners.
    pub fn abs(x0: i64, y0: i64, x1: i64, y1: i64, radius: i64) -> (out: RoundedRect)
        ensures
            out == (RoundedRect { x0, y0, x1, y1, radius }),
    {
        RoundedRect { x0, y0, x1, y1, radius }
    }
}

/// One step of an outline.
#[derive(Clone, Copy, Debug, PartialEq, Eq, Structural)]
pub enum PathElement {
    /// Begin a new part of the outline at a point.
    MoveTo(Point),
    /// A straight line to a point.
    LineTo(Point),
    /// A quadratic curve by a control point to a point.
    QuadTo(Point, Point),
    /// A cubic curve by two control points to a point.
    CurveTo(Point, Point, Point),
    /// A straight line back to where the part began.
    ClosePath,
}

/// Every shape a draw operation can carry. Nothing is checked: a shape
/// without area is kept as it is and rasterizes to nothing.
#[derive(Clone, Debug, PartialEq, Eq)]
pub enum Shape {
    Circle(Circle),
    Rect(Rect),
    RoundedRect(RoundedRect),
    /// An outline given step by step.
    Path(Vec<PathElement>),
}

/// What a shape holds, an outline as a sequence of its steps.
pub enum ShapeView {
    Circle(Circle),
    Rect(Rect),
    RoundedRect(RoundedRect),
    Path(Seq<PathElement>),
}

impl View for Shape {
    type V = ShapeView;

    open spec fn view(&self) -> ShapeView {
        match self {
            Shape::Circle(circle) => ShapeView::Circle(*circle),
            Shape::Rect(rect) => ShapeView::Rect(*rect),
            Shape::RoundedRect(rect) => ShapeView::RoundedRect(*rect),
            Shape::Path(elements) => ShapeView::Path(elements@),
        }
    }
}

/// A copy of a list of values that are copied bit by bit.
pub fn copy_vec<T: Copy>(values: &Vec<T>) -> (out: Vec<T>)
    ensures
        out@ == values@,
{
    let mut out: Vec<T> = Vec::new();
    let mut i: usize = 0;
    while i < values.len()
        invariant
            i <= values@.len(),
            out@ == values@.subrange(0, i as int),
        decreases values@.len() - i,
    {
        out.push(values[i]);
        assert(out@ =~= values@.subrange(0, i + 1));
        i += 1;
    }
    assert(values@.subrange(0, values@.len() as int) =~= values@);
    out
}

impl Shape {
    /// A copy of the shape.
    pub fn copy(&self) -> (out: Shape)
        ensures
            out@ == self@,
    {
        match self {
            Shape::Circle(circle) => Shape::Circle(*circle),
            Shape::Rect(rect) => Shape::Rect(*rect),
            Shape::RoundedRect(rect) => Shape::RoundedRect(*rect),
            Shape::Path(elements) => Shape::Path(copy_vec(elements)),
        }
    }
}

} // verus!
