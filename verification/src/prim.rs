//! Points, sizes, boxes and transforms in integer layout units.

use vstd::prelude::*;
use vstd::std_specs::convert::FromSpecImpl;

verus! {

/// Half of `x`, rounded toward zero.
pub open spec fn half(x: int) -> int {
    if x >= 0 {
        x / 2
    } else {
        -((-x) / 2)
    }
}

/// The smaller of two integers.
pub open spec fn min_int(a: int, b: int) -> int {
    if a <= b {
        a
    } else {
        b
    }
}

/// A position in layout units.
#[derive(Clone, Copy, Debug, PartialEq, Eq, Structural)]
pub struct Point {
    pub x: i64,
    pub y: i64,
}

/// A size: in pixels where it is that of a window, a surface or an image,
/// in layout units where it is that of a box.
#[derive(Clone, Copy, Debug, PartialEq, Eq, Structural)]
pub struct Dimensions {
    pub width: i64,
    pub height: i64,
}

impl Dimensions {
    pub fn new(width: i64, height: i64) -> (out: Dimensions)
        ensures
            out.width == width,
            out.height == height,
    {
        Dimensions { width, height }
    }

    pub fn zero() -> (out: Dimensions)
        ensures
            out.width == 0,
            out.height == 0,
    {
        Dimensions { width: 0, height: 0 }
    }

    pub fn is_zero(&self) -> (out: bool)
        ensures
            out <==> self.width == 0 && self.height == 0,
    {
        self.width == 0 && self.height == 0
    }

    /// The size in whole pixels of a surface: each side cut to the range of
    /// `u32`, negative sides becoming zero.
    pub open spec fn clamped(self) -> (u32, u32) {
        (clamp_u32(self.width as int), clamp_u32(self.height as int))
    }

    pub fn to_pixels(&self) -> (out: (u32, u32))
        ensures
            out == self.clamped(),
    {
        (clamp_to_u32(self.width), clamp_to_u32(self.height))
    }
}

/// `v` cut to the range of `u32`.
pub open spec fn clamp_u32(v: int) -> u32 {
    if v < 0 {
        0u32
    } else if v > u32::MAX {
        u32::MAX
    } else {
        v as u32
    }
}

pub fn clamp_to_u32(v: i64) -> (out: u32)
    ensures
        out == clamp_u32(v as int),
{
    if v < 0 {
        0
    } else if v > 0xffff_ffff {
        u32::MAX
    } else {
        v as u32
    }
}

/// An axis-aligned box: the region text is laid out in, and the extent a
/// layout is measured to have.
#[derive(Clone, Copy, Debug, PartialEq, Eq, Structural)]
pub struct BoundingBox {
    pub x: i64,
    pub y: i64,
    pub width: i64,
    pub height: i64,
}

impl BoundingBox {
    pub fn new(x: i64, y: i64, width: i64, height: i64) -> (out: BoundingBox)
        ensures
            out == (BoundingBox { x, y, width, height }),
    {
        BoundingBox { x, y, width, height }
    }

    pub fn point(&self) -> (out: Point)
        ensures
            out == (Point { x: self.x, y: self.y }),
    {
        Point { x: self.x, y: self.y }
    }

    pub fn dimensions(&self) -> (out: Dimensions)
        ensures
            out == (Dimensions { width: self.width, height: self.height }),
    {
        Dimensions { width: self.width, height: self.height }
    }
}

/// One in the fixed-point scale of a transform's linear part.
pub const AFFINE_ONE: i64 = 65536;

/// An affine transform. The linear part (`xx`, `yx`, `xy`, `yy`) is in
/// sixteen-bit fixed point, the translation (`dx`, `dy`) in layout units. It
/// maps `(x, y)` to `(xx*x + xy*y + dx, yx*x + yy*y + dy)`.
#[derive(Clone, Copy, Debug, PartialEq, Eq, Structural)]
pub struct Affine {
    pub xx: i64,
    pub yx: i64,
    pub xy: i64,
    pub yy: i64,
    pub dx: i64,
    pub dy: i64,
}

impl Affine {
    /// The transform that moves nothing.
    pub open spec fn identity() -> Affine {
        Affine { xx: AFFINE_ONE, yx: 0, xy: 0, yy: AFFINE_ONE, dx: 0, dy: 0 }
    }

    pub fn new() -> (out: Affine)
        ensures
            out == Affine::identity(),
    {
        Affine { xx: AFFINE_ONE, yx: 0, xy: 0, yy: AFFINE_ONE, dx: 0, dy: 0 }
    }

    /// This transform followed by a move by `(x, y)`.
    pub fn translate(&self, x: i64, y: i64) -> (out: Affine)
        requires
            i64::MIN <= self.dx + x <= i64::MAX,
            i64::MIN <= self.dy + y <= i64::MAX,
        ensures
            out == (Affine { dx: (self.dx + x) as i64, dy: (self.dy + y) as i64, ..*self }),
    {
        Affine { xx: self.xx, yx: self.yx, xy: self.xy, yy: self.yy, dx: self.dx + x, dy: self.dy + y }
    }

    /// This transform with its translation replaced by `(x, y)`.
    pub fn translate_abs(&self, x: i64, y: i64) -> (out: Affine)
        ensures
            out == (Affine { dx: x, dy: y, ..*self }),
    {
        Affine { xx: self.xx, yx: self.yx, xy: self.xy, yy: self.yy, dx: x, dy: y }
    }

    /// Where the transform sends the origin.
    pub fn translation(&self) -> (out: (i64, i64))
        ensures
            out == (self.dx, self.dy),
    {
        (self.dx, self.dy)
    }
}

/// A displacement in layout units.
#[derive(Clone, Copy, Debug, PartialEq, Eq, Structural)]
pub struct Vec2 {
    pub x: i64,
    pub y: i64,
}

impl From<(i32, i32)> for Dimensions {
    fn from(pair: (i32, i32)) -> (out: Dimensions) {
        Dimensions { width: pair.0 as i64, height: pair.1 as i64 }
    }
}

impl FromSpecImpl<(i32, i32)> for Dimensions {
    open spec fn obeys_from_spec() -> bool {
        true
    }

    open spec fn from_spec(pair: (i32, i32)) -> Dimensions {
        Dimensions { width: pair.0 as i64, height: pair.1 as i64 }
    }
}

impl From<(u32, u32)> for Dimensions {
    fn from(pair: (u32, u32)) -> (out: Dimensions) {
        Dimensions { width: pair.0 as i64, height: pair.1 as i64 }
    }
}

impl FromSpecImpl<(u32, u32)> for Dimensions {
    open spec fn obeys_from_spec() -> bool {
        true
    }

    open spec fn from_spec(pair: (u32, u32)) -> Dimensions {
        Dimensions { width: pair.0 as i64, height: pair.1 as i64 }
    }
}

impl From<(i64, i64)> for Dimensions {
    fn from(pair: (i64, i64)) -> (out: Dimensions) {
        Dimensions { width: pair.0 as i64, height: pair.1 as i64 }
    }
}

impl FromSpecImpl<(i64, i64)> for Dimensions {
    open spec fn obeys_from_spec() -> bool {
        true
    }

    open spec fn from_spec(pair: (i64, i64)) -> Dimensions {
        Dimensions { width: pair.0 as i64, height: pair.1 as i64 }
    }
}

impl From<(i32, i32)> for Point {
    fn from(pair: (i32, i32)) -> (out: Point) {
        Point { x: pair.0 as i64, y: pair.1 as i64 }
    }
}

impl FromSpecImpl<(i32, i32)> for Point {
    open spec fn obeys_from_spec() -> bool {
        true
    }

    open spec fn from_spec(pair: (i32, i32)) -> Point {
        Point { x: pair.0 as i64, y: pair.1 as i64 }
    }
}

impl From<(i32, i32)> for Vec2 {
    fn from(pair: (i32, i32)) -> (out: Vec2) {
        Vec2 { x: pair.0 as i64, y: pair.1 as i64 }
    }
}

impl FromSpecImpl<(i32, i32)> for Vec2 {
    open spec fn obeys_from_spec() -> bool {
        true
    }

    open spec fn from_spec(pair: (i32, i32)) -> Vec2 {
        Vec2 { x: pair.0 as i64, y: pair.1 as i64 }
    }
}

impl From<(i64, i64)> for Point {
    fn from(pair: (i64, i64)) -> (out: Point) {
        Point { x: pair.0 as i64, y: pair.1 as i64 }
    }
}

impl FromSpecImpl<(i64, i64)> for Point {
    open spec fn obeys_from_spec() -> bool {
        true
    }

    open spec fn from_spec(pair: (i64, i64)) -> Point {
        Point { x: pair.0 as i64, y: pair.1 as i64 }
    }
}

impl From<(i64, i64)> for Vec2 {
    fn from(pair: (i64, i64)) -> (out: Vec2) {
        Vec2 { x: pair.0 as i64, y: pair.1 as i64 }
    }
}

impl FromSpecImpl<(i64, i64)> for Vec2 {
    open spec fn obeys_from_spec() -> bool {
        true
    }

    open spec fn from_spec(pair: (i64, i64)) -> Vec2 {
        Vec2 { x: pair.0 as i64, y: pair.1 as i64 }
    }
}

impl From<Vec2> for Point {
    fn from(vec: Vec2) -> (out: Point) {
        Point { x: vec.x, y: vec.y }
    }
}

impl FromSpecImpl<Vec2> for Point {
    open spec fn obeys_from_spec() -> bool {
        true
    }

    open spec fn from_spec(vec: Vec2) -> Point {
        Point { x: vec.x, y: vec.y }
    }
}

impl From<Point> for Vec2 {
    fn from(point: Point) -> (out: Vec2) {
        Vec2 { x: point.x, y: point.y }
    }
}

impl FromSpecImpl<Point> for Vec2 {
    open spec fn obeys_from_spec() -> bool {
        true
    }

    open spec fn from_spec(point: Point) -> Vec2 {
        Vec2 { x: point.x, y: point.y }
    }
}

impl From<Dimensions> for (u32, u32) {
    fn from(dim: Dimensions) -> (out: (u32, u32)) {
        dim.to_pixels()
    }
}

impl FromSpecImpl<Dimensions> for (u32, u32) {
    open spec fn obeys_from_spec() -> bool {
        true
    }

    open spec fn from_spec(dim: Dimensions) -> (u32, u32) {
        dim.clamped()
    }
}

impl From<(i64, i64, i64, i64)> for BoundingBox {
    fn from(tup: (i64, i64, i64, i64)) -> (out: BoundingBox) {
        BoundingBox { x: tup.0, y: tup.1, width: tup.2, height: tup.3 }
    }
}

impl FromSpecImpl<(i64, i64, i64, i64)> for BoundingBox {
    open spec fn obeys_from_spec() -> bool {
        true
    }

    open spec fn from_spec(tup: (i64, i64, i64, i64)) -> BoundingBox {
        BoundingBox { x: tup.0, y: tup.1, width: tup.2, height: tup.3 }
    }
}

} // verus!
