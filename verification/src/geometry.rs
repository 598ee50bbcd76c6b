//! Integer 2-D vectors and axis-aligned rectangles, the geometric ground
//! the simulation stands on. Coordinates are in subpixels (hundredths of a
//! pixel) throughout.

use vstd::prelude::*;

verus! {

/// Subpixels per pixel: the fixed-point scale of every coordinate, size and
/// speed in this crate.
pub const SUBPIXELS_PER_PIXEL: i64 = 100;

/// Upper bound on the magnitude of every configuration value and entity
/// size (about ten thousand pixels). Small enough that the products taken
/// by the spin rule stay far inside `i64`.
pub const GEOM_LIMIT: i64 = 0x10_0000;

/// Upper bound on the magnitude of a ball coordinate or velocity component
/// accepted by one simulation tick. Generous headroom (2^60): a tick moves
/// the ball by its velocity and may grow the velocity by bounded spin and
/// acceleration terms, all of which stay inside `i64` under this bound.
pub const SIM_LIMIT: i64 = 0x1000_0000_0000_0000;

/// A 2-D vector in subpixel units.
#[derive(Clone, Copy, Debug, PartialEq, Eq, Structural)]
pub struct Vec2i {
    pub x: i64,
    pub y: i64,
}

impl Vec2i {
    pub fn new(x: i64, y: i64) -> (v: Vec2i)
        ensures
            v.x == x,
            v.y == y,
    {
        Vec2i { x, y }
    }
}

/// An axis-aligned rectangle in subpixel units; `width` and `height` are
/// never negative.
#[derive(Clone, Copy, Debug, PartialEq, Eq, Structural)]
pub struct Rect {
    pub x: i64,
    pub y: i64,
    pub width: i64,
    pub height: i64,
}

/// Overlap of two axis-aligned boxes given by corner and size, stated over
/// unbounded integers. Boxes that merely share an edge do not overlap: all
/// four comparisons are strict.
pub open spec fn overlaps(
    ax: int, ay: int, aw: int, ah: int,
    bx: int, by: int, bw: int, bh: int,
) -> bool {
    &&& ax < bx + bw
    &&& bx < ax + aw
    &&& ay < by + bh
    &&& by < ay + ah
}

/// Two rectangles intersect when they overlap with positive extent on both
/// axes.
pub open spec fn rects_intersect(a: Rect, b: Rect) -> bool {
    overlaps(
        a.x as int, a.y as int, a.width as int, a.height as int,
        b.x as int, b.y as int, b.width as int, b.height as int,
    )
}

impl Rect {
    pub fn new(x: i64, y: i64, width: i64, height: i64) -> (r: Rect)
        ensures
            r == (Rect { x, y, width, height }),
    {
        Rect { x, y, width, height }
    }

    /// Strict-inequality intersection test: rectangles that merely share
    /// an edge do not intersect.
    pub fn intersects(&self, other: &Rect) -> (r: bool)
        requires
            0 <= self.width,
            0 <= self.height,
            0 <= other.width,
            0 <= other.height,
            self.x + self.width <= i64::MAX,
            self.y + self.height <= i64::MAX,
            other.x + other.width <= i64::MAX,
            other.y + other.height <= i64::MAX,
        ensures
            r == rects_intersect(*self, *other),
    {
        self.x < other.x + other.width
            && other.x < self.x + self.width
            && self.y < other.y + other.height
            && other.y < self.y + self.height
    }
}

} // verus!
