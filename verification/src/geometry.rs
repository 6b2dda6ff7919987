//! Points, rectangles and the arithmetic that keeps them inside `i64`.

use vstd::prelude::*;

verus! {

/// A point or a displacement in the plane.
#[derive(Clone, Copy, Debug, PartialEq, Eq, Structural)]
pub struct Vec2 {
    pub x: i64,
    pub y: i64,
}

/// The `i64` nearest to `v`: `v` itself where it fits, else the end of the
/// range on the side where `v` lies.
pub open spec fn saturate(v: int) -> i64 {
    if v < i64::MIN {
        i64::MIN
    } else if v > i64::MAX {
        i64::MAX
    } else {
        v as i64
    }
}

/// `v` mirrored at zero. The one value without a mirror image in `i64`, the
/// smallest, goes to the largest.
pub open spec fn reflect(v: i64) -> i64 {
    saturate(-v)
}

/// `v` moved into `[lo, hi]`: the nearer end where it lies outside.
pub open spec fn clamp(v: int, lo: int, hi: int) -> int
    recommends
        lo <= hi,
{
    if v < lo {
        lo
    } else if v > hi {
        hi
    } else {
        v
    }
}

/// Narrows a wide intermediate result to `i64`, stopping at the ends of the
/// range.
pub fn saturating(v: i128) -> (r: i64)
    ensures
        r == saturate(v as int),
{
    if v < i64::MIN as i128 {
        i64::MIN
    } else if v > i64::MAX as i128 {
        i64::MAX
    } else {
        v as i64
    }
}

/// Reverses a velocity component.
pub fn reflected(v: i64) -> (r: i64)
    ensures
        r == reflect(v),
        v > i64::MIN ==> r == -v,
{
    saturating(-(v as i128))
}

/// Half of `v`, rounded down.
pub fn half(v: i64) -> (r: i64)
    ensures
        r == v as int / 2,
{
    if v >= 0 {
        v / 2
    } else {
        (((v as i128) - 1) / 2) as i64
    }
}

/// An axis-aligned rectangle, given by its top-left corner and its size.
#[derive(Clone, Copy, Debug, PartialEq, Eq, Structural)]
pub struct Rect {
    pub x: i64,
    pub y: i64,
    pub width: i64,
    pub height: i64,
}

impl Rect {
    /// Whether the two rectangles share inner area. The comparison is strict
    /// on both axes: rectangles that only touch along an edge or at a corner
    /// do not overlap.
    pub open spec fn overlaps(self, other: Rect) -> bool {
        &&& self.x < other.x + other.width
        &&& self.x + self.width > other.x
        &&& self.y < other.y + other.height
        &&& self.y + self.height > other.y
    }

    /// The rectangle with corner `pos` and extent `size`.
    pub fn from_vec(pos: Vec2, size: Vec2) -> (r: Rect)
        ensures
            r == (Rect { x: pos.x, y: pos.y, width: size.x, height: size.y }),
    {
        Rect { x: pos.x, y: pos.y, width: size.x, height: size.y }
    }

    /// Tests two rectangles for overlap, for every corner and size that
    /// `i64` can hold.
    pub fn intersects(&self, other: &Rect) -> (hit: bool)
        ensures
            hit == self.overlaps(*other),
    {
        (self.x as i128) < other.x as i128 + other.width as i128
            && self.x as i128 + self.width as i128 > other.x as i128
            && (self.y as i128) < other.y as i128 + other.height as i128
            && self.y as i128 + self.height as i128 > other.y as i128
    }
}

/// Intersection is strict: two rectangles of which one ends exactly where the
/// other begins, on either axis, do not intersect, whichever of the two is
/// asked.
pub proof fn lemma_touching_rects_do_not_intersect(a: Rect, b: Rect)
    requires
        a.x + a.width == b.x || b.x + b.width == a.x || a.y + a.height == b.y || b.y + b.height
            == a.y,
    ensures
        !a.overlaps(b),
        !b.overlaps(a),
{
}

/// Reversing a speed keeps its size and changes its sign, for every speed
/// but the smallest `i64`; reversing twice gives the speed back.
pub proof fn lemma_reflect(v: i64)
    ensures
        v > i64::MIN ==> reflect(v) == -v && reflect(reflect(v)) == v,
        v < 0 <==> reflect(v) > 0,
        v > 0 <==> reflect(v) < 0,
{
}

} // verus!
