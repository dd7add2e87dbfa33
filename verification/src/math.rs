//! Axis-aligned rectangles over integer scene coordinates, and the
//! truncating fixed-point division the rest of the crate computes with.

use vstd::prelude::*;

verus! {

/// Fixed-point unit: values such as zoom, device-pixel ratio, scale and
/// opacity are stored in thousandths, so `1000` stands for `1.0`.
pub const MILLI: u32 = 1000;

/// Largest magnitude allowed for a scene coordinate (rectangle edges,
/// translations, pan offsets).
pub const COORD_MAX: i64 = 1_000_000_000;

/// Truncating division (rounds toward zero), the rounding used for every
/// fixed-point computation in this crate.
pub open spec fn tdiv(a: int, b: int) -> int {
    if a >= 0 {
        a / b
    } else {
        -((-a) / b)
    }
}

/// Truncating division of a possibly negative value by a positive divisor.
pub fn div_trunc(a: i64, d: u64) -> (r: i64)
    requires
        1 <= d,
        -i64::MAX <= a,
    ensures
        r == tdiv(a as int, d as int),
        a >= 0 ==> 0 <= r <= a,
        a < 0 ==> a <= r <= 0,
{
    if a >= 0 {
        let q: u64 = (a as u64) / d;
        proof {
            assert(q <= a as u64) by (nonlinear_arith)
                requires
                    q == (a as u64) / d,
                    d >= 1,
            ;
        }
        q as i64
    } else {
        let n: u64 = (-a) as u64;
        let q: u64 = n / d;
        proof {
            assert(q <= n) by (nonlinear_arith)
                requires
                    q == n / d,
                    d >= 1,
            ;
        }
        -(q as i64)
    }
}

/// An axis-aligned rectangle: left/top and right/bottom edges in scene
/// coordinates. A rectangle with `x2 <= x1` or `y2 <= y1` is empty.
#[derive(Clone, Copy, PartialEq, Eq, Structural, Debug)]
pub struct Rect {
    pub x1: i64,
    pub y1: i64,
    pub x2: i64,
    pub y2: i64,
}

impl Rect {
    /// All edges within the coordinate budget, so that midpoints and scaled
    /// copies can be computed without overflow.
    pub open spec fn bounded(self) -> bool {
        &&& -COORD_MAX <= self.x1 <= COORD_MAX
        &&& -COORD_MAX <= self.y1 <= COORD_MAX
        &&& -COORD_MAX <= self.x2 <= COORD_MAX
        &&& -COORD_MAX <= self.y2 <= COORD_MAX
    }

    pub open spec fn spec_is_empty(self) -> bool {
        self.x2 <= self.x1 || self.y2 <= self.y1
    }

    /// Whether `self` fully contains `other`. Empty rectangles contain
    /// nothing and are contained in nothing.
    pub open spec fn spec_contains(self, other: Rect) -> bool {
        &&& !self.spec_is_empty()
        &&& !other.spec_is_empty()
        &&& self.x1 <= other.x1
        &&& self.y1 <= other.y1
        &&& other.x2 <= self.x2
        &&& other.y2 <= self.y2
    }

    /// Whether `self` and `other` overlap in a region of positive area.
    pub open spec fn spec_intersects(self, other: Rect) -> bool {
        &&& self.x1 < other.x2
        &&& other.x1 < self.x2
        &&& self.y1 < other.y2
        &&& other.y1 < self.y2
    }

    pub fn from_ltrb(x1: i64, y1: i64, x2: i64, y2: i64) -> (r: Rect)
        ensures
            r == (Rect { x1, y1, x2, y2 }),
    {
        Rect { x1, y1, x2, y2 }
    }

    pub fn is_empty(&self) -> (r: bool)
        ensures
            r == self.spec_is_empty(),
    {
        self.x2 <= self.x1 || self.y2 <= self.y1
    }

    pub fn contains(&self, other: &Rect) -> (r: bool)
        ensures
            r == self.spec_contains(*other),
    {
        !self.is_empty() && !other.is_empty() && self.x1 <= other.x1 && self.y1 <= other.y1
            && other.x2 <= self.x2 && other.y2 <= self.y2
    }

    pub fn intersects(&self, other: &Rect) -> (r: bool)
        ensures
            r == self.spec_intersects(*other),
    {
        self.x1 < other.x2 && other.x1 < self.x2 && self.y1 < other.y2 && other.y1 < self.y2
    }

    /// Midpoint of the horizontal edges, truncated toward zero.
    pub open spec fn spec_center_x(self) -> int {
        tdiv(self.x1 + self.x2, 2)
    }

    /// Midpoint of the vertical edges, truncated toward zero.
    pub open spec fn spec_center_y(self) -> int {
        tdiv(self.y1 + self.y2, 2)
    }

    pub fn center(&self) -> (c: (i64, i64))
        requires
            self.bounded(),
        ensures
            c.0 == self.spec_center_x(),
            c.1 == self.spec_center_y(),
            -COORD_MAX <= c.0 <= COORD_MAX,
            -COORD_MAX <= c.1 <= COORD_MAX,
    {
        let cx: i64 = div_trunc(self.x1 + self.x2, 2);
        let cy: i64 = div_trunc(self.y1 + self.y2, 2);
        proof {
            lemma_tdiv_bound(self.x1 + self.x2, 2, 2 * COORD_MAX);
            lemma_tdiv_bound(self.y1 + self.y2, 2, 2 * COORD_MAX);
        }
        (cx, cy)
    }
}

/// Truncating division never grows the magnitude of the dividend.
pub proof fn lemma_tdiv_bound(a: int, b: int, m: int)
    requires
        b >= 1,
        0 <= m,
        -m <= a <= m,
    ensures
        -m <= tdiv(a, b) <= m,
        -m <= b * tdiv(a, b) <= m,
        b >= 2 ==> -m <= 2 * tdiv(a, b) <= m + 1,
{
    if a >= 0 {
        assert(0 <= a / b <= a && 0 <= b * (a / b) <= a) by (nonlinear_arith)
            requires
                b >= 1,
                a >= 0,
        ;
        if b >= 2 {
            assert(2 * (a / b) <= a + 1) by (nonlinear_arith)
                requires
                    b >= 2,
                    a >= 0,
            ;
        }
    } else {
        let q = (-a) / b;
        assert(0 <= q <= -a && 0 <= b * q <= -a) by (nonlinear_arith)
            requires
                b >= 1,
                a < 0,
                q == (-a) / b,
        ;
        assert(b * (-q) == -(b * q)) by (nonlinear_arith);
        if b >= 2 {
            assert(2 * ((-a) / b) <= -a) by (nonlinear_arith)
                requires
                    b >= 2,
                    a < 0,
            ;
        }
    }
}

} // verus!
