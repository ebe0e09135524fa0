//! Integer vectors and axis-aligned rectangles.
//!
//! The coordinate system has (0, 0) at the top left, x growing rightward and
//! y growing downward. A rectangle stores its top-left corner inclusive and
//! its bottom-right corner exclusive: the rectangle with corners (10, 10) and
//! (12, 12) covers the points (10, 10), (10, 11), (11, 10) and (11, 11) only.

use vstd::prelude::*;

verus! {

/// A pair of signed integer coordinates.
#[derive(Clone, Copy, PartialEq, Eq, Structural, Debug)]
pub struct Vec2i {
    pub x: i32,
    pub y: i32,
}

/// An axis-aligned rectangle: `top_left` inclusive, `bottom_right` exclusive.
#[derive(Clone, Copy, PartialEq, Eq, Structural, Debug)]
pub struct Rect {
    pub top_left: Vec2i,
    pub bottom_right: Vec2i,
}

/// Both sides of the rectangle are strictly positive. Containment and
/// intersection queries are only reliable on rectangles of positive size.
pub open spec fn spec_positive_size(r: Rect) -> bool {
    r.top_left.x < r.bottom_right.x && r.top_left.y < r.bottom_right.y
}

/// The point `p` lies inside `r`: at or right/below the top-left corner and
/// strictly left/above the exclusive bottom-right corner.
pub open spec fn spec_contains_point(r: Rect, p: Vec2i) -> bool {
    &&& r.top_left.x <= p.x < r.bottom_right.x
    &&& r.top_left.y <= p.y < r.bottom_right.y
}

/// Every point of `b` lies in `a`: the corners of `b` are bracketed by the
/// corners of `a`, component-wise.
pub open spec fn spec_encloses(a: Rect, b: Rect) -> bool {
    &&& a.top_left.x <= b.top_left.x
    &&& a.top_left.y <= b.top_left.y
    &&& a.bottom_right.x >= b.bottom_right.x
    &&& a.bottom_right.y >= b.bottom_right.y
}

/// The four-corner overlap test: `b` intersects `a` when one of the four
/// corners of `b`, taken with the inclusive inner bottom-right corner
/// `bottom_right - (1, 1)`, lies inside `a`. This is the test the collision
/// engine runs on; it can misreport overlap for rectangles of
/// zero or negative size, so entities must keep positive size. It is exact
/// whenever `b` is at most as large as `a` on both axes.
pub open spec fn spec_intersects(a: Rect, b: Rect) -> bool {
    ||| spec_contains_point(a, b.top_left)
    ||| spec_contains_point(
        a,
        Vec2i { x: (b.bottom_right.x - 1) as i32, y: (b.bottom_right.y - 1) as i32 },
    )
    ||| spec_contains_point(a, Vec2i { x: b.top_left.x, y: (b.bottom_right.y - 1) as i32 })
    ||| spec_contains_point(a, Vec2i { x: (b.bottom_right.x - 1) as i32, y: b.top_left.y })
}

/// `r` translated by `v`.
pub open spec fn spec_offset(r: Rect, v: Vec2i) -> Rect {
    Rect {
        top_left: Vec2i {
            x: (r.top_left.x + v.x) as i32,
            y: (r.top_left.y + v.y) as i32,
        },
        bottom_right: Vec2i {
            x: (r.bottom_right.x + v.x) as i32,
            y: (r.bottom_right.y + v.y) as i32,
        },
    }
}

/// The integer midpoint of `r`, rounding each axis down (floor division).
pub open spec fn spec_center(r: Rect) -> Vec2i {
    Vec2i {
        x: ((r.top_left.x + r.bottom_right.x) / 2) as i32,
        y: ((r.top_left.y + r.bottom_right.y) / 2) as i32,
    }
}

/// The rectangle of size `size` placed so that its midpoint is biased toward
/// the upper left of `center`: `bottom_right = center + size / 2` and
/// `top_left = bottom_right - size`.
pub open spec fn spec_centered_at(center: Vec2i, size: Vec2i) -> Rect {
    Rect {
        top_left: Vec2i {
            x: (center.x + size.x / 2 - size.x) as i32,
            y: (center.y + size.y / 2 - size.y) as i32,
        },
        bottom_right: Vec2i {
            x: (center.x + size.x / 2) as i32,
            y: (center.y + size.y / 2) as i32,
        },
    }
}

impl Rect {
    /// A rectangle from its two corners.
    pub fn new(top_left: Vec2i, bottom_right: Vec2i) -> (r: Rect)
        ensures
            r == (Rect { top_left, bottom_right }),
    {
        Rect { top_left, bottom_right }
    }

    /// Whether the point `p` lies inside this rectangle.
    pub fn contains_point(&self, p: Vec2i) -> (r: bool)
        ensures
            r == spec_contains_point(*self, p),
    {
        self.top_left.x <= p.x && p.x < self.bottom_right.x && self.top_left.y <= p.y
            && p.y < self.bottom_right.y
    }

    /// Whether every point of `b` lies in this rectangle.
    pub fn encloses(&self, b: Rect) -> (r: bool)
        ensures
            r == spec_encloses(*self, b),
    {
        self.top_left.x <= b.top_left.x && self.top_left.y <= b.top_left.y
            && self.bottom_right.x >= b.bottom_right.x && self.bottom_right.y >= b.bottom_right.y
    }

    /// The four-corner overlap test against `b`; see [`spec_intersects`] for
    /// its exact meaning and its limits on degenerate rectangles.
    pub fn intersects(&self, b: Rect) -> (r: bool)
        requires
            b.bottom_right.x > i32::MIN,
            b.bottom_right.y > i32::MIN,
        ensures
            r == spec_intersects(*self, b),
    {
        let inner = Vec2i { x: b.bottom_right.x - 1, y: b.bottom_right.y - 1 };
        self.contains_point(b.top_left) || self.contains_point(inner) || self.contains_point(
            Vec2i { x: b.top_left.x, y: inner.y },
        ) || self.contains_point(Vec2i { x: inner.x, y: b.top_left.y })
    }

    /// This rectangle translated by `v`.
    pub fn offset(&self, v: Vec2i) -> (r: Rect)
        requires
            i32::MIN <= self.top_left.x + v.x <= i32::MAX,
            i32::MIN <= self.top_left.y + v.y <= i32::MAX,
            i32::MIN <= self.bottom_right.x + v.x <= i32::MAX,
            i32::MIN <= self.bottom_right.y + v.y <= i32::MAX,
        ensures
            r == spec_offset(*self, v),
    {
        Rect {
            top_left: Vec2i { x: self.top_left.x + v.x, y: self.top_left.y + v.y },
            bottom_right: Vec2i {
                x: self.bottom_right.x + v.x,
                y: self.bottom_right.y + v.y,
            },
        }
    }

    /// The size of this rectangle, per axis.
    pub fn size(&self) -> (r: Vec2i)
        requires
            i32::MIN <= self.bottom_right.x - self.top_left.x <= i32::MAX,
            i32::MIN <= self.bottom_right.y - self.top_left.y <= i32::MAX,
        ensures
            r.x == self.bottom_right.x - self.top_left.x,
            r.y == self.bottom_right.y - self.top_left.y,
    {
        Vec2i {
            x: self.bottom_right.x - self.top_left.x,
            y: self.bottom_right.y - self.top_left.y,
        }
    }

    /// The integer midpoint, rounding each axis toward negative infinity.
    pub fn center(&self) -> (r: Vec2i)
        requires
            i32::MIN < self.top_left.x + self.bottom_right.x <= i32::MAX,
            i32::MIN < self.top_left.y + self.bottom_right.y <= i32::MAX,
        ensures
            r == spec_center(*self),
    {
        Vec2i {
            x: div2_floor(self.top_left.x, self.bottom_right.x),
            y: div2_floor(self.top_left.y, self.bottom_right.y),
        }
    }
}

/// The signed shift along x that moves `r` into `bounds`: positive when `r`
/// sticks out on the left, negative when it sticks out on the right, zero
/// when `bounds` already encloses `r` on the x axis.
pub open spec fn spec_clamp_shift_x(r: Rect, bounds: Rect) -> int {
    if bounds.top_left.x - r.top_left.x > 0 {
        bounds.top_left.x - r.top_left.x
    } else if bounds.bottom_right.x - r.bottom_right.x < 0 {
        bounds.bottom_right.x - r.bottom_right.x
    } else {
        0
    }
}

/// `r` shifted along x by the minimum amount that puts it inside `bounds` on
/// the x axis; the y coordinates are untouched. Meaningful only when `r` is
/// no wider than `bounds`.
pub open spec fn spec_clamp_x_into(r: Rect, bounds: Rect) -> Rect {
    Rect {
        top_left: Vec2i {
            x: (r.top_left.x + spec_clamp_shift_x(r, bounds)) as i32,
            y: r.top_left.y,
        },
        bottom_right: Vec2i {
            x: (r.bottom_right.x + spec_clamp_shift_x(r, bounds)) as i32,
            y: r.bottom_right.y,
        },
    }
}

/// `bounds` encloses `r` when only the x axis is asked about.
pub open spec fn spec_encloses_x(bounds: Rect, r: Rect) -> bool {
    bounds.top_left.x <= r.top_left.x && bounds.bottom_right.x >= r.bottom_right.x
}

impl Rect {
    /// The rectangle of size `size` whose midpoint is `center`, biased toward
    /// the upper left when a side of `size` is odd.
    pub fn centered_at(center: Vec2i, size: Vec2i) -> (r: Rect)
        requires
            0 < size.x,
            0 < size.y,
            i32::MIN <= center.x - size.x < center.x + size.x <= i32::MAX,
            i32::MIN <= center.y - size.y < center.y + size.y <= i32::MAX,
        ensures
            r == spec_centered_at(center, size),
            spec_positive_size(r),
    {
        let half_x: i32 = size.x / 2;
        let half_y: i32 = size.y / 2;
        let bottom_right = Vec2i { x: center.x + half_x, y: center.y + half_y };
        Rect {
            top_left: Vec2i { x: bottom_right.x - size.x, y: bottom_right.y - size.y },
            bottom_right,
        }
    }

    /// A copy of this rectangle shifted along x by the minimum amount that
    /// makes `bounds` enclose it on the x axis; a no-op when it already does.
    /// The caller guarantees the rectangle is no wider than `bounds`.
    pub fn clamp_x_into(&self, bounds: Rect) -> (r: Rect)
        requires
            self.top_left.x <= self.bottom_right.x,
            self.bottom_right.x - self.top_left.x <= bounds.bottom_right.x
                - bounds.top_left.x,
            i32::MIN <= bounds.top_left.x - self.top_left.x <= i32::MAX,
            i32::MIN <= bounds.bottom_right.x - self.bottom_right.x <= i32::MAX,
        ensures
            r == spec_clamp_x_into(*self, bounds),
            spec_encloses_x(bounds, r),
    {
        let excess_left = bounds.top_left.x - self.top_left.x;
        if excess_left > 0 {
            return Rect {
                top_left: Vec2i { x: self.top_left.x + excess_left, y: self.top_left.y },
                bottom_right: Vec2i {
                    x: self.bottom_right.x + excess_left,
                    y: self.bottom_right.y,
                },
            };
        }
        let excess_right = bounds.bottom_right.x - self.bottom_right.x;
        if excess_right < 0 {
            return Rect {
                top_left: Vec2i { x: self.top_left.x + excess_right, y: self.top_left.y },
                bottom_right: Vec2i {
                    x: self.bottom_right.x + excess_right,
                    y: self.bottom_right.y,
                },
            };
        }
        *self
    }
}

/// How far the four-corner test can be trusted. It never invents an
/// overlap: whenever it reports one, the two rectangles really share a
/// point. And as long as `b` is no larger than `a` on either axis — true of
/// every collision pair in the game, where the ball is the smallest entity
/// — it misses none either: it is then exactly the standard interval
/// overlap test. Only a `b` strictly larger than `a` on some axis can slip
/// through undetected, which is why the test must not be handed degenerate
/// or oversized rectangles.
pub proof fn lemma_intersects_exactness(a: Rect, b: Rect)
    requires
        spec_positive_size(a),
        spec_positive_size(b),
    ensures
        spec_intersects(a, b) ==> b.top_left.x < a.bottom_right.x && a.top_left.x
            < b.bottom_right.x && b.top_left.y < a.bottom_right.y && a.top_left.y
            < b.bottom_right.y,
        b.bottom_right.x - b.top_left.x <= a.bottom_right.x - a.top_left.x
            && b.bottom_right.y - b.top_left.y <= a.bottom_right.y - a.top_left.y
            ==> (spec_intersects(a, b) <==> b.top_left.x < a.bottom_right.x && a.top_left.x
            < b.bottom_right.x && b.top_left.y < a.bottom_right.y && a.top_left.y
            < b.bottom_right.y),
{
}

/// Every rectangle of positive size contains its own midpoint.
pub proof fn lemma_center_contained(r: Rect)
    requires
        spec_positive_size(r),
        i32::MIN < r.top_left.x + r.bottom_right.x <= i32::MAX,
        i32::MIN < r.top_left.y + r.bottom_right.y <= i32::MAX,
    ensures
        spec_contains_point(r, spec_center(r)),
{
}

/// Enclosure is reflexive: every rectangle encloses itself.
pub proof fn lemma_encloses_reflexive(a: Rect)
    ensures
        spec_encloses(a, a),
{
}

/// The midpoint of a rectangle built around `center` comes back out as
/// `center` on an axis of even size, and as `center - 1` on an axis of odd
/// size: the odd-size bias is always toward the upper left.
pub proof fn lemma_centered_at_center(center: Vec2i, size: Vec2i)
    requires
        0 < size.x,
        0 < size.y,
        i32::MIN <= center.x - size.x < center.x + size.x <= i32::MAX,
        i32::MIN <= center.y - size.y < center.y + size.y <= i32::MAX,
    ensures
        spec_center(spec_centered_at(center, size)) == (Vec2i {
            x: (center.x - size.x % 2) as i32,
            y: (center.y - size.y % 2) as i32,
        }),
        size.x % 2 == 0 && size.y % 2 == 0 ==> spec_center(spec_centered_at(center, size))
            == center,
{
}

/// Clamping a rectangle that `bounds` already encloses on x returns it
/// unchanged, and clamping any rectangle no wider than `bounds` lands inside
/// `bounds` on x; together these make `clamp_x_into` idempotent.
pub proof fn lemma_clamp_x_into_idempotent(r: Rect, bounds: Rect)
    requires
        r.top_left.x <= r.bottom_right.x,
        r.bottom_right.x - r.top_left.x <= bounds.bottom_right.x - bounds.top_left.x,
        i32::MIN <= bounds.top_left.x - r.top_left.x <= i32::MAX,
        i32::MIN <= bounds.bottom_right.x - r.bottom_right.x <= i32::MAX,
    ensures
        spec_encloses_x(bounds, r) ==> spec_clamp_x_into(r, bounds) == r,
        spec_encloses_x(bounds, spec_clamp_x_into(r, bounds)),
        spec_clamp_x_into(spec_clamp_x_into(r, bounds), bounds) == spec_clamp_x_into(
            r,
            bounds,
        ),
{
}

/// Floor of `(a + b) / 2` on machine integers.
fn div2_floor(a: i32, b: i32) -> (r: i32)
    requires
        i32::MIN < a + b <= i32::MAX,
    ensures
        r == (a + b) / 2,
{
    let s: i64 = a as i64 + b as i64;
    let q: i64 = if s >= 0 {
        s / 2
    } else {
        (s - 1) / 2
    };
    q as i32
}

} // verus!
