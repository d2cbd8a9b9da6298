use vstd::prelude::*;

verus! {

/// Largest magnitude of any coordinate or extent the geometry accepts; keeps the
/// doubled distances and their squares well inside machine integers.
pub const COORD_LIMIT: i64 = 1_000_000_000_000;

/// Largest screen extent the game accepts.
pub const MAX_SCREEN: i64 = 1_000_000;

/// An axis-aligned rectangle: top-left corner `(x, y)`, width `w`, height `h`.
#[derive(Clone, Copy, Debug, PartialEq, Eq, Structural)]
pub struct Rect {
    pub x: i64,
    pub y: i64,
    pub w: i64,
    pub h: i64,
}

/// A circle with center `(x, y)` and radius `r`.
#[derive(Clone, Copy, Debug, PartialEq, Eq, Structural)]
pub struct Circle {
    pub x: i64,
    pub y: i64,
    pub r: i64,
}

pub open spec fn in_limit(v: i64) -> bool {
    -COORD_LIMIT <= v <= COORD_LIMIT
}

impl Rect {
    /// Non-negative extents and every field within the coordinate limit.
    pub open spec fn wf(self) -> bool {
        0 <= self.w && 0 <= self.h && in_limit(self.x) && in_limit(self.y) && in_limit(self.w)
            && in_limit(self.h)
    }
}

impl Circle {
    /// Non-negative radius and every field within the coordinate limit.
    pub open spec fn wf(self) -> bool {
        0 <= self.r && in_limit(self.x) && in_limit(self.y) && in_limit(self.r)
    }
}

/// Distance from `c` to the closed interval `[lo, lo + len]` on one axis.
pub open spec fn axis_gap(c: int, lo: int, len: int) -> int {
    if c < lo {
        lo - c
    } else if c > lo + len {
        c - (lo + len)
    } else {
        0
    }
}

/// The closed disk and the closed rectangle share a point: the point of the
/// rectangle nearest to the circle's center lies within the radius.
pub open spec fn collides(c: Circle, r: Rect) -> bool {
    let ghost gx = axis_gap(c.x as int, r.x as int, r.w as int);
    let ghost gy = axis_gap(c.y as int, r.y as int, r.h as int);
    gx * gx + gy * gy <= c.r * c.r
}

proof fn lemma_square_le(a: int, b: int)
    requires
        0 <= a <= b,
    ensures
        a * a <= b * b,
{
    assert(a * a <= b * b) by (nonlinear_arith)
        requires
            0 <= a <= b,
    ;
}

proof fn lemma_square_lt(a: int, b: int)
    requires
        0 <= a < b,
    ensures
        a * a < b * b,
{
    assert(a * a < b * b) by (nonlinear_arith)
        requires
            0 <= a < b,
    ;
}

/// Twice the center-to-center distance on one axis, less the extent, is twice the gap.
proof fn lemma_doubled_gap(c: int, lo: int, len: int)
    requires
        0 <= len,
    ensures
        ({
            let d2 = if 2 * c - (2 * lo + len) < 0 {
                (2 * lo + len) - 2 * c
            } else {
                2 * c - (2 * lo + len)
            };
            &&& d2 <= len ==> axis_gap(c, lo, len) == 0
            &&& d2 > len ==> 2 * axis_gap(c, lo, len) == d2 - len
        }),
{
}

fn abs_i64(v: i64) -> (r: i64)
    requires
        v > i64::MIN,
    ensures
        r as int == if v < 0 {
            -(v as int)
        } else {
            v as int
        },
{
    if v < 0 {
        -v
    } else {
        v
    }
}

/// Circle against rectangle, decided on the distances between the two centers:
/// too far on either axis means no contact, a center inside the rectangle's band on
/// either axis means contact, and otherwise the nearest corner decides. Boundaries
/// count as contact. The arithmetic runs on doubled distances, so no half is lost.
pub fn circle_rectangle_collision(c: &Circle, r: &Rect) -> (hit: bool)
    requires
        c.wf(),
        r.wf(),
    ensures
        hit == collides(*c, *r),
{
    let dist_x2 = abs_i64(2 * c.x - (2 * r.x + r.w));
    let dist_y2 = abs_i64(2 * c.y - (2 * r.y + r.h));
    proof {
        lemma_doubled_gap(c.x as int, r.x as int, r.w as int);
        lemma_doubled_gap(c.y as int, r.y as int, r.h as int);
    }
    let ghost gx = axis_gap(c.x as int, r.x as int, r.w as int);
    let ghost gy = axis_gap(c.y as int, r.y as int, r.h as int);
    if r.w + 2 * c.r < dist_x2 {
        proof {
            lemma_square_lt(c.r as int, gx);
            assert(0 <= gy * gy) by (nonlinear_arith);
        }
        return false;
    }
    if r.h + 2 * c.r < dist_y2 {
        proof {
            lemma_square_lt(c.r as int, gy);
            assert(0 <= gx * gx) by (nonlinear_arith);
        }
        return false;
    }
    if dist_x2 <= r.w {
        proof {
            lemma_square_le(gy, c.r as int);
        }
        return true;
    }
    if dist_y2 <= r.h {
        proof {
            lemma_square_le(gx, c.r as int);
        }
        return true;
    }
    let dx = (dist_x2 - r.w) as i128;
    let dy = (dist_y2 - r.h) as i128;
    let rr = c.r as i128;
    proof {
        assert(dx == 2 * gx && dy == 2 * gy);
        assert(dx * dx + dy * dy <= 4 * (rr * rr) <==> gx * gx + gy * gy <= rr * rr)
            by (nonlinear_arith)
            requires
                dx == 2 * gx,
                dy == 2 * gy,
        ;
        assert(0 < dx <= 2 * rr && 0 < dy <= 2 * rr);
        lemma_square_le(dx as int, 2 * COORD_LIMIT);
        lemma_square_le(dy as int, 2 * COORD_LIMIT);
        lemma_square_le(rr as int, COORD_LIMIT as int);
        assert(dx * dx <= 4 * COORD_LIMIT * COORD_LIMIT);
        assert(dy * dy <= 4 * COORD_LIMIT * COORD_LIMIT);
    }
    dx * dx + dy * dy <= 4 * (rr * rr)
}

/// Contact is boundary-inclusive: a circle whose center lies off a corner of the
/// rectangle, at exactly its radius from that corner, collides with it.
pub proof fn lemma_corner_contact_inclusive(c: Circle, r: Rect)
    requires
        c.wf(),
        r.wf(),
        c.x < r.x || c.x > r.x + r.w,
        c.y < r.y || c.y > r.y + r.h,
        ({
            let cx: int = if c.x < r.x { r.x as int } else { r.x + r.w };
            let cy: int = if c.y < r.y { r.y as int } else { r.y + r.h };
            (c.x - cx) * (c.x - cx) + (c.y - cy) * (c.y - cy) == c.r * c.r
        }),
    ensures
        collides(c, r),
{
    let cx: int = if c.x < r.x { r.x as int } else { r.x + r.w };
    let cy: int = if c.y < r.y { r.y as int } else { r.y + r.h };
    let gx = axis_gap(c.x as int, r.x as int, r.w as int);
    let gy = axis_gap(c.y as int, r.y as int, r.h as int);
    assert(gx * gx == (c.x - cx) * (c.x - cx)) by (nonlinear_arith)
        requires
            gx == c.x - cx || gx == cx - c.x,
    ;
    assert(gy * gy == (c.y - cy) * (c.y - cy)) by (nonlinear_arith)
        requires
            gy == c.y - cy || gy == cy - c.y,
    ;
}

} // verus!
