//! Points, rectangles and the collision rule.
//!
//! A body is an axis-aligned rectangle given by its center and its
//! half-extent.  The collision rule finds the point of the obstacle closest
//! to the moving body's center; the offset from that point to the center
//! picks the struck face, and the struck face decides which velocity axis is
//! reflected.

use vstd::prelude::*;

verus! {

/// Every coordinate of an obstacle handed to [`collide_with_side`] stays
/// within this bound, so that the few additions the test needs fit in `i64`.
pub const GEOM_LIMIT: i64 = 1_000_000_000_000;

/// A 2-D point or vector on the arena's integer grid.
#[derive(Clone, Copy, Debug, PartialEq, Eq, Structural)]
pub struct Vec2 {
    pub x: i64,
    pub y: i64,
}

/// The face of a rectangle struck by an incoming body.
#[derive(Clone, Copy, Debug, PartialEq, Eq, Structural)]
pub enum Side {
    Left,
    Right,
    Top,
    Bottom,
}

/// Absolute value of a mathematical integer.
pub open spec fn abs_i(v: int) -> int {
    if v < 0 {
        -v
    } else {
        v
    }
}

/// Clamp `v` into the interval `[lo, hi]`.
pub open spec fn clamp_i(v: int, lo: int, hi: int) -> int {
    if v < lo {
        lo
    } else if v > hi {
        hi
    } else {
        v
    }
}

/// Saturate a mathematical integer into the `i64` range.
pub open spec fn sat64(v: int) -> i64 {
    if v > i64::MAX {
        i64::MAX
    } else if v < i64::MIN {
        i64::MIN
    } else {
        v as i64
    }
}

/// Two boxes, each given as center and half-extent, overlap on both axes.
/// Touching edges count as overlap.
pub open spec fn boxes_overlap(ac: Vec2, ah: Vec2, bc: Vec2, bh: Vec2) -> bool {
    abs_i(ac.x - bc.x) <= ah.x + bh.x && abs_i(ac.y - bc.y) <= ah.y + bh.y
}

/// Horizontal offset from the closest point of the box `(oc, oh)` to the
/// center `bc` of the moving body.
pub open spec fn offset_x(bc: Vec2, oc: Vec2, oh: Vec2) -> int {
    bc.x - clamp_i(bc.x as int, oc.x - oh.x, oc.x + oh.x)
}

/// Vertical offset from the closest point of the box `(oc, oh)` to the
/// center `bc` of the moving body.
pub open spec fn offset_y(bc: Vec2, oc: Vec2, oh: Vec2) -> int {
    bc.y - clamp_i(bc.y as int, oc.y - oh.y, oc.y + oh.y)
}

/// The struck face.  The axis with the strictly larger offset magnitude
/// wins; on a tie the vertical axis wins.  The offset's sign then picks the
/// face: a zero horizontal offset counts as `Right`, a zero vertical offset
/// as `Bottom`.  This exact tie-break decides which axis flips on
/// corner-like impacts.
pub open spec fn side_of(bc: Vec2, oc: Vec2, oh: Vec2) -> Side {
    let ox = offset_x(bc, oc, oh);
    let oy = offset_y(bc, oc, oh);
    if abs_i(ox) > abs_i(oy) {
        if ox < 0 {
            Side::Left
        } else {
            Side::Right
        }
    } else if oy > 0 {
        Side::Top
    } else {
        Side::Bottom
    }
}

/// The collision verdict for a moving body `(bc, bh)` against an obstacle
/// `(oc, oh)`: the struck face if the two boxes overlap, nothing otherwise.
pub open spec fn collide_spec(bc: Vec2, bh: Vec2, oc: Vec2, oh: Vec2) -> Option<Side> {
    if boxes_overlap(bc, bh, oc, oh) {
        Some(side_of(bc, oc, oh))
    } else {
        None
    }
}

/// Which face of the obstacle `(oc, oh)` the moving body `(bc, bh)` strikes,
/// if the two overlap at all.
pub fn collide_with_side(bc: Vec2, bh: Vec2, oc: Vec2, oh: Vec2) -> (r: Option<Side>)
    requires
        -GEOM_LIMIT <= oc.x <= GEOM_LIMIT,
        -GEOM_LIMIT <= oc.y <= GEOM_LIMIT,
        0 <= oh.x <= GEOM_LIMIT,
        0 <= oh.y <= GEOM_LIMIT,
        0 <= bh.x <= GEOM_LIMIT,
        0 <= bh.y <= GEOM_LIMIT,
    ensures
        r == collide_spec(bc, bh, oc, oh),
{
    let reach_x = oh.x + bh.x;
    let reach_y = oh.y + bh.y;
    if bc.x < oc.x - reach_x || bc.x > oc.x + reach_x || bc.y < oc.y - reach_y || bc.y > oc.y
        + reach_y {
        return None;
    }
    let lo_x = oc.x - oh.x;
    let hi_x = oc.x + oh.x;
    let lo_y = oc.y - oh.y;
    let hi_y = oc.y + oh.y;
    let cx = if bc.x < lo_x {
        lo_x
    } else if bc.x > hi_x {
        hi_x
    } else {
        bc.x
    };
    let cy = if bc.y < lo_y {
        lo_y
    } else if bc.y > hi_y {
        hi_y
    } else {
        bc.y
    };
    let ox = bc.x - cx;
    let oy = bc.y - cy;
    let ax = if ox < 0 {
        -ox
    } else {
        ox
    };
    let ay = if oy < 0 {
        -oy
    } else {
        oy
    };
    if ax > ay {
        if ox < 0 {
            Some(Side::Left)
        } else {
            Some(Side::Right)
        }
    } else if oy > 0 {
        Some(Side::Top)
    } else {
        Some(Side::Bottom)
    }
}

/// Sum of two machine integers, saturating at the ends of the `i64` range.
pub fn sat_add(a: i64, b: i64) -> (r: i64)
    ensures
        r == sat64(a + b),
{
    if b >= 0 {
        if a <= i64::MAX - b {
            a + b
        } else {
            i64::MAX
        }
    } else {
        if a >= i64::MIN - b {
            a + b
        } else {
            i64::MIN
        }
    }
}

/// The velocity after a collision verdict is applied: a `Left` or `Right`
/// face reflects the horizontal axis, a `Top` or `Bottom` face the vertical
/// axis, and no collision leaves the velocity alone.  The reflection
/// saturates at the ends of the `i64` range.
pub open spec fn bounce_spec(v: Vec2, hit: Option<Side>) -> Vec2 {
    match hit {
        Some(Side::Left) => Vec2 { x: sat64(-v.x), y: v.y },
        Some(Side::Right) => Vec2 { x: sat64(-v.x), y: v.y },
        Some(Side::Top) => Vec2 { x: v.x, y: sat64(-v.y) },
        Some(Side::Bottom) => Vec2 { x: v.x, y: sat64(-v.y) },
        None => v,
    }
}

/// Apply a collision verdict to a velocity.
pub fn bounce(v: Vec2, hit: Option<Side>) -> (r: Vec2)
    requires
        i64::MIN < v.x,
        i64::MIN < v.y,
    ensures
        r == bounce_spec(v, hit),
{
    match hit {
        Some(Side::Left) => Vec2 { x: -v.x, y: v.y },
        Some(Side::Right) => Vec2 { x: -v.x, y: v.y },
        Some(Side::Top) => Vec2 { x: v.x, y: -v.y },
        Some(Side::Bottom) => Vec2 { x: v.x, y: -v.y },
        None => v,
    }
}

/// Law: one resolution never reflects both axes.  Whatever the verdict, at
/// least one velocity component comes through unchanged, so exactly zero or
/// one axis flips per call.
pub proof fn lemma_bounce_flips_at_most_one_axis(v: Vec2, hit: Option<Side>)
    ensures
        bounce_spec(v, hit).x == v.x || bounce_spec(v, hit).y == v.y,
{
}

/// Law: a `Left` or `Right` verdict inverts the sign of the horizontal
/// velocity and leaves the vertical one unchanged; a `Top` or `Bottom`
/// verdict does the reverse; no verdict changes nothing.
pub proof fn lemma_bounce_reflects_one_axis(v: Vec2, hit: Option<Side>)
    requires
        i64::MIN < v.x,
        i64::MIN < v.y,
    ensures
        hit == Some(Side::Left) || hit == Some(Side::Right) ==> bounce_spec(v, hit).x == -v.x
            && bounce_spec(v, hit).y == v.y,
        hit == Some(Side::Top) || hit == Some(Side::Bottom) ==> bounce_spec(v, hit).x == v.x
            && bounce_spec(v, hit).y == -v.y,
        hit is None ==> bounce_spec(v, hit) == v,
{
}

/// Law: once the two boxes are separated, resolving again reports no
/// collision and flips nothing, so a resolution already applied is never
/// applied twice to a ball that has moved past the overlap region.
pub proof fn lemma_separated_resolves_to_none(bc: Vec2, bh: Vec2, oc: Vec2, oh: Vec2, v: Vec2)
    requires
        !boxes_overlap(bc, bh, oc, oh),
    ensures
        collide_spec(bc, bh, oc, oh) is None,
        bounce_spec(v, collide_spec(bc, bh, oc, oh)) == v,
{
}

} // verus!
