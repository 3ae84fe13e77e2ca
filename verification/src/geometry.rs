//! Fixed-point page geometry.
//!
//! Coordinates live in PDF point space with the origin at the bottom-left
//! corner and the y axis growing upward. Every length is carried as an
//! unsigned number of milli-points (one thousandth of a point), and a scale
//! factor is carried as a milli-multiplier (`1000` is scale one). Scaling a
//! length multiplies it by the scale factor and divides by `1000`, which
//! keeps every computation in exact integer arithmetic.

use vstd::arithmetic::div_mod::{lemma_div_is_ordered, lemma_div_pos_is_pos};
use vstd::arithmetic::mul::{lemma_mul_inequality, lemma_mul_upper_bound};
use vstd::prelude::*;

verus! {

/// Number of milli-units in one unit.
pub const MILLI: u64 = 1000;

/// Largest admissible unscaled coordinate or font size, in milli-points
/// (one million points, far beyond any real page).
pub const COORD_LIMIT: u64 = 1_000_000_000;

/// Largest admissible scale factor, in milli-units (a thousandfold
/// magnification).
pub const SCALE_LIMIT: u64 = 1_000_000;

/// Largest value a scaled coordinate can reach:
/// `COORD_LIMIT * SCALE_LIMIT / MILLI`.
pub const SCALED_LIMIT: u64 = 1_000_000_000_000;

/// Largest raster pixel length the core reasons about:
/// `SCALED_LIMIT / MILLI` whole pixels.
pub const PIXEL_LIMIT: u64 = 1_000_000_000;

/// An axis-aligned rectangle in milli-point space, origin bottom-left.
#[derive(Debug, Clone, Copy, PartialEq, Eq, Structural)]
pub struct Rect {
    pub left: u64,
    pub bottom: u64,
    pub right: u64,
    pub top: u64,
}

/// The value of an unscaled length `v` under the milli-scale factor `s`.
pub open spec fn scale_value(v: int, s: int) -> int {
    (v * s) / (MILLI as int)
}

/// The smallest whole number of units covering `v` milli-units.
pub open spec fn ceil_milli(v: int) -> int {
    (v + (MILLI as int) - 1) / (MILLI as int)
}

impl Rect {
    /// A rectangle is well formed when its sides are ordered and all its
    /// coordinates stay below the scaled-coordinate cap.
    pub open spec fn wf(self) -> bool {
        &&& self.left <= self.right
        &&& self.bottom <= self.top
        &&& self.right <= SCALED_LIMIT
        &&& self.top <= SCALED_LIMIT
    }

    /// A rectangle fit to be scaled: well formed and inside the unscaled
    /// coordinate cap.
    pub open spec fn wf_unscaled(self) -> bool {
        &&& self.wf()
        &&& self.right <= COORD_LIMIT
        &&& self.top <= COORD_LIMIT
    }

    /// `self` contains `inner` on every axis.
    pub open spec fn contains(self, inner: Rect) -> bool {
        &&& self.left <= inner.left
        &&& self.bottom <= inner.bottom
        &&& inner.right <= self.right
        &&& inner.top <= self.top
    }
}

/// The pointwise union of two rectangles: the smallest rectangle
/// containing both.
pub open spec fn rect_union(a: Rect, b: Rect) -> Rect {
    Rect {
        left: if a.left <= b.left { a.left } else { b.left },
        bottom: if a.bottom <= b.bottom { a.bottom } else { b.bottom },
        right: if a.right >= b.right { a.right } else { b.right },
        top: if a.top >= b.top { a.top } else { b.top },
    }
}

/// The rectangle scaled component-wise by the milli-scale factor `s`.
pub open spec fn rect_scaled(r: Rect, s: int) -> Rect {
    Rect {
        left: scale_value(r.left as int, s) as u64,
        bottom: scale_value(r.bottom as int, s) as u64,
        right: scale_value(r.right as int, s) as u64,
        top: scale_value(r.top as int, s) as u64,
    }
}

/// Scaling preserves order: a smaller length stays no larger than a bigger
/// one under the same nonnegative scale factor.
pub proof fn lemma_scale_monotone(v1: int, v2: int, s: int)
    requires
        0 <= v1 <= v2,
        0 <= s,
    ensures
        0 <= scale_value(v1, s) <= scale_value(v2, s),
{
    lemma_mul_inequality(v1, v2, s);
    lemma_div_is_ordered(v1 * s, v2 * s, MILLI as int);
    vstd::arithmetic::mul::lemma_mul_nonnegative(v1, s);
    lemma_div_pos_is_pos(v1 * s, MILLI as int);
}

/// A scaled length stays below `SCALED_LIMIT` whenever the inputs respect
/// the unscaled caps.
pub proof fn lemma_scale_bounded(v: int, s: int)
    requires
        0 <= v <= COORD_LIMIT,
        0 <= s <= SCALE_LIMIT,
    ensures
        0 <= scale_value(v, s) <= SCALED_LIMIT,
        v * s <= COORD_LIMIT * SCALE_LIMIT,
{
    lemma_mul_upper_bound(v, COORD_LIMIT as int, s, SCALE_LIMIT as int);
    lemma_div_is_ordered(v * s, COORD_LIMIT * SCALE_LIMIT, MILLI as int);
    vstd::arithmetic::mul::lemma_mul_nonnegative(v, s);
    lemma_div_pos_is_pos(v * s, MILLI as int);
}

/// Rounding up to whole units covers the original milli-length.
pub proof fn lemma_ceil_milli_covers(v: int)
    requires
        0 <= v,
    ensures
        0 <= ceil_milli(v),
        ceil_milli(v) * (MILLI as int) >= v,
{
    let d = MILLI as int;
    vstd::arithmetic::div_mod::lemma_fundamental_div_mod(v + d - 1, d);
    vstd::arithmetic::div_mod::lemma_remainder_lower(v + d - 1, d);
    vstd::arithmetic::div_mod::lemma_remainder_upper(v + d - 1, d);
    lemma_div_pos_is_pos(v + d - 1, d);
}

/// Round a milli-length up to whole units.
pub fn ceil_to_unit(v: u64) -> (r: u64)
    requires
        v <= SCALED_LIMIT,
    ensures
        r == ceil_milli(v as int),
        r * MILLI >= v,
        r <= PIXEL_LIMIT,
{
    proof {
        lemma_ceil_milli_covers(v as int);
        lemma_div_is_ordered(
            v as int + MILLI as int - 1,
            SCALED_LIMIT as int + MILLI as int - 1,
            MILLI as int,
        );
    }
    (v + MILLI - 1) / MILLI
}

/// Scale one length by the milli-scale factor `s`.
pub fn scale_len(v: u64, s: u64) -> (r: u64)
    requires
        v <= COORD_LIMIT,
        s <= SCALE_LIMIT,
    ensures
        r == scale_value(v as int, s as int),
        r <= SCALED_LIMIT,
{
    proof {
        lemma_scale_bounded(v as int, s as int);
    }
    (v * s) / MILLI
}

/// Scaling a well-formed unscaled rectangle yields a well-formed scaled
/// rectangle.
pub proof fn lemma_rect_scaled_wf(r: Rect, s: int)
    requires
        r.wf_unscaled(),
        0 <= s <= SCALE_LIMIT,
    ensures
        rect_scaled(r, s).wf(),
{
    lemma_scale_monotone(r.left as int, r.right as int, s);
    lemma_scale_monotone(r.bottom as int, r.top as int, s);
    lemma_scale_bounded(r.right as int, s);
    lemma_scale_bounded(r.top as int, s);
}

/// Scaling preserves containment of well-formed unscaled rectangles.
pub proof fn lemma_rect_scaled_contains(outer: Rect, inner: Rect, s: int)
    requires
        outer.wf_unscaled(),
        inner.wf_unscaled(),
        outer.contains(inner),
        0 <= s <= SCALE_LIMIT,
    ensures
        rect_scaled(outer, s).contains(rect_scaled(inner, s)),
{
    lemma_scale_monotone(outer.left as int, inner.left as int, s);
    lemma_scale_monotone(outer.bottom as int, inner.bottom as int, s);
    lemma_scale_monotone(inner.right as int, outer.right as int, s);
    lemma_scale_monotone(inner.top as int, outer.top as int, s);
    lemma_scale_bounded(outer.left as int, s);
    lemma_scale_bounded(outer.bottom as int, s);
    lemma_scale_bounded(outer.right as int, s);
    lemma_scale_bounded(outer.top as int, s);
    lemma_scale_bounded(inner.left as int, s);
    lemma_scale_bounded(inner.bottom as int, s);
    lemma_scale_bounded(inner.right as int, s);
    lemma_scale_bounded(inner.top as int, s);
}

/// Scale a whole rectangle by the milli-scale factor `s`.
pub fn scale_rect(r: &Rect, s: u64) -> (out: Rect)
    requires
        r.wf_unscaled(),
        s <= SCALE_LIMIT,
    ensures
        out == rect_scaled(*r, s as int),
        out.wf(),
{
    proof {
        lemma_rect_scaled_wf(*r, s as int);
    }
    Rect {
        left: scale_len(r.left, s),
        bottom: scale_len(r.bottom, s),
        right: scale_len(r.right, s),
        top: scale_len(r.top, s),
    }
}

/// The union of two rectangles contains both of them, and is itself well
/// formed when the inputs are.
pub proof fn lemma_union_contains(a: Rect, b: Rect)
    ensures
        rect_union(a, b).contains(a),
        rect_union(a, b).contains(b),
        a.wf() && b.wf() ==> rect_union(a, b).wf(),
{
}

/// Containment is transitive.
pub proof fn lemma_contains_trans(a: Rect, b: Rect, c: Rect)
    requires
        a.contains(b),
        b.contains(c),
    ensures
        a.contains(c),
{
}

/// If a rectangle contains both arguments of a union, it contains the
/// union.
pub proof fn lemma_union_least(outer: Rect, a: Rect, b: Rect)
    requires
        outer.contains(a),
        outer.contains(b),
    ensures
        outer.contains(rect_union(a, b)),
{
}

/// Merge two rectangles into the smallest one containing both.
pub fn union_rects(a: &Rect, b: &Rect) -> (out: Rect)
    ensures
        out == rect_union(*a, *b),
{
    Rect {
        left: if a.left <= b.left { a.left } else { b.left },
        bottom: if a.bottom <= b.bottom { a.bottom } else { b.bottom },
        right: if a.right >= b.right { a.right } else { b.right },
        top: if a.top >= b.top { a.top } else { b.top },
    }
}

} // verus!
