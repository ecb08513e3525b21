//! Screen geometry: rectangular regions and the integer arithmetic the
//! layout engine and the scratchpad use to place clients.
//!
//! Ratios are fixed-point: a value `num <= RATIO_UNIT` stands for the
//! fraction `num / RATIO_UNIT` of a whole.

use vstd::prelude::*;
use vstd::arithmetic::div_mod::{
    lemma_div_is_ordered, lemma_div_multiples_vanish, lemma_div_pos_is_pos,
    lemma_remainder_lower,
};
use vstd::arithmetic::mul::{lemma_mul_inequality, lemma_mul_is_commutative};

verus! {

/// The fixed denominator of every ratio parameter: ratios are thousandths.
pub const RATIO_UNIT: u32 = 1000;

/// An axis-aligned rectangle: position of the top-left corner and size,
/// in pixels.
#[derive(Clone, Copy, Debug, PartialEq, Eq, Structural)]
pub struct Region {
    pub x: u32,
    pub y: u32,
    pub w: u32,
    pub h: u32,
}

impl Region {
    /// The region lies within the coordinate space: its far corner fits in
    /// the pixel coordinate type.
    pub open spec fn wf(self) -> bool {
        self.x + self.w <= u32::MAX && self.y + self.h <= u32::MAX
    }

    /// Builds a region from its corner and size.
    pub fn new(x: u32, y: u32, w: u32, h: u32) -> (r: Region)
        requires
            x + w <= u32::MAX,
            y + h <= u32::MAX,
        ensures
            r == (Region { x, y, w, h }),
            r.wf(),
    {
        Region { x, y, w, h }
    }
}

/// The fraction `num / RATIO_UNIT` of `whole`, rounded down.
pub open spec fn spec_scaled(whole: int, num: int) -> int {
    whole * num / (RATIO_UNIT as int)
}

/// Scaling by a ratio of at most one keeps the product small and never
/// grows the whole.
proof fn lemma_scaled_le(whole: int, num: int)
    requires
        0 <= whole,
        0 <= num <= RATIO_UNIT,
    ensures
        0 <= whole * num <= whole * (RATIO_UNIT as int),
        0 <= spec_scaled(whole, num) <= whole,
{
    let u = RATIO_UNIT as int;
    lemma_mul_is_commutative(whole, num);
    lemma_mul_is_commutative(whole, u);
    lemma_mul_inequality(0, num, whole);
    lemma_mul_inequality(num, u, whole);
    lemma_div_is_ordered(whole * num, whole * u, u);
    lemma_div_multiples_vanish(whole, u);
    lemma_div_pos_is_pos(whole * num, u);
}

/// Multiplies `whole` by the ratio `num / RATIO_UNIT`, rounding down.
pub fn scaled(whole: u32, num: u32) -> (r: u32)
    requires
        num <= RATIO_UNIT,
    ensures
        r == spec_scaled(whole as int, num as int),
        r <= whole,
{
    proof {
        lemma_scaled_le(whole as int, num as int);
    }
    ((whole as u64) * (num as u64) / (RATIO_UNIT as u64)) as u32
}

/// A region of the given fraction of `screen`'s width and height, centered
/// within `screen`.
pub open spec fn spec_centered(screen: Region, width_num: int, height_num: int) -> Region {
    let w = spec_scaled(screen.w as int, width_num);
    let h = spec_scaled(screen.h as int, height_num);
    Region {
        x: (screen.x + (screen.w - w) / 2) as u32,
        y: (screen.y + (screen.h - h) / 2) as u32,
        w: w as u32,
        h: h as u32,
    }
}

/// Computes `spec_centered`; how the scratchpad window is placed.
pub fn centered_region(screen: &Region, width_num: u32, height_num: u32) -> (r: Region)
    requires
        screen.wf(),
        width_num <= RATIO_UNIT,
        height_num <= RATIO_UNIT,
    ensures
        r == spec_centered(*screen, width_num as int, height_num as int),
        r.w == spec_scaled(screen.w as int, width_num as int),
        r.h == spec_scaled(screen.h as int, height_num as int),
        r.x == screen.x + (screen.w - r.w) / 2,
        r.y == screen.y + (screen.h - r.h) / 2,
        r.wf(),
{
    let w = scaled(screen.w, width_num);
    let h = scaled(screen.h, height_num);
    let x = screen.x + (screen.w - w) / 2;
    let y = screen.y + (screen.h - h) / 2;
    Region { x, y, w, h }
}

/// `r` shrunk by a `gap`-pixel margin on every side; left unchanged where
/// the margin does not fit.
pub open spec fn spec_with_gap(r: Region, gap: int) -> Region {
    if 2 * gap <= r.w && 2 * gap <= r.h {
        Region {
            x: (r.x + gap) as u32,
            y: (r.y + gap) as u32,
            w: (r.w - 2 * gap) as u32,
            h: (r.h - 2 * gap) as u32,
        }
    } else {
        r
    }
}

/// Applies a uniform gap margin to a region.
pub fn with_gap(r: &Region, gap: u32) -> (out: Region)
    requires
        r.wf(),
    ensures
        out == spec_with_gap(*r, gap as int),
        out.wf(),
        out.x + out.w <= r.x + r.w,
        out.y + out.h <= r.y + r.h,
{
    if 2 * (gap as u64) <= r.w as u64 && 2 * (gap as u64) <= r.h as u64 {
        Region { x: r.x + gap, y: r.y + gap, w: r.w - 2 * gap, h: r.h - 2 * gap }
    } else {
        *r
    }
}

/// The `i`-th of `count` horizontal slices of `col`, stacked top to bottom.
/// Every slice has height `col.h / count`; the last one absorbs the division
/// remainder so that the slices tile `col` exactly.
pub open spec fn spec_row(col: Region, count: int, i: int) -> Region
    recommends
        0 < count,
        0 <= i < count,
{
    let rh = col.h as int / count;
    Region {
        x: col.x,
        y: (col.y + i * rh) as u32,
        w: col.w,
        h: if i == count - 1 {
            (col.h - (count - 1) * rh) as u32
        } else {
            rh as u32
        },
    }
}

/// The slices of `spec_row` stay inside their column.
proof fn lemma_row_bounds(h: int, count: int, i: int)
    requires
        0 <= h,
        0 < count,
        0 <= i < count,
    ensures
        0 <= h / count <= h,
        i * (h / count) <= h,
        i < count - 1 ==> i * (h / count) + h / count <= h,
        (count - 1) * (h / count) <= h,
{
    let rh = h / count;
    lemma_div_pos_is_pos(h, count);
    lemma_remainder_lower(h, count);
    lemma_mul_is_commutative(rh, count);
    assert(count * rh <= h);
    lemma_mul_inequality(1, count, rh);
    lemma_mul_inequality(i, count, rh);
    lemma_mul_inequality(i + 1, count, rh);
    lemma_mul_inequality(count - 1, count, rh);
    assert((i + 1) * rh == i * rh + rh) by (nonlinear_arith);
}

/// Computes `spec_row(col, count, i)`: one slice of an evenly split column.
pub fn row_region(col: &Region, count: usize, i: usize) -> (r: Region)
    requires
        col.wf(),
        0 < count,
        i < count,
    ensures
        r == spec_row(*col, count as int, i as int),
        r.wf(),
        r.y + r.h <= col.y + col.h,
{
    proof {
        lemma_row_bounds(col.h as int, count as int, i as int);
    }
    let rh = ((col.h as u64) / (count as u64)) as u32;
    let y = col.y + (i as u64 * rh as u64) as u32;
    let h = if i == count - 1 {
        col.h - (i as u64 * rh as u64) as u32
    } else {
        rh
    };
    Region { x: col.x, y, w: col.w, h }
}

} // verus!
