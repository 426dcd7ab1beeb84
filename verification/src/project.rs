//! Column projection: turning a ray's hit distance into the three
//! vertical pixel bands of one screen column — ceiling, wall slab,
//! floor — and their fill colors.

use crate::fixed::floor_div;
use crate::fixed::SCALE;
use crate::raycast::MAX_DEPTH_UNITS;
use vstd::arithmetic::div_mod::lemma_div_is_ordered;
use vstd::arithmetic::div_mod::lemma_div_is_ordered_by_denominator;
use vstd::arithmetic::div_mod::lemma_div_multiples_vanish;
use vstd::arithmetic::div_mod::lemma_div_pos_is_pos;
use vstd::arithmetic::div_mod::lemma_fundamental_div_mod;
use vstd::arithmetic::mul::lemma_mul_inequality;
use vstd::arithmetic::mul::lemma_mul_is_commutative;
use vstd::prelude::*;

verus! {

/// Largest accepted screen side length, in pixels.
pub const MAX_SCREEN_DIM: usize = 4096;

/// Fill color of the ceiling band.
pub const CEILING_COLOR: u32 = 0x000000;

/// Fill color of the wall band.
pub const WALL_COLOR: u32 = 0xFFFFFF;

/// Fill color of the floor band.
pub const FLOOR_COLOR: u32 = 0x404040;

/// The distance the projector divides by: a non-positive distance is
/// replaced by the smallest positive fixed-point value, so the
/// division below is always defined.
pub open spec fn effective_distance(d: int) -> int {
    if d <= 0 {
        1
    } else {
        d
    }
}

/// Whether screen row `y` lies in the ceiling band for hit distance
/// `d` and screen height `h`: the rows at or above the split point
/// `h/2 - h/(d/SCALE)`, with both sides brought onto the common
/// positive denominator `2*d`.
pub open spec fn is_ceiling_row(y: int, d: int, h: int) -> bool {
    2 * d * y <= h * d - 2 * h * SCALE
}

/// Whether screen row `y` lies in the floor band for hit distance `d`
/// and screen height `h`: the rows strictly below the mirrored split
/// point `h/2 + h/(d/SCALE)`, on the same common denominator.
pub open spec fn is_floor_row(y: int, d: int, h: int) -> bool {
    2 * d * y > h * d + 2 * h * SCALE
}

/// Whether screen row `y` lies in the wall band: between the ceiling
/// split (exclusive) and the floor split (inclusive).
pub open spec fn is_wall_row(y: int, d: int, h: int) -> bool {
    !is_ceiling_row(y, d, h) && !is_floor_row(y, d, h)
}

/// One screen column split into its three bands: rows
/// `[0, ceiling_end)` are ceiling, `[ceiling_end, wall_end)` are wall,
/// `[wall_end, height)` are floor.
#[derive(Clone, Copy, Debug, PartialEq, Eq, Structural)]
pub struct ColumnSpan {
    /// First row below the ceiling band.
    pub ceiling_end: usize,
    /// First row below the wall band.
    pub wall_end: usize,
    /// Total number of rows in the column.
    pub height: usize,
}

impl ColumnSpan {
    /// The split points are ordered and lie within the column, and
    /// each of the three half-open bands holds exactly the rows that
    /// the projection formulas for distance `d` put there.
    pub open spec fn matches(self, d: int, h: int) -> bool {
        &&& self.height == h
        &&& self.ceiling_end <= self.wall_end <= h
        &&& forall|y: int| 0 <= y < h ==> ((y < self.ceiling_end) <==> is_ceiling_row(y, d, h))
        &&& forall|y: int| 0 <= y < h ==> ((self.wall_end <= y) <==> is_floor_row(y, d, h))
    }

    /// Fill color of row `y` of this column: the color of the band the
    /// row falls in.
    pub fn color_at(&self, y: usize) -> (c: u32)
        requires
            y < self.height,
            self.ceiling_end <= self.wall_end,
        ensures
            y < self.ceiling_end ==> c == CEILING_COLOR,
            self.ceiling_end <= y < self.wall_end ==> c == WALL_COLOR,
            self.wall_end <= y ==> c == FLOOR_COLOR,
    {
        if y < self.ceiling_end {
            CEILING_COLOR
        } else if y < self.wall_end {
            WALL_COLOR
        } else {
            FLOOR_COLOR
        }
    }
}

/// For an integer row and a positive denominator, sitting at or below
/// the rational split point is the same as sitting at or below its
/// floor: `y <= n / den <==> den * y <= n`.
proof fn lemma_le_floor_iff(y: int, n: int, den: int)
    requires
        den >= 1,
    ensures
        y <= n / den <==> den * y <= n,
{
    if den * y <= n {
        lemma_div_is_ordered(den * y, n, den);
        lemma_div_multiples_vanish(y, den);
    }
    if y <= n / den {
        lemma_mul_inequality(y, n / den, den);
        lemma_mul_is_commutative(y, den);
        lemma_mul_is_commutative(n / den, den);
        lemma_fundamental_div_mod(n, den);
    }
}

/// Every row of a column belongs to exactly one of the three bands:
/// the ceiling, wall and floor predicates partition `[0, h)` for every
/// positive distance, with no gaps and no overlaps.
pub proof fn lemma_bands_partition(y: int, d: int, h: int)
    requires
        d >= 1,
        h >= 1,
        0 <= y < h,
    ensures
        is_ceiling_row(y, d, h) || is_wall_row(y, d, h) || is_floor_row(y, d, h),
        !(is_ceiling_row(y, d, h) && is_wall_row(y, d, h)),
        !(is_ceiling_row(y, d, h) && is_floor_row(y, d, h)),
        !(is_wall_row(y, d, h) && is_floor_row(y, d, h)),
{
    assert(h * d - 2 * h * SCALE < h * d + 2 * h * SCALE) by (nonlinear_arith)
        requires
            h >= 1,
    ;
}

/// Splits one screen column for hit distance `d`: the wall slab is
/// centered on the half-height and shrinks as `h/(d/SCALE)` with
/// growing distance, the ceiling band above it and the floor band
/// below it filling the rest of the column. A non-positive distance is
/// projected as the smallest positive one, so the division is always
/// defined.
pub fn project_column(d: i64, h: usize) -> (span: ColumnSpan)
    requires
        d <= MAX_DEPTH_UNITS,
        h <= MAX_SCREEN_DIM,
    ensures
        span.matches(effective_distance(d as int), h as int),
{
    let dd: i64 = if d <= 0 {
        1
    } else {
        d
    };
    let hh = h as i64;
    let ghost de = dd as int;
    let ghost hi = h as int;
    proof {
        assert(0 <= hi * de <= 0x100000000 && 0 <= hi * (SCALE as int) <= 0x400000)
            by (nonlinear_arith)
            requires
                1 <= de <= MAX_DEPTH_UNITS as int,
                0 <= hi <= MAX_SCREEN_DIM as int,
        ;
    }
    let den: i64 = 2 * dd;
    let ghost dn = den as int;
    let ghost n_c = hi * de - 2 * hi * (SCALE as int);
    let ghost n_f = hi * de + 2 * hi * (SCALE as int);

    // ceiling split: the last row y with 2*d*y <= h*d - 2*h*SCALE,
    // if that bound is non-negative at all; the band below it.
    let ceiling_end: usize = if hh * dd >= 2 * hh * SCALE {
        let cut = floor_div(hh * dd - 2 * hh * SCALE, den);
        proof {
            lemma_div_pos_is_pos(n_c, dn);
            lemma_div_is_ordered_by_denominator(n_c, 1, dn);
        }
        let c = cut + 1;
        if c > hh {
            h
        } else {
            c as usize
        }
    } else {
        0
    };

    // floor split: the band strictly below the last row y with
    // 2*d*y <= h*d + 2*h*SCALE.
    let fcut = floor_div(hh * dd + 2 * hh * SCALE, den);
    proof {
        lemma_div_pos_is_pos(n_f, dn);
        lemma_div_is_ordered_by_denominator(n_f, 1, dn);
    }
    let fc = fcut + 1;
    let wall_end: usize = if fc > hh {
        h
    } else {
        fc as usize
    };

    let span = ColumnSpan { ceiling_end, wall_end, height: h };
    proof {
        assert forall|y: int| 0 <= y < hi implies ((y < span.ceiling_end as int) <==> is_ceiling_row(
            y,
            de,
            hi,
        )) by {
            lemma_le_floor_iff(y, n_c, dn);
            if n_c < 0 {
                assert(2 * de * y >= 0) by (nonlinear_arith)
                    requires
                        de >= 1,
                        y >= 0,
                ;
            }
        }
        assert forall|y: int| 0 <= y < hi implies ((span.wall_end as int <= y) <==> is_floor_row(
            y,
            de,
            hi,
        )) by {
            lemma_le_floor_iff(y, n_f, dn);
        }
        if span.ceiling_end > 0 {
            lemma_div_is_ordered(n_c, n_f, dn);
        }
    }
    span
}

} // verus!
