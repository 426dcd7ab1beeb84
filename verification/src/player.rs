//! The player pose: a fixed-point position in map-cell units and a
//! heading in angle units, kept in `[0, TWO_PI_UNITS)` by wrapping.

use crate::fixed::floor_div;
use crate::fixed::lemma_mul_abs_bound;
use crate::fixed::wrap_mod;
use crate::fixed::SCALE;
use crate::fixed::TWO_PI_UNITS;
use vstd::arithmetic::div_mod::lemma_add_mod_noop_right;
use vstd::arithmetic::div_mod::lemma_small_mod;
use vstd::arithmetic::mul::lemma_mul_is_distributive_sub_other_way;
use vstd::prelude::*;

verus! {

/// Largest angle step a single rotation may take, in angle units.
pub const MAX_TURN_UNITS: i64 = 0x10000000;

/// Largest position coordinate magnitude, in position units.
pub const MAX_POS_UNITS: i64 = 0x40000000;

/// Largest single movement distance magnitude, in position units.
pub const MAX_MOVE_UNITS: i64 = 0x100000;

/// A heading folded into one turn: the Euclidean remainder by
/// `TWO_PI_UNITS`, always in `[0, TWO_PI_UNITS)`.
pub open spec fn wrap_angle(a: int) -> int {
    a % (TWO_PI_UNITS as int)
}

/// The heading after `k` successive rotations by `delta` from `h`.
pub open spec fn rotate_n(h: int, delta: int, k: nat) -> int
    decreases k,
{
    if k == 0 {
        h
    } else {
        wrap_angle(rotate_n(h, delta, (k - 1) as nat) + delta)
    }
}

/// Rotating `k` times by `delta` lands on the same heading as one
/// rotation by `k * delta`: with exact angle units the composition law
/// holds with no error term, wrap boundary included.
pub proof fn lemma_rotate_composes(h: int, delta: int, k: nat)
    requires
        0 <= h < TWO_PI_UNITS,
    ensures
        rotate_n(h, delta, k) == wrap_angle(h + k * delta),
    decreases k,
{
    if k == 0 {
        lemma_small_mod(h as nat, TWO_PI_UNITS as nat);
    } else {
        lemma_rotate_composes(h, delta, (k - 1) as nat);
        lemma_add_mod_noop_right(delta, h + (k - 1) * delta, TWO_PI_UNITS as int);
        lemma_mul_is_distributive_sub_other_way(delta, k as int, 1);
    }
}

/// Position and heading of the player, in fixed-point units.
pub struct PlayerState {
    /// East-west position, in position units (`SCALE` per cell).
    pub x: i64,
    /// North-south position, in position units (`SCALE` per cell).
    pub y: i64,
    /// Heading, in angle units (`SCALE` per radian).
    pub heading: i64,
}

impl PlayerState {
    /// The heading is folded into one turn and the position is small
    /// enough for movement arithmetic never to overflow.
    pub open spec fn wf(self) -> bool {
        &&& 0 <= self.heading < TWO_PI_UNITS
        &&& -MAX_POS_UNITS <= self.x <= MAX_POS_UNITS
        &&& -MAX_POS_UNITS <= self.y <= MAX_POS_UNITS
    }

    /// A pose at the given position whose heading is the given angle
    /// folded into `[0, TWO_PI_UNITS)`.
    pub fn new(x: i64, y: i64, heading: i64) -> (r: PlayerState)
        requires
            -MAX_POS_UNITS <= x <= MAX_POS_UNITS,
            -MAX_POS_UNITS <= y <= MAX_POS_UNITS,
        ensures
            r.wf(),
            r.x == x,
            r.y == y,
            r.heading == wrap_angle(heading as int),
    {
        let h = wrap_mod(heading, TWO_PI_UNITS);
        PlayerState { x, y, heading: h }
    }

    /// Adds `delta` to the heading and wraps the sum into
    /// `[0, TWO_PI_UNITS)`: turning past either bound comes out the
    /// other side, it never sticks at the bound. The position is
    /// untouched.
    pub fn rotate(&mut self, delta: i64)
        requires
            0 <= old(self).heading < TWO_PI_UNITS,
            -MAX_TURN_UNITS <= delta <= MAX_TURN_UNITS,
        ensures
            0 <= final(self).heading < TWO_PI_UNITS,
            final(self).heading == wrap_angle(old(self).heading + delta),
            final(self).x == old(self).x,
            final(self).y == old(self).y,
    {
        self.heading = wrap_mod(self.heading + delta, TWO_PI_UNITS);
    }

    /// Moves the player by `distance` along the forward vector
    /// `(forward_x, forward_y)`, each component a scaled sine/cosine of
    /// the heading; each coordinate gains the flooring-scaled product.
    /// Walls are not consulted: this core does no collision handling.
    pub fn advance(&mut self, distance: i64, forward_x: i64, forward_y: i64)
        requires
            -MAX_POS_UNITS <= old(self).x <= MAX_POS_UNITS,
            -MAX_POS_UNITS <= old(self).y <= MAX_POS_UNITS,
            -MAX_MOVE_UNITS <= distance <= MAX_MOVE_UNITS,
            -SCALE <= forward_x <= SCALE,
            -SCALE <= forward_y <= SCALE,
        ensures
            final(self).x == old(self).x + (forward_x * distance) / (SCALE as int),
            final(self).y == old(self).y + (forward_y * distance) / (SCALE as int),
            final(self).heading == old(self).heading,
    {
        proof {
            lemma_mul_abs_bound(forward_x as int, distance as int, SCALE as int, MAX_MOVE_UNITS as int);
            lemma_mul_abs_bound(forward_y as int, distance as int, SCALE as int, MAX_MOVE_UNITS as int);
            crate::fixed::lemma_div_sign_bounds(forward_x * distance, SCALE as int);
            crate::fixed::lemma_div_sign_bounds(forward_y * distance, SCALE as int);
        }
        self.x = self.x + floor_div(forward_x * distance, SCALE);
        self.y = self.y + floor_div(forward_y * distance, SCALE);
    }
}

} // verus!
