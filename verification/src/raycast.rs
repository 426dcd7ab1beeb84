//! Ray marching: from a player position, march along a ray direction
//! in fixed steps until a wall cell is hit, the ray leaves the map, or
//! the depth limit is reached.

use crate::fixed::floor_div;
use crate::fixed::lemma_div_sign_bounds;
use crate::fixed::lemma_mul_abs_bound;
use crate::fixed::SCALE;
use crate::tilemap::TileMap;
use vstd::arithmetic::div_mod::lemma_div_is_ordered;
use vstd::arithmetic::div_mod::lemma_div_multiples_vanish_fancy;
use vstd::prelude::*;

verus! {

/// Largest accepted depth limit, in position units.
pub const MAX_DEPTH_UNITS: i64 = 0x100000;

/// Largest position coordinate magnitude a ray may start from, in
/// position units.
pub const MAX_RAY_POS_UNITS: i64 = 0x40000000;

/// The map cell that the sample point at march distance `dist` falls
/// in, along the axis with player coordinate `p` and direction
/// component `dir` (a scaled sine or cosine).
pub open spec fn sample_cell(p: int, dir: int, dist: int) -> int {
    (p + (dir * dist) / (SCALE as int)) / (SCALE as int)
}

/// The distance the march returns when it stands at `dist` with no
/// wall hit yet: fixed-step sampling, not grid-exact intersection.
///
/// Each round first checks the depth limit, then advances one step and
/// samples the map there. A sample outside the map resolves to `depth`
/// (the ray escaped); a wall sample resolves to the sample distance,
/// clamped to `depth`; an empty sample marches on.
pub open spec fn march(
    map: TileMap,
    px: int,
    py: int,
    dir_x: int,
    dir_y: int,
    step: int,
    depth: int,
    dist: int,
) -> int
    decreases depth - dist,
        when step >= 1
{
    if dist >= depth {
        depth
    } else {
        let next = dist + step;
        let tx = sample_cell(px, dir_x, next);
        let ty = sample_cell(py, dir_y, next);
        if !map.in_bounds(tx, ty) {
            depth
        } else if map.wall_at(tx, ty) {
            if next <= depth {
                next
            } else {
                depth
            }
        } else {
            if next >= depth {
                depth
            } else {
                march(map, px, py, dir_x, dir_y, step, depth, next)
            }
        }
    }
}

/// The distance a full ray march from the player returns.
pub open spec fn cast_distance(
    map: TileMap,
    px: int,
    py: int,
    dir_x: int,
    dir_y: int,
    step: int,
    depth: int,
) -> int {
    march(map, px, py, dir_x, dir_y, step, depth, 0)
}

/// The march never resolves below one step or above the depth limit:
/// the first sample sits at one full step from the player, and `depth`
/// saturates everything beyond it.
pub proof fn lemma_march_range(
    map: TileMap,
    px: int,
    py: int,
    dir_x: int,
    dir_y: int,
    step: int,
    depth: int,
    dist: int,
)
    requires
        1 <= step <= depth,
        0 <= dist,
    ensures
        march(map, px, py, dir_x, dir_y, step, depth, dist) <= depth,
        march(map, px, py, dir_x, dir_y, step, depth, dist) >= dist + step || march(
            map,
            px,
            py,
            dir_x,
            dir_y,
            step,
            depth,
            dist,
        ) == depth,
    decreases depth - dist,
{
    if dist < depth {
        let next = dist + step;
        let tx = sample_cell(px, dir_x, next);
        let ty = sample_cell(py, dir_y, next);
        if map.in_bounds(tx, ty) && !map.wall_at(tx, ty) && next < depth {
            lemma_march_range(map, px, py, dir_x, dir_y, step, depth, next);
        }
    }
}

/// A full cast lands in `[step, depth]`.
pub proof fn lemma_cast_distance_range(
    map: TileMap,
    px: int,
    py: int,
    dir_x: int,
    dir_y: int,
    step: int,
    depth: int,
)
    requires
        1 <= step <= depth,
    ensures
        step <= cast_distance(map, px, py, dir_x, dir_y, step, depth) <= depth,
{
    lemma_march_range(map, px, py, dir_x, dir_y, step, depth, 0);
}

/// A ray that meets no wall and stays inside the map out to the depth
/// limit resolves to exactly `depth`.
pub proof fn lemma_clear_ray_resolves_to_depth(
    map: TileMap,
    px: int,
    py: int,
    dir_x: int,
    dir_y: int,
    step: int,
    depth: int,
    dist: int,
)
    requires
        1 <= step <= depth,
        0 <= dist,
        forall|d: int|
            1 <= d < depth + step ==> map.in_bounds(
                sample_cell(px, dir_x, d),
                sample_cell(py, dir_y, d),
            ) && !map.wall_at(sample_cell(px, dir_x, d), sample_cell(py, dir_y, d)),
    ensures
        march(map, px, py, dir_x, dir_y, step, depth, dist) == depth,
    decreases depth - dist,
{
    if dist < depth {
        let next = dist + step;
        if next < depth {
            lemma_clear_ray_resolves_to_depth(map, px, py, dir_x, dir_y, step, depth, next);
        }
    }
}

/// A ray whose very first sample cell is already a wall resolves to
/// exactly one step, never to zero: walls flush against the player
/// still show finite depth.
pub proof fn lemma_immediate_wall_resolves_to_step(
    map: TileMap,
    px: int,
    py: int,
    dir_x: int,
    dir_y: int,
    step: int,
    depth: int,
)
    requires
        1 <= step <= depth,
        map.in_bounds(sample_cell(px, dir_x, step), sample_cell(py, dir_y, step)),
        map.wall_at(sample_cell(px, dir_x, step), sample_cell(py, dir_y, step)),
    ensures
        cast_distance(map, px, py, dir_x, dir_y, step, depth) == step,
{
}

/// A ray whose very first sample cell already lies outside the map
/// resolves to exactly `depth`: leaving the world counts as hitting
/// nothing.
pub proof fn lemma_immediate_escape_resolves_to_depth(
    map: TileMap,
    px: int,
    py: int,
    dir_x: int,
    dir_y: int,
    step: int,
    depth: int,
)
    requires
        1 <= step <= depth,
        !map.in_bounds(sample_cell(px, dir_x, step), sample_cell(py, dir_y, step)),
    ensures
        cast_distance(map, px, py, dir_x, dir_y, step, depth) == depth,
{
}

/// A player standing at least one full cell outside the map, whatever
/// the ray direction, resolves to exactly `depth`: with a step shorter
/// than one cell the first sample cell is still outside the map, so
/// the ray counts as escaped at once.
pub proof fn lemma_outside_player_resolves_to_depth(
    map: TileMap,
    px: int,
    py: int,
    dir_x: int,
    dir_y: int,
    step: int,
    depth: int,
)
    requires
        1 <= step <= depth,
        step < SCALE,
        -SCALE <= dir_x <= SCALE,
        -SCALE <= dir_y <= SCALE,
        px <= -SCALE || px >= (map.spec_width() + 1) * SCALE || py <= -SCALE || py >= (
        map.spec_height() + 1) * SCALE,
    ensures
        cast_distance(map, px, py, dir_x, dir_y, step, depth) == depth,
{
    map.lemma_dims_nonneg();
    lemma_first_step_stays_in_neighbor_cells(px, dir_x, step, map.spec_width());
    lemma_first_step_stays_in_neighbor_cells(py, dir_y, step, map.spec_height());
    lemma_immediate_escape_resolves_to_depth(map, px, py, dir_x, dir_y, step, depth);
}

/// One step of less than a cell, scaled by a direction component of at
/// most one, cannot carry the first sample past the cell column (or
/// row) next to the player's own: a coordinate a full cell below zero
/// samples below zero, one a full cell past `edge` samples at or past
/// `edge`.
proof fn lemma_first_step_stays_in_neighbor_cells(p: int, dir: int, step: int, edge: int)
    requires
        1 <= step < SCALE,
        -SCALE <= dir <= SCALE,
        0 <= edge,
    ensures
        p <= -SCALE ==> sample_cell(p, dir, step) <= -1,
        p >= (edge + 1) * SCALE ==> sample_cell(p, dir, step) >= edge,
{
    let s = SCALE as int;
    lemma_mul_abs_bound(dir, step, s, s - 1);
    let q = (dir * step) / s;
    assert(-(s * (s - 1)) == s * (-(s - 1))) by (nonlinear_arith);
    lemma_div_is_ordered(dir * step, s * (s - 1), s);
    lemma_div_is_ordered(s * (-(s - 1)), dir * step, s);
    lemma_div_multiples_vanish_fancy(s - 1, 0, s);
    lemma_div_multiples_vanish_fancy(-(s - 1), 0, s);
    assert(-(s - 1) <= q <= s - 1);
    if p <= -s {
        lemma_div_is_ordered(p + q, -1, s);
        assert((-1) / s == -1) by (nonlinear_arith)
            requires
                s == SCALE as int,
        ;
    }
    if p >= (edge + 1) * s {
        assert((edge + 1) * s - (s - 1) == s * edge + 1) by (nonlinear_arith);
        lemma_div_is_ordered(s * edge + 1, p + q, s);
        lemma_div_multiples_vanish_fancy(edge, 1, s);
    }
}

/// Marches a ray from `(px, py)` along `(dir_x, dir_y)` (a scaled
/// sine/cosine pair), advancing `step` units per sample, until a wall
/// cell is sampled, the ray leaves the map, or `depth` is reached; the
/// result is the sampled hit distance clamped into `[0, depth]`, and
/// always lies in `[step, depth]`.
pub fn cast_ray(
    map: &TileMap,
    px: i64,
    py: i64,
    dir_x: i64,
    dir_y: i64,
    step: i64,
    depth: i64,
) -> (r: i64)
    requires
        map.wf(),
        1 <= step <= depth,
        depth <= MAX_DEPTH_UNITS,
        -MAX_RAY_POS_UNITS <= px <= MAX_RAY_POS_UNITS,
        -MAX_RAY_POS_UNITS <= py <= MAX_RAY_POS_UNITS,
        -SCALE <= dir_x <= SCALE,
        -SCALE <= dir_y <= SCALE,
    ensures
        r == cast_distance(*map, px as int, py as int, dir_x as int, dir_y as int, step as int, depth as int),
        step <= r <= depth,
{
    let ghost g_cast = cast_distance(
        *map,
        px as int,
        py as int,
        dir_x as int,
        dir_y as int,
        step as int,
        depth as int,
    );
    let mut dist: i64 = 0;
    let mut hit = false;
    while !hit && dist < depth
        invariant
            map.wf(),
            1 <= step <= depth <= MAX_DEPTH_UNITS,
            -MAX_RAY_POS_UNITS <= px <= MAX_RAY_POS_UNITS,
            -MAX_RAY_POS_UNITS <= py <= MAX_RAY_POS_UNITS,
            -SCALE <= dir_x <= SCALE,
            -SCALE <= dir_y <= SCALE,
            0 <= dist <= depth + step - 1,
            !hit ==> g_cast == march(
                *map,
                px as int,
                py as int,
                dir_x as int,
                dir_y as int,
                step as int,
                depth as int,
                dist as int,
            ),
            hit ==> step <= dist && g_cast == (if dist <= depth {
                dist as int
            } else {
                depth as int
            }),
        decreases depth + step - dist,
    {
        dist = dist + step;
        proof {
            lemma_mul_abs_bound(dir_x as int, dist as int, SCALE as int, (MAX_DEPTH_UNITS + MAX_DEPTH_UNITS) as int);
            lemma_mul_abs_bound(dir_y as int, dist as int, SCALE as int, (MAX_DEPTH_UNITS + MAX_DEPTH_UNITS) as int);
            lemma_div_sign_bounds(dir_x * dist, SCALE as int);
            lemma_div_sign_bounds(dir_y * dist, SCALE as int);
        }
        let sx = px + floor_div(dir_x * dist, SCALE);
        let sy = py + floor_div(dir_y * dist, SCALE);
        proof {
            lemma_div_sign_bounds(sx as int, SCALE as int);
            lemma_div_sign_bounds(sy as int, SCALE as int);
        }
        let tx = floor_div(sx, SCALE);
        let ty = floor_div(sy, SCALE);
        if !map.contains(tx, ty) {
            dist = depth;
        } else if map.is_wall(tx as usize, ty as usize) {
            hit = true;
        }
    }
    if dist > depth {
        depth
    } else {
        dist
    }
}

} // verus!
