//! Whole-frame rendering: one ray per screen column, each column's hit
//! distance projected into its three pixel bands.

use crate::fixed::SCALE;
use crate::fixed::TWO_PI_UNITS;
use crate::project::effective_distance;
use crate::project::project_column;
use crate::project::ColumnSpan;
use crate::project::MAX_SCREEN_DIM;
use crate::raycast::cast_distance;
use crate::raycast::cast_ray;
use crate::raycast::MAX_DEPTH_UNITS;
use crate::raycast::MAX_RAY_POS_UNITS;
use crate::tilemap::TileMap;
use vstd::prelude::*;

verus! {

/// The angle of the ray for screen column `x`: the left edge of the
/// field of view, `heading - fov/2`, plus the column's share
/// `(x / width) * fov` of the spread, all in angle units. The result
/// may be negative or exceed a full turn; directions are taken of the
/// angle as-is.
pub open spec fn column_angle_spec(heading: int, fov: int, x: int, width: int) -> int {
    heading - fov / 2 + (x * fov) / width
}

/// Computes the ray angle for screen column `x` of `width`.
pub fn column_angle(heading: i64, fov: i64, x: usize, width: usize) -> (r: i64)
    requires
        0 <= heading < TWO_PI_UNITS,
        0 <= fov <= TWO_PI_UNITS,
        1 <= width <= MAX_SCREEN_DIM,
        x < width,
    ensures
        r == column_angle_spec(heading as int, fov as int, x as int, width as int),
        -TWO_PI_UNITS <= r < 2 * TWO_PI_UNITS,
{
    proof {
        let xi = x as int;
        let fi = fov as int;
        let wi = width as int;
        assert(0 <= xi * fi <= MAX_SCREEN_DIM as int * TWO_PI_UNITS as int) by (nonlinear_arith)
            requires
                0 <= xi <= MAX_SCREEN_DIM as int,
                0 <= fi <= TWO_PI_UNITS as int,
        ;
        assert((xi * fi) / wi <= TWO_PI_UNITS) by {
            assert(xi * fi <= wi * (TWO_PI_UNITS as int)) by (nonlinear_arith)
                requires
                    0 <= xi < wi,
                    0 <= fi <= TWO_PI_UNITS as int,
            ;
            vstd::arithmetic::div_mod::lemma_div_is_ordered(xi * fi, wi * (TWO_PI_UNITS as int), wi);
            vstd::arithmetic::div_mod::lemma_div_multiples_vanish(TWO_PI_UNITS as int, wi);
        }
        vstd::arithmetic::div_mod::lemma_div_pos_is_pos(xi * fi, wi);
    }
    let share = crate::fixed::floor_div((x as i64) * fov, width as i64);
    let half = crate::fixed::floor_div(fov, 2);
    heading - half + share
}

/// The spans of one rendered frame, one per ray direction, pinned
/// column by column: each is the projection of that column's cast
/// distance.
pub open spec fn frame_matches(
    spans: Seq<ColumnSpan>,
    map: TileMap,
    px: int,
    py: int,
    dirs: Seq<(i64, i64)>,
    step: int,
    depth: int,
    screen_height: int,
) -> bool {
    &&& spans.len() == dirs.len()
    &&& forall|i: int|
        0 <= i < dirs.len() ==> #[trigger] spans[i].matches(
            effective_distance(
                cast_distance(map, px, py, dirs[i].0 as int, dirs[i].1 as int, step, depth),
            ),
            screen_height,
        )
}

/// Renders one frame as pure data: for each screen column, casts the
/// ray whose direction (a scaled sine/cosine pair) the caller computed
/// for that column, and projects the hit distance into the column's
/// ceiling/wall/floor bands. Columns are independent; nothing but the
/// returned spans is touched.
pub fn render_frame(
    map: &TileMap,
    px: i64,
    py: i64,
    dirs: &Vec<(i64, i64)>,
    step: i64,
    depth: i64,
    screen_height: usize,
) -> (spans: Vec<ColumnSpan>)
    requires
        map.wf(),
        1 <= step <= depth,
        depth <= MAX_DEPTH_UNITS,
        -MAX_RAY_POS_UNITS <= px <= MAX_RAY_POS_UNITS,
        -MAX_RAY_POS_UNITS <= py <= MAX_RAY_POS_UNITS,
        screen_height <= MAX_SCREEN_DIM,
        forall|i: int|
            0 <= i < dirs@.len() ==> -SCALE <= #[trigger] dirs@[i].0 <= SCALE && -SCALE
                <= dirs@[i].1 <= SCALE,
    ensures
        frame_matches(
            spans@,
            *map,
            px as int,
            py as int,
            dirs@,
            step as int,
            depth as int,
            screen_height as int,
        ),
{
    let mut spans: Vec<ColumnSpan> = Vec::new();
    let n = dirs.len();
    let mut i: usize = 0;
    while i < n
        invariant
            map.wf(),
            1 <= step <= depth <= MAX_DEPTH_UNITS,
            -MAX_RAY_POS_UNITS <= px <= MAX_RAY_POS_UNITS,
            -MAX_RAY_POS_UNITS <= py <= MAX_RAY_POS_UNITS,
            screen_height <= MAX_SCREEN_DIM,
            forall|j: int|
                0 <= j < dirs@.len() ==> -SCALE <= #[trigger] dirs@[j].0 <= SCALE && -SCALE
                    <= dirs@[j].1 <= SCALE,
            n == dirs@.len(),
            i <= n,
            spans@.len() == i,
            forall|j: int|
                0 <= j < i ==> #[trigger] spans@[j].matches(
                    effective_distance(
                        cast_distance(
                            *map,
                            px as int,
                            py as int,
                            dirs@[j].0 as int,
                            dirs@[j].1 as int,
                            step as int,
                            depth as int,
                        ),
                    ),
                    screen_height as int,
                ),
        decreases n - i,
    {
        let (dir_x, dir_y) = dirs[i];
        let dist = cast_ray(map, px, py, dir_x, dir_y, step, depth);
        let span = project_column(dist, screen_height);
        spans.push(span);
        i = i + 1;
    }
    spans
}

} // verus!
