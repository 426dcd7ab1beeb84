use raycaster::project::project_column;
use raycaster::project::CEILING_COLOR;
use raycaster::project::FLOOR_COLOR;
use raycaster::project::WALL_COLOR;
use raycaster::SCALE;

const H: usize = 240;

/// The band the projection formulas put row `y` in, recomputed here
/// directly from the common-denominator comparisons.
fn expected_band(y: i64, d: i64, h: i64) -> u32 {
    let d = if d <= 0 { 1 } else { d };
    if 2 * d * y <= h * d - 2 * h * SCALE {
        CEILING_COLOR
    } else if 2 * d * y > h * d + 2 * h * SCALE {
        FLOOR_COLOR
    } else {
        WALL_COLOR
    }
}

#[test]
fn bands_partition_the_column_for_many_distances() {
    for d in [-5i64, 0, 1, 51, 102, 512, 1024, 2048, 3000, 4096, 8192, 16384] {
        let span = project_column(d, H);
        assert_eq!(span.height, H);
        assert!(span.ceiling_end <= span.wall_end);
        assert!(span.wall_end <= H);
        // every row falls in exactly one band, with no seam mismatch
        for y in 0..H {
            assert_eq!(span.color_at(y), expected_band(y as i64, d, H as i64));
        }
    }
}

#[test]
fn two_cells_away_fills_almost_the_whole_column_with_wall() {
    // distance 2.0 cells: the split point h/2 - h/2 lands on row zero,
    // which the ceiling band keeps
    let span = project_column(2 * SCALE, H);
    assert_eq!(span.ceiling_end, 1);
    assert_eq!(span.wall_end, H);
}

#[test]
fn four_cells_away_splits_at_a_quarter_height() {
    // distance 4.0 cells: ceiling down to row 60 inclusive, floor
    // below row 180 inclusive
    let span = project_column(4 * SCALE, H);
    assert_eq!(span.ceiling_end, 61);
    assert_eq!(span.wall_end, 181);
}

#[test]
fn non_positive_distance_is_projected_as_the_smallest_one() {
    let near = project_column(1, H);
    for d in [0i64, -1, -4096] {
        let span = project_column(d, H);
        assert_eq!(span, near);
    }
    // a wall that close fills the whole column
    assert_eq!(near.ceiling_end, 0);
    assert_eq!(near.wall_end, H);
}

#[test]
fn far_distances_shrink_the_wall_band() {
    let near = project_column(2 * SCALE, H);
    let mid = project_column(4 * SCALE, H);
    let far = project_column(8 * SCALE, H);
    let near_wall = near.wall_end - near.ceiling_end;
    let mid_wall = mid.wall_end - mid.ceiling_end;
    let far_wall = far.wall_end - far.ceiling_end;
    assert!(near_wall > mid_wall);
    assert!(mid_wall > far_wall);
}

#[test]
fn color_at_follows_the_band_bounds() {
    let span = project_column(4 * SCALE, H);
    assert_eq!(span.color_at(0), CEILING_COLOR);
    assert_eq!(span.color_at(span.ceiling_end - 1), CEILING_COLOR);
    assert_eq!(span.color_at(span.ceiling_end), WALL_COLOR);
    assert_eq!(span.color_at(span.wall_end - 1), WALL_COLOR);
    assert_eq!(span.color_at(span.wall_end), FLOOR_COLOR);
    assert_eq!(span.color_at(H - 1), FLOOR_COLOR);
}
