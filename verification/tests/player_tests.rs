use raycaster::player::PlayerState;
use raycaster::SCALE;
use raycaster::TWO_PI_UNITS;

#[test]
fn new_wraps_heading_into_one_turn() {
    let p = PlayerState::new(0, 0, TWO_PI_UNITS + 7);
    assert_eq!(p.heading, 7);
    let q = PlayerState::new(0, 0, -1);
    assert_eq!(q.heading, TWO_PI_UNITS - 1);
}

#[test]
fn rotate_wraps_past_zero() {
    let mut p = PlayerState::new(0, 0, 50);
    p.rotate(-102);
    // wrapping, not clamping: past zero comes out just below a full turn
    assert_eq!(p.heading, TWO_PI_UNITS - 52);
}

#[test]
fn rotate_wraps_past_full_turn() {
    let mut p = PlayerState::new(0, 0, TWO_PI_UNITS - 50);
    p.rotate(102);
    assert_eq!(p.heading, 52);
}

#[test]
fn rotate_leaves_position_alone() {
    let mut p = PlayerState::new(4096, 8192, 0);
    p.rotate(307);
    assert_eq!(p.x, 4096);
    assert_eq!(p.y, 8192);
    assert_eq!(p.heading, 307);
}

#[test]
fn repeated_rotation_matches_one_combined_rotation() {
    let delta: i64 = 1431;
    for k in 0..40u32 {
        let mut stepped = PlayerState::new(0, 0, 100);
        for _ in 0..k {
            stepped.rotate(delta);
        }
        let mut combined = PlayerState::new(0, 0, 100);
        combined.rotate(k as i64 * delta);
        assert_eq!(stepped.heading, combined.heading);
    }
}

#[test]
fn repeated_backward_rotation_matches_one_combined_rotation() {
    let delta: i64 = -977;
    for k in 0..40u32 {
        let mut stepped = PlayerState::new(0, 0, 6000);
        for _ in 0..k {
            stepped.rotate(delta);
        }
        let mut combined = PlayerState::new(0, 0, 6000);
        combined.rotate(k as i64 * delta);
        assert_eq!(stepped.heading, combined.heading);
    }
}

#[test]
fn advance_moves_along_forward_vector() {
    let mut p = PlayerState::new(4 * SCALE, 4 * SCALE, 0);
    // forward vector of heading 0 is (sin 0, cos 0) = (0, 1)
    p.advance(409, 0, SCALE);
    assert_eq!(p.x, 4 * SCALE);
    assert_eq!(p.y, 4 * SCALE + 409);
    assert_eq!(p.heading, 0);
}

#[test]
fn advance_scales_fractional_components() {
    let mut p = PlayerState::new(0, 0, 0);
    // a diagonal forward vector: sin/cos of 45 degrees, scaled
    p.advance(1000, 724, 724);
    assert_eq!(p.x, 724 * 1000 / 1024);
    assert_eq!(p.y, 724 * 1000 / 1024);
}

#[test]
fn advance_backward_floors_toward_negative_infinity() {
    let mut p = PlayerState::new(0, 0, 0);
    p.advance(-1, 0, SCALE);
    assert_eq!(p.y, -1);
    let mut q = PlayerState::new(0, 0, 0);
    q.advance(-1, 0, 1);
    // -1/1024 floors to -1, one whole unit
    assert_eq!(q.y, -1);
}
