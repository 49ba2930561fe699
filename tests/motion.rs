use ray_pick::{approach, Point3};

fn p(x: i64, y: i64, z: i64) -> Point3 {
    Point3 { x, y, z }
}

#[test]
fn snaps_onto_goal_within_one_step() {
    assert_eq!(approach(p(100, 100, 100), p(0, 0, 0), p(3, 4, 0), 5), p(3, 4, 0));
    assert_eq!(approach(p(100, 100, 100), p(0, 0, 0), p(1, 1, 1), 5), p(1, 1, 1));
}

#[test]
fn already_there_stays_on_goal() {
    assert_eq!(approach(p(7, 8, 9), p(2, 2, 2), p(2, 2, 2), 0), p(2, 2, 2));
}

#[test]
fn one_step_toward_goal() {
    // Distance 50 along (3, 4, 0) / 5: a step of 5 moves by (3, 4, 0).
    assert_eq!(approach(p(10, 10, 10), p(0, 0, 0), p(30, 40, 0), 5), p(13, 14, 10));
}

#[test]
fn step_is_rounded_down() {
    // Length of (10, 10, 0) taken as 14: each coordinate moves by 30 / 14.
    assert_eq!(approach(p(0, 0, 0), p(0, 0, 0), p(10, 10, 0), 3), p(2, 2, 0));
    assert_eq!(approach(p(0, 0, 0), p(0, 0, 0), p(-10, -10, 0), 3), p(-3, -3, 0));
}

#[test]
fn zero_step_stays_at_base() {
    assert_eq!(approach(p(5, 6, 7), p(0, 0, 0), p(10, 0, 0), 0), p(5, 6, 7));
}

#[test]
fn far_apart_points() {
    let far = 1i64 << 32;
    let r = approach(p(0, 0, 0), p(-far, -far, -far), p(far, far, far), 1_000_000);
    // Along the diagonal: 1_000_000 / sqrt(3) rounded down, per coordinate.
    assert_eq!(r, p(577_350, 577_350, 577_350));
}
