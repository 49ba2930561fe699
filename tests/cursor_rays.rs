use ray_pick::{cursor_ray, CameraPose, CursorRay, Lens, Point3, Projection, UNIT};

fn p(x: i64, y: i64, z: i64) -> Point3 {
    Point3 { x, y, z }
}

/// Camera at `position` looking down -z.
fn facing_down_z(position: Point3) -> CameraPose {
    CameraPose { position, right: p(UNIT, 0, 0), up: p(0, UNIT, 0), back: p(0, 0, UNIT) }
}

/// Perspective lens in micrometres: near plane 0.1 m away, vertical field of
/// view of a quarter turn over two, 4:3 window.
fn perspective() -> Lens {
    Lens { projection: Projection::Perspective, half_width: 55_228, half_height: 41_421, near: 100_000 }
}

fn orthographic() -> Lens {
    Lens { projection: Projection::Orthographic, half_width: 4_000_000, half_height: 3_000_000, near: 100_000 }
}

#[test]
fn center_of_window_example() {
    // 800x600 window, cursor in the centre, camera at the origin facing -z.
    let ray = cursor_ray(facing_down_z(p(0, 0, 0)), perspective(), Some((400, 300)), 800, 600).unwrap();
    assert_eq!(ray.origin, p(0, 0, -100_000));
    assert_eq!(ray.direction, p(0, 0, -100_000 * UNIT));
}

#[test]
fn center_ray_follows_a_turned_camera() {
    // Turned a quarter turn to the left: looks down -x.
    let pose = CameraPose {
        position: p(1_000, 2_000, 3_000),
        right: p(0, 0, -UNIT),
        up: p(0, UNIT, 0),
        back: p(UNIT, 0, 0),
    };
    let ray = cursor_ray(pose, perspective(), Some((400, 300)), 800, 600).unwrap();
    assert_eq!(ray.direction, p(-100_000 * UNIT, 0, 0));
    assert_eq!(ray.origin, p(1_000 - 100_000, 2_000, 3_000));
    let ray = cursor_ray(pose, orthographic(), Some((400, 300)), 800, 600).unwrap();
    assert_eq!(ray.direction, p(-UNIT, 0, 0));
}

#[test]
fn corner_ray_through_near_plane_corner() {
    let ray = cursor_ray(facing_down_z(p(0, 0, 0)), perspective(), Some((800, 600)), 800, 600).unwrap();
    assert_eq!(ray.origin, p(55_228, 41_421, -100_000));
    assert_eq!(ray.direction, p(55_228 * UNIT, 41_421 * UNIT, -100_000 * UNIT));
}

#[test]
fn cursor_outside_window_is_held_at_the_edge() {
    let inside = cursor_ray(facing_down_z(p(0, 0, 0)), perspective(), Some((0, 600)), 800, 600).unwrap();
    let outside = cursor_ray(facing_down_z(p(0, 0, 0)), perspective(), Some((-50, 900)), 800, 600).unwrap();
    assert_eq!(inside, outside);
    assert_eq!(inside.origin, p(-55_228, 41_421, -100_000));
}

#[test]
fn missing_cursor_uses_window_origin() {
    let none = cursor_ray(facing_down_z(p(0, 0, 0)), perspective(), None, 800, 600).unwrap();
    let origin = cursor_ray(facing_down_z(p(0, 0, 0)), perspective(), Some((0, 0)), 800, 600).unwrap();
    assert_eq!(none, origin);
    assert_eq!(none.origin, p(-55_228, -41_421, -100_000));
}

#[test]
fn zero_sized_window_has_no_ray() {
    assert_eq!(cursor_ray(facing_down_z(p(0, 0, 0)), perspective(), Some((1, 1)), 0, 600), None);
    assert_eq!(cursor_ray(facing_down_z(p(0, 0, 0)), perspective(), Some((1, 1)), 800, 0), None);
}

#[test]
fn orthographic_rays_are_parallel() {
    let pose = facing_down_z(p(0, 0, 5_000_000));
    let a: CursorRay = cursor_ray(pose, orthographic(), Some((10, 20)), 800, 600).unwrap();
    let b: CursorRay = cursor_ray(pose, orthographic(), Some((700, 555)), 800, 600).unwrap();
    assert_eq!(a.direction, b.direction);
    assert_eq!(a.direction, p(0, 0, -UNIT));
    assert_ne!(a.origin, b.origin);
    // x: (700 * 2 / 800 - 1) * 4 m exactly. y: the device coordinate
    // 555 * 2 / 600 - 1 = 0.85 is held as 55_705 / 65_536, which gives
    // 2_549_972.5 micrometres, rounded down.
    assert_eq!(b.origin, p(3_000_000, 2_549_972, 4_900_000));
}

#[test]
fn perspective_rays_fan_out() {
    let pose = facing_down_z(p(0, 0, 0));
    let a = cursor_ray(pose, perspective(), Some((0, 300)), 800, 600).unwrap();
    let b = cursor_ray(pose, perspective(), Some((800, 300)), 800, 600).unwrap();
    assert_eq!(a.direction.x, -b.direction.x);
    assert!(a.direction.x < 0);
}
