use vstd::arithmetic::div_mod::lemma_div_is_ordered;
use vstd::prelude::*;

use crate::arith::{floor_div, lemma_mul_bound};

verus! {

/// Bit pattern of the `f32` value `1.0`, the only pattern equal to it.
pub const ONE_BITS: u32 = 0x3f80_0000;

/// The two kinds of camera projection. Under both, a cursor ray starts at the
/// cursor's point on the near plane; they differ in its direction.
#[derive(PartialEq, Eq, Structural, Clone, Copy, Debug)]
pub enum Projection {
    /// Rays run from the camera position through the cursor's point on the
    /// near plane.
    Perspective,
    /// Rays run along the camera's forward axis, all parallel.
    Orthographic,
}

/// Tells the projection from the bottom-right entry of its matrix, given as
/// an `f32` bit pattern: an orthographic matrix has `1.0` there, a
/// perspective one does not.
pub fn projection_kind(w_axis_w: u32) -> (r: Projection)
    ensures
        r == (if w_axis_w == ONE_BITS { Projection::Orthographic } else { Projection::Perspective }),
{
    if w_axis_w == ONE_BITS {
        Projection::Orthographic
    } else {
        Projection::Perspective
    }
}

/// Fixed-point one: the camera's axes and device coordinates are given in
/// units of `1 / UNIT`.
pub const UNIT: i64 = 0x1_0000;

/// Largest lens length (half extents of the view, near distance).
pub const MAX_LENS: i64 = 0x1000_0000;

/// Largest magnitude of a ray direction coordinate.
pub const MAX_DIRECTION: i64 = 0x8000_0000_0000;

/// Largest magnitude of a world position coordinate.
pub const MAX_COORD: i64 = 0x1_0000_0000;

/// A point or vector with integer coordinates.
#[derive(PartialEq, Eq, Structural, Clone, Copy, Debug)]
pub struct Point3 {
    pub x: i64,
    pub y: i64,
    pub z: i64,
}

/// Where the camera is and how it is turned: its local x (`right`), y (`up`)
/// and z (`back`) axes expressed in world space, each of length `UNIT`; the
/// camera looks down `-back`.
#[derive(PartialEq, Eq, Structural, Clone, Copy, Debug)]
pub struct CameraPose {
    pub position: Point3,
    pub right: Point3,
    pub up: Point3,
    pub back: Point3,
}

/// The projection and its extent: the half width and half height of the view
/// on the near plane, and the near plane's distance, in the units of the
/// camera position.
#[derive(PartialEq, Eq, Structural, Clone, Copy, Debug)]
pub struct Lens {
    pub projection: Projection,
    pub half_width: i64,
    pub half_height: i64,
    pub near: i64,
}

/// A ray in world space; its direction need not have unit length.
#[derive(PartialEq, Eq, Structural, Clone, Copy, Debug)]
pub struct CursorRay {
    pub origin: Point3,
    pub direction: Point3,
}

/// A mathematical vector of three integers.
pub type V3 = (int, int, int);

/// The coordinates of a point as integers.
pub open spec fn view3(p: Point3) -> V3 {
    (p.x as int, p.y as int, p.z as int)
}

/// Every coordinate lies in `[-bound, bound]`.
pub open spec fn within(p: Point3, bound: int) -> bool {
    -bound <= p.x <= bound && -bound <= p.y <= bound && -bound <= p.z <= bound
}

/// The pose's numbers are within the fixed-point ranges.
pub open spec fn pose_ok(pose: CameraPose) -> bool {
    &&& within(pose.position, MAX_COORD as int)
    &&& within(pose.right, UNIT as int)
    &&& within(pose.up, UNIT as int)
    &&& within(pose.back, UNIT as int)
}

/// The lens lengths are within range.
pub open spec fn lens_ok(lens: Lens) -> bool {
    &&& 0 <= lens.half_width <= MAX_LENS
    &&& 0 <= lens.half_height <= MAX_LENS
    &&& 0 <= lens.near <= MAX_LENS
}

/// The cursor position, the window origin when there is none.
pub open spec fn cursor_or_origin(cursor: Option<(i64, i64)>) -> (int, int) {
    match cursor {
        Some((x, y)) => (x as int, y as int),
        None => (0, 0),
    }
}

/// A cursor coordinate held inside the window.
pub open spec fn clamp(c: int, size: int) -> int {
    if c < 0 {
        0
    } else if c > size {
        size
    } else {
        c
    }
}

/// The normalized device coordinate of a cursor coordinate, from `-UNIT` at
/// one edge of the window to `UNIT` at the other, rounded down.
pub open spec fn ndc(c: int, size: int) -> int {
    (2 * clamp(c, size) * UNIT) / size - UNIT
}

/// The cursor's point on the near plane in camera space, scaled by `UNIT`.
pub open spec fn view_offset(lens: Lens, cx: int, cy: int, width: int, height: int) -> V3 {
    (ndc(cx, width) * lens.half_width, ndc(cy, height) * lens.half_height, -lens.near * UNIT)
}

/// A camera-space vector in world space, scaled by `UNIT`.
pub open spec fn rotate(pose: CameraPose, v: V3) -> V3 {
    (
        pose.right.x * v.0 + pose.up.x * v.1 + pose.back.x * v.2,
        pose.right.y * v.0 + pose.up.y * v.1 + pose.back.y * v.2,
        pose.right.z * v.0 + pose.up.z * v.1 + pose.back.z * v.2,
    )
}

/// The camera's forward axis.
pub open spec fn forward(pose: CameraPose) -> V3 {
    (-pose.back.x, -pose.back.y, -pose.back.z)
}

/// The cursor's point on the near plane in world space, rounded down.
pub open spec fn near_point(pose: CameraPose, lens: Lens, cx: int, cy: int, width: int, height: int) -> V3 {
    let r = rotate(pose, view_offset(lens, cx, cy, width, height));
    let s = UNIT * UNIT;
    (pose.position.x + r.0 / s, pose.position.y + r.1 / s, pose.position.z + r.2 / s)
}

/// Each coordinate divided by `d`, rounded down.
pub open spec fn div3(v: V3, d: int) -> V3 {
    (v.0 / d, v.1 / d, v.2 / d)
}

/// The direction of the cursor ray: from the camera through the cursor's point
/// on the near plane (scaled by `UNIT`, rounded down), or the forward axis.
pub open spec fn ray_direction(pose: CameraPose, lens: Lens, cx: int, cy: int, width: int, height: int) -> V3 {
    match lens.projection {
        Projection::Perspective => div3(rotate(pose, view_offset(lens, cx, cy, width, height)), UNIT as int),
        Projection::Orthographic => forward(pose),
    }
}

/// The normalized device coordinate of a cursor coordinate.
fn device_coordinate(c: i64, size: u32) -> (r: i64)
    requires
        size > 0,
    ensures
        r == ndc(c as int, size as int),
        -UNIT <= r <= UNIT,
{
    let held: i64 = if c < 0 {
        0
    } else if c > size as i64 {
        size as i64
    } else {
        c
    };
    assert(0 <= held <= 0xffff_ffff);
    assert(2 * held * UNIT <= 2 * 0xffff_ffff * 0x1_0000) by (nonlinear_arith)
        requires
            0 <= held <= 0xffff_ffff,
            UNIT == 0x1_0000,
    ;
    let num: u64 = 2 * (held as u64) * (UNIT as u64);
    let q: u64 = num / (size as u64);
    proof {
        assert(num as int / size as int <= 2 * UNIT) by {
            lemma_div_is_ordered(num as int, 2 * UNIT * size, size as int);
            vstd::arithmetic::div_mod::lemma_div_multiples_vanish(2 * UNIT as int, size as int);
        }
    }
    q as i64 - UNIT
}

/// The ray from the camera through the cursor. The cursor is in window
/// pixels from the bottom-left corner, held inside the window, and the window
/// origin when absent. The ray starts at the cursor's point on the near
/// plane; its direction is the one `ray_direction` gives. A window of zero
/// size has no rays.
pub fn cursor_ray(pose: CameraPose, lens: Lens, cursor: Option<(i64, i64)>, width: u32, height: u32) -> (r: Option<CursorRay>)
    requires
        pose_ok(pose),
        lens_ok(lens),
    ensures
        (width == 0 || height == 0) <==> r is None,
        r matches Some(ray) ==> {
            let (cx, cy) = cursor_or_origin(cursor);
            &&& view3(ray.origin) == near_point(pose, lens, cx, cy, width as int, height as int)
            &&& view3(ray.direction) == ray_direction(pose, lens, cx, cy, width as int, height as int)
            &&& within(ray.origin, 2 * MAX_COORD)
            &&& within(ray.direction, MAX_DIRECTION as int)
        },
{
    if width == 0 || height == 0 {
        return None;
    }
    let (cx, cy) = match cursor {
        Some(c) => c,
        None => (0, 0),
    };
    let nx = device_coordinate(cx, width);
    let ny = device_coordinate(cy, height);
    proof {
        lemma_mul_bound(nx as int, lens.half_width as int, UNIT as int, MAX_LENS as int);
        lemma_mul_bound(ny as int, lens.half_height as int, UNIT as int, MAX_LENS as int);
    }
    let v = Point3 { x: nx * lens.half_width, y: ny * lens.half_height, z: -(lens.near * UNIT) };
    let ghost bound: int = UNIT * MAX_LENS;
    proof {
        assert(bound == 0x1000_0000_0000);
        assert(within(pose.right, UNIT as int) && within(pose.up, UNIT as int) && within(pose.back, UNIT as int));
        assert(within(v, bound));
        lemma_mul_bound(pose.right.x as int, v.x as int, UNIT as int, bound);
        lemma_mul_bound(pose.up.x as int, v.y as int, UNIT as int, bound);
        lemma_mul_bound(pose.back.x as int, v.z as int, UNIT as int, bound);
        lemma_mul_bound(pose.right.y as int, v.x as int, UNIT as int, bound);
        lemma_mul_bound(pose.up.y as int, v.y as int, UNIT as int, bound);
        lemma_mul_bound(pose.back.y as int, v.z as int, UNIT as int, bound);
        lemma_mul_bound(pose.right.z as int, v.x as int, UNIT as int, bound);
        lemma_mul_bound(pose.up.z as int, v.y as int, UNIT as int, bound);
        lemma_mul_bound(pose.back.z as int, v.z as int, UNIT as int, bound);
    }
    let w = Point3 {
        x: pose.right.x * v.x + pose.up.x * v.y + pose.back.x * v.z,
        y: pose.right.y * v.x + pose.up.y * v.y + pose.back.y * v.z,
        z: pose.right.z * v.x + pose.up.z * v.y + pose.back.z * v.z,
    };
    let s: i64 = UNIT * UNIT;
    proof {
        let big: int = 0x4000_0000_0000_0000;
        lemma_div_is_ordered(w.x as int, big, s as int);
        lemma_div_is_ordered(-big, w.x as int, s as int);
        lemma_div_is_ordered(w.y as int, big, s as int);
        lemma_div_is_ordered(-big, w.y as int, s as int);
        lemma_div_is_ordered(w.z as int, big, s as int);
        lemma_div_is_ordered(-big, w.z as int, s as int);
        lemma_div_is_ordered(w.x as int, big, UNIT as int);
        lemma_div_is_ordered(-big, w.x as int, UNIT as int);
        lemma_div_is_ordered(w.y as int, big, UNIT as int);
        lemma_div_is_ordered(-big, w.y as int, UNIT as int);
        lemma_div_is_ordered(w.z as int, big, UNIT as int);
        lemma_div_is_ordered(-big, w.z as int, UNIT as int);
        assert(big / 0x1_0000_0000int == 0x4000_0000);
        assert(-big / 0x1_0000_0000int == -0x4000_0000);
        assert(big / 0x1_0000int == 0x4000_0000_0000);
        assert(-big / 0x1_0000int == -0x4000_0000_0000);
    }
    let ox = floor_div(w.x as i128, s as i128) as i64;
    let oy = floor_div(w.y as i128, s as i128) as i64;
    let oz = floor_div(w.z as i128, s as i128) as i64;
    let origin = Point3 { x: pose.position.x + ox, y: pose.position.y + oy, z: pose.position.z + oz };
    let dx = floor_div(w.x as i128, UNIT as i128) as i64;
    let dy = floor_div(w.y as i128, UNIT as i128) as i64;
    let dz = floor_div(w.z as i128, UNIT as i128) as i64;
    let direction = match lens.projection {
        Projection::Perspective => Point3 { x: dx, y: dy, z: dz },
        Projection::Orthographic => Point3 { x: -pose.back.x, y: -pose.back.y, z: -pose.back.z },
    };
    Some(CursorRay { origin, direction })
}

/// `v` scaled by `k`.
pub open spec fn scale(v: V3, k: int) -> V3 {
    (v.0 * k, v.1 * k, v.2 * k)
}

/// A cursor at the exact centre of the window casts its ray along the
/// camera's forward axis: under a perspective projection the direction is the
/// forward axis times the near distance, under an orthographic one it is the
/// forward axis itself.
pub proof fn lemma_center_ray_is_forward(pose: CameraPose, lens: Lens, cx: int, cy: int, width: int, height: int)
    requires
        width > 0,
        height > 0,
        2 * cx == width,
        2 * cy == height,
    ensures
        lens.projection == Projection::Perspective ==> ray_direction(pose, lens, cx, cy, width, height)
            == scale(forward(pose), lens.near as int),
        lens.projection == Projection::Orthographic ==> ray_direction(pose, lens, cx, cy, width, height)
            == forward(pose),
{
    assert(clamp(cx, width) == cx);
    assert((2 * cx * UNIT) / width == UNIT) by {
        vstd::arithmetic::div_mod::lemma_div_multiples_vanish(UNIT as int, width);
        assert(2 * cx * UNIT == width * UNIT) by (nonlinear_arith)
            requires
                2 * cx == width,
        ;
    }
    assert((2 * cy * UNIT) / height == UNIT) by {
        vstd::arithmetic::div_mod::lemma_div_multiples_vanish(UNIT as int, height);
        assert(2 * cy * UNIT == height * UNIT) by (nonlinear_arith)
            requires
                2 * cy == height,
        ;
    }
    assert(ndc(cx, width) == 0);
    assert(ndc(cy, height) == 0);
    let v = view_offset(lens, cx, cy, width, height);
    assert(v == (0int, 0int, -lens.near * UNIT));
    let n = lens.near as int;
    let u = UNIT as int;
    let (bx, by, bz) = (pose.back.x as int, pose.back.y as int, pose.back.z as int);
    let (rx, ry, rz) = (pose.right.x as int, pose.right.y as int, pose.right.z as int);
    let (ux, uy, uz) = (pose.up.x as int, pose.up.y as int, pose.up.z as int);
    assert(rx * v.0 + ux * v.1 + bx * v.2 == -bx * (n * u)) by (nonlinear_arith)
        requires
            v == (0int, 0int, -n * u),
    ;
    assert(ry * v.0 + uy * v.1 + by * v.2 == -by * (n * u)) by (nonlinear_arith)
        requires
            v == (0int, 0int, -n * u),
    ;
    assert(rz * v.0 + uz * v.1 + bz * v.2 == -bz * (n * u)) by (nonlinear_arith)
        requires
            v == (0int, 0int, -n * u),
    ;
    assert(rotate(pose, v) == scale(forward(pose), lens.near * UNIT));
    assert(-bx * (n * u) == (-bx * n) * u) by (nonlinear_arith);
    assert(-by * (n * u) == (-by * n) * u) by (nonlinear_arith);
    assert(-bz * (n * u) == (-bz * n) * u) by (nonlinear_arith);
    vstd::arithmetic::div_mod::lemma_div_multiples_vanish(-bx * n, u);
    vstd::arithmetic::div_mod::lemma_div_multiples_vanish(-by * n, u);
    vstd::arithmetic::div_mod::lemma_div_multiples_vanish(-bz * n, u);
}

/// Under an orthographic projection every cursor position casts its ray in
/// the same direction, the camera's forward axis.
pub proof fn lemma_orthographic_rays_parallel(
    pose: CameraPose,
    lens: Lens,
    c1: (int, int),
    c2: (int, int),
    width: int,
    height: int,
)
    requires
        lens.projection == Projection::Orthographic,
    ensures
        ray_direction(pose, lens, c1.0, c1.1, width, height) == ray_direction(pose, lens, c2.0, c2.1, width, height),
        ray_direction(pose, lens, c1.0, c1.1, width, height) == forward(pose),
{
}

} // verus!
