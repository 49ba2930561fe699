use vstd::arithmetic::div_mod::lemma_div_multiples_vanish;
use vstd::prelude::*;

use crate::arith::{floor_div, lemma_mul_bound};
use crate::ray::{scale, view3, within, CursorRay, Point3, V3, MAX_COORD, MAX_DIRECTION};

verus! {

/// Largest magnitude of a coordinate of a returned point.
pub const MAX_RESULT: i128 = 0x4000_0000_0000_0000;

/// Dot product.
pub open spec fn dot(a: V3, b: V3) -> int {
    a.0 * b.0 + a.1 * b.1 + a.2 * b.2
}

/// Difference of two vectors.
pub open spec fn sub3(a: V3, b: V3) -> V3 {
    (a.0 - b.0, a.1 - b.1, a.2 - b.2)
}

/// Sum of two vectors.
pub open spec fn add3(a: V3, b: V3) -> V3 {
    (a.0 + b.0, a.1 + b.1, a.2 + b.2)
}

/// Every coordinate lies in `[-bound, bound]`.
pub open spec fn within3(v: V3, bound: int) -> bool {
    -bound <= v.0 <= bound && -bound <= v.1 <= bound && -bound <= v.2 <= bound
}

/// The drag plane passes through `impact` and faces `camera`: its normal is
/// `camera - impact`.
pub open spec fn plane_normal(impact: V3, camera: V3) -> V3 {
    sub3(camera, impact)
}

/// The ray parameter at which a ray from `origin` along `dir` crosses the
/// drag plane, as `(num, den)` with `den > 0`: the crossing is at
/// `origin + dir * num / den`. Meaningful when the ray is not parallel to the
/// plane.
pub open spec fn crossing(impact: V3, camera: V3, origin: V3, dir: V3) -> (int, int) {
    let n = plane_normal(impact, camera);
    let num = dot(n, sub3(impact, origin));
    let den = dot(n, dir);
    if den < 0 {
        (-num, -den)
    } else {
        (num, den)
    }
}

/// Where a ray from `origin` along `dir` crosses the drag plane, each
/// coordinate rounded down: nothing when the ray runs parallel to the plane
/// (or there is no plane, the camera being on the impact) or when the plane
/// lies behind the ray's origin.
pub open spec fn drag_plane_hit(impact: V3, camera: V3, origin: V3, dir: V3) -> Option<V3> {
    let den = dot(plane_normal(impact, camera), dir);
    let (a, b) = crossing(impact, camera, origin, dir);
    if den == 0 || a < 0 {
        None
    } else {
        Some(add3(origin, (dir.0 * a / b, dir.1 * a / b, dir.2 * a / b)))
    }
}

/// Dot product of two bounded vectors, computed without overflow.
fn dot_wide(a: (i128, i128, i128), b: (i128, i128, i128), x: Ghost<int>, y: Ghost<int>) -> (r: i128)
    requires
        within3((a.0 as int, a.1 as int, a.2 as int), x@),
        within3((b.0 as int, b.1 as int, b.2 as int), y@),
        0 <= x@,
        0 <= y@,
        3 * x@ * y@ < 0x7fff_ffff_ffff_ffff_ffff_ffff_ffff_ffff,
    ensures
        r == dot((a.0 as int, a.1 as int, a.2 as int), (b.0 as int, b.1 as int, b.2 as int)),
        -3 * x@ * y@ <= r <= 3 * x@ * y@,
{
    proof {
        lemma_mul_bound(a.0 as int, b.0 as int, x@, y@);
        lemma_mul_bound(a.1 as int, b.1 as int, x@, y@);
        lemma_mul_bound(a.2 as int, b.2 as int, x@, y@);
        assert(3 * x@ * y@ == 3 * (x@ * y@)) by (nonlinear_arith);
        assert(-3 * x@ * y@ == -3 * (x@ * y@)) by (nonlinear_arith);
    }
    a.0 * b.0 + a.1 * b.1 + a.2 * b.2
}

/// The coordinates of a point as wide integers.
fn wide(p: Point3) -> (r: (i128, i128, i128))
    ensures
        (r.0 as int, r.1 as int, r.2 as int) == view3(p),
{
    (p.x as i128, p.y as i128, p.z as i128)
}

/// Where the ray crosses the drag plane through `hit_impact` facing
/// `camera_location`, each coordinate rounded down: `None` when the ray runs
/// parallel to the plane, when the plane lies behind the ray's origin, or
/// when the point lies beyond `MAX_RESULT` (it is then too far to drag to).
pub fn intersect_half_space(ray: CursorRay, hit_impact: Point3, camera_location: Point3) -> (r: Option<Point3>)
    requires
        within(hit_impact, MAX_COORD as int),
        within(camera_location, MAX_COORD as int),
        within(ray.origin, 2 * MAX_COORD),
        within(ray.direction, MAX_DIRECTION as int),
    ensures
        r is Some <==> (drag_plane_hit(view3(hit_impact), view3(camera_location), view3(ray.origin), view3(ray.direction))
            matches Some(p) && within3(p, MAX_RESULT as int)),
        r matches Some(q) ==> drag_plane_hit(view3(hit_impact), view3(camera_location), view3(ray.origin), view3(ray.direction))
            == Some(view3(q)),
{
    let p = wide(hit_impact);
    let c = wide(camera_location);
    let o = wide(ray.origin);
    let d = wide(ray.direction);
    let n = (c.0 - p.0, c.1 - p.1, c.2 - p.2);
    let to_plane = (p.0 - o.0, p.1 - o.1, p.2 - o.2);
    let num = dot_wide(n, to_plane, Ghost(2 * MAX_COORD as int), Ghost(3 * MAX_COORD as int));
    let den = dot_wide(n, d, Ghost(2 * MAX_COORD as int), Ghost(MAX_DIRECTION as int));
    if den == 0 {
        return None;
    }
    let (a, b) = if den < 0 {
        (-num, -den)
    } else {
        (num, den)
    };
    if a < 0 {
        return None;
    }
    proof {
        lemma_mul_bound(d.0 as int, a as int, MAX_DIRECTION as int, 18 * MAX_COORD * MAX_COORD);
        lemma_mul_bound(d.1 as int, a as int, MAX_DIRECTION as int, 18 * MAX_COORD * MAX_COORD);
        lemma_mul_bound(d.2 as int, a as int, MAX_DIRECTION as int, 18 * MAX_COORD * MAX_COORD);
    }
    let qx = floor_div(d.0 * a, b);
    let qy = floor_div(d.1 * a, b);
    let qz = floor_div(d.2 * a, b);
    if qx < -2 * MAX_RESULT || qx > 2 * MAX_RESULT || qy < -2 * MAX_RESULT || qy > 2 * MAX_RESULT || qz < -2
        * MAX_RESULT || qz > 2 * MAX_RESULT {
        return None;
    }
    let x = o.0 + qx;
    let y = o.1 + qy;
    let z = o.2 + qz;
    if x < -MAX_RESULT || x > MAX_RESULT || y < -MAX_RESULT || y > MAX_RESULT || z < -MAX_RESULT || z > MAX_RESULT {
        return None;
    }
    Some(Point3 { x: x as i64, y: y as i64, z: z as i64 })
}

/// A ray that runs parallel to the drag plane never meets it.
pub proof fn lemma_parallel_ray_misses(impact: V3, camera: V3, origin: V3, dir: V3)
    requires
        dot(plane_normal(impact, camera), dir) == 0,
    ensures
        drag_plane_hit(impact, camera, origin, dir) is None,
{
}

/// A ray that is not parallel to the drag plane and reaches it at
/// `origin + dir * p / q` (with `p >= 0`, `q > 0`) meets it there: each
/// coordinate of the returned point is that of the crossing rounded down, so
/// lies within one unit of it.
pub proof fn lemma_ray_meets_plane_near(impact: V3, camera: V3, origin: V3, dir: V3, p: int, q: int)
    requires
        p >= 0,
        q > 0,
        dot(plane_normal(impact, camera), dir) != 0,
        q * dot(plane_normal(impact, camera), sub3(origin, impact)) + p * dot(plane_normal(impact, camera), dir) == 0,
    ensures
        drag_plane_hit(impact, camera, origin, dir) matches Some(r) && {
            &&& q * (r.0 - origin.0) <= dir.0 * p < q * (r.0 - origin.0) + q
            &&& q * (r.1 - origin.1) <= dir.1 * p < q * (r.1 - origin.1) + q
            &&& q * (r.2 - origin.2) <= dir.2 * p < q * (r.2 - origin.2) + q
        },
{
    let n = plane_normal(impact, camera);
    let num = dot(n, sub3(impact, origin));
    let den = dot(n, dir);
    assert(dot(n, sub3(origin, impact)) == -num) by (nonlinear_arith)
        requires
            num == n.0 * (impact.0 - origin.0) + n.1 * (impact.1 - origin.1) + n.2 * (impact.2 - origin.2),
            dot(n, sub3(origin, impact)) == n.0 * (origin.0 - impact.0) + n.1 * (origin.1 - impact.1) + n.2 * (
            origin.2 - impact.2),
    ;
    let (a, b) = crossing(impact, camera, origin, dir);
    // q * (-num) + p * den == 0, so a * q == p * b with b > 0: a / b == p / q.
    assert(a * q == p * b) by (nonlinear_arith)
        requires
            q * -num + p * den == 0,
            (den < 0 && a == -num && b == -den) || (den >= 0 && a == num && b == den),
    ;
    assert(a >= 0) by (nonlinear_arith)
        requires
            a * q == p * b,
            p >= 0,
            q > 0,
            b > 0,
    ;
    lemma_rounded_crossing(dir.0, a, b, p, q);
    lemma_rounded_crossing(dir.1, a, b, p, q);
    lemma_rounded_crossing(dir.2, a, b, p, q);
}

/// `d * a / b` rounded down is `d * p / q` rounded down when `a / b == p / q`.
proof fn lemma_rounded_crossing(d: int, a: int, b: int, p: int, q: int)
    requires
        b > 0,
        q > 0,
        a * q == p * b,
    ensures
        q * (d * a / b) <= d * p < q * (d * a / b) + q,
{
    let k = d * a / b;
    vstd::arithmetic::div_mod::lemma_fundamental_div_mod(d * a, b);
    let m = (d * a) % b;
    assert(d * a == b * k + m && 0 <= m < b);
    assert(q * (d * a) == b * (d * p)) by (nonlinear_arith)
        requires
            a * q == p * b,
    ;
    assert(q * k * b <= d * p * b < (q * k + q) * b) by (nonlinear_arith)
        requires
            q * (d * a) == b * (d * p),
            d * a == b * k + m,
            0 <= m < b,
            q > 0,
    ;
    assert(q * k <= d * p < q * k + q) by (nonlinear_arith)
        requires
            q * k * b <= d * p * b < (q * k + q) * b,
            b > 0,
    ;
}

/// A ray that reaches the drag plane at `origin + t * dir` for a whole
/// number `t >= 0`, without running along it, meets it exactly there.
pub proof fn lemma_ray_meets_plane_at(impact: V3, camera: V3, origin: V3, dir: V3, t: int)
    requires
        t >= 0,
        dot(plane_normal(impact, camera), dir) != 0,
        dot(plane_normal(impact, camera), sub3(add3(origin, scale(dir, t)), impact)) == 0,
    ensures
        drag_plane_hit(impact, camera, origin, dir) == Some(add3(origin, scale(dir, t))),
{
    let n = plane_normal(impact, camera);
    let num = dot(n, sub3(impact, origin));
    let den = dot(n, dir);
    assert(n.0 * (origin.0 + dir.0 * t - impact.0) == -(n.0 * (impact.0 - origin.0)) + t * (n.0 * dir.0))
        by (nonlinear_arith);
    assert(n.1 * (origin.1 + dir.1 * t - impact.1) == -(n.1 * (impact.1 - origin.1)) + t * (n.1 * dir.1))
        by (nonlinear_arith);
    assert(n.2 * (origin.2 + dir.2 * t - impact.2) == -(n.2 * (impact.2 - origin.2)) + t * (n.2 * dir.2))
        by (nonlinear_arith);
    assert(t * den == t * (n.0 * dir.0) + t * (n.1 * dir.1) + t * (n.2 * dir.2)) by (nonlinear_arith)
        requires
            den == n.0 * dir.0 + n.1 * dir.1 + n.2 * dir.2,
    ;
    assert(t * den == num);
    let (a, b) = crossing(impact, camera, origin, dir);
    assert(a == t * b) by (nonlinear_arith)
        requires
            t * den == num,
            (den < 0 && a == -num && b == -den) || (den >= 0 && a == num && b == den),
    ;
    assert(a >= 0) by (nonlinear_arith)
        requires
            a == t * b,
            t >= 0,
            b > 0,
    ;
    assert(dir.0 * a == (dir.0 * t) * b) by (nonlinear_arith)
        requires
            a == t * b,
    ;
    assert(dir.1 * a == (dir.1 * t) * b) by (nonlinear_arith)
        requires
            a == t * b,
    ;
    assert(dir.2 * a == (dir.2 * t) * b) by (nonlinear_arith)
        requires
            a == t * b,
    ;
    lemma_div_multiples_vanish(dir.0 * t, b);
    lemma_div_multiples_vanish(dir.1 * t, b);
    lemma_div_multiples_vanish(dir.2 * t, b);
}

} // verus!
