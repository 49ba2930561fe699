use vstd::arithmetic::div_mod::{lemma_div_is_ordered, lemma_div_multiples_vanish};
use vstd::prelude::*;

use crate::arith::floor_div;
use crate::plane::{add3, dot, sub3};
use crate::ray::{view3, within, Point3, V3, MAX_COORD};

verus! {

/// `r` is the square root of `n` rounded down.
pub open spec fn is_floor_sqrt(n: int, r: int) -> bool {
    0 <= r && r * r <= n < (r + 1) * (r + 1)
}

/// The square root of a non-negative `n`, rounded down.
pub open spec fn floor_sqrt(n: int) -> int {
    choose|r: int| is_floor_sqrt(n, r)
}

/// The squared distance between two points.
pub open spec fn dist_sq(a: V3, b: V3) -> int {
    dot(sub3(b, a), sub3(b, a))
}

/// One step of length `step` from `base`, in the direction from `from` to
/// `goal`; each coordinate rounded down, the length of that direction taken
/// as its square root rounded down.
pub open spec fn step_along(base: V3, from: V3, goal: V3, step: int) -> V3 {
    let d = sub3(goal, from);
    let len = floor_sqrt(dist_sq(from, goal));
    add3(base, (d.0 * step / len, d.1 * step / len, d.2 * step / len))
}

/// Where a point moving from `from` toward `goal` at `step` per tick puts
/// the target that follows it from `base`: onto the goal once it is within
/// one step, else one step further along.
pub open spec fn approach_spec(base: V3, from: V3, goal: V3, step: int) -> V3 {
    if dist_sq(from, goal) <= step * step {
        goal
    } else {
        step_along(base, from, goal, step)
    }
}

/// Two floor square roots of the same number are equal.
proof fn lemma_floor_sqrt_unique(n: int, a: int, b: int)
    requires
        is_floor_sqrt(n, a),
        is_floor_sqrt(n, b),
    ensures
        a == b,
{
    if a < b {
        assert((a + 1) * (a + 1) <= b * b) by (nonlinear_arith)
            requires
                0 <= a,
                a + 1 <= b,
        ;
    } else if b < a {
        assert((b + 1) * (b + 1) <= a * a) by (nonlinear_arith)
            requires
                0 <= b,
                b + 1 <= a,
        ;
    }
}

/// The square root of `n`, rounded down.
fn isqrt(n: u128) -> (r: u128)
    requires
        n < 0x40_0000_0000_0000_0000,
    ensures
        is_floor_sqrt(n as int, r as int),
        r as int == floor_sqrt(n as int),
        r < 0x8_0000_0000,
{
    let mut lo: u128 = 0;
    let mut hi: u128 = 0x8_0000_0000;
    assert(hi * hi == 0x40_0000_0000_0000_0000);
    while hi - lo > 1
        invariant
            lo < hi <= 0x8_0000_0000,
            lo * lo <= n,
            n < hi * hi,
        decreases hi - lo,
    {
        let mid = lo + (hi - lo) / 2;
        assert(mid * mid <= 0x40_0000_0000_0000_0000) by (nonlinear_arith)
            requires
                mid <= 0x8_0000_0000,
        ;
        if mid * mid <= n {
            lo = mid;
        } else {
            hi = mid;
        }
    }
    proof {
        assert(hi == lo + 1);
        assert(is_floor_sqrt(n as int, lo as int));
        lemma_floor_sqrt_unique(n as int, lo as int, floor_sqrt(n as int));
    }
    lo
}

/// A coordinate of a step, bounded by the step length.
proof fn lemma_step_bound(d: int, n: int, len: int, step: int)
    requires
        d * d <= n,
        is_floor_sqrt(n, len),
        len >= 1,
        step >= 0,
    ensures
        -step <= d * step / len <= step,
{
    assert(-len <= d <= len) by (nonlinear_arith)
        requires
            d * d <= n,
            n < (len + 1) * (len + 1),
            len >= 1,
    ;
    assert(-(len * step) <= d * step <= len * step) by (nonlinear_arith)
        requires
            -len <= d <= len,
            step >= 0,
    ;
    lemma_div_is_ordered(d * step, len * step, len);
    lemma_div_is_ordered(-(len * step), d * step, len);
    lemma_div_multiples_vanish(step, len);
    lemma_div_multiples_vanish(-step, len);
    assert(len * step == step * len && -(len * step) == -step * len) by (nonlinear_arith);
}

/// Moves the target that follows a point from `from` toward `goal` by at most
/// `step`: it lands on the goal once the point is within one step of it
/// (also when the point is already there), and otherwise moves from `base`
/// by one step in the point's direction of travel.
pub fn approach(base: Point3, from: Point3, goal: Point3, step: i64) -> (r: Point3)
    requires
        within(base, MAX_COORD as int),
        within(from, MAX_COORD as int),
        within(goal, MAX_COORD as int),
        0 <= step <= MAX_COORD,
    ensures
        view3(r) == approach_spec(view3(base), view3(from), view3(goal), step as int),
{
    let dx: i128 = goal.x as i128 - from.x as i128;
    let dy: i128 = goal.y as i128 - from.y as i128;
    let dz: i128 = goal.z as i128 - from.z as i128;
    proof {
        assert(dx * dx <= 0x4_0000_0000 * 0x4_0000_0000) by (nonlinear_arith)
            requires
                -0x2_0000_0000 <= dx <= 0x2_0000_0000,
        ;
        assert(dy * dy <= 0x4_0000_0000 * 0x4_0000_0000) by (nonlinear_arith)
            requires
                -0x2_0000_0000 <= dy <= 0x2_0000_0000,
        ;
        assert(dz * dz <= 0x4_0000_0000 * 0x4_0000_0000) by (nonlinear_arith)
            requires
                -0x2_0000_0000 <= dz <= 0x2_0000_0000,
        ;
        assert(0 <= dx * dx && 0 <= dy * dy && 0 <= dz * dz) by (nonlinear_arith);
        assert((step as int) * (step as int) <= 0x1_0000_0000 * 0x1_0000_0000) by (nonlinear_arith)
            requires
                0 <= step <= 0x1_0000_0000,
        ;
    }
    let n: i128 = dx * dx + dy * dy + dz * dz;
    let s: i128 = step as i128;
    if n <= s * s {
        return goal;
    }
    let root: u128 = isqrt(n as u128);
    let len: i128 = root as i128;
    proof {
        assert(len as int == root as int);
        assert(len >= 1) by (nonlinear_arith)
            requires
                n < (len + 1) * (len + 1),
                n > s * s,
                s >= 0,
                len >= 0,
        ;
        lemma_step_bound(dx as int, n as int, len as int, s as int);
        lemma_step_bound(dy as int, n as int, len as int, s as int);
        lemma_step_bound(dz as int, n as int, len as int, s as int);
        assert(dx * s <= 0x2_0000_0000 * 0x1_0000_0000 && dx * s >= -0x2_0000_0000 * 0x1_0000_0000)
            by (nonlinear_arith)
            requires
                -0x2_0000_0000 <= dx <= 0x2_0000_0000,
                0 <= s <= 0x1_0000_0000,
        ;
        assert(dy * s <= 0x2_0000_0000 * 0x1_0000_0000 && dy * s >= -0x2_0000_0000 * 0x1_0000_0000)
            by (nonlinear_arith)
            requires
                -0x2_0000_0000 <= dy <= 0x2_0000_0000,
                0 <= s <= 0x1_0000_0000,
        ;
        assert(dz * s <= 0x2_0000_0000 * 0x1_0000_0000 && dz * s >= -0x2_0000_0000 * 0x1_0000_0000)
            by (nonlinear_arith)
            requires
                -0x2_0000_0000 <= dz <= 0x2_0000_0000,
                0 <= s <= 0x1_0000_0000,
        ;
    }
    let qx = floor_div(dx * s, len);
    let qy = floor_div(dy * s, len);
    let qz = floor_div(dz * s, len);
    Point3 {
        x: (base.x as i128 + qx) as i64,
        y: (base.y as i128 + qy) as i64,
        z: (base.z as i128 + qz) as i64,
    }
}

} // verus!
