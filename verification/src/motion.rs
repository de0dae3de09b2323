//! Motion integration at a fixed timestep.
//!
//! The simulation advances in fixed ticks of 1/60 second. Velocities are
//! stored in milli-units per second; one tick moves a body by its
//! per-tick displacement, the velocity divided by the tick rate with the
//! fraction discarded towards zero. The integrator is plain linear
//! motion: no clamping and no collision response.

use vstd::prelude::*;
use crate::geometry::COORD_LIMIT;
use crate::geometry::MILLI;

verus! {

/// Number of simulation ticks per second (the fixed timestep is 1/60 s).
pub const TICKS_PER_SECOND: i64 = 60;

/// A velocity in milli-units per second.
#[derive(Clone, Copy, Debug, PartialEq, Eq, Structural)]
pub struct Velocity {
    pub x: i64,
    pub y: i64,
}

/// Position (translation) and render scale of a body. The z coordinate
/// is a depth layer for rendering; motion only touches x and y.
#[derive(Clone, Copy, Debug, PartialEq, Eq, Structural)]
pub struct Transform {
    pub x: i64,
    pub y: i64,
    pub z: i64,
    pub scale_x: i64,
    pub scale_y: i64,
    pub scale_z: i64,
}

/// Velocity components are kept below this bound so that the per-tick
/// arithmetic stays far from overflow.
pub const SPEED_LIMIT: i64 = 100_000_000;

/// Positions of moving bodies are kept below this bound so that one
/// more integration step cannot overflow an `i64`.
pub const POS_LIMIT: i64 = 1_000_000_000_000_000_000;

impl Velocity {
    pub open spec fn wf(self) -> bool {
        &&& -SPEED_LIMIT < self.x < SPEED_LIMIT
        &&& -SPEED_LIMIT < self.y < SPEED_LIMIT
    }
}

/// Distance travelled along one axis in a single tick: v / 60, with the
/// fractional milli-unit discarded towards zero.
pub open spec fn per_tick(v: int) -> int {
    if v >= 0 {
        v / (TICKS_PER_SECOND as int)
    } else {
        -((-v) / (TICKS_PER_SECOND as int))
    }
}

/// Position of a body along one axis after `n` ticks at constant
/// velocity `v`, starting from `p`.
pub open spec fn after_ticks(p: int, v: int, n: nat) -> int
    decreases n,
{
    if n == 0 {
        p
    } else {
        after_ticks(p, v, (n - 1) as nat) + per_tick(v)
    }
}

/// The motion integrator is linear: `n` ticks at constant velocity move
/// a body by exactly `n` times its per-tick displacement.
pub proof fn lemma_motion_linear(p: int, v: int, n: nat)
    ensures
        after_ticks(p, v, n) == p + n * per_tick(v),
    decreases n,
{
    if n == 0 {
        assert(n * per_tick(v) == 0) by (nonlinear_arith)
            requires n == 0;
    } else {
        lemma_motion_linear(p, v, (n - 1) as nat);
        assert(n * per_tick(v) == (n - 1) * per_tick(v) + per_tick(v)) by (nonlinear_arith)
            requires n >= 1;
    }
}

/// The per-tick displacement is bounded by the velocity's magnitude.
pub proof fn lemma_per_tick_bound(v: int)
    requires
        -SPEED_LIMIT < v < SPEED_LIMIT,
    ensures
        -SPEED_LIMIT < per_tick(v) < SPEED_LIMIT,
        v >= 0 ==> 0 <= per_tick(v) <= v,
        v < 0 ==> v <= per_tick(v) <= 0,
{
    if v >= 0 {
        assert(0 <= v / 60 <= v) by (nonlinear_arith)
            requires v >= 0;
    } else {
        assert(0 <= (-v) / 60 <= -v) by (nonlinear_arith)
            requires v < 0;
    }
}

/// One axis of one integration step.
fn step_axis(p: i64, v: i64) -> (r: i64)
    requires
        -POS_LIMIT < p < POS_LIMIT,
        -SPEED_LIMIT < v < SPEED_LIMIT,
    ensures
        r == p + per_tick(v as int),
{
    proof {
        lemma_per_tick_bound(v as int);
    }
    if v >= 0 {
        p + v / TICKS_PER_SECOND
    } else {
        p - (-v) / TICKS_PER_SECOND
    }
}

/// Advance a transform by one tick of the given velocity. Only the x
/// and y translation change; depth and scale are untouched.
pub fn integrate_tick(t: &Transform, v: &Velocity) -> (r: Transform)
    requires
        -POS_LIMIT < t.x < POS_LIMIT,
        -POS_LIMIT < t.y < POS_LIMIT,
        v.wf(),
    ensures
        r.x == t.x + per_tick(v.x as int),
        r.y == t.y + per_tick(v.y as int),
        r.z == t.z,
        r.scale_x == t.scale_x,
        r.scale_y == t.scale_y,
        r.scale_z == t.scale_z,
{
    Transform {
        x: step_axis(t.x, v.x),
        y: step_axis(t.y, v.y),
        z: t.z,
        scale_x: t.scale_x,
        scale_y: t.scale_y,
        scale_z: t.scale_z,
    }
}

/// Advance a transform by `n` ticks of the given velocity: the result
/// is the start plus `n` times the per-tick displacement on each axis.
pub fn integrate_ticks(t: &Transform, v: &Velocity, n: u32) -> (r: Transform)
    requires
        -COORD_LIMIT < t.x < COORD_LIMIT,
        -COORD_LIMIT < t.y < COORD_LIMIT,
        v.wf(),
    ensures
        r.x == t.x + n * per_tick(v.x as int),
        r.y == t.y + n * per_tick(v.y as int),
        r.z == t.z,
        r.scale_x == t.scale_x,
        r.scale_y == t.scale_y,
        r.scale_z == t.scale_z,
{
    proof {
        lemma_per_tick_bound(v.x as int);
        lemma_per_tick_bound(v.y as int);
    }
    let mut cur: Transform = *t;
    let mut k: u32 = 0;
    while k < n
        invariant
            0 <= k <= n,
            cur.x == t.x + k * per_tick(v.x as int),
            cur.y == t.y + k * per_tick(v.y as int),
            cur.z == t.z,
            cur.scale_x == t.scale_x,
            cur.scale_y == t.scale_y,
            cur.scale_z == t.scale_z,
            -COORD_LIMIT < t.x < COORD_LIMIT,
            -COORD_LIMIT < t.y < COORD_LIMIT,
            v.wf(),
        decreases n - k,
    {
        proof {
            lemma_per_tick_bound(v.x as int);
            lemma_per_tick_bound(v.y as int);
            assert(-POS_LIMIT < t.x + k * per_tick(v.x as int) < POS_LIMIT
                && -POS_LIMIT < t.x + (k + 1) * per_tick(v.x as int) < POS_LIMIT)
                by (nonlinear_arith)
                requires
                    0 <= k <= u32::MAX,
                    -SPEED_LIMIT < per_tick(v.x as int) < SPEED_LIMIT,
                    -COORD_LIMIT < t.x < COORD_LIMIT,
            ;
            assert(-POS_LIMIT < t.y + k * per_tick(v.y as int) < POS_LIMIT
                && -POS_LIMIT < t.y + (k + 1) * per_tick(v.y as int) < POS_LIMIT)
                by (nonlinear_arith)
                requires
                    0 <= k <= u32::MAX,
                    -SPEED_LIMIT < per_tick(v.y as int) < SPEED_LIMIT,
                    -COORD_LIMIT < t.y < COORD_LIMIT,
            ;
            assert((k + 1) * per_tick(v.x as int) == k * per_tick(v.x as int) + per_tick(
                v.x as int,
            )) by (nonlinear_arith);
            assert((k + 1) * per_tick(v.y as int) == k * per_tick(v.y as int) + per_tick(
                v.y as int,
            )) by (nonlinear_arith);
        }
        cur = integrate_tick(&cur, v);
        k = k + 1;
    }
    cur
}

/// Largest integer whose square does not exceed `n`.
pub open spec fn sqrt_floor(n: nat) -> nat
    decreases n,
{
    if n == 0 {
        0
    } else {
        let r = sqrt_floor((n - 1) as nat);
        if (r + 1) * (r + 1) <= n {
            r + 1
        } else {
            r
        }
    }
}

/// `sqrt_floor(n)` really is the floor of the square root of `n`.
pub proof fn lemma_sqrt_floor_bounds(n: nat)
    ensures
        sqrt_floor(n) * sqrt_floor(n) <= n,
        n < (sqrt_floor(n) + 1) * (sqrt_floor(n) + 1),
    decreases n,
{
    if n == 0 {
        let s = sqrt_floor(n);
        assert(s == 0);
        assert(s * s <= n && n < (s + 1) * (s + 1)) by (nonlinear_arith)
            requires s == 0, n == 0;
    } else {
        lemma_sqrt_floor_bounds((n - 1) as nat);
        let r = sqrt_floor((n - 1) as nat);
        let s = sqrt_floor(n);
        assert(r * r <= n - 1 && n - 1 < (r + 1) * (r + 1));
        if (r + 1) * (r + 1) <= n {
            assert(s == r + 1);
            assert((r + 1) * (r + 1) < (r + 2) * (r + 2)) by (nonlinear_arith);
            assert((s + 1) * (s + 1) == (r + 2) * (r + 2)) by (nonlinear_arith)
                requires s == r + 1;
        } else {
            assert(s == r);
        }
    }
}

/// Any integer squeezed between consecutive squares around `n` is the
/// floor of the square root of `n`.
pub proof fn lemma_sqrt_floor_unique(n: nat, r: nat)
    requires
        r * r <= n,
        n < (r + 1) * (r + 1),
    ensures
        r == sqrt_floor(n),
{
    lemma_sqrt_floor_bounds(n);
    let s = sqrt_floor(n);
    if r < s {
        assert((r + 1) * (r + 1) <= s * s) by (nonlinear_arith)
            requires r + 1 <= s;
    }
    if s < r {
        assert((s + 1) * (s + 1) <= r * r) by (nonlinear_arith)
            requires s + 1 <= r;
    }
}

/// Upper bound on inputs accepted by `isqrt`: every root candidate's
/// square stays within `i64`.
pub const ISQRT_LIMIT: i64 = 4_000_000_000_000_000_000;

/// Integer square root by bisection.
pub fn isqrt(n: i64) -> (r: i64)
    requires
        0 <= n < ISQRT_LIMIT,
    ensures
        r == sqrt_floor(n as nat),
        0 <= r <= 2_000_000_000,
{
    if n == 0 {
        proof {
            lemma_sqrt_floor_bounds(0);
            assert(sqrt_floor(0nat) == 0);
        }
        return 0;
    }
    let mut lo: i64 = 0;
    let mut hi: i64 = 2_000_000_000;
    proof {
        assert((2_000_000_000 * 2_000_000_000) as int > n as int) by (nonlinear_arith)
            requires n < ISQRT_LIMIT;
    }
    while lo + 1 < hi
        invariant
            0 <= lo < hi <= 2_000_000_000,
            lo * lo <= n,
            n < hi * hi,
            0 < n < ISQRT_LIMIT,
        decreases hi - lo,
    {
        let mid = lo + (hi - lo) / 2;
        assert(lo < mid < hi);
        assert(mid * mid <= 2_000_000_000 * 2_000_000_000) by (nonlinear_arith)
            requires 0 < mid <= 2_000_000_000;
        let sq = mid * mid;
        if sq <= n {
            lo = mid;
        } else {
            hi = mid;
        }
    }
    proof {
        lemma_sqrt_floor_unique(n as nat, lo as nat);
    }
    lo
}

/// Quotient with the fraction discarded towards zero (the divisor must
/// be positive).
pub open spec fn div_towards_zero(a: int, d: int) -> int {
    if a >= 0 {
        a / d
    } else {
        -((-a) / d)
    }
}

/// Length of the vector `(dx, dy)` in micro-units: the square root of
/// the squared length scaled by `MILLI * MILLI`.
pub open spec fn direction_norm_micro(dx: int, dy: int) -> int {
    sqrt_floor(((dx * dx + dy * dy) * (MILLI * MILLI)) as nat) as int
}

/// One axis of the normalized direction times the speed:
/// `d * speed * MILLI` divided (towards zero) by the vector's length in
/// micro-units.
pub open spec fn scaled_axis(d: int, speed: int, norm_micro: int) -> int {
    div_towards_zero(d * speed * MILLI, norm_micro)
}

/// Direction components accepted by `scaled_direction`.
pub const DIR_LIMIT: i64 = 1_000_000;

/// Speeds accepted by `scaled_direction`.
pub const SCALE_SPEED_LIMIT: i64 = 10_000_000;

/// The speed of a body whose velocity is the direction `(dx, dy)`
/// normalized and scaled by `speed`: each component is bounded by the
/// speed itself.
pub proof fn lemma_scaled_axis_bounded(dx: int, dy: int, d: int, speed: int)
    requires
        -DIR_LIMIT <= d <= DIR_LIMIT,
        d == dx || d == dy,
        -DIR_LIMIT <= dx <= DIR_LIMIT,
        -DIR_LIMIT <= dy <= DIR_LIMIT,
        dx != 0 || dy != 0,
        0 < speed <= SCALE_SPEED_LIMIT,
    ensures
        -speed <= scaled_axis(d, speed, direction_norm_micro(dx, dy)) <= speed,
        direction_norm_micro(dx, dy) >= MILLI,
{
    let s2 = dx * dx + dy * dy;
    let l2 = s2 * 1_000_000;
    let ad: int = if d >= 0 { d } else { -d };
    assert(1 <= s2 && d * d <= s2 && ad * ad == d * d && 0 <= ad) by (nonlinear_arith)
        requires
            dx != 0 || dy != 0,
            d == dx || d == dy,
            s2 == dx * dx + dy * dy,
            ad == if d >= 0 { d } else { -d },
    ;
    assert(l2 == (dx * dx + dy * dy) * (MILLI * MILLI));
    let m = direction_norm_micro(dx, dy);
    lemma_sqrt_floor_bounds(l2 as nat);
    assert(m * m <= l2 < (m + 1) * (m + 1) && 0 <= m);
    assert(l2 >= (ad * 1000) * (ad * 1000)) by (nonlinear_arith)
        requires
            l2 == s2 * 1_000_000,
            ad * ad <= s2,
    ;
    // m + 1 > |d| * MILLI, hence m >= |d| * MILLI.
    assert(m >= ad * 1000) by {
        if m + 1 <= ad * 1000 {
            assert((m + 1) * (m + 1) <= (ad * 1000) * (ad * 1000)) by (nonlinear_arith)
                requires 0 <= m + 1 <= ad * 1000;
            assert(false);
        }
    }
    assert(m >= 1000) by {
        if m + 1 <= 1000 {
            assert((m + 1) * (m + 1) <= 1_000_000) by (nonlinear_arith)
                requires 0 <= m + 1 <= 1000;
            assert(l2 >= 1_000_000) by (nonlinear_arith)
                requires l2 == s2 * 1_000_000, s2 >= 1;
            assert(false);
        }
    }
    let a = d * speed * MILLI;
    let aa: int = if a >= 0 { a } else { -a };
    assert(aa == ad * speed * 1000 && aa >= 0) by (nonlinear_arith)
        requires
            a == d * speed * 1000,
            aa == if a >= 0 { a } else { -a },
            ad == if d >= 0 { d } else { -d },
            speed > 0,
    ;
    assert(aa <= m * speed) by (nonlinear_arith)
        requires
            aa == ad * speed * 1000,
            m >= ad * 1000,
            speed > 0,
            ad >= 0,
    ;
    vstd::arithmetic::div_mod::lemma_multiply_divide_le(aa, m, speed);
    if aa > 0 {
        vstd::arithmetic::div_mod::lemma_div_pos_is_pos(aa, m);
    } else {
        vstd::arithmetic::div_mod::lemma_div_of0(m);
    }
    assert(0 <= aa / m <= speed);
    assert(scaled_axis(d, speed, m) == div_towards_zero(a, m));
}

/// The velocity of a body launched in direction `(dx, dy)` (a nonzero
/// vector in milli-units) at the given speed (milli-units per second):
/// the direction normalized to unit length, then scaled by the speed.
/// Each component is exact fixed-point arithmetic, the division
/// truncated towards zero.
pub fn scaled_direction(dx: i64, dy: i64, speed: i64) -> (v: Velocity)
    requires
        -DIR_LIMIT <= dx <= DIR_LIMIT,
        -DIR_LIMIT <= dy <= DIR_LIMIT,
        dx != 0 || dy != 0,
        0 < speed <= SCALE_SPEED_LIMIT,
    ensures
        v.x == scaled_axis(dx as int, speed as int, direction_norm_micro(dx as int, dy as int)),
        v.y == scaled_axis(dy as int, speed as int, direction_norm_micro(dx as int, dy as int)),
        -speed <= v.x <= speed,
        -speed <= v.y <= speed,
        v.wf(),
{
    proof {
        assert(0 <= dx * dx <= 1_000_000_000_000 && 0 <= dy * dy <= 1_000_000_000_000)
            by (nonlinear_arith)
            requires
                -DIR_LIMIT <= dx <= DIR_LIMIT,
                -DIR_LIMIT <= dy <= DIR_LIMIT,
        ;
        lemma_scaled_axis_bounded(dx as int, dy as int, dx as int, speed as int);
        lemma_scaled_axis_bounded(dx as int, dy as int, dy as int, speed as int);
    }
    let l2 = (dx * dx + dy * dy) * (MILLI * MILLI);
    let m = isqrt(l2);
    let vx = scaled_axis_exec(dx, speed, m);
    let vy = scaled_axis_exec(dy, speed, m);
    Velocity { x: vx, y: vy }
}

/// One axis of `scaled_direction`.
fn scaled_axis_exec(d: i64, speed: i64, m: i64) -> (r: i64)
    requires
        -DIR_LIMIT <= d <= DIR_LIMIT,
        0 < speed <= SCALE_SPEED_LIMIT,
        MILLI <= m <= 2_000_000_000,
    ensures
        r == scaled_axis(d as int, speed as int, m as int),
{
    proof {
        assert(-SCALE_SPEED_LIMIT * DIR_LIMIT * MILLI <= d * speed * MILLI
            <= SCALE_SPEED_LIMIT * DIR_LIMIT * MILLI) by (nonlinear_arith)
            requires
                -DIR_LIMIT <= d <= DIR_LIMIT,
                0 < speed <= SCALE_SPEED_LIMIT,
        ;
    }
    let a = d * speed * MILLI;
    if a >= 0 {
        proof {
            vstd::arithmetic::div_mod::lemma_div_pos_is_pos(a as int, m as int);
            vstd::arithmetic::div_mod::lemma_div_nonincreasing(a as int, m as int);
        }
        a / m
    } else {
        proof {
            vstd::arithmetic::div_mod::lemma_div_pos_is_pos(-(a as int), m as int);
            vstd::arithmetic::div_mod::lemma_div_nonincreasing(-(a as int), m as int);
        }
        -((-a) / m)
    }
}

} // verus!
