use vstd::prelude::*;

verus! {

/// Largest magnitude of a world coordinate held by a moving object.
pub const MAX_COORD: i64 = 1_000_000_000_000;

/// Largest magnitude of a speed, in pixels per second.
pub const MAX_SPEED: i64 = 1_000_000_000;

/// Largest magnitude of an acceleration, in pixels per second squared.
pub const MAX_ACCEL: i64 = 1_000_000_000;

/// Longest frame, in microseconds (1000 s): the largest rate times the
/// longest frame stays far inside `i64`.
pub const MAX_DT_MICROS: u64 = 1_000_000_000;

/// Largest change that a rate brings about over one frame.
pub const MAX_STEP: i64 = 1_000_000_000_000;

/// Microseconds in one second.
pub const MICROS_PER_SECOND: i64 = 1_000_000;

/// Largest tile edge length.
pub const MAX_TILE_SIZE: i64 = 1_000_000;

/// Largest logical half extent of a bounding box.
pub const MAX_HALF_SIZE: i64 = 100_000;

/// Scale factors are given in thousandths: `SCALE_UNIT` is a factor of one.
pub const SCALE_UNIT: i64 = 1000;

/// Largest scale factor, in thousandths.
pub const MAX_SCALE: i64 = 10_000;

/// A point or a displacement in world space.
#[derive(Clone, Copy, Debug, PartialEq, Eq, Structural)]
pub struct Vector2 {
    pub x: i64,
    pub y: i64,
}

impl Vector2 {
    pub open spec fn new_spec(x: i64, y: i64) -> Vector2 {
        Vector2 { x, y }
    }

    #[verifier::when_used_as_spec(new_spec)]
    pub fn new(x: i64, y: i64) -> (r: Vector2)
        ensures
            r == Vector2::new_spec(x, y),
    {
        Vector2 { x, y }
    }
}

pub open spec fn abs(a: int) -> int {
    if a < 0 { -a } else { a }
}

pub open spec fn clamp(a: int, bound: int) -> int {
    if a > bound { bound } else if a < -bound { -bound } else { a }
}

pub open spec fn max(a: int, b: int) -> int {
    if a >= b { a } else { b }
}

pub open spec fn min(a: int, b: int) -> int {
    if a <= b { a } else { b }
}

/// What a rate (per second) amounts to over `dt` microseconds, rounded toward zero.
pub open spec fn per_dt(rate: int, dt: int) -> int {
    if rate >= 0 {
        rate * dt / (MICROS_PER_SECOND as int)
    } else {
        -((-rate) * dt / (MICROS_PER_SECOND as int))
    }
}

/// The point at fraction `k / d` of the way from `a` to `b`, rounded to the
/// nearest whole unit (halves upward).
pub open spec fn lerp(a: int, b: int, k: int, d: int) -> int {
    a + (2 * (b - a) * k + d) / (2 * d)
}

pub fn clamp_i64(a: i64, bound: i64) -> (r: i64)
    requires
        bound >= 0,
    ensures
        r == clamp(a as int, bound as int),
{
    if a > bound {
        bound
    } else if a < -bound {
        -bound
    } else {
        a
    }
}

/// `rate * dt` in seconds, rounded toward zero.
pub fn scale_by_dt(rate: i64, dt_micros: u64) -> (r: i64)
    requires
        -MAX_SPEED <= rate <= MAX_SPEED,
        dt_micros <= MAX_DT_MICROS,
    ensures
        r == per_dt(rate as int, dt_micros as int),
        -MAX_STEP <= r <= MAX_STEP,
{
    let dt = dt_micros as i64;
    if rate >= 0 {
        assert(0 <= rate * dt <= MAX_SPEED * MAX_DT_MICROS) by (nonlinear_arith)
            requires
                0 <= rate <= MAX_SPEED,
                0 <= dt <= MAX_DT_MICROS,
        ;
        let p = rate * dt;
        assert(p / MICROS_PER_SECOND <= MAX_STEP) by (nonlinear_arith)
            requires
                0 <= p <= MAX_SPEED * MAX_DT_MICROS,
        ;
        p / MICROS_PER_SECOND
    } else {
        let m = -rate;
        assert(0 <= m * dt <= MAX_SPEED * MAX_DT_MICROS) by (nonlinear_arith)
            requires
                0 <= m <= MAX_SPEED,
                0 <= dt <= MAX_DT_MICROS,
        ;
        let p = m * dt;
        assert(p / MICROS_PER_SECOND <= MAX_STEP) by (nonlinear_arith)
            requires
                0 <= p <= MAX_SPEED * MAX_DT_MICROS,
        ;
        -(p / MICROS_PER_SECOND)
    }
}

/// Bound on the coordinates that the collision probes work with.
pub const PROBE_SPAN: i64 = 4_000_000_000_000;

pub proof fn lemma_lerp_between(a: int, b: int, k: int, d: int)
    requires
        d >= 1,
        0 <= k <= d,
    ensures
        min(a, b) <= lerp(a, b, k, d) <= max(a, b),
{
    let n = 2 * (b - a) * k + d;
    let q = n / (2 * d);
    vstd::arithmetic::div_mod::lemma_fundamental_div_mod(n, 2 * d);
    let r = n % (2 * d);
    assert(n == 2 * d * q + r && 0 <= r < 2 * d);
    if b >= a {
        assert(0 <= (b - a) * k <= (b - a) * d) by (nonlinear_arith)
            requires
                b - a >= 0,
                0 <= k <= d,
        ;
        assert(0 <= q <= b - a) by (nonlinear_arith)
            requires
                n == 2 * d * q + r,
                0 <= r < 2 * d,
                d >= 1,
                n == 2 * (b - a) * k + d,
                0 <= (b - a) * k <= (b - a) * d,
        ;
    } else {
        assert((b - a) * d <= (b - a) * k <= 0) by (nonlinear_arith)
            requires
                b - a < 0,
                0 <= k <= d,
        ;
        assert(b - a <= q <= 0) by (nonlinear_arith)
            requires
                n == 2 * d * q + r,
                0 <= r < 2 * d,
                d >= 1,
                n == 2 * (b - a) * k + d,
                (b - a) * d <= (b - a) * k <= 0,
        ;
    }
}

/// Interpolates one coordinate between `a` (at `k == 0`) and `b` (at `k == d`).
pub fn lerp_coord(a: i64, b: i64, k: i64, d: i64) -> (r: i64)
    requires
        -PROBE_SPAN <= a <= PROBE_SPAN,
        -PROBE_SPAN <= b <= PROBE_SPAN,
        1 <= d <= 4 * PROBE_SPAN,
        0 <= k <= d,
    ensures
        r == lerp(a as int, b as int, k as int, d as int),
        min(a as int, b as int) <= r <= max(a as int, b as int),
{
    proof {
        lemma_lerp_between(a as int, b as int, k as int, d as int);
    }
    let diff = (b as i128) - (a as i128);
    assert(-8 * PROBE_SPAN * PROBE_SPAN <= diff * k <= 8 * PROBE_SPAN * PROBE_SPAN)
        by (nonlinear_arith)
        requires
            -2 * PROBE_SPAN <= diff <= 2 * PROBE_SPAN,
            0 <= k <= 4 * PROBE_SPAN,
    ;
    let prod: i128 = diff * (k as i128);
    let n: i128 = 2 * prod + (d as i128);
    assert(n as int == 2 * (b as int - a as int) * (k as int) + d) by (nonlinear_arith)
        requires
            prod as int == (b as int - a as int) * (k as int),
            n as int == 2 * prod + d,
    ;
    let q = n.checked_div_euclid(2 * (d as i128));
    match q {
        Some(q) => a + (q as i64),
        None => a,
    }
}

} // verus!
