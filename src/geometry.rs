//! Positions, distances and direction vectors on the play field.
use vstd::prelude::*;

verus! {

/// Milli-pixels per pixel.
pub const SCALE: i64 = 1000;

/// Microseconds per second.
pub const MICROS: i64 = 1_000_000;

/// Largest magnitude of a coordinate; movement saturates here.
pub const LIMIT: i64 = 0x100_0000_0000;

/// Length of a unit direction vector.
pub const UNIT: i64 = 1000;

/// A point of the play field, in milli-pixels.
#[derive(Clone, Copy, Debug, PartialEq, Eq, Structural)]
pub struct Pos {
    pub x: i64,
    pub y: i64,
}

/// Width and height of the play field, in milli-pixels.
#[derive(Clone, Copy, Debug, PartialEq, Eq, Structural)]
pub struct Field {
    pub width: i64,
    pub height: i64,
}

pub open spec fn coord_ok(c: int) -> bool {
    -LIMIT <= c <= LIMIT
}

impl Pos {
    pub open spec fn wf(self) -> bool {
        coord_ok(self.x as int) && coord_ok(self.y as int)
    }

    pub fn new(x: i64, y: i64) -> (r: Pos)
        ensures
            r.x == x,
            r.y == y,
    {
        Pos { x, y }
    }
}

impl Field {
    /// A field is at most a million pixels on each side.
    pub open spec fn wf(self) -> bool {
        0 < self.width <= 1_000_000_000 && 0 < self.height <= 1_000_000_000
    }
}

pub open spec fn sq(v: int) -> int {
    v * v
}

/// Squared Euclidean distance between two points.
pub open spec fn dist_sq(a: Pos, b: Pos) -> int {
    sq(b.x - a.x) + sq(b.y - a.y)
}

/// Whether two circles whose radii sum to `r` overlap strictly.
pub open spec fn overlaps(a: Pos, b: Pos, r: int) -> bool {
    dist_sq(a, b) < r * r
}

/// Whether two circles whose radii sum to `r` overlap or touch.
pub open spec fn touches(a: Pos, b: Pos, r: int) -> bool {
    dist_sq(a, b) <= r * r
}

pub open spec fn clamp_spec(v: int) -> int {
    if v < -LIMIT {
        -LIMIT as int
    } else if v > LIMIT {
        LIMIT as int
    } else {
        v
    }
}

/// `c + delta`, saturated to the representable coordinate range.
pub fn shift(c: i64, delta: i64) -> (r: i64)
    requires
        coord_ok(c as int),
        coord_ok(delta as int),
    ensures
        r == clamp_spec(c + delta),
        coord_ok(r as int),
{
    let v = c + delta;
    if v < -LIMIT {
        -LIMIT
    } else if v > LIMIT {
        LIMIT
    } else {
        v
    }
}

/// Distance travelled in `dt` microseconds at `speed` milli-pixels per second.
pub open spec fn travel_spec(speed: int, dt: int) -> int {
    speed * dt / MICROS as int
}

/// Speeds are at most ten thousand pixels per second.
pub open spec fn speed_ok(speed: int) -> bool {
    0 <= speed <= 10_000_000
}

/// Frame times are at most one second.
pub open spec fn dt_ok(dt: int) -> bool {
    0 <= dt <= MICROS
}

pub fn travel(speed: i64, dt: i64) -> (r: i64)
    requires
        speed_ok(speed as int),
        dt_ok(dt as int),
    ensures
        r == travel_spec(speed as int, dt as int),
        0 <= r <= 10_000_000,
{
    assert(0 <= speed * dt <= 10_000_000 * MICROS) by (nonlinear_arith)
        requires
            speed_ok(speed as int),
            dt_ok(dt as int),
    ;
    assert(speed * dt / MICROS as int <= 10_000_000) by (nonlinear_arith)
        requires
            0 <= speed * dt <= 10_000_000 * MICROS,
    ;
    speed * dt / MICROS
}

pub open spec fn is_isqrt(n: int, r: int) -> bool {
    0 <= r && r * r <= n < (r + 1) * (r + 1)
}

/// The integer square root of `n`, rounded down.
pub open spec fn root(n: int) -> int {
    choose|r: int| is_isqrt(n, r)
}

pub proof fn lemma_isqrt_unique(n: int, r: int, s: int)
    requires
        is_isqrt(n, r),
        is_isqrt(n, s),
    ensures
        r == s,
{
    if r < s {
        assert((r + 1) * (r + 1) <= s * s) by (nonlinear_arith)
            requires
                0 <= r < s,
        ;
    } else if s < r {
        assert((s + 1) * (s + 1) <= r * r) by (nonlinear_arith)
            requires
                0 <= s < r,
        ;
    }
}

pub proof fn lemma_isqrt_exists(n: int)
    requires
        n >= 0,
    ensures
        is_isqrt(n, root(n)),
    decreases n,
{
    if n == 0 {
        assert(is_isqrt(0, 0));
    } else {
        lemma_isqrt_exists(n - 1);
        let r = root(n - 1);
        if (r + 1) * (r + 1) <= n {
            assert(n < (r + 2) * (r + 2)) by (nonlinear_arith)
                requires
                    n - 1 < (r + 1) * (r + 1),
                    r >= 0,
            ;
            assert(is_isqrt(n, r + 1));
        } else {
            assert(is_isqrt(n, r));
        }
    }
}

pub proof fn lemma_root(n: int, r: int)
    requires
        is_isqrt(n, r),
    ensures
        root(n) == r,
{
    let s = root(n);
    assert(is_isqrt(n, s));
    lemma_isqrt_unique(n, r, s);
}

/// Integer square root, rounded down.
pub fn isqrt(n: u128) -> (r: u64)
    requires
        n < 0x1_0000_0000_0000_0000_0000_0000,
    ensures
        is_isqrt(n as int, r as int),
        r == root(n as int),
        r < 0x1_0000_0000_0000,
{
    let mut lo: u64 = 0;
    let mut hi: u64 = 0x1_0000_0000_0000;
    assert(0x1_0000_0000_0000 * 0x1_0000_0000_0000 == 0x1_0000_0000_0000_0000_0000_0000)
        by (nonlinear_arith);
    while hi - lo > 1
        invariant
            lo < hi <= 0x1_0000_0000_0000,
            lo * lo <= n,
            n < hi * hi,
        decreases hi - lo,
    {
        let mid: u64 = lo + (hi - lo) / 2;
        assert(mid * mid <= 0x1_0000_0000_0000 * 0x1_0000_0000_0000) by (nonlinear_arith)
            requires
                mid <= 0x1_0000_0000_0000,
        ;
        let m2: u128 = (mid as u128) * (mid as u128);
        if m2 <= n {
            lo = mid;
        } else {
            hi = mid;
        }
    }
    assert(hi == lo + 1);
    proof {
        lemma_root(n as int, lo as int);
    }
    lo
}

/// Squared distance, computed exactly.
pub fn distance_sq(a: Pos, b: Pos) -> (r: i128)
    requires
        a.wf(),
        b.wf(),
    ensures
        r == dist_sq(a, b),
        0 <= r <= 0x80_0000_0000_0000_0000_0000,
{
    let dx: i128 = b.x as i128 - a.x as i128;
    let dy: i128 = b.y as i128 - a.y as i128;
    assert(0 <= dx * dx <= 0x40_0000_0000_0000_0000_0000) by (nonlinear_arith)
        requires
            -0x200_0000_0000 <= dx <= 0x200_0000_0000,
    ;
    assert(0 <= dy * dy <= 0x40_0000_0000_0000_0000_0000) by (nonlinear_arith)
        requires
            -0x200_0000_0000 <= dy <= 0x200_0000_0000,
    ;
    dx * dx + dy * dy
}

/// Strict overlap test of two circles whose radii sum to `r`.
pub fn overlap(a: Pos, b: Pos, r: i64) -> (res: bool)
    requires
        a.wf(),
        b.wf(),
        0 <= r <= LIMIT,
    ensures
        res == overlaps(a, b, r as int),
{
    assert(r * r <= LIMIT * LIMIT) by (nonlinear_arith)
        requires
            0 <= r <= LIMIT,
    ;
    distance_sq(a, b) < (r as i128) * (r as i128)
}

/// Overlap-or-touch test of two circles whose radii sum to `r`.
pub fn touch(a: Pos, b: Pos, r: i64) -> (res: bool)
    requires
        a.wf(),
        b.wf(),
        0 <= r <= LIMIT,
    ensures
        res == touches(a, b, r as int),
{
    assert(r * r <= LIMIT * LIMIT) by (nonlinear_arith)
        requires
            0 <= r <= LIMIT,
    ;
    distance_sq(a, b) <= (r as i128) * (r as i128)
}

pub open spec fn abs(v: int) -> int {
    if v < 0 {
        -v
    } else {
        v
    }
}

/// `v * k / d` with the quotient rounded toward zero.
pub open spec fn scale_spec(v: int, k: int, d: int) -> int {
    if v >= 0 {
        v * k / d
    } else {
        -((-v) * k / d)
    }
}

pub proof fn lemma_scale_bounds(v: int, k: int, d: int)
    requires
        0 <= k <= d,
        0 < d,
    ensures
        abs(scale_spec(v, k, d)) <= abs(v),
        abs(scale_spec(v, k, d)) * d <= abs(v) * k,
        abs(v) * k - d < abs(scale_spec(v, k, d)) * d,
        v >= 0 ==> scale_spec(v, k, d) >= 0,
        v <= 0 ==> scale_spec(v, k, d) <= 0,
{
    let a = abs(v);
    let q = a * k / d;
    assert(a * k >= 0) by (nonlinear_arith)
        requires
            a >= 0,
            k >= 0,
    ;
    assert(q * d <= a * k && a * k - d < q * d && q >= 0) by (nonlinear_arith)
        requires
            q == a * k / d,
            d > 0,
            a * k >= 0,
    ;
    assert(q <= a) by (nonlinear_arith)
        requires
            q * d <= a * k,
            0 <= k <= d,
            a >= 0,
            q >= 0,
            d > 0,
    ;
}

/// Rounds `v * k / d` toward zero.
pub fn scale(v: i64, k: i64, d: i64) -> (r: i64)
    requires
        -2 * LIMIT <= v <= 2 * LIMIT,
        0 <= k <= d,
        0 < d,
    ensures
        r == scale_spec(v as int, k as int, d as int),
        abs(r as int) <= abs(v as int),
{
    proof {
        lemma_scale_bounds(v as int, k as int, d as int);
    }
    let a: i128 = if v >= 0 {
        v as i128
    } else {
        -(v as i128)
    };
    assert(a * k <= 2 * LIMIT * 0x7fff_ffff_ffff_ffff) by (nonlinear_arith)
        requires
            0 <= a <= 2 * LIMIT,
            0 <= k <= 0x7fff_ffff_ffff_ffff,
    ;
    let m: i128 = a * (k as i128) / (d as i128);
    if v >= 0 {
        m as i64
    } else {
        -(m as i64)
    }
}

} // verus!
