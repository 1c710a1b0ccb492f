//! Fixed-point plane geometry.
//!
//! Coordinates are held in thousandths of a game unit ("milli-units"), so
//! one game unit is `MILLI` and a unit-length direction vector has length
//! about `MILLI`.  Division truncates toward zero, as the engine's
//! floating-point arithmetic rounds toward the nearest representable value;
//! every operation states its rounding exactly.

use vstd::prelude::*;

verus! {

/// Thousandths of a game unit per game unit.
pub const MILLI: i64 = 1000;

/// Largest coordinate magnitude, in milli-units, that the vector operations
/// accept: one million game units, far beyond any map.
pub const COORD_LIMIT: i64 = 1_000_000_000;

/// Integer division truncated toward zero (the rounding of Rust's `/`),
/// expressed over the euclidean `/` of specification arithmetic.
pub open spec fn div_trunc_spec(a: int, b: int) -> int
    recommends
        b > 0,
{
    if a >= 0 {
        a / b
    } else {
        -((-a) / b)
    }
}

/// Division of `a` by a positive divisor, truncated toward zero.
pub fn div_trunc(a: i64, b: i64) -> (r: i64)
    requires
        b > 0,
        a > i64::MIN,
    ensures
        r == div_trunc_spec(a as int, b as int),
{
    if a >= 0 {
        let q: u64 = (a as u64) / (b as u64);
        q as i64
    } else {
        let q: u64 = ((-a) as u64) / (b as u64);
        -(q as i64)
    }
}

/// A point or direction of the plane, in milli-units.
#[derive(Clone, Copy, PartialEq, Eq, Structural, Debug)]
pub struct Vec2 {
    pub x: i64,
    pub y: i64,
}

impl Vec2 {
    /// Both coordinates lie within `limit` of zero.
    pub open spec fn in_range(self, limit: int) -> bool {
        -limit <= self.x <= limit && -limit <= self.y <= limit
    }

    /// The origin, also the zero direction.
    pub fn zero() -> (r: Vec2)
        ensures
            r == (Vec2 { x: 0, y: 0 }),
    {
        Vec2 { x: 0, y: 0 }
    }

    /// Componentwise sum.
    pub fn plus(self, other: Vec2) -> (r: Vec2)
        requires
            i64::MIN <= self.x + other.x <= i64::MAX,
            i64::MIN <= self.y + other.y <= i64::MAX,
        ensures
            r.x == self.x + other.x,
            r.y == self.y + other.y,
    {
        Vec2 { x: self.x + other.x, y: self.y + other.y }
    }

    /// Componentwise difference.
    pub fn minus(self, other: Vec2) -> (r: Vec2)
        requires
            i64::MIN <= self.x - other.x <= i64::MAX,
            i64::MIN <= self.y - other.y <= i64::MAX,
        ensures
            r.x == self.x - other.x,
            r.y == self.y - other.y,
    {
        Vec2 { x: self.x - other.x, y: self.y - other.y }
    }
}

/// The greatest integer whose square does not exceed `n`.
pub open spec fn sqrt_floor(n: int) -> int
    decreases n,
{
    if n <= 0 {
        0
    } else {
        let r = sqrt_floor(n - 1);
        if (r + 1) * (r + 1) <= n {
            r + 1
        } else {
            r
        }
    }
}

/// `sqrt_floor` is characterised by the two bounds of an integer square root.
pub proof fn lemma_sqrt_floor(n: int)
    requires
        n >= 0,
    ensures
        0 <= sqrt_floor(n),
        sqrt_floor(n) * sqrt_floor(n) <= n,
        n < (sqrt_floor(n) + 1) * (sqrt_floor(n) + 1),
    decreases n,
{
    if n == 0 {
    } else {
        lemma_sqrt_floor(n - 1);
        let r = sqrt_floor(n - 1);
        if (r + 1) * (r + 1) <= n {
            assert(n < (r + 2) * (r + 2)) by (nonlinear_arith)
                requires
                    n - 1 < (r + 1) * (r + 1),
                    r >= 0,
            ;
        }
    }
}

/// The two square-root bounds pin the root down.
pub proof fn lemma_sqrt_floor_unique(n: int, r: int)
    requires
        n >= 0,
        r >= 0,
        r * r <= n,
        n < (r + 1) * (r + 1),
    ensures
        r == sqrt_floor(n),
{
    lemma_sqrt_floor(n);
    let s = sqrt_floor(n);
    assert(r == s) by (nonlinear_arith)
        requires
            r >= 0,
            s >= 0,
            r * r <= n,
            n < (r + 1) * (r + 1),
            s * s <= n,
            n < (s + 1) * (s + 1),
    ;
}

/// Integer square root, rounded down.
pub fn isqrt(n: u64) -> (r: u64)
    ensures
        r == sqrt_floor(n as int),
{
    proof {
        lemma_sqrt_floor(n as int);
    }
    let mut lo: u64 = 0;
    let mut hi: u64 = 4_294_967_296;
    while lo + 1 < hi
        invariant
            0 <= lo < hi <= 4_294_967_296,
            (lo as int) * (lo as int) <= n as int,
            n < (hi as int) * (hi as int),
        decreases hi - lo,
    {
        let mid: u64 = lo + (hi - lo) / 2;
        proof {
            assert(lo < mid < hi);
            assert((mid as int) * (mid as int) <= 0xffff_ffff_ffff_ffff) by (nonlinear_arith)
                requires
                    0 <= mid <= 4_294_967_295,
            ;
        }
        if mid * mid <= n {
            lo = mid;
        } else {
            hi = mid;
        }
    }
    proof {
        lemma_sqrt_floor_unique(n as int, lo as int);
    }
    lo
}

/// A quotient truncated toward zero stays within any multiple of the
/// divisor that bounds the dividend.
pub proof fn lemma_div_trunc_bound(a: int, b: int, m: int)
    requires
        b > 0,
        m >= 0,
        -(m * b) <= a <= m * b,
    ensures
        -m <= div_trunc_spec(a, b) <= m,
{
    vstd::arithmetic::div_mod::lemma_div_by_multiple(m, b);
    if a >= 0 {
        vstd::arithmetic::div_mod::lemma_div_is_ordered(a, m * b, b);
        vstd::arithmetic::div_mod::lemma_div_pos_is_pos(a, b);
    } else {
        vstd::arithmetic::div_mod::lemma_div_is_ordered(-a, m * b, b);
        vstd::arithmetic::div_mod::lemma_div_pos_is_pos(-a, b);
    }
}

/// Linear interpolation from `a` toward `b` by `t` thousandths,
/// truncated toward zero.
pub open spec fn lerp_scalar_spec(a: int, b: int, t: int) -> int {
    a + div_trunc_spec((b - a) * t, MILLI as int)
}

/// The interpolant never leaves the closed interval between its endpoints.
pub proof fn lemma_lerp_scalar_range(a: int, b: int, t: int)
    requires
        0 <= t <= MILLI,
    ensures
        b >= a ==> a <= lerp_scalar_spec(a, b, t) <= b,
        b < a ==> b <= lerp_scalar_spec(a, b, t) <= a,
{
    if b >= a {
        let c = b - a;
        assert(0 <= c * t <= c * 1000) by (nonlinear_arith)
            requires
                c >= 0,
                0 <= t <= 1000,
        ;
        lemma_div_trunc_bound(c * t, 1000, c);
        vstd::arithmetic::div_mod::lemma_div_pos_is_pos(c * t, 1000);
    } else {
        let c = a - b;
        assert(-(c * 1000) <= (b - a) * t <= 0) by (nonlinear_arith)
            requires
                c > 0,
                b - a == -c,
                0 <= t <= 1000,
        ;
        lemma_div_trunc_bound((b - a) * t, 1000, c);
        vstd::arithmetic::div_mod::lemma_div_pos_is_pos(-((b - a) * t), 1000);
    }
}

/// Interpolation of the current value of a smoothed quantity toward its
/// goal, by `t` thousandths.
pub fn lerp_scalar(a: i64, b: i64, t: i64) -> (r: i64)
    requires
        0 <= t <= MILLI,
        -1_000_000_000 <= a <= 1_000_000_000,
        -1_000_000_000 <= b <= 1_000_000_000,
    ensures
        r == lerp_scalar_spec(a as int, b as int, t as int),
        b >= a ==> a <= r <= b,
        b < a ==> b <= r <= a,
{
    proof {
        assert(-4_000_000_000_000 <= (b - a) * t <= 4_000_000_000_000) by (nonlinear_arith)
            requires
                -2_000_000_000 <= b - a <= 2_000_000_000,
                0 <= t <= 1000,
        ;
        lemma_lerp_scalar_range(a as int, b as int, t as int);
    }
    a + div_trunc((b - a) * t, MILLI)
}

/// Componentwise linear interpolation from `a` toward `b` by `t`
/// thousandths, truncated toward zero.
pub open spec fn lerp_spec(a: Vec2, b: Vec2, t: int) -> Vec2 {
    Vec2 {
        x: lerp_scalar_spec(a.x as int, b.x as int, t) as i64,
        y: lerp_scalar_spec(a.y as int, b.y as int, t) as i64,
    }
}

/// Componentwise interpolation of one direction toward another.
pub fn lerp_milli(a: Vec2, b: Vec2, t: i64) -> (r: Vec2)
    requires
        0 <= t <= MILLI,
        a.in_range(1_000_000_000),
        b.in_range(1_000_000_000),
    ensures
        r == lerp_spec(a, b, t as int),
        a.in_range(MILLI as int) && b.in_range(MILLI as int) ==> r.in_range(MILLI as int),
{
    let x = lerp_scalar(a.x, b.x, t);
    let y = lerp_scalar(a.y, b.y, t);
    Vec2 { x, y }
}

/// The length of a vector, rounded down to whole milli-units.
pub open spec fn norm_spec(v: Vec2) -> int {
    sqrt_floor(v.x * v.x + v.y * v.y)
}

/// The direction of `v` scaled to about unit length (`MILLI`), each
/// component truncated toward zero.
pub open spec fn normalize_spec(v: Vec2) -> Vec2 {
    Vec2 {
        x: div_trunc_spec(v.x * (MILLI as int), norm_spec(v)) as i64,
        y: div_trunc_spec(v.y * (MILLI as int), norm_spec(v)) as i64,
    }
}

/// Scales a non-zero vector to about unit length: the exact direction the
/// engine's floating-point normalisation approximates.
pub fn normalize_milli(v: Vec2) -> (r: Vec2)
    requires
        v.in_range(COORD_LIMIT as int),
        !(v.x == 0 && v.y == 0),
    ensures
        r == normalize_spec(v),
        r.in_range(MILLI as int),
{
    proof {
        assert(0 <= v.x * v.x <= 1_000_000_000_000_000_000 && 0 <= v.y * v.y
            <= 1_000_000_000_000_000_000 && 1 <= v.x * v.x + v.y * v.y
            <= 2_000_000_000_000_000_000) by (nonlinear_arith)
            requires
                v.in_range(1_000_000_000),
                !(v.x == 0 && v.y == 0),
        ;
    }
    let sq: i64 = v.x * v.x + v.y * v.y;
    let n: u64 = isqrt(sq as u64);
    proof {
        lemma_sqrt_floor(sq as int);
        let ni = n as int;
        assert(1 <= ni <= 2_000_000_000) by (nonlinear_arith)
            requires
                ni >= 0,
                ni * ni <= sq as int,
                1 <= sq as int <= 2_000_000_000_000_000_000,
                (ni + 1) * (ni + 1) > sq as int,
        ;
        // each component is bounded by the whole length
        assert(-ni <= v.x as int <= ni && -ni <= v.y as int <= ni) by (nonlinear_arith)
            requires
                ni >= 0,
                v.x * v.x <= sq as int,
                v.y * v.y <= sq as int,
                (sq as int) < (ni + 1) * (ni + 1),
        ;
        assert(-(1000 * ni) <= v.x * 1000 <= 1000 * ni && -(1000 * ni) <= v.y * 1000 <= 1000
            * ni) by (nonlinear_arith)
            requires
                -ni <= v.x as int <= ni,
                -ni <= v.y as int <= ni,
        ;
        lemma_div_trunc_bound(v.x * 1000, ni, 1000);
        lemma_div_trunc_bound(v.y * 1000, ni, 1000);
    }
    let x = div_trunc(v.x * MILLI, n as i64);
    let y = div_trunc(v.y * MILLI, n as i64);
    Vec2 { x, y }
}

/// The dot product of two vectors.
pub open spec fn dot_spec(a: Vec2, b: Vec2) -> int {
    a.x * b.x + a.y * b.y
}

/// Dot product of two bounded vectors.
pub fn dot(a: Vec2, b: Vec2) -> (r: i64)
    requires
        a.in_range(1_000_000),
        b.in_range(1_000_000),
    ensures
        r == dot_spec(a, b),
{
    proof {
        assert(-1_000_000_000_000 <= a.x * b.x <= 1_000_000_000_000
            && -1_000_000_000_000 <= a.y * b.y <= 1_000_000_000_000) by (nonlinear_arith)
            requires
                a.in_range(1_000_000),
                b.in_range(1_000_000),
        ;
    }
    a.x * b.x + a.y * b.y
}

} // verus!
