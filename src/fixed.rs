//! Fixed-point helpers shared by the generator, the effects and the rasterizer.

use vstd::prelude::*;

verus! {

/// Denominator of the uniform fractions that drive every random choice.
pub const FRAC: u64 = 1_000_000;

/// `r` is the integer square root of `n`.
pub open spec fn is_isqrt(n: int, r: int) -> bool {
    0 <= r && r * r <= n && n < (r + 1) * (r + 1)
}

/// Integer square root, rounded down.
pub fn isqrt(n: u64) -> (r: u64)
    ensures
        is_isqrt(n as int, r as int),
{
    let mut lo: u64 = 0;
    let mut hi: u64 = 0x1_0000_0000;
    assert(n < hi * hi) by (nonlinear_arith)
        requires
            hi == 0x1_0000_0000u64,
            n <= u64::MAX,
    ;
    while hi - lo > 1
        invariant
            lo < hi <= 0x1_0000_0000u64,
            lo * lo <= n,
            n < hi * hi,
        decreases hi - lo,
    {
        let mid: u64 = lo + (hi - lo) / 2;
        assert(mid * mid < 0x1_0000_0000_0000_0000int) by (nonlinear_arith)
            requires
                mid < 0x1_0000_0000u64,
        ;
        if mid * mid <= n {
            lo = mid;
        } else {
            hi = mid;
        }
    }
    lo
}

/// The point at fraction `u / FRAC` between `lo` and `hi`; `lo` when the
/// interval is empty.
pub open spec fn lerp_spec(lo: int, hi: int, u: int) -> int {
    if hi <= lo {
        lo
    } else {
        lo + (hi - lo) * u / (FRAC as int)
    }
}

/// Bound on the endpoints that `lerp` accepts.
pub const LERP_BOUND: i64 = 0x100_0000_0000;

/// Linear interpolation between two fixed-point values.
pub fn lerp(lo: i64, hi: i64, u: u64) -> (r: i64)
    requires
        -LERP_BOUND <= lo <= LERP_BOUND,
        -LERP_BOUND <= hi <= LERP_BOUND,
        u < FRAC,
    ensures
        r == lerp_spec(lo as int, hi as int, u as int),
        hi <= lo ==> r == lo,
        hi > lo ==> lo <= r <= hi,
{
    if hi <= lo {
        lo
    } else {
        let span: u64 = (hi - lo) as u64;
        assert(span * u <= span * FRAC && span * FRAC <= 0x200_0000_0000 * 1_000_000)
            by (nonlinear_arith)
            requires
                u < FRAC,
                span <= 0x200_0000_0000u64,
        ;
        let step: u64 = span * u / FRAC;
        assert(step <= span) by (nonlinear_arith)
            requires
                step as int == (span * u) as int / 1_000_000int,
                span * u <= span * 1_000_000int,
        ;
        lo + step as i64
    }
}

/// `v` clamped into `[lo, hi]`.
pub open spec fn clamp_spec(v: int, lo: int, hi: int) -> int {
    if v < lo {
        lo
    } else if v > hi {
        hi
    } else {
        v
    }
}

/// Clamps a signed wide value into `[lo, hi]`.
pub fn clamp_wide(v: i128, lo: u64, hi: u64) -> (r: u64)
    requires
        lo <= hi,
    ensures
        r == clamp_spec(v as int, lo as int, hi as int),
        lo <= r <= hi,
{
    if v < lo as i128 {
        lo
    } else if v > hi as i128 {
        hi
    } else {
        v as u64
    }
}

/// The integer square root of `n`.
pub open spec fn isqrt_spec(n: int) -> int {
    choose|r: int| is_isqrt(n, r)
}

/// An integer has at most one integer square root.
pub proof fn lemma_isqrt_unique(n: int, r1: int, r2: int)
    requires
        is_isqrt(n, r1),
        is_isqrt(n, r2),
    ensures
        r1 == r2,
{
    if r1 < r2 {
        assert((r1 + 1) * (r1 + 1) <= r2 * r2) by (nonlinear_arith)
            requires
                0 <= r1 < r2,
        ;
    } else if r2 < r1 {
        assert((r2 + 1) * (r2 + 1) <= r1 * r1) by (nonlinear_arith)
            requires
                0 <= r2 < r1,
        ;
    }
}

/// `isqrt` computes `isqrt_spec`.
pub fn isqrt_exact(n: u64) -> (r: u64)
    ensures
        r == isqrt_spec(n as int),
        is_isqrt(n as int, r as int),
{
    let r = isqrt(n);
    proof {
        let c = isqrt_spec(n as int);
        assert(is_isqrt(n as int, c));
        lemma_isqrt_unique(n as int, r as int, c);
    }
    r
}

/// A direction for the fraction `angle`: a point on the border of the square
/// of half-side 1000, walked counter-clockwise from the positive x axis.
pub open spec fn direction_spec(angle: int) -> (int, int) {
    let t = angle * 8000 / (FRAC as int);
    let side = t / 2000;
    let o = t % 2000;
    if side == 0 {
        (1000, o - 1000)
    } else if side == 1 {
        (1000 - o, 1000)
    } else if side == 2 {
        (-1000, 1000 - o)
    } else {
        (o - 1000, -1000)
    }
}

/// The component `a` of a direction of length `norm`, scaled to `dist`,
/// rounded towards zero.
pub open spec fn offset_spec(dist: int, a: int, norm: int) -> int {
    if a >= 0 {
        dist * a / norm
    } else {
        -(dist * (-a) / norm)
    }
}

/// The offset of a point at distance `dist` from the origin in the direction
/// given by the fraction `angle`.
pub open spec fn polar_offset_spec(dist: int, angle: int) -> (int, int) {
    let (a, b) = direction_spec(angle);
    let norm = isqrt_spec(a * a + b * b);
    (offset_spec(dist, a, norm), offset_spec(dist, b, norm))
}

/// Computes `polar_offset_spec`.
pub fn polar_offset(dist: u64, angle: u64) -> (r: (i64, i64))
    requires
        dist <= 0x1_0000_0000,
        angle < FRAC,
    ensures
        r.0 == polar_offset_spec(dist as int, angle as int).0,
        r.1 == polar_offset_spec(dist as int, angle as int).1,
        -(dist as int) <= r.0 <= dist,
        -(dist as int) <= r.1 <= dist,
{
    assert(angle * 8000 < FRAC * 8000) by (nonlinear_arith)
        requires
            angle < FRAC,
    ;
    let t: u64 = angle * 8000 / FRAC;
    assert(t < 8000) by (nonlinear_arith)
        requires
            t as int == (angle * 8000) as int / 1_000_000int,
            angle * 8000 < 8_000_000_000int,
    ;
    let side: u64 = t / 2000;
    let o: i64 = (t % 2000) as i64;
    let (a, b): (i64, i64) = if side == 0 {
        (1000, o - 1000)
    } else if side == 1 {
        (1000 - o, 1000)
    } else if side == 2 {
        (-1000, 1000 - o)
    } else {
        (o - 1000, -1000)
    };
    assert(-1000 <= a <= 1000 && -1000 <= b <= 1000);
    assert(0 <= a * a <= 1_000_000 && 0 <= b * b <= 1_000_000) by (nonlinear_arith)
        requires
            -1000 <= a <= 1000,
            -1000 <= b <= 1000,
    ;
    let sq: u64 = (a * a + b * b) as u64;
    let norm = isqrt_exact(sq);
    proof {
        assert(is_isqrt(sq as int, norm as int));
        assert(a == 1000 || a == -1000 || b == 1000 || b == -1000);
        assert(sq >= 1_000_000) by (nonlinear_arith)
            requires
                a == 1000 || a == -1000 || b == 1000 || b == -1000,
                sq == a * a + b * b,
        ;
        assert(norm >= 1000) by (nonlinear_arith)
            requires
                sq >= 1_000_000,
                sq < (norm + 1) * (norm + 1),
                norm >= 0,
        ;
    }
    let ox = scaled_component(dist, a, norm);
    let oy = scaled_component(dist, b, norm);
    (ox, oy)
}

/// `dist * a / norm`, rounded towards zero, for a component `a` no longer
/// than `norm`.
fn scaled_component(dist: u64, a: i64, norm: u64) -> (r: i64)
    requires
        dist <= 0x1_0000_0000,
        -1000 <= a <= 1000,
        norm >= 1000,
    ensures
        r == offset_spec(dist as int, a as int, norm as int),
        -(dist as int) <= r <= dist,
{
    let mag: u64 = if a >= 0 { a as u64 } else { (-a) as u64 };
    assert(dist * mag <= dist * norm) by (nonlinear_arith)
        requires
            mag <= 1000,
            norm >= 1000,
    ;
    assert(dist * mag <= 0x1_0000_0000 * 1000) by (nonlinear_arith)
        requires
            mag <= 1000,
            dist <= 0x1_0000_0000,
    ;
    let q: u64 = dist * mag / norm;
    assert(q <= dist) by (nonlinear_arith)
        requires
            q as int == (dist * mag) as int / norm as int,
            dist * mag <= dist * norm,
            norm >= 1000,
    ;
    if a >= 0 {
        q as i64
    } else {
        -(q as i64)
    }
}

/// `x` raised to the power `k` in permille arithmetic, rounding down after
/// every multiplication.
pub open spec fn fx_pow(x: int, k: nat) -> int
    decreases k,
{
    if k == 0 {
        1000
    } else {
        fx_pow(x, (k - 1) as nat) * x / 1000
    }
}

/// Computes `fx_pow` for `x` in `[0, 1000]`.
pub fn fx_pow_exec(x: u64, k: u64) -> (r: u64)
    requires
        x <= 1000,
    ensures
        r == fx_pow(x as int, k as nat),
        r <= 1000,
{
    let mut acc: u64 = 1000;
    let mut i: u64 = 0;
    while i < k
        invariant
            i <= k,
            x <= 1000,
            acc == fx_pow(x as int, i as nat),
            acc <= 1000,
        decreases k - i,
    {
        assert(acc * x <= 1_000_000) by (nonlinear_arith)
            requires
                acc <= 1000,
                x <= 1000,
        ;
        let next: u64 = acc * x / 1000;
        assert(next <= 1000) by (nonlinear_arith)
            requires
                next as int == (acc * x) as int / 1000int,
                acc * x <= 1_000_000,
        ;
        acc = next;
        i = i + 1;
    }
    acc
}

/// `s` is the `tenths / 10`-th root of `u`, both permille: the largest `s` in
/// `[0, 1000]` with `s^(tenths/10) <= u`, compared as `s^tenths <= u^10`.
pub open spec fn is_fx_root(u: int, tenths: nat, s: int) -> bool {
    &&& 0 <= s <= 1000
    &&& fx_pow(s, tenths) <= fx_pow(u, 10)
    &&& (s == 1000 || fx_pow(s + 1, tenths) > fx_pow(u, 10))
}

/// Fixed-point root by bisection.
pub fn fx_root(u: u64, tenths: u64) -> (r: u64)
    requires
        u <= 1000,
        tenths >= 1,
    ensures
        is_fx_root(u as int, tenths as nat, r as int),
{
    let target = fx_pow_exec(u, 10);
    let mut lo: u64 = 0;
    let mut hi: u64 = 1001;
    assert(fx_pow(0, tenths as nat) == 0) by {
        assert(fx_pow(0, tenths as nat) == fx_pow(0, (tenths - 1) as nat) * 0 / 1000);
    }
    while hi - lo > 1
        invariant
            lo < hi <= 1001,
            tenths >= 1,
            fx_pow(lo as int, tenths as nat) <= target,
            hi == 1001 || fx_pow(hi as int, tenths as nat) > target,
            target == fx_pow(u as int, 10),
        decreases hi - lo,
    {
        let mid: u64 = lo + (hi - lo) / 2;
        if fx_pow_exec(mid, tenths) <= target {
            lo = mid;
        } else {
            hi = mid;
        }
    }
    lo
}

/// `fx_pow` stays in `[0, 1000]` on `[0, 1000]`.
pub proof fn lemma_fx_pow_bounds(x: int, k: nat)
    requires
        0 <= x <= 1000,
    ensures
        0 <= fx_pow(x, k) <= 1000,
    decreases k,
{
    if k > 0 {
        lemma_fx_pow_bounds(x, (k - 1) as nat);
        let p = fx_pow(x, (k - 1) as nat);
        assert(0 <= p * x / 1000 <= 1000) by (nonlinear_arith)
            requires
                0 <= p <= 1000,
                0 <= x <= 1000,
        ;
    }
}

/// `fx_pow` is monotone in its base on `[0, 1000]`.
pub proof fn lemma_fx_pow_monotone(x: int, y: int, k: nat)
    requires
        0 <= x <= y <= 1000,
    ensures
        fx_pow(x, k) <= fx_pow(y, k),
    decreases k,
{
    if k > 0 {
        lemma_fx_pow_monotone(x, y, (k - 1) as nat);
        lemma_fx_pow_bounds(x, (k - 1) as nat);
        let p = fx_pow(x, (k - 1) as nat);
        let q = fx_pow(y, (k - 1) as nat);
        assert(p * x <= q * y) by (nonlinear_arith)
            requires
                0 <= p <= q,
                0 <= x <= y,
        ;
        assert(p * x / 1000 <= q * y / 1000) by (nonlinear_arith)
            requires
                p * x <= q * y,
        ;
    }
}

/// The fixed-point root that `is_fx_root` describes.
pub open spec fn fx_root_spec(u: int, tenths: nat) -> int {
    choose|s: int| is_fx_root(u, tenths, s)
}

/// A fixed-point root is unique.
pub proof fn lemma_fx_root_unique(u: int, tenths: nat, s1: int, s2: int)
    requires
        is_fx_root(u, tenths, s1),
        is_fx_root(u, tenths, s2),
    ensures
        s1 == s2,
{
    if s1 < s2 {
        lemma_fx_pow_monotone(s1 + 1, s2, tenths);
    } else if s2 < s1 {
        lemma_fx_pow_monotone(s2 + 1, s1, tenths);
    }
}

/// `fx_root` computes `fx_root_spec`.
pub fn fx_root_exact(u: u64, tenths: u64) -> (r: u64)
    requires
        u <= 1000,
        tenths >= 1,
    ensures
        r == fx_root_spec(u as int, tenths as nat),
        r <= 1000,
{
    let r = fx_root(u, tenths);
    proof {
        let c = fx_root_spec(u as int, tenths as nat);
        assert(is_fx_root(u as int, tenths as nat, c));
        lemma_fx_root_unique(u as int, tenths as nat, r as int, c);
    }
    r
}

/// Division rounded down, for a positive divisor; agrees with `/` on `int`.
pub fn div_floor(a: i128, b: i128) -> (r: i128)
    requires
        0 < b <= 0x1_0000_0000_0000_0000_0000_0000,
        -0x1_0000_0000_0000_0000_0000_0000 <= a <= 0x1_0000_0000_0000_0000_0000_0000,
    ensures
        r == a as int / b as int,
{
    if a >= 0 {
        a / b
    } else {
        let q = (-a + b - 1) / b;
        assert(-q == a as int / b as int) by (nonlinear_arith)
            requires
                a < 0,
                b > 0,
                q as int == (-a + b - 1) as int / (b as int),
        ;
        -q
    }
}

} // verus!
