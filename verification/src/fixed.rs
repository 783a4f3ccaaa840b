//! Fixed-point arithmetic helpers.
//!
//! The whole signal chain works on `i64` values in micro-units: a
//! normalized touchpad coordinate of `1.0` is stored as [`SCALE`], a
//! scaled sensor value of `2.5` as `5 * SCALE / 2`, and so on.  All
//! divisions truncate toward zero ([`div_tz`]), which is the semantics
//! of Rust's `/` on signed integers.

use vstd::arithmetic::div_mod::{lemma_div_nonincreasing, lemma_div_pos_is_pos};
use vstd::prelude::*;

verus! {

/// Number of integer micro-units in 1.0 of normalized or scaled space.
pub const SCALE: i64 = 1_000_000;

/// Magnitude bound for decoded sensor values (1000 units).  Keeping every
/// accelerometer/gyroscope/magnetometer reading inside this bound lets all
/// downstream products stay comfortably within `i64`.
pub const SENSOR_LIMIT: i64 = 1_000_000_000;

/// Division that truncates toward zero (the semantics of `/` on `i64`),
/// defined for positive divisors.
pub open spec fn div_tz(a: int, b: int) -> int
    recommends
        b > 0,
{
    if a >= 0 {
        a / b
    } else {
        -((-a) / b)
    }
}

/// Magnitude of an integer.
pub open spec fn spec_abs(v: int) -> int {
    if v >= 0 {
        v
    } else {
        -v
    }
}

/// Clamping to a closed interval.
pub open spec fn spec_clamp(v: int, lo: int, hi: int) -> int
    recommends
        lo <= hi,
{
    if v < lo {
        lo
    } else if v > hi {
        hi
    } else {
        v
    }
}

/// Dividing by a positive integer never increases the magnitude.
pub proof fn lemma_div_tz_bound(a: int, b: int, m: int)
    requires
        b >= 1,
        -m <= a <= m,
    ensures
        -m <= div_tz(a, b) <= m,
        a >= 0 ==> 0 <= div_tz(a, b),
        a <= 0 ==> div_tz(a, b) <= 0,
{
    if a >= 0 {
        lemma_div_pos_is_pos(a, b);
        lemma_div_nonincreasing(a, b);
    } else {
        lemma_div_pos_is_pos(-a, b);
        lemma_div_nonincreasing(-a, b);
    }
}

/// The magnitude of a truncating quotient is bounded by the quotient of
/// the magnitudes.
pub proof fn lemma_div_tz_mono_abs(a: int, b: int, m: int)
    requires
        b >= 1,
        0 <= m,
        -m <= a <= m,
    ensures
        -(m / b) <= div_tz(a, b) <= m / b,
{
    if a >= 0 {
        vstd::arithmetic::div_mod::lemma_div_is_ordered(a, m, b);
        lemma_div_pos_is_pos(a, b);
    } else {
        vstd::arithmetic::div_mod::lemma_div_is_ordered(-a, m, b);
        lemma_div_pos_is_pos(-a, b);
    }
}

/// Truncating division with the quotient pinned to [`div_tz`].
pub fn div_i64(a: i64, b: i64) -> (r: i64)
    requires
        b >= 1,
        a > i64::MIN,
    ensures
        r == div_tz(a as int, b as int),
        spec_abs(r as int) <= spec_abs(a as int),
{
    proof {
        lemma_div_tz_bound(a as int, b as int, spec_abs(a as int));
    }
    a / b
}

/// `a * b / d`, truncating toward zero, for products that fit in `i64`.
pub fn mul_div(a: i64, b: i64, d: i64) -> (r: i64)
    requires
        d >= 1,
        -0x4000_0000_0000_0000 <= a as int * b as int <= 0x4000_0000_0000_0000,
    ensures
        r == div_tz(a as int * b as int, d as int),
        spec_abs(r as int) <= spec_abs(a as int * b as int),
{
    let p: i64 = a * b;
    div_i64(p, d)
}

/// Clamps `v` to `[lo, hi]`.
pub fn clamp_i64(v: i64, lo: i64, hi: i64) -> (r: i64)
    requires
        lo <= hi,
    ensures
        r == spec_clamp(v as int, lo as int, hi as int),
{
    if v < lo {
        lo
    } else if v > hi {
        hi
    } else {
        v
    }
}

/// Sum of a sequence of samples.
pub open spec fn seq_sum(s: Seq<i64>) -> int
    decreases s.len(),
{
    if s.len() == 0 {
        0
    } else {
        seq_sum(s.drop_last()) + s.last()
    }
}

/// A sum of `len` samples, each of magnitude at most `m`, has magnitude
/// at most `m * len`.
pub proof fn lemma_seq_sum_bound(s: Seq<i64>, m: int)
    requires
        m >= 0,
        forall|i: int| 0 <= i < s.len() ==> -m <= #[trigger] s[i] <= m,
    ensures
        -m * s.len() <= seq_sum(s) <= m * s.len(),
    decreases s.len(),
{
    if s.len() > 0 {
        let t = s.drop_last();
        assert forall|i: int| 0 <= i < t.len() implies -m <= #[trigger] t[i] <= m by {
            assert(t[i] == s[i]);
        }
        lemma_seq_sum_bound(t, m);
        assert(-m <= s[s.len() - 1] <= m);
        assert(seq_sum(s) == seq_sum(t) + s[s.len() - 1]);
        assert(-m * s.len() <= seq_sum(s) <= m * s.len()) by (nonlinear_arith)
            requires
                -m * t.len() <= seq_sum(t) <= m * t.len(),
                t.len() == s.len() - 1,
                s.len() >= 1,
                seq_sum(s) == seq_sum(t) + s[s.len() - 1],
                -m <= s[s.len() - 1] <= m,
        ;
    }
}

/// The sum of a constant sequence is the constant times the length.
pub proof fn lemma_seq_sum_constant(s: Seq<i64>, c: i64)
    requires
        forall|i: int| 0 <= i < s.len() ==> #[trigger] s[i] == c,
    ensures
        seq_sum(s) == s.len() * c,
    decreases s.len(),
{
    if s.len() == 0 {
        assert(s.len() * c == 0) by (nonlinear_arith)
            requires
                s.len() == 0,
        ;
    } else {
        let t = s.drop_last();
        assert forall|i: int| 0 <= i < t.len() implies #[trigger] t[i] == c by {
            assert(t[i] == s[i]);
        }
        lemma_seq_sum_constant(t, c);
        assert(s[s.len() - 1] == c);
        assert(seq_sum(s) == seq_sum(t) + c);
        assert(s.len() * c == t.len() * c + c) by (nonlinear_arith)
            requires
                t.len() == s.len() - 1,
                s.len() >= 1,
        ;
    }
}

/// Truncating division undoes multiplication by a positive integer.
pub proof fn lemma_div_tz_multiple(c: int, n: int)
    requires
        n >= 1,
    ensures
        div_tz(c * n, n) == c,
{
    if c >= 0 {
        vstd::arithmetic::div_mod::lemma_div_by_multiple(c, n);
        assert(c * n >= 0) by (nonlinear_arith)
            requires
                c >= 0,
                n >= 1,
        ;
    } else {
        vstd::arithmetic::div_mod::lemma_div_by_multiple(-c, n);
        assert(c * n < 0 && -(c * n) == (-c) * n) by (nonlinear_arith)
            requires
                c < 0,
                n >= 1,
        ;
    }
}

/// Extending a prefix by one element adds that element to the sum.
pub proof fn lemma_seq_sum_take_step(s: Seq<i64>, i: int)
    requires
        0 <= i < s.len(),
    ensures
        seq_sum(s.take(i + 1)) == seq_sum(s.take(i)) + s[i],
{
    assert(s.take(i + 1).drop_last() =~= s.take(i));
    assert(s.take(i + 1).last() == s[i]);
}

/// One push into a bounded smoothing window: append, then evict from
/// the front down to `window` entries.
pub open spec fn spec_window_push<T>(buf: Seq<T>, d: T, window: int) -> Seq<T>
    recommends
        window >= 1,
{
    let grown = buf.push(d);
    if grown.len() > window {
        grown.skip(grown.len() - window)
    } else {
        grown
    }
}

/// Mean of a nonempty window, truncating toward zero.
pub open spec fn spec_window_mean(buf: Seq<i64>) -> int
    recommends
        buf.len() > 0,
{
    div_tz(seq_sum(buf), buf.len() as int)
}

/// Integer square root: the largest `r` with `r * r <= n`.
pub open spec fn spec_isqrt(n: int) -> int
    recommends
        n >= 0,
    decreases n,
{
    if n <= 0 {
        0
    } else {
        let r = spec_isqrt(n - 1);
        if (r + 1) * (r + 1) <= n {
            r + 1
        } else {
            r
        }
    }
}

/// The defining property of [`spec_isqrt`].
pub proof fn lemma_isqrt_props(n: int)
    requires
        n >= 0,
    ensures
        0 <= spec_isqrt(n),
        spec_isqrt(n) * spec_isqrt(n) <= n,
        n < (spec_isqrt(n) + 1) * (spec_isqrt(n) + 1),
    decreases n,
{
    if n > 0 {
        lemma_isqrt_props(n - 1);
        let r = spec_isqrt(n - 1);
        if (r + 1) * (r + 1) <= n {
            assert((r + 2) * (r + 2) > n) by (nonlinear_arith)
                requires
                    r >= 0,
                    n - 1 < (r + 1) * (r + 1),
                    (r + 1) * (r + 1) <= n,
            ;
        }
    }
}

/// Any `r` satisfying the square-root bracketing equals [`spec_isqrt`].
pub proof fn lemma_isqrt_unique(n: int, r: int)
    requires
        n >= 0,
        r >= 0,
        r * r <= n,
        n < (r + 1) * (r + 1),
    ensures
        r == spec_isqrt(n),
{
    lemma_isqrt_props(n);
    let q = spec_isqrt(n);
    if r < q {
        assert((r + 1) * (r + 1) <= q * q) by (nonlinear_arith)
            requires
                0 <= r + 1 <= q,
        ;
    }
    if r > q {
        assert((q + 1) * (q + 1) <= r * r) by (nonlinear_arith)
            requires
                0 <= q + 1 <= r,
        ;
    }
}

/// Integer square root by bisection, for inputs up to `4 * 10^12`
/// (large enough for every value the signal chain produces).
pub fn isqrt_i64(n: i64) -> (r: i64)
    requires
        0 <= n <= 4_000_000_000_000,
    ensures
        r == spec_isqrt(n as int),
        0 <= r <= 2_000_000,
{
    let mut lo: i64 = 0;
    let mut hi: i64 = 2_000_001;
    assert(2_000_001int * 2_000_001int > n as int);
    while lo + 1 < hi
        invariant
            0 <= lo < hi <= 2_000_001,
            lo as int * lo as int <= n as int,
            hi as int * hi as int > n as int,
            n <= 4_000_000_000_000,
        decreases hi - lo,
    {
        let mid = lo + (hi - lo) / 2;
        proof {
            assert((hi as int - lo as int) / 2 >= 1 && (hi as int - lo as int) / 2 < hi as int
                - lo as int) by (nonlinear_arith)
                requires
                    hi as int - lo as int >= 2,
            ;
            assert(mid as int * mid as int <= 4_000_002_000_001) by (nonlinear_arith)
                requires
                    0 <= mid as int <= 2_000_000,
            ;
        }
        if mid * mid <= n {
            lo = mid;
        } else {
            hi = mid;
        }
    }
    proof {
        lemma_isqrt_unique(n as int, lo as int);
    }
    lo
}

} // verus!
