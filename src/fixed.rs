//! Fixed-point decimal numbers with eight fractional digits, and the exact
//! integer arithmetic that the calculators build on.

use vstd::arithmetic::div_mod::lemma_fundamental_div_mod_converse;
use vstd::prelude::*;

verus! {

/// Number of units in one whole: a `Dec` counts units of 10^-8.
pub const SCALE: i64 = 100_000_000;

/// Largest magnitude a `Dec` takes; results beyond it saturate.
pub const DEC_MAX: i64 = 9_223_372_036_854_775_807;

/// A signed decimal with eight fractional digits: its value is `units / 10^8`.
#[derive(Clone, Copy, Debug, PartialEq, Eq, Structural)]
pub struct Dec {
    pub units: i64,
}

/// The integer `x` clamped to the range of a `Dec`.
pub open spec fn clamp_dec(x: int) -> int {
    if x > DEC_MAX as int {
        DEC_MAX as int
    } else if x < -(DEC_MAX as int) {
        -(DEC_MAX as int)
    } else {
        x
    }
}

/// Division that rounds toward zero (divisor positive).
pub open spec fn trunc_div(a: int, b: int) -> int
    recommends
        b > 0,
{
    if a >= 0 {
        a / b
    } else {
        -((-a) / b)
    }
}

/// Units of the `Dec` closest to `a / b` toward zero, saturating.
pub open spec fn ratio_units(a: int, b: int) -> int
    recommends
        b > 0,
{
    clamp_dec(trunc_div(a * SCALE as int, b))
}

/// The integer `x` clamped to `[lo, hi]`.
pub open spec fn clamp_int(x: int, lo: int, hi: int) -> int {
    if x < lo {
        lo
    } else if x > hi {
        hi
    } else {
        x
    }
}

pub open spec fn pow10(n: nat) -> nat
    decreases n,
{
    if n == 0 {
        1
    } else {
        10 * pow10((n - 1) as nat)
    }
}

impl Dec {
    /// The value zero.
    pub fn zero() -> (r: Dec)
        ensures
            r.units == 0,
    {
        Dec { units: 0 }
    }

    /// The value `units / 10^8`.
    pub fn from_units(units: i64) -> (r: Dec)
        ensures
            r.units == units,
    {
        Dec { units }
    }

    /// The whole number `n`.
    pub fn from_int(n: i32) -> (r: Dec)
        ensures
            r.units == n * SCALE,
    {
        Dec { units: n as i64 * SCALE }
    }

    /// This value clamped to `[lo, hi]`.
    pub fn clamp(self, lo: Dec, hi: Dec) -> (r: Dec)
        requires
            lo.units <= hi.units,
        ensures
            r.units == clamp_int(self.units as int, lo.units as int, hi.units as int),
    {
        if self.units < lo.units {
            lo
        } else if self.units > hi.units {
            hi
        } else {
            self
        }
    }
}

/// Largest magnitude of a saturating 128-bit sum.
pub const WIDE_MAX: i128 = 170141183460469231731687303715884105727;

/// `x` clamped to `[-WIDE_MAX, WIDE_MAX]`.
pub open spec fn sat(x: int) -> int {
    clamp_int(x, -(WIDE_MAX as int), WIDE_MAX as int)
}

/// `a + b`, saturating at `WIDE_MAX` in magnitude.
pub fn sat_add(a: i128, b: i128) -> (r: i128)
    requires
        -WIDE_MAX <= a,
        -WIDE_MAX <= b,
    ensures
        r == sat(a + b),
{
    match a.checked_add(b) {
        Some(x) => {
            if x < -WIDE_MAX {
                -WIDE_MAX
            } else {
                x
            }
        },
        None => {
            if b > 0 {
                WIDE_MAX
            } else {
                -WIDE_MAX
            }
        },
    }
}

/// `(10 * r) / b` and `(10 * r) % b` for `r < b`, without overflow.
fn ten_times_divmod(r: u128, b: u128) -> (res: (u128, u128))
    requires
        r < b,
    ensures
        res.0 * b + res.1 == 10 * r,
        res.1 < b,
        res.0 <= 10,
{
    let mut t: u128 = 0;
    let mut rem: u128 = 0;
    let mut k: u128 = 0;
    while k < 10
        invariant
            k <= 10,
            r < b,
            rem < b,
            t <= k,
            t * b + rem == k * r,
        decreases 10 - k,
    {
        if rem >= b - r {
            proof {
                assert((t + 1) * b == t * b + b) by (nonlinear_arith);
            }
            rem = rem - (b - r);
            t = t + 1;
        } else {
            rem = rem + r;
        }
        proof {
            assert((k + 1) * r == k * r + r) by (nonlinear_arith);
        }
        k = k + 1;
    }
    (t, rem)
}

/// `(a * 10^8) / b`, exactly, for a quotient `a / b` that fits in 64 bits.
fn div_scaled(a: u128, b: u128) -> (q: u128)
    requires
        b > 0,
        a / b <= u64::MAX,
    ensures
        q == (a * SCALE as int) / (b as int),
{
    let ghost m: int = a as int / b as int + 1;
    let mut q: u128 = a / b;
    let mut r: u128 = a % b;
    let mut i: usize = 0;
    proof {
        assert(a == q * b + r) by (nonlinear_arith)
            requires q == a / b, r == a % b, b > 0;
        assert(pow10(0) == 1);
    }
    while i < 8
        invariant
            b > 0,
            i <= 8,
            r < b,
            q * b + r == a * pow10(i as nat),
            m == a as int / b as int + 1,
            m <= u64::MAX + 1,
            q < m * pow10(i as nat),
        decreases 8 - i,
    {
        let (t, r2) = ten_times_divmod(r, b);
        let ghost p = pow10(i as nat);
        proof {
            assert(pow10((i + 1) as nat) == 10 * p);
            assert(p <= 10_000_000) by {
                reveal_with_fuel(pow10, 9);
            }
            assert(q < 18446744073709551616 * 10_000_000) by (nonlinear_arith)
                requires q < m * p, m <= 18446744073709551616, p <= 10_000_000, p >= 0;
            assert((10 * q + t) * b + r2 == a * (10 * p)) by (nonlinear_arith)
                requires q * b + r == a * p, t * b + r2 == 10 * r;
            assert(10 * q + t < m * (10 * p)) by (nonlinear_arith)
                requires q < m * p, t <= 10, q * b + r == a * p, t * b + r2 == 10 * r, r2 < b,
                    r < b, b > 0, m == a as int / b as int + 1, p >= 1;
        }
        q = 10 * q + t;
        r = r2;
        i = i + 1;
    }
    proof {
        reveal_with_fuel(pow10, 9);
        assert(pow10(8) == 100_000_000);
        lemma_fundamental_div_mod_converse(a * SCALE as int, b as int, q as int, r as int);
    }
    q
}

/// `num / den` as a `Dec`, rounded toward zero and saturating at `DEC_MAX`.
pub fn ratio(num: i128, den: i128) -> (r: Dec)
    requires
        den > 0,
    ensures
        r.units == ratio_units(num as int, den as int),
{
    let mag: u128 = if num >= 0 {
        num as u128
    } else {
        ((-(num + 1)) as u128) + 1
    };
    let d: u128 = den as u128;
    assert(mag == if num >= 0 { num as int } else { -num });
    let ghost exact: int = (mag * SCALE as int) / (d as int);
    if mag / d > u64::MAX as u128 {
        proof {
            let w = mag as int / d as int;
            assert(w * d <= mag) by (nonlinear_arith)
                requires w == mag as int / d as int, d > 0;
            assert(w * SCALE as int * d <= mag * SCALE as int) by (nonlinear_arith)
                requires w * d <= mag, d > 0;
            lemma_div_ge(mag * SCALE as int, d as int, w * SCALE as int);
            assert(exact >= w * SCALE as int);
        }
        if num >= 0 {
            Dec { units: DEC_MAX }
        } else {
            Dec { units: -DEC_MAX }
        }
    } else {
        let q = div_scaled(mag, d);
        if q > DEC_MAX as u128 {
            if num >= 0 {
                Dec { units: DEC_MAX }
            } else {
                Dec { units: -DEC_MAX }
            }
        } else if num >= 0 {
            Dec { units: q as i64 }
        } else {
            Dec { units: -(q as i64) }
        }
    }
}

/// `x / d >= k` whenever `k * d <= x`.
proof fn lemma_div_ge(x: int, d: int, k: int)
    requires
        d > 0,
        k * d <= x,
    ensures
        x / d >= k,
{
    let q = x / d;
    let r = x % d;
    assert(x == q * d + r && 0 <= r < d) by (nonlinear_arith)
        requires q == x / d, r == x % d, d > 0;
    if q < k {
        assert(q * d + r < k * d) by (nonlinear_arith)
            requires q < k, r < d, d > 0;
    }
}

} // verus!
