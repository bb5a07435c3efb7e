//! Decimal text for `Dec` values, built one character at a time.

use crate::fixed::pow10;
use vstd::prelude::*;

verus! {

/// Relies on `String::push_str`: appends the characters of `t`.
#[verifier::external_body]
pub(crate) fn append_str(s: &mut String, t: &str)
    ensures
        final(s)@ == old(s)@ + t@,
{
    s.push_str(t)
}

/// Relies on `String::push`: appends `c`.
#[verifier::external_body]
pub(crate) fn append_char(s: &mut String, c: char)
    ensures
        final(s)@ == old(s)@.push(c),
{
    s.push(c)
}

/// The character of a decimal digit.
pub open spec fn digit_char(d: int) -> char {
    if d == 0 {
        '0'
    } else if d == 1 {
        '1'
    } else if d == 2 {
        '2'
    } else if d == 3 {
        '3'
    } else if d == 4 {
        '4'
    } else if d == 5 {
        '5'
    } else if d == 6 {
        '6'
    } else if d == 7 {
        '7'
    } else if d == 8 {
        '8'
    } else {
        '9'
    }
}

/// Decimal digits of `n`, without leading zeros.
pub open spec fn digits(n: nat) -> Seq<char>
    decreases n,
{
    if n < 10 {
        seq![digit_char(n as int)]
    } else {
        digits(n / 10).push(digit_char((n % 10) as int))
    }
}

/// The last `w` decimal digits of `n`, with leading zeros.
pub open spec fn padded(n: nat, w: nat) -> Seq<char>
    decreases w,
{
    if w <= 1 {
        seq![digit_char((n % 10) as int)]
    } else {
        padded(n / 10, (w - 1) as nat).push(digit_char((n % 10) as int))
    }
}

pub open spec fn abs_int(x: int) -> int {
    if x < 0 {
        -x
    } else {
        x
    }
}

/// `|units| / 10^k` rounded half up.
pub open spec fn rounded(units: int, k: nat) -> nat {
    ((abs_int(units) + pow10(k) / 2) / (pow10(k) as int)) as nat
}

/// Text of `units / 10^k` with `places` decimals: a minus sign for negative
/// values, the whole part, a point and the fraction.
pub open spec fn fixed_text(units: int, k: nat, places: nat) -> Seq<char> {
    let q = rounded(units, k);
    (if units < 0 {
        seq!['-']
    } else {
        Seq::<char>::empty()
    }) + digits(q / pow10(places)) + seq!['.'] + padded(q % pow10(places), places)
}

fn digit_exec(d: u64) -> (c: char)
    requires
        d < 10,
    ensures
        c == digit_char(d as int),
{
    if d == 0 {
        '0'
    } else if d == 1 {
        '1'
    } else if d == 2 {
        '2'
    } else if d == 3 {
        '3'
    } else if d == 4 {
        '4'
    } else if d == 5 {
        '5'
    } else if d == 6 {
        '6'
    } else if d == 7 {
        '7'
    } else if d == 8 {
        '8'
    } else {
        '9'
    }
}

fn push_digits(s: &mut String, n: u64)
    ensures
        final(s)@ == old(s)@ + digits(n as nat),
    decreases n,
{
    if n >= 10 {
        push_digits(s, n / 10);
    }
    append_char(s, digit_exec(n % 10));
    assert(s@ =~= old(s)@ + digits(n as nat));
}

fn push_padded(s: &mut String, n: u64, w: u32)
    requires
        w >= 1,
    ensures
        final(s)@ == old(s)@ + padded(n as nat, w as nat),
    decreases w,
{
    if w > 1 {
        push_padded(s, n / 10, w - 1);
    }
    append_char(s, digit_exec(n % 10));
    assert(s@ =~= old(s)@ + padded(n as nat, w as nat));
}

fn pow10_exec(n: u32) -> (r: u64)
    requires
        n <= 8,
    ensures
        r == pow10(n as nat),
        1 <= r <= 100_000_000,
{
    let mut r: u64 = 1;
    let mut i: u32 = 0;
    while i < n
        invariant
            i <= n,
            n <= 8,
            r == pow10(i as nat),
            1 <= r <= pow10(i as nat),
            pow10(i as nat) <= 100_000_000,
        decreases n - i,
    {
        proof {
            reveal_with_fuel(pow10, 9);
        }
        r = r * 10;
        i = i + 1;
    }
    r
}

/// Appends the text of `units / 10^k` with `places` decimals.
pub fn push_fixed(s: &mut String, units: i64, k: u32, places: u32)
    requires
        1 <= k <= 8,
        1 <= places <= 8,
    ensures
        final(s)@ == old(s)@ + fixed_text(units as int, k as nat, places as nat),
{
    let m: u64 = if units < 0 {
        ((-(units as i128)) as u64)
    } else {
        units as u64
    };
    let p = pow10_exec(k);
    let q = (m + p / 2) / p;
    let pp = pow10_exec(places);
    if units < 0 {
        append_char(s, '-');
    }
    push_digits(s, q / pp);
    append_char(s, '.');
    push_padded(s, q % pp, places);
    assert(s@ =~= old(s)@ + fixed_text(units as int, k as nat, places as nat));
}

} // verus!
