//! Human-readable byte sizes for status lines: bytes below 1 KiB, otherwise
//! KiB or MiB with one decimal, 1024-based. The value shown is exactly what
//! formatting `bytes as f64 / unit` with one decimal gives: the size is first
//! rounded to the nearest double (ties to even), then the quotient is rounded
//! to tenths (ties to even).
use crate::text::{decimal, push_decimal};
use vstd::prelude::*;

verus! {

/// `n / d` rounded to the nearest integer, ties to the even one.
pub open spec fn round_half_even(n: nat, d: nat) -> nat {
    let q = n / d;
    let r = n % d;
    if 2 * r > d {
        q + 1
    } else if 2 * r < d {
        q
    } else if q % 2 == 0 {
        q
    } else {
        q + 1
    }
}

/// The spacing of doubles around `b`, searched from `unit` upward: 1 below
/// 2^53, doubling with each binade above (at most 2^11 below 2^64).
pub open spec fn spacing_from(b: nat, unit: nat) -> nat
    decreases 4096 - unit,
{
    if unit == 0 || unit >= 2048 || b < 9007199254740992 * unit {
        unit
    } else {
        spacing_from(b, 2 * unit)
    }
}

/// The double nearest to `b` (ties to even), as an integer.
pub open spec fn f64_nearest(b: nat) -> nat {
    let u = spacing_from(b, 1);
    round_half_even(b, u) * u
}

/// `t` tenths written with one decimal.
pub open spec fn tenths_text(t: nat) -> Seq<char> {
    decimal(t / 10) + "."@ + decimal(t % 10)
}

/// The human-readable size of `bytes`.
pub open spec fn human_size_spec(bytes: u64) -> Seq<char> {
    if bytes < 1024 {
        decimal(bytes as nat) + " B"@
    } else if bytes < 1048576 {
        tenths_text(round_half_even(10 * bytes as nat, 1024)) + " KB"@
    } else {
        tenths_text(round_half_even(10 * f64_nearest(bytes as nat), 1048576)) + " MB"@
    }
}

fn round_half_even_exec(n: u128, d: u128) -> (r: u128)
    requires
        d > 0,
        n < u128::MAX,
    ensures
        r == round_half_even(n as nat, d as nat),
        r <= n / d + 1,
{
    let q = n / d;
    let r = n % d;
    assert(q <= n) by (nonlinear_arith)
        requires
            q == n / d,
            d > 0,
    ;
    if r > d - r {
        q + 1
    } else if r < d - r {
        q
    } else if q % 2 == 0 {
        q
    } else {
        q + 1
    }
}

fn push_tenths(s: &mut String, t: u128)
    requires
        t < 18446744073709551616u128,
    ensures
        final(s)@ == old(s)@ + tenths_text(t as nat),
{
    push_decimal(s, (t / 10) as u64);
    s.append(".");
    push_decimal(s, (t % 10) as u64);
}

/// The human-readable size of `bytes`: `"512 B"`, `"1.5 KB"`, `"1.0 MB"`.
pub fn human_size(bytes: u64) -> (s: String)
    ensures
        s@ == human_size_spec(bytes),
{
    let mut s = String::new();
    if bytes < 1024 {
        push_decimal(&mut s, bytes);
        s.append(" B");
        return s;
    }
    if bytes < 1048576 {
        let t = round_half_even_exec(10 * (bytes as u128), 1024);
        assert(10 * (bytes as u128) / 1024 < 10240) by (nonlinear_arith)
            requires
                bytes < 1048576,
        ;
        push_tenths(&mut s, t);
        s.append(" KB");
        return s;
    }
    let b = bytes as u128;
    let mut unit: u128 = 1;
    while unit < 2048 && b >= 9007199254740992 * unit
        invariant
            1 <= unit <= 4096,
            b == bytes as u128,
            spacing_from(b as nat, unit as nat) == spacing_from(b as nat, 1),
        decreases 4096 - unit,
    {
        unit = unit * 2;
    }
    assert(spacing_from(b as nat, unit as nat) == unit);
    let q = round_half_even_exec(b, unit);
    assert(b / unit <= b) by (nonlinear_arith)
        requires
            unit >= 1,
    ;
    assert(q * unit <= (b + unit) as int) by (nonlinear_arith)
        requires
            q <= b / unit + 1,
            unit >= 1,
    ;
    let nearest = q * unit;
    let t = round_half_even_exec(10 * nearest, 1048576);
    assert(10 * nearest / 1048576 < 200000000000000u128) by (nonlinear_arith)
        requires
            nearest <= b + unit,
            b < 18446744073709551616u128,
            unit <= 4096,
    ;
    push_tenths(&mut s, t);
    s.append(" MB");
    s
}

} // verus!
