//! Human-readable byte counts for per-file reporting.
//!
//! Sizes under 1 KiB print as whole bytes; larger sizes print with one
//! decimal digit in KiB or MiB. The decimal digit is the exact rational
//! value rounded to the nearest tenth, ties to even — the rounding that
//! decimal formatting applies.

use vstd::prelude::*;

verus! {

pub open spec fn digit_char(d: int) -> char {
    if d == 0 {
        '0'
    } else if d == 1 {
        '1'
    } else if d == 2 {
        '2'
    } else if d == 3 {
        '3'
    } else if d == 4 {
        '4'
    } else if d == 5 {
        '5'
    } else if d == 6 {
        '6'
    } else if d == 7 {
        '7'
    } else if d == 8 {
        '8'
    } else {
        '9'
    }
}

/// Decimal digits of a non-negative integer, most significant first.
pub open spec fn dec_str(n: int) -> Seq<char>
    decreases n,
{
    if n < 10 {
        seq![digit_char(n)]
    } else {
        dec_str(n / 10).push(digit_char(n % 10))
    }
}

/// `n / d` rounded to the nearest integer, ties to even.
pub open spec fn round_half_even(n: int, d: int) -> int {
    let q = n / d;
    let r = n % d;
    if 2 * r > d {
        q + 1
    } else if 2 * r < d {
        q
    } else if q % 2 == 1 {
        q + 1
    } else {
        q
    }
}

/// A count of tenths rendered as `whole.tenth`.
pub open spec fn tenths_str(t: int) -> Seq<char> {
    dec_str(t / 10) + "."@ + seq![digit_char(t % 10)]
}

/// The report form of a byte count.
pub open spec fn fmt_size_spec(b: int) -> Seq<char> {
    if b < 1024 {
        dec_str(b) + " B"@
    } else if b < 1048576 {
        tenths_str(round_half_even(b * 10, 1024)) + " KB"@
    } else {
        tenths_str(round_half_even(b * 10, 1048576)) + " MB"@
    }
}

fn digit_str(d: u64) -> (r: &'static str)
    requires
        d < 10,
    ensures
        r@ =~= seq![digit_char(d as int)],
{
    proof {
        reveal_strlit("0");
        reveal_strlit("1");
        reveal_strlit("2");
        reveal_strlit("3");
        reveal_strlit("4");
        reveal_strlit("5");
        reveal_strlit("6");
        reveal_strlit("7");
        reveal_strlit("8");
        reveal_strlit("9");
    }
    match d {
        0 => "0",
        1 => "1",
        2 => "2",
        3 => "3",
        4 => "4",
        5 => "5",
        6 => "6",
        7 => "7",
        8 => "8",
        _ => "9",
    }
}

/// Decimal rendering of an unsigned integer.
pub fn u64_to_string(n: u64) -> (r: String)
    ensures
        r@ == dec_str(n as int),
    decreases n,
{
    if n < 10 {
        String::from_str(digit_str(n))
    } else {
        proof {
            assert(n / 10 < n) by (nonlinear_arith)
                requires
                    n >= 10,
            ;
        }
        let s = u64_to_string(n / 10).concat(digit_str(n % 10));
        proof {
            assert(s@ =~= dec_str(n as int / 10).push(digit_char(n as int % 10)));
        }
        s
    }
}

/// `n / d` rounded to the nearest integer, ties to even.
fn round_half_even_u128(n: u128, d: u128) -> (q: u128)
    requires
        2 <= d,
    ensures
        q as int == round_half_even(n as int, d as int),
{
    let q0 = n / d;
    let r = n % d;
    proof {
        assert(q0 <= n / 2) by (nonlinear_arith)
            requires
                d >= 2 && q0 == n / d,
        ;
    }
    if r > d - r {
        q0 + 1
    } else if r < d - r {
        q0
    } else if q0 % 2 == 1 {
        q0 + 1
    } else {
        q0
    }
}

fn tenths_to_string(t: u64) -> (r: String)
    ensures
        r@ == tenths_str(t as int),
{
    let s = u64_to_string(t / 10).concat(".").concat(digit_str(t % 10));
    proof {
        assert(s@ =~= tenths_str(t as int));
    }
    s
}

/// Renders a byte count for display, e.g. `512 B`, `1.5 KB`, `2.0 MB`.
pub fn fmt_size(bytes: u64) -> (r: String)
    ensures
        r@ == fmt_size_spec(bytes as int),
{
    if bytes < 1024 {
        let s = u64_to_string(bytes).concat(" B");
        proof {
            assert(s@ =~= fmt_size_spec(bytes as int));
        }
        s
    } else if bytes < 1048576 {
        let t = round_half_even_u128((bytes as u128) * 10, 1024);
        let s = tenths_to_string(t as u64).concat(" KB");
        proof {
            assert(s@ =~= fmt_size_spec(bytes as int));
        }
        s
    } else {
        let t = round_half_even_u128((bytes as u128) * 10, 1048576);
        proof {
            assert(t <= (bytes as u128) * 10 / 1048576 + 1) by (nonlinear_arith)
                requires
                    t as int == round_half_even(bytes as int * 10, 1048576),
            ;
        }
        let s = tenths_to_string(t as u64).concat(" MB");
        proof {
            assert(s@ =~= fmt_size_spec(bytes as int));
        }
        s
    }
}

} // verus!
