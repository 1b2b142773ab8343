//! Human-readable byte-size formatting.
//!
//! `format_bytes` renders a byte count at the largest binary unit it
//! reaches, with two fixed decimal places above byte scale, rounding to
//! the nearest hundredth with exact halves to even. The whole rendering —
//! decimal digits, rounding, carry into the next whole unit — is integer
//! arithmetic with an exact character-level specification.

use vstd::prelude::*;
use vstd::arithmetic::div_mod::{
    lemma_div_is_ordered,
    lemma_fundamental_div_mod,
    lemma_fundamental_div_mod_converse,
};
use vstd::string::StringExecFns;

verus! {

pub const KB: u64 = 1024;

pub const MB: u64 = 1024 * 1024;

pub const GB: u64 = 1024 * 1024 * 1024;

/// The decimal digit character for `d` (meaningful for `0 <= d <= 9`).
pub open spec fn digit_char(d: int) -> char {
    if d == 0 {
        '0'
    } else if d == 1 {
        '1'
    } else if d == 2 {
        '2'
    } else if d == 3 {
        '3'
    } else if d == 4 {
        '4'
    } else if d == 5 {
        '5'
    } else if d == 6 {
        '6'
    } else if d == 7 {
        '7'
    } else if d == 8 {
        '8'
    } else {
        '9'
    }
}

/// The decimal rendering of `n`, most significant digit first, without
/// leading zeros (`0` itself renders as "0").
pub open spec fn dec_str(n: nat) -> Seq<char>
    decreases n,
{
    if n < 10 {
        seq![digit_char(n as int)]
    } else {
        dec_str(n / 10).push(digit_char((n % 10) as int))
    }
}

/// `n / unit` in hundredths, rounded to the nearest hundredth with exact
/// halves rounded to the even hundredth — the rule the standard float
/// formatter applies to an exactly representable value; `100` means the
/// fraction carried into one more whole unit.
pub open spec fn raw_hundredths(n: nat, unit: nat) -> int {
    let q = ((n % unit) * 100 / unit) as int;
    let r = ((n % unit) * 100 % unit) as int;
    let half = (unit / 2) as int;
    if r > half {
        q + 1
    } else if r < half {
        q
    } else if q % 2 == 0 {
        q
    } else {
        q + 1
    }
}

/// Whole units shown for `n`, including a carry from rounding.
pub open spec fn scaled_whole(n: nat, unit: nat) -> int {
    if raw_hundredths(n, unit) == 100 {
        (n / unit) as int + 1
    } else {
        (n / unit) as int
    }
}

/// Hundredths shown for `n` after the carry.
pub open spec fn scaled_frac(n: nat, unit: nat) -> int {
    if raw_hundredths(n, unit) == 100 {
        0
    } else {
        raw_hundredths(n, unit)
    }
}

/// Two-digit rendering of a value below 100, zero-padded.
pub open spec fn pad2(h: int) -> Seq<char> {
    if h < 10 {
        seq!['0', digit_char(h)]
    } else {
        dec_str(h as nat)
    }
}

/// `n` at `unit` scale with two decimal places: "W.HH".
pub open spec fn scaled_str(n: nat, unit: nat) -> Seq<char> {
    dec_str(scaled_whole(n, unit) as nat) + seq!['.'] + pad2(scaled_frac(n, unit))
}

/// The full rendering of a byte count: the largest binary unit reached,
/// two decimal places above byte scale, a plain count at byte scale.
pub open spec fn format_bytes_spec(n: nat) -> Seq<char> {
    if n >= GB {
        scaled_str(n, GB as nat) + seq![' ', 'G', 'B']
    } else if n >= MB {
        scaled_str(n, MB as nat) + seq![' ', 'M', 'B']
    } else if n >= KB {
        scaled_str(n, KB as nat) + seq![' ', 'K', 'B']
    } else {
        dec_str(n) + seq![' ', 'B']
    }
}

/// The one-character string of decimal digit `d`.
fn digit_str(d: u64) -> (s: &'static str)
    requires
        d < 10,
    ensures
        s@ =~= seq![digit_char(d as int)],
{
    proof {
        reveal_strlit("0");
        reveal_strlit("1");
        reveal_strlit("2");
        reveal_strlit("3");
        reveal_strlit("4");
        reveal_strlit("5");
        reveal_strlit("6");
        reveal_strlit("7");
        reveal_strlit("8");
        reveal_strlit("9");
    }
    if d == 0 {
        "0"
    } else if d == 1 {
        "1"
    } else if d == 2 {
        "2"
    } else if d == 3 {
        "3"
    } else if d == 4 {
        "4"
    } else if d == 5 {
        "5"
    } else if d == 6 {
        "6"
    } else if d == 7 {
        "7"
    } else if d == 8 {
        "8"
    } else {
        "9"
    }
}

/// Render `n` in decimal.
pub fn u64_to_string(n: u64) -> (s: String)
    ensures
        s@ =~= dec_str(n as nat),
    decreases n,
{
    if n < 10 {
        let s = digit_str(n).to_owned();
        s
    } else {
        let mut s = u64_to_string(n / 10);
        s.append(digit_str(n % 10));
        proof {
            assert(s@ =~= dec_str((n / 10) as nat).push(digit_char((n % 10) as int)));
        }
        s
    }
}

/// Render `h < 100` as exactly two digits, zero-padded.
fn two_digit_string(h: u64) -> (s: String)
    requires
        h < 100,
    ensures
        s@ =~= pad2(h as int),
{
    if h < 10 {
        proof {
            reveal_strlit("0");
        }
        let mut s: String = "0".to_owned();
        s.append(digit_str(h));
        s
    } else {
        u64_to_string(h)
    }
}

/// Render `n` at `unit` scale as "W.HH", rounding to the nearest
/// hundredth of a unit (halves to even) with carry into the whole part.
fn scaled_string(n: u64, unit: u64) -> (s: String)
    requires
        unit == KB || unit == MB || unit == GB,
    ensures
        s@ =~= scaled_str(n as nat, unit as nat),
{
    let rem = n % unit;
    proof {
        assert(rem < unit);
        assert(rem * 100 <= 100 * (unit as int) - 1);
    }
    let numer = rem * 100;
    let q = numer / unit;
    let r = numer % unit;
    let half = unit / 2;
    proof {
        lemma_fundamental_div_mod_converse(
            100 * (unit as int) - 1,
            unit as int,
            99,
            unit as int - 1,
        );
        lemma_div_is_ordered(numer as int, 100 * (unit as int) - 1, unit as int);
        assert(q <= 99);
    }
    let scaled = if r > half {
        q + 1
    } else if r < half {
        q
    } else if q % 2 == 0 {
        q
    } else {
        q + 1
    };
    proof {
        assert(scaled == raw_hundredths(n as nat, unit as nat));
        assert(scaled <= 100);
    }
    let whole = n / unit;
    proof {
        lemma_fundamental_div_mod(n as int, unit as int);
        assert((unit as int) * (whole as int) <= n as int);
        assert(whole < u64::MAX) by (nonlinear_arith)
            requires
                (unit as int) * (whole as int) <= n as int,
                n <= u64::MAX,
                unit >= 1024,
                whole >= 0,
        ;
    }
    let (w, frac) = if scaled == 100 {
        (whole + 1, 0u64)
    } else {
        (whole, scaled)
    };
    let mut s = u64_to_string(w);
    proof {
        reveal_strlit(".");
    }
    s.append(".");
    let f = two_digit_string(frac);
    s.append(f.as_str());
    proof {
        assert(s@ =~= scaled_str(n as nat, unit as nat));
    }
    s
}

/// Format a byte count for display.
///
/// At least a gibibyte renders as "X.XX GB", at least a mebibyte as
/// "X.XX MB", at least a kibibyte as "X.XX KB", and anything smaller as
/// "N B"; the two decimal places round to the nearest hundredth of the
/// unit, halves to the even hundredth.
pub fn format_bytes(n: u64) -> (s: String)
    ensures
        s@ =~= format_bytes_spec(n as nat),
{
    proof {
        reveal_strlit(" GB");
        reveal_strlit(" MB");
        reveal_strlit(" KB");
        reveal_strlit(" B");
    }
    if n >= GB {
        let mut s = scaled_string(n, GB);
        s.append(" GB");
        s
    } else if n >= MB {
        let mut s = scaled_string(n, MB);
        s.append(" MB");
        s
    } else if n >= KB {
        let mut s = scaled_string(n, KB);
        s.append(" KB");
        s
    } else {
        let mut s = u64_to_string(n);
        s.append(" B");
        s
    }
}

} // verus!

