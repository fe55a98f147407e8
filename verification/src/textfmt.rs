//! Verified text formatting for the reporting output: decimal rendering of
//! counters, fixed-point rate strings with magnitude-scaled unit suffixes,
//! and column padding.
//!
//! Rates arrive as integers in hundredths of a unit (centi-pps, centi-B/s),
//! so "two decimal places" is exact integer arithmetic throughout.

use vstd::prelude::*;
use vstd::string::StrSliceExecFns;
use vstd::string::StringExecFns;

verus! {

/// The character for one decimal digit.
pub open spec fn digit_char(d: nat) -> char {
    if d == 0 {
        '0'
    } else if d == 1 {
        '1'
    } else if d == 2 {
        '2'
    } else if d == 3 {
        '3'
    } else if d == 4 {
        '4'
    } else if d == 5 {
        '5'
    } else if d == 6 {
        '6'
    } else if d == 7 {
        '7'
    } else if d == 8 {
        '8'
    } else {
        '9'
    }
}

/// The decimal representation of `n`, most significant digit first, with no
/// leading zeros (a single `0` for zero itself).
pub open spec fn dec_rep(n: nat) -> Seq<char>
    decreases n,
{
    if n < 10 {
        seq![digit_char(n)]
    } else {
        dec_rep(n / 10).push(digit_char(n % 10))
    }
}

/// Two digits, zero-padded, for a fraction `f < 100` of hundredths.
pub open spec fn frac2_rep(f: nat) -> Seq<char> {
    seq![digit_char(f / 10), digit_char(f % 10)]
}

/// `c` hundredths rendered as `<whole>.<two-digit fraction>`.
pub open spec fn centi_rep(c: nat) -> Seq<char> {
    dec_rep(c / 100) + seq!['.'] + frac2_rep(c % 100)
}

/// A packet rate in centi-pps with its unit suffix: `pps` below one
/// thousand pps, `Kpps` from one thousand, `Mpps` from one million, the
/// scaled value kept to two decimal places.
pub open spec fn pps_rep(centi: nat) -> Seq<char> {
    if centi >= 100_000_000 {
        centi_rep(centi / 1_000_000) + "Mpps"@
    } else if centi >= 100_000 {
        centi_rep(centi / 1_000) + "Kpps"@
    } else {
        centi_rep(centi) + "pps"@
    }
}

/// A byte rate in centi-B/s with its unit suffix: `B/s` below one thousand
/// B/s, `KB/s` from one thousand, `MB/s` from one million, `GB/s` from one
/// billion, the scaled value kept to two decimal places.
pub open spec fn bps_rep(centi: nat) -> Seq<char> {
    if centi >= 100_000_000_000 {
        centi_rep(centi / 1_000_000_000) + "GB/s"@
    } else if centi >= 100_000_000 {
        centi_rep(centi / 1_000_000) + "MB/s"@
    } else if centi >= 100_000 {
        centi_rep(centi / 1_000) + "KB/s"@
    } else {
        centi_rep(centi) + "B/s"@
    }
}

/// `s` padded on the right with spaces to `width` characters; a string
/// already that long is unchanged.
pub open spec fn pad_rep(s: Seq<char>, width: nat) -> Seq<char> {
    if s.len() >= width {
        s
    } else {
        s + Seq::new((width - s.len()) as nat, |i: int| ' ')
    }
}

/// A horizontal rule of `n` dashes.
pub open spec fn dashes(n: nat) -> Seq<char> {
    Seq::new(n, |i: int| '-')
}

/// The one-character string for a decimal digit.
fn digit_str(d: u8) -> (r: &'static str)
    requires
        d < 10,
    ensures
        r@ == seq![digit_char(d as nat)],
{
    let r: &'static str = if d == 0 {
        "0"
    } else if d == 1 {
        "1"
    } else if d == 2 {
        "2"
    } else if d == 3 {
        "3"
    } else if d == 4 {
        "4"
    } else if d == 5 {
        "5"
    } else if d == 6 {
        "6"
    } else if d == 7 {
        "7"
    } else if d == 8 {
        "8"
    } else {
        "9"
    };
    proof {
        reveal_strlit("0");
        reveal_strlit("1");
        reveal_strlit("2");
        reveal_strlit("3");
        reveal_strlit("4");
        reveal_strlit("5");
        reveal_strlit("6");
        reveal_strlit("7");
        reveal_strlit("8");
        reveal_strlit("9");
        assert(r@ =~= seq![digit_char(d as nat)]);
    }
    r
}

/// Renders `n` in decimal.
pub fn u128_to_string(n: u128) -> (s: String)
    ensures
        s@ == dec_rep(n as nat),
    decreases n,
{
    if n < 10 {
        let s = String::from_str(digit_str(n as u8));
        proof {
            assert(s@ =~= dec_rep(n as nat));
        }
        s
    } else {
        proof {
            assert(n / 10 < n) by (nonlinear_arith)
                requires
                    n >= 10,
            ;
        }
        let mut s = u128_to_string(n / 10);
        s.append(digit_str((n % 10) as u8));
        proof {
            assert(s@ =~= dec_rep(n as nat));
        }
        s
    }
}

/// Renders `c` hundredths as `<whole>.<two-digit fraction>`.
pub fn format_centi(c: u128) -> (s: String)
    ensures
        s@ == centi_rep(c as nat),
{
    let mut s = u128_to_string(c / 100);
    s.append(".");
    let f: u128 = c % 100;
    s.append(digit_str((f / 10) as u8));
    s.append(digit_str((f % 10) as u8));
    proof {
        reveal_strlit(".");
        assert(s@ =~= centi_rep(c as nat));
    }
    s
}

/// Renders a packet rate given in centi-pps with its unit suffix.
pub fn format_pps(centi: u128) -> (s: String)
    ensures
        s@ == pps_rep(centi as nat),
{
    if centi >= 100_000_000 {
        let mut s = format_centi(centi / 1_000_000);
        s.append("Mpps");
        s
    } else if centi >= 100_000 {
        let mut s = format_centi(centi / 1_000);
        s.append("Kpps");
        s
    } else {
        let mut s = format_centi(centi);
        s.append("pps");
        s
    }
}

/// Renders a byte rate given in centi-B/s with its unit suffix.
pub fn format_bps(centi: u128) -> (s: String)
    ensures
        s@ == bps_rep(centi as nat),
{
    if centi >= 100_000_000_000 {
        let mut s = format_centi(centi / 1_000_000_000);
        s.append("GB/s");
        s
    } else if centi >= 100_000_000 {
        let mut s = format_centi(centi / 1_000_000);
        s.append("MB/s");
        s
    } else if centi >= 100_000 {
        let mut s = format_centi(centi / 1_000);
        s.append("KB/s");
        s
    } else {
        let mut s = format_centi(centi);
        s.append("B/s");
        s
    }
}

/// Renders `n` in decimal.
pub fn u64_to_string(n: u64) -> (s: String)
    ensures
        s@ == dec_rep(n as nat),
{
    u128_to_string(n as u128)
}

/// Pads `s` on the right with spaces to `width` characters.
pub fn pad_right(s: &str, width: usize) -> (r: String)
    ensures
        r@ == pad_rep(s@, width as nat),
{
    let n = s.unicode_len();
    let mut r = s.to_owned();
    if n >= width {
        return r;
    }
    let mut i: usize = n;
    proof {
        assert(r@ =~= s@ + Seq::new((i - n) as nat, |j: int| ' '));
    }
    while i < width
        invariant
            n == s@.len(),
            n <= i <= width,
            r@ == s@ + Seq::new((i - n) as nat, |j: int| ' '),
        decreases width - i,
    {
        r.append(" ");
        i = i + 1;
        proof {
            reveal_strlit(" ");
            assert(r@ =~= s@ + Seq::new((i - n) as nat, |j: int| ' '));
        }
    }
    proof {
        assert(r@ =~= pad_rep(s@, width as nat));
    }
    r
}

/// Builds a horizontal rule of `n` dashes.
pub fn dash_line(n: usize) -> (r: String)
    ensures
        r@ == dashes(n as nat),
{
    let mut r = String::new();
    let mut i: usize = 0;
    proof {
        assert(r@ =~= dashes(i as nat));
    }
    while i < n
        invariant
            i <= n,
            r@ == dashes(i as nat),
        decreases n - i,
    {
        r.append("-");
        i = i + 1;
        proof {
            reveal_strlit("-");
            assert(r@ =~= dashes(i as nat));
        }
    }
    r
}

} // verus!
