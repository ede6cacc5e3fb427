//! Fixed-point numbers and their canonical decimal text.
use vstd::prelude::*;
use vstd::string::StrSliceExecFns;
use vstd::string::StringExecFns;

verus! {

/// Number of fixed-point steps in one unit: values count millionths.
pub const SCALE: i64 = 1_000_000;

/// Number of decimal places held by a fixed-point value.
pub const SCALE_DIGITS: u64 = 6;

/// The character of the decimal digit `d`.
pub open spec fn digit_char(d: int) -> char {
    seq!['0', '1', '2', '3', '4', '5', '6', '7', '8', '9'][d]
}

/// The decimal digits of `n`, most significant first, without leading zeros.
pub open spec fn nat_digits(n: nat) -> Seq<char>
    decreases n,
{
    if n < 10 {
        seq![digit_char(n as int)]
    } else {
        nat_digits(n / 10).push(digit_char((n % 10) as int))
    }
}

/// The last `width` decimal digits of `n`, padded with leading zeros.
pub open spec fn padded_digits(n: nat, width: nat) -> Seq<char>
    decreases width,
{
    if width == 0 {
        Seq::empty()
    } else {
        padded_digits(n / 10, (width - 1) as nat).push(digit_char((n % 10) as int))
    }
}

/// The fraction `f` (of `width` decimal places) written without trailing zeros.
pub open spec fn fraction_digits(f: nat, width: nat) -> Seq<char>
    decreases width,
{
    if f == 0 || width == 0 {
        Seq::empty()
    } else if f % 10 == 0 {
        fraction_digits(f / 10, (width - 1) as nat)
    } else {
        padded_digits(f, width)
    }
}

/// Canonical decimal text of a non-negative fixed-point magnitude: the whole
/// part, then a point and the fraction only when the fraction is not zero.
pub open spec fn magnitude_text(m: nat) -> Seq<char> {
    let frac = fraction_digits(m % (SCALE as nat), SCALE_DIGITS as nat);
    if frac.len() == 0 {
        nat_digits(m / (SCALE as nat))
    } else {
        nat_digits(m / (SCALE as nat)).push('.') + frac
    }
}

/// Canonical decimal text of the fixed-point value `v` (`2500000` reads
/// `2.5`, `80000000` reads `80`, `-500000` reads `-0.5`).
pub open spec fn decimal_text(v: int) -> Seq<char> {
    if v < 0 {
        seq!['-'] + magnitude_text((-v) as nat)
    } else {
        magnitude_text(v as nat)
    }
}

fn digit_str(d: u64) -> (r: &'static str)
    requires
        d < 10,
    ensures
        r@ == seq![digit_char(d as int)],
{
    proof {
        reveal_strlit("0");
        reveal_strlit("1");
        reveal_strlit("2");
        reveal_strlit("3");
        reveal_strlit("4");
        reveal_strlit("5");
        reveal_strlit("6");
        reveal_strlit("7");
        reveal_strlit("8");
        reveal_strlit("9");
    }
    let r = match d {
        0 => "0",
        1 => "1",
        2 => "2",
        3 => "3",
        4 => "4",
        5 => "5",
        6 => "6",
        7 => "7",
        8 => "8",
        _ => "9",
    };
    assert(r@ =~= seq![digit_char(d as int)]);
    r
}

fn push_nat_digits(out: &mut String, n: u64)
    ensures
        final(out)@ == old(out)@ + nat_digits(n as nat),
    decreases n,
{
    if n >= 10 {
        push_nat_digits(out, n / 10);
    }
    out.append(digit_str(n % 10));
    assert(final(out)@ =~= old(out)@ + nat_digits(n as nat));
}

fn push_padded_digits(out: &mut String, n: u64, width: u64)
    ensures
        final(out)@ == old(out)@ + padded_digits(n as nat, width as nat),
    decreases width,
{
    if width > 0 {
        push_padded_digits(out, n / 10, width - 1);
        out.append(digit_str(n % 10));
    }
    assert(final(out)@ =~= old(out)@ + padded_digits(n as nat, width as nat));
}

fn push_fraction_digits(out: &mut String, f: u64, width: u64)
    ensures
        final(out)@ == old(out)@ + fraction_digits(f as nat, width as nat),
    decreases width,
{
    if f == 0 || width == 0 {
        assert(final(out)@ =~= old(out)@ + fraction_digits(f as nat, width as nat));
    } else if f % 10 == 0 {
        push_fraction_digits(out, f / 10, width - 1);
    } else {
        push_padded_digits(out, f, width);
    }
}

/// The canonical decimal text of the fixed-point value `v`.
pub fn decimal_string(v: i64) -> (r: String)
    ensures
        r@ == decimal_text(v as int),
{
    proof {
        reveal_strlit("-");
        reveal_strlit(".");
    }
    let mut out = String::new();
    let m: u64 = if v < 0 {
        out.append("-");
        (-(v as i128)) as u64
    } else {
        v as u64
    };
    let ghost before = out@;
    push_nat_digits(&mut out, m / (SCALE as u64));
    let ghost whole = out@;
    let mut frac = String::new();
    push_fraction_digits(&mut frac, m % (SCALE as u64), SCALE_DIGITS);
    if frac.unicode_len() > 0 {
        out.append(".");
        out.append(frac.as_str());
    }
    proof {
        assert(whole =~= before + nat_digits((m / (SCALE as u64)) as nat));
    }
    assert(out@ =~= decimal_text(v as int));
    out
}

} // verus!
