//! Verified decimal rendering of power readings.
//!
//! Power values are carried as signed integers counting thousandths of the
//! monitoring API's unit, and are rendered as decimal numerals with exactly
//! three fractional digits, e.g. `-2.000` or `3.170`.

use crate::text::push_char;
use vstd::prelude::*;

verus! {

/// The decimal digit character for `d` in `0..=9`.
pub open spec fn dec_digit(d: int) -> char {
    if d == 0 {
        '0'
    } else if d == 1 {
        '1'
    } else if d == 2 {
        '2'
    } else if d == 3 {
        '3'
    } else if d == 4 {
        '4'
    } else if d == 5 {
        '5'
    } else if d == 6 {
        '6'
    } else if d == 7 {
        '7'
    } else if d == 8 {
        '8'
    } else {
        '9'
    }
}

/// The decimal numeral of a nonnegative `n`, most significant digit first,
/// with no leading zeros (a single `0` for zero).
pub open spec fn dec_str(n: int) -> Seq<char>
    decreases n,
{
    if n < 10 {
        seq![dec_digit(n)]
    } else {
        dec_str(n / 10) + seq![dec_digit(n % 10)]
    }
}

/// A fractional part `f` in `0..=999`, zero-padded to exactly three digits.
pub open spec fn pad3(f: int) -> Seq<char> {
    if f < 10 {
        seq!['0', '0'] + dec_str(f)
    } else if f < 100 {
        seq!['0'] + dec_str(f)
    } else {
        dec_str(f)
    }
}

/// The numeral of a nonnegative count of thousandths: integer part, a dot,
/// then exactly three fractional digits.
pub open spec fn milli_digits(n: int) -> Seq<char> {
    dec_str(n / 1000) + seq!['.'] + pad3(n % 1000)
}

/// The numeral of a signed count of thousandths, with a leading minus sign
/// when negative.
pub open spec fn milli_str(v: int) -> Seq<char> {
    if v < 0 {
        seq!['-'] + milli_digits(-v)
    } else {
        milli_digits(v)
    }
}

fn dec_digit_char(d: u64) -> (c: char)
    requires
        d < 10,
    ensures
        c == dec_digit(d as int),
{
    match d {
        0 => '0',
        1 => '1',
        2 => '2',
        3 => '3',
        4 => '4',
        5 => '5',
        6 => '6',
        7 => '7',
        8 => '8',
        _ => '9',
    }
}

fn push_dec(out: &mut String, n: u64)
    ensures
        final(out)@ == old(out)@ + dec_str(n as int),
    decreases n,
{
    if n < 10 {
        push_char(out, dec_digit_char(n));
        proof {
            assert(out@ =~= old(out)@ + dec_str(n as int));
        }
    } else {
        push_dec(out, n / 10);
        let ghost mid = out@;
        push_char(out, dec_digit_char(n % 10));
        proof {
            assert(out@ =~= mid + seq![dec_digit(n as int % 10)]);
            assert(out@ =~= old(out)@ + (dec_str(n as int / 10) + seq![dec_digit(n as int % 10)]));
        }
    }
}

/// Renders a signed count of thousandths as its decimal numeral with three
/// fractional digits.
pub fn milli_to_string(v: i64) -> (r: String)
    requires
        v > i64::MIN,
    ensures
        r@ == milli_str(v as int),
{
    let mut out = String::new();
    let n: u64;
    if v < 0 {
        push_char(&mut out, '-');
        n = (-v) as u64;
        proof {
            assert(out@ =~= seq!['-']);
        }
    } else {
        n = v as u64;
    }
    let ghost sign = out@;
    push_dec(&mut out, n / 1000);
    let ghost with_int = out@;
    push_char(&mut out, '.');
    proof {
        assert(out@ =~= sign + (dec_str(n as int / 1000) + seq!['.']));
    }
    let ghost with_dot = out@;
    let f: u64 = n % 1000;
    if f < 10 {
        push_char(&mut out, '0');
        push_char(&mut out, '0');
        proof {
            assert(out@ =~= with_dot + seq!['0', '0']);
        }
    } else if f < 100 {
        push_char(&mut out, '0');
        proof {
            assert(out@ =~= with_dot + seq!['0']);
        }
    }
    let ghost padded = out@;
    push_dec(&mut out, f);
    proof {
        assert(out@ =~= padded + dec_str(f as int));
        assert(pad3(n as int % 1000) =~= (if f < 10 {
            seq!['0', '0'] + dec_str(f as int)
        } else if f < 100 {
            seq!['0'] + dec_str(f as int)
        } else {
            dec_str(f as int)
        }));
        assert(out@ =~= sign + milli_digits(n as int));
        if v < 0 {
            assert(out@ =~= milli_str(v as int));
        } else {
            assert(sign =~= Seq::<char>::empty());
            assert(out@ =~= milli_str(v as int));
        }
    }
    out
}

} // verus!
