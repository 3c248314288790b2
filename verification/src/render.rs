//! Decimal renderings a run reports with: the elapsed duration as
//! `HH:MM:SS`, and the date-stamped name of the run folder as `YYYYMMDD`.
//!
//! Every field is zero-padded on the left to its width; a value too wide for
//! its field keeps all its digits.

use vstd::prelude::*;

verus! {

/// The decimal digit character for a value below ten.
pub open spec fn digit_char(d: nat) -> char {
    if d == 0 {
        '0'
    } else if d == 1 {
        '1'
    } else if d == 2 {
        '2'
    } else if d == 3 {
        '3'
    } else if d == 4 {
        '4'
    } else if d == 5 {
        '5'
    } else if d == 6 {
        '6'
    } else if d == 7 {
        '7'
    } else if d == 8 {
        '8'
    } else {
        '9'
    }
}

/// The decimal digits of `n`, most significant first, with no leading zero
/// except for `n == 0` itself.
pub open spec fn dec_digits(n: nat) -> Seq<char>
    decreases n,
{
    if n < 10 {
        seq![digit_char(n)]
    } else {
        dec_digits(n / 10).push(digit_char(n % 10))
    }
}

/// The decimal digits of `n`, zero-padded on the left to at least two digits.
pub open spec fn padded2(n: nat) -> Seq<char> {
    if n < 10 {
        seq!['0'] + dec_digits(n)
    } else {
        dec_digits(n)
    }
}

/// The `HH:MM:SS` rendering of a whole number of elapsed seconds.
pub open spec fn duration_display(total_seconds: nat) -> Seq<char> {
    padded2(total_seconds / 3600) + seq![':'] + padded2((total_seconds / 60) % 60) + seq![':']
        + padded2(total_seconds % 60)
}

/// Appends the digit character of a value below ten.
fn append_digit(out: &mut String, d: u64)
    requires
        d < 10,
    ensures
        final(out)@ == old(out)@ + seq![digit_char(d as nat)],
{
    proof {
        reveal_strlit("0");
        reveal_strlit("1");
        reveal_strlit("2");
        reveal_strlit("3");
        reveal_strlit("4");
        reveal_strlit("5");
        reveal_strlit("6");
        reveal_strlit("7");
        reveal_strlit("8");
        reveal_strlit("9");
    }
    if d == 0 {
        out.append("0");
        proof {
            assert(out@ =~= old(out)@ + seq![digit_char(d as nat)]);
        }
    } else if d == 1 {
        out.append("1");
        proof {
            assert(out@ =~= old(out)@ + seq![digit_char(d as nat)]);
        }
    } else if d == 2 {
        out.append("2");
        proof {
            assert(out@ =~= old(out)@ + seq![digit_char(d as nat)]);
        }
    } else if d == 3 {
        out.append("3");
        proof {
            assert(out@ =~= old(out)@ + seq![digit_char(d as nat)]);
        }
    } else if d == 4 {
        out.append("4");
        proof {
            assert(out@ =~= old(out)@ + seq![digit_char(d as nat)]);
        }
    } else if d == 5 {
        out.append("5");
        proof {
            assert(out@ =~= old(out)@ + seq![digit_char(d as nat)]);
        }
    } else if d == 6 {
        out.append("6");
        proof {
            assert(out@ =~= old(out)@ + seq![digit_char(d as nat)]);
        }
    } else if d == 7 {
        out.append("7");
        proof {
            assert(out@ =~= old(out)@ + seq![digit_char(d as nat)]);
        }
    } else if d == 8 {
        out.append("8");
        proof {
            assert(out@ =~= old(out)@ + seq![digit_char(d as nat)]);
        }
    } else {
        out.append("9");
        proof {
            assert(out@ =~= old(out)@ + seq![digit_char(d as nat)]);
        }
    }
}

/// Appends the decimal digits of `n`, most significant first.
fn append_decimal(out: &mut String, n: u64)
    ensures
        final(out)@ == old(out)@ + dec_digits(n as nat),
    decreases n,
{
    if n < 10 {
        append_digit(out, n);
    } else {
        append_decimal(out, n / 10);
        append_digit(out, n % 10);
        proof {
            assert(out@ =~= old(out)@ + dec_digits(n as nat));
        }
    }
}

/// Appends the decimal digits of `n`, zero-padded to at least two digits.
fn append_padded2(out: &mut String, n: u64)
    ensures
        final(out)@ == old(out)@ + padded2(n as nat),
{
    if n < 10 {
        append_digit(out, 0);
        append_digit(out, n);
        proof {
            assert(out@ =~= old(out)@ + padded2(n as nat));
        }
    } else {
        append_decimal(out, n);
    }
}

/// Renders an elapsed whole number of seconds as `HH:MM:SS`, each field
/// zero-padded to at least two digits.
pub fn render_duration_readable(total_seconds: u64) -> (r: String)
    ensures
        r@ == duration_display(total_seconds as nat),
{
    proof {
        reveal_strlit(":");
    }
    let hours = total_seconds / 3600;
    let minutes = (total_seconds / 60) % 60;
    let seconds = total_seconds % 60;
    let mut out = String::new();
    append_padded2(&mut out, hours);
    out.append(":");
    append_padded2(&mut out, minutes);
    out.append(":");
    append_padded2(&mut out, seconds);
    proof {
        assert(out@ =~= duration_display(total_seconds as nat));
    }
    out
}

/// The decimal digits of `n`, zero-padded on the left to at least four
/// digits.
pub open spec fn padded4(n: nat) -> Seq<char> {
    if n < 10 {
        seq!['0', '0', '0'] + dec_digits(n)
    } else if n < 100 {
        seq!['0', '0'] + dec_digits(n)
    } else if n < 1000 {
        seq!['0'] + dec_digits(n)
    } else {
        dec_digits(n)
    }
}

/// Appends the decimal digits of `n`, zero-padded to at least four digits.
fn append_padded4(out: &mut String, n: u64)
    ensures
        final(out)@ == old(out)@ + padded4(n as nat),
{
    if n < 10 {
        append_digit(out, 0);
        append_digit(out, 0);
        append_digit(out, 0);
        append_digit(out, n);
    } else if n < 100 {
        append_digit(out, 0);
        append_digit(out, 0);
        append_decimal(out, n);
    } else if n < 1000 {
        append_digit(out, 0);
        append_decimal(out, n);
    } else {
        append_decimal(out, n);
    }
    proof {
        assert(out@ =~= old(out)@ + padded4(n as nat));
    }
}

/// The date-stamped identifier of a run folder: the year to four digits,
/// then month and day to two digits each.
pub open spec fn run_folder_stamp(year: nat, month: nat, day: nat) -> Seq<char> {
    padded4(year) + padded2(month) + padded2(day)
}

/// Renders the name of the run folder created at run start from the calendar
/// date of that start.
pub fn run_folder_name(year: u64, month: u64, day: u64) -> (r: String)
    ensures
        r@ == run_folder_stamp(year as nat, month as nat, day as nat),
{
    let mut out = String::new();
    append_padded4(&mut out, year);
    append_padded2(&mut out, month);
    append_padded2(&mut out, day);
    proof {
        assert(out@ =~= run_folder_stamp(year as nat, month as nat, day as nat));
    }
    out
}

} // verus!
