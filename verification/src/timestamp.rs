//! Rendering clock readings: the storage timestamp `YYYY-MM-DD HH:MM:SS.mmm`
//! and the compact archive-name timestamp `YYYYMMDDHHMMSS`, as verified
//! zero-padded decimal formatting over plain date-time parts.

use vstd::prelude::*;
use vstd::string::StringExecFns;

verus! {

/// The decimal digit character for `d` (any argument renders as a digit;
/// only 0 through 9 are ever passed).
pub open spec fn digit_char_of(d: int) -> char {
    if d == 0 {
        '0'
    } else if d == 1 {
        '1'
    } else if d == 2 {
        '2'
    } else if d == 3 {
        '3'
    } else if d == 4 {
        '4'
    } else if d == 5 {
        '5'
    } else if d == 6 {
        '6'
    } else if d == 7 {
        '7'
    } else if d == 8 {
        '8'
    } else {
        '9'
    }
}

/// An ASCII decimal digit.
pub open spec fn is_digit_char(c: char) -> bool {
    ||| c == '0'
    ||| c == '1'
    ||| c == '2'
    ||| c == '3'
    ||| c == '4'
    ||| c == '5'
    ||| c == '6'
    ||| c == '7'
    ||| c == '8'
    ||| c == '9'
}

/// `n` zero-padded to two decimal digits.
pub open spec fn two_digits(n: int) -> Seq<char> {
    seq![digit_char_of(n / 10), digit_char_of(n % 10)]
}

/// `n` zero-padded to three decimal digits.
pub open spec fn three_digits(n: int) -> Seq<char> {
    seq![digit_char_of(n / 100), digit_char_of((n / 10) % 10), digit_char_of(n % 10)]
}

/// `n` zero-padded to four decimal digits.
pub open spec fn four_digits(n: int) -> Seq<char> {
    seq![
        digit_char_of(n / 1000),
        digit_char_of((n / 100) % 10),
        digit_char_of((n / 10) % 10),
        digit_char_of(n % 10),
    ]
}

/// Years outside the four-digit range render as the nearest representable
/// one; every clock this subsystem will ever read lies inside that range.
pub open spec fn clamp_year(year: int) -> int {
    if year < 1000 {
        1000
    } else if year > 9999 {
        9999
    } else {
        year
    }
}

/// Milliseconds above 999 (the leap-second encoding) render as 999.
pub open spec fn clamp_millis(millis: int) -> int {
    if millis > 999 {
        999
    } else {
        millis
    }
}

/// The compact archive-name timestamp: `YYYYMMDDHHMMSS`.
pub open spec fn compact_timestamp_of(
    year: int,
    month: int,
    day: int,
    hour: int,
    minute: int,
    second: int,
) -> Seq<char> {
    four_digits(clamp_year(year)) + two_digits(month) + two_digits(day) + two_digits(hour)
        + two_digits(minute) + two_digits(second)
}

/// The storage timestamp: `YYYY-MM-DD HH:MM:SS.mmm`.
pub open spec fn storage_timestamp_of(
    year: int,
    month: int,
    day: int,
    hour: int,
    minute: int,
    second: int,
    millis: int,
) -> Seq<char> {
    four_digits(clamp_year(year)) + seq!['-'] + two_digits(month) + seq!['-'] + two_digits(day)
        + seq![' '] + two_digits(hour) + seq![':'] + two_digits(minute) + seq![':'] + two_digits(
        second,
    ) + seq!['.'] + three_digits(clamp_millis(millis))
}

/// Fourteen ASCII digits: the shape of every compact timestamp.
pub open spec fn is_compact_timestamp(ts: Seq<char>) -> bool {
    ts.len() == 14 && (forall|i: int| 0 <= i < 14 ==> is_digit_char(ts[i]))
}

/// The rendering of some valid date-time in the storage format.
pub open spec fn is_storage_timestamp(ts: Seq<char>) -> bool {
    exists|year: int, month: int, day: int, hour: int, minute: int, second: int, millis: int|
        {
            &&& 1 <= month <= 12
            &&& 1 <= day <= 31
            &&& 0 <= hour <= 23
            &&& 0 <= minute <= 59
            &&& 0 <= second <= 59
            &&& 0 <= millis <= 999
            &&& ts == #[trigger] storage_timestamp_of(year, month, day, hour, minute, second, millis)
        }
}

/// The one-character text of the digit `d`.
fn digit_str(d: u32) -> (r: &'static str)
    requires
        d < 10,
    ensures
        r@ == seq![digit_char_of(d as int)],
{
    if d == 0 {
        proof {
            reveal_strlit("0");
            assert("0"@ =~= seq![digit_char_of(0)]);
        }
        "0"
    } else if d == 1 {
        proof {
            reveal_strlit("1");
            assert("1"@ =~= seq![digit_char_of(1)]);
        }
        "1"
    } else if d == 2 {
        proof {
            reveal_strlit("2");
            assert("2"@ =~= seq![digit_char_of(2)]);
        }
        "2"
    } else if d == 3 {
        proof {
            reveal_strlit("3");
            assert("3"@ =~= seq![digit_char_of(3)]);
        }
        "3"
    } else if d == 4 {
        proof {
            reveal_strlit("4");
            assert("4"@ =~= seq![digit_char_of(4)]);
        }
        "4"
    } else if d == 5 {
        proof {
            reveal_strlit("5");
            assert("5"@ =~= seq![digit_char_of(5)]);
        }
        "5"
    } else if d == 6 {
        proof {
            reveal_strlit("6");
            assert("6"@ =~= seq![digit_char_of(6)]);
        }
        "6"
    } else if d == 7 {
        proof {
            reveal_strlit("7");
            assert("7"@ =~= seq![digit_char_of(7)]);
        }
        "7"
    } else if d == 8 {
        proof {
            reveal_strlit("8");
            assert("8"@ =~= seq![digit_char_of(8)]);
        }
        "8"
    } else {
        proof {
            reveal_strlit("9");
            assert("9"@ =~= seq![digit_char_of(d as int)]);
        }
        "9"
    }
}

/// Appends `n` as two zero-padded decimal digits.
fn push_two_digits(out: &mut String, n: u32)
    requires
        n < 100,
    ensures
        final(out)@ == old(out)@ + two_digits(n as int),
{
    out.append(digit_str(n / 10));
    out.append(digit_str(n % 10));
    proof {
        assert(out@ =~= old(out)@ + two_digits(n as int));
    }
}

/// Appends `n` as three zero-padded decimal digits.
fn push_three_digits(out: &mut String, n: u32)
    requires
        n < 1000,
    ensures
        final(out)@ == old(out)@ + three_digits(n as int),
{
    out.append(digit_str(n / 100));
    out.append(digit_str((n / 10) % 10));
    out.append(digit_str(n % 10));
    proof {
        assert(out@ =~= old(out)@ + three_digits(n as int));
    }
}

/// Appends `n` as four zero-padded decimal digits.
fn push_four_digits(out: &mut String, n: u32)
    requires
        n < 10000,
    ensures
        final(out)@ == old(out)@ + four_digits(n as int),
{
    out.append(digit_str(n / 1000));
    out.append(digit_str((n / 100) % 10));
    out.append(digit_str((n / 10) % 10));
    out.append(digit_str(n % 10));
    proof {
        assert(out@ =~= old(out)@ + four_digits(n as int));
    }
}

/// Renders `YYYYMMDDHHMMSS`: always fourteen ASCII digits.
pub fn format_compact_timestamp(
    year: i32,
    month: u32,
    day: u32,
    hour: u32,
    minute: u32,
    second: u32,
) -> (r: String)
    requires
        1 <= month <= 12,
        1 <= day <= 31,
        hour <= 23,
        minute <= 59,
        second <= 59,
    ensures
        r@ == compact_timestamp_of(
            year as int,
            month as int,
            day as int,
            hour as int,
            minute as int,
            second as int,
        ),
        is_compact_timestamp(r@),
{
    let y: u32 = if year < 1000 {
        1000
    } else if year > 9999 {
        9999
    } else {
        year as u32
    };
    let mut out = String::new();
    push_four_digits(&mut out, y);
    push_two_digits(&mut out, month);
    push_two_digits(&mut out, day);
    push_two_digits(&mut out, hour);
    push_two_digits(&mut out, minute);
    push_two_digits(&mut out, second);
    proof {
        assert(out@ =~= compact_timestamp_of(
            year as int,
            month as int,
            day as int,
            hour as int,
            minute as int,
            second as int,
        ));
        assert(forall|d: int| is_digit_char(#[trigger] digit_char_of(d)));
        assert forall|i: int| 0 <= i < 14 implies is_digit_char(out@[i]) by {
            let a = four_digits(clamp_year(year as int));
            let b = two_digits(month as int);
            let c = two_digits(day as int);
            let d = two_digits(hour as int);
            let e = two_digits(minute as int);
            let f = two_digits(second as int);
            if i < 4 {
                assert(out@[i] == a[i]);
            } else if i < 6 {
                assert(out@[i] == b[i - 4]);
            } else if i < 8 {
                assert(out@[i] == c[i - 6]);
            } else if i < 10 {
                assert(out@[i] == d[i - 8]);
            } else if i < 12 {
                assert(out@[i] == e[i - 10]);
            } else {
                assert(out@[i] == f[i - 12]);
            }
        }
    }
    out
}

/// Renders `YYYY-MM-DD HH:MM:SS.mmm`.
pub fn format_storage_timestamp(
    year: i32,
    month: u32,
    day: u32,
    hour: u32,
    minute: u32,
    second: u32,
    millis: u32,
) -> (r: String)
    requires
        1 <= month <= 12,
        1 <= day <= 31,
        hour <= 23,
        minute <= 59,
        second <= 59,
        millis <= 1999,
    ensures
        r@ == storage_timestamp_of(
            year as int,
            month as int,
            day as int,
            hour as int,
            minute as int,
            second as int,
            millis as int,
        ),
        is_storage_timestamp(r@),
{
    let y: u32 = if year < 1000 {
        1000
    } else if year > 9999 {
        9999
    } else {
        year as u32
    };
    let ms: u32 = if millis > 999 {
        999
    } else {
        millis
    };
    let mut out = String::new();
    proof {
        reveal_strlit("-");
        reveal_strlit(" ");
        reveal_strlit(":");
        reveal_strlit(".");
    }
    push_four_digits(&mut out, y);
    out.append("-");
    push_two_digits(&mut out, month);
    out.append("-");
    push_two_digits(&mut out, day);
    out.append(" ");
    push_two_digits(&mut out, hour);
    out.append(":");
    push_two_digits(&mut out, minute);
    out.append(":");
    push_two_digits(&mut out, second);
    out.append(".");
    push_three_digits(&mut out, ms);
    proof {
        assert("-"@ =~= seq!['-']);
        assert(" "@ =~= seq![' ']);
        assert(":"@ =~= seq![':']);
        assert("."@ =~= seq!['.']);
        assert(out@ =~= storage_timestamp_of(
            year as int,
            month as int,
            day as int,
            hour as int,
            minute as int,
            second as int,
            millis as int,
        ));
        assert(out@ == storage_timestamp_of(
            clamp_year(year as int),
            month as int,
            day as int,
            hour as int,
            minute as int,
            second as int,
            clamp_millis(millis as int),
        ));
    }
    out
}

} // verus!
