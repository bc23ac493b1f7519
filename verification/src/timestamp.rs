//! Calendar timestamps and the timestamped filename scheme.
//!
//! A [`Timestamp`] carries a UTC clock reading as plain fields. From it the
//! library derives the filename `drawing_YYYYMMDD_HHMMSS.png`: a four-digit
//! year, two-digit month, day, hour, minute and second, all zero-padded,
//! with a single underscore between the date and the time.

use vstd::prelude::*;

verus! {

/// A UTC clock reading, split into calendar fields.
#[derive(Clone, Copy, PartialEq, Eq, Structural, Debug)]
pub struct Timestamp {
    pub year: u32,
    pub month: u32,
    pub day: u32,
    pub hour: u32,
    pub minute: u32,
    pub second: u32,
}

impl Timestamp {
    /// The fields form a representable calendar reading: the year has at
    /// most four digits and each remaining field is within its calendar
    /// range.
    pub open spec fn wf(self) -> bool {
        &&& self.year <= 9999
        &&& 1 <= self.month <= 12
        &&& 1 <= self.day <= 31
        &&& self.hour <= 23
        &&& self.minute <= 59
        &&& self.second <= 59
    }

    /// Builds a timestamp from raw clock fields, rejecting any reading the
    /// filename scheme cannot represent.
    pub fn from_fields(year: i32, month: u32, day: u32, hour: u32, minute: u32, second: u32) -> (r:
        Option<Timestamp>)
        ensures
            r is Some <==> (0 <= year <= 9999 && 1 <= month <= 12 && 1 <= day <= 31 && hour <= 23
                && minute <= 59 && second <= 59),
            r matches Some(t) ==> t.wf() && t.year == year && t.month == month && t.day == day
                && t.hour == hour && t.minute == minute && t.second == second,
    {
        if 0 <= year && year <= 9999 && 1 <= month && month <= 12 && 1 <= day && day <= 31
            && hour <= 23 && minute <= 59 && second <= 59 {
            Some(Timestamp { year: year as u32, month, day, hour, minute, second })
        } else {
            None
        }
    }
}

/// The decimal digit character for `d`.
pub open spec fn digit_char(d: int) -> char {
    if d == 0 {
        '0'
    } else if d == 1 {
        '1'
    } else if d == 2 {
        '2'
    } else if d == 3 {
        '3'
    } else if d == 4 {
        '4'
    } else if d == 5 {
        '5'
    } else if d == 6 {
        '6'
    } else if d == 7 {
        '7'
    } else if d == 8 {
        '8'
    } else {
        '9'
    }
}

/// `n` written with exactly two digits, zero-padded.
pub open spec fn two_digit_chars(n: int) -> Seq<char> {
    seq![digit_char(n / 10), digit_char(n % 10)]
}

/// `n` written with exactly four digits, zero-padded.
pub open spec fn four_digit_chars(n: int) -> Seq<char> {
    seq![
        digit_char(n / 1000),
        digit_char(n / 100 % 10),
        digit_char(n / 10 % 10),
        digit_char(n % 10),
    ]
}

/// The compact form `YYYYMMDD_HHMMSS` of a timestamp.
pub open spec fn timestamp_chars(t: Timestamp) -> Seq<char> {
    four_digit_chars(t.year as int) + two_digit_chars(t.month as int) + two_digit_chars(
        t.day as int,
    ) + seq!['_'] + two_digit_chars(t.hour as int) + two_digit_chars(t.minute as int)
        + two_digit_chars(t.second as int)
}

/// The filename `drawing_YYYYMMDD_HHMMSS.png` for a timestamp.
pub open spec fn filename_chars(t: Timestamp) -> Seq<char> {
    "drawing_"@ + timestamp_chars(t) + ".png"@
}

/// The decimal digit character for `d`, as a one-character string slice.
fn digit_str(d: u32) -> (r: &'static str)
    requires
        d < 10,
    ensures
        r@ =~= seq![digit_char(d as int)],
{
    match d {
        0 => {
            proof {
                reveal_strlit("0");
            }
            "0"
        },
        1 => {
            proof {
                reveal_strlit("1");
            }
            "1"
        },
        2 => {
            proof {
                reveal_strlit("2");
            }
            "2"
        },
        3 => {
            proof {
                reveal_strlit("3");
            }
            "3"
        },
        4 => {
            proof {
                reveal_strlit("4");
            }
            "4"
        },
        5 => {
            proof {
                reveal_strlit("5");
            }
            "5"
        },
        6 => {
            proof {
                reveal_strlit("6");
            }
            "6"
        },
        7 => {
            proof {
                reveal_strlit("7");
            }
            "7"
        },
        8 => {
            proof {
                reveal_strlit("8");
            }
            "8"
        },
        _ => {
            proof {
                reveal_strlit("9");
            }
            "9"
        },
    }
}

/// Appends `n` to `out` as exactly two zero-padded digits.
fn push_two_digits(out: &mut String, n: u32)
    requires
        n < 100,
    ensures
        final(out)@ == old(out)@ + two_digit_chars(n as int),
{
    out.append(digit_str(n / 10));
    out.append(digit_str(n % 10));
    proof {
        assert(final(out)@ =~= old(out)@ + two_digit_chars(n as int));
    }
}

/// Appends `n` to `out` as exactly four zero-padded digits.
fn push_four_digits(out: &mut String, n: u32)
    requires
        n < 10000,
    ensures
        final(out)@ == old(out)@ + four_digit_chars(n as int),
{
    out.append(digit_str(n / 1000));
    out.append(digit_str(n / 100 % 10));
    out.append(digit_str(n / 10 % 10));
    out.append(digit_str(n % 10));
    proof {
        assert(final(out)@ =~= old(out)@ + four_digit_chars(n as int));
    }
}

/// Renders the filename `drawing_YYYYMMDD_HHMMSS.png` for the clock
/// reading `t`.
pub fn filename_for(t: &Timestamp) -> (r: String)
    requires
        t.wf(),
    ensures
        r@ == filename_chars(*t),
{
    let mut out = String::from_str("drawing_");
    push_four_digits(&mut out, t.year);
    push_two_digits(&mut out, t.month);
    push_two_digits(&mut out, t.day);
    out.append("_");
    push_two_digits(&mut out, t.hour);
    push_two_digits(&mut out, t.minute);
    push_two_digits(&mut out, t.second);
    out.append(".png");
    proof {
        reveal_strlit("_");
        assert(out@ =~= filename_chars(*t));
    }
    out
}

} // verus!
