//! Decimal renderings of the driver's plain values: the digit strings used
//! when a value or an error record is shown as text.

use crate::temporal::{tz_offset_representable, Date, Timestamp};
use vstd::prelude::*;

verus! {

/// The digit character for one decimal digit.
pub open spec fn digit_char(d: int) -> char
    recommends
        0 <= d <= 9,
{
    if d == 0 {
        '0'
    } else if d == 1 {
        '1'
    } else if d == 2 {
        '2'
    } else if d == 3 {
        '3'
    } else if d == 4 {
        '4'
    } else if d == 5 {
        '5'
    } else if d == 6 {
        '6'
    } else if d == 7 {
        '7'
    } else if d == 8 {
        '8'
    } else {
        '9'
    }
}

/// The decimal digits of a natural number, most significant first, with
/// no leading zeros (a lone zero for zero).
pub open spec fn dec_chars(n: nat) -> Seq<char>
    decreases n,
{
    if n < 10 {
        seq![digit_char(n as int)]
    } else {
        dec_chars(n / 10) + seq![digit_char((n % 10) as int)]
    }
}

/// The decimal digits of an integer: a minus sign before the digits of
/// the magnitude where it is negative.
pub open spec fn dec_chars_int(i: int) -> Seq<char> {
    if i < 0 {
        seq!['-'] + dec_chars((-i) as nat)
    } else {
        dec_chars(i as nat)
    }
}

/// Exactly `width` decimal digits of a natural number, most significant
/// first, zero padded; high digits beyond the width are dropped.
pub open spec fn fixed_digits(n: nat, width: nat) -> Seq<char>
    decreases width,
{
    if width == 0 {
        Seq::empty()
    } else {
        fixed_digits(n / 10, (width - 1) as nat) + seq![digit_char((n % 10) as int)]
    }
}

fn digit_str(d: u64) -> (r: &'static str)
    requires
        d <= 9,
    ensures
        r@ == seq![digit_char(d as int)],
{
    proof {
        reveal_strlit("0");
        reveal_strlit("1");
        reveal_strlit("2");
        reveal_strlit("3");
        reveal_strlit("4");
        reveal_strlit("5");
        reveal_strlit("6");
        reveal_strlit("7");
        reveal_strlit("8");
        reveal_strlit("9");
    }
    let r = if d == 0 {
        "0"
    } else if d == 1 {
        "1"
    } else if d == 2 {
        "2"
    } else if d == 3 {
        "3"
    } else if d == 4 {
        "4"
    } else if d == 5 {
        "5"
    } else if d == 6 {
        "6"
    } else if d == 7 {
        "7"
    } else if d == 8 {
        "8"
    } else {
        "9"
    };
    proof {
        assert(r@ =~= seq![digit_char(d as int)]);
    }
    r
}

pub fn u64_to_string(n: u64) -> (r: String)
    ensures
        r@ == dec_chars(n as nat),
    decreases n,
{
    if n < 10 {
        String::from_str(digit_str(n))
    } else {
        let mut s = u64_to_string(n / 10);
        s.append(digit_str(n % 10));
        s
    }
}

pub fn i64_to_string(i: i64) -> (r: String)
    ensures
        r@ == dec_chars_int(i as int),
{
    if i >= 0 {
        u64_to_string(i as u64)
    } else {
        let magnitude: u64 = if i == i64::MIN {
            9223372036854775808u64
        } else {
            (-i) as u64
        };
        proof {
            reveal_strlit("-");
        }
        let mut s = String::from_str("-");
        proof {
            assert(s@ =~= seq!['-']);
        }
        let digits = u64_to_string(magnitude);
        s.append(digits.as_str());
        s
    }
}

/// The number rendered to exactly `width` digits, zero padded, high
/// digits dropped.
pub fn fixed_width_string(n: u64, width: usize) -> (r: String)
    ensures
        r@ == fixed_digits(n as nat, width as nat),
    decreases width,
{
    if width == 0 {
        let r = String::new();
        proof {
            assert(r@ =~= fixed_digits(n as nat, 0));
        }
        r
    } else {
        let mut s = fixed_width_string(n / 10, width - 1);
        s.append(digit_str(n % 10));
        s
    }
}

/// The year part of a rendered date: at least four digits, zero padded,
/// with a leading minus sign for negative years.
pub open spec fn year_chars(y: int) -> Seq<char> {
    if y < 0 {
        seq!['-'] + year_magnitude_chars(-y)
    } else {
        year_magnitude_chars(y)
    }
}

pub open spec fn year_magnitude_chars(a: int) -> Seq<char> {
    if a < 10000 {
        fixed_digits(a as nat, 4)
    } else {
        dec_chars(a as nat)
    }
}

/// A date as text: `year-month-day`, month and day always two digits.
pub open spec fn date_display(d: Date) -> Seq<char> {
    year_chars(d.year as int) + "-"@ + fixed_digits(d.month as nat, 2) + "-"@ + fixed_digits(
        d.day as nat,
        2,
    )
}

/// A civil time as text: the date, the time of day, and the nanoseconds
/// as nine fractional digits where they are not zero.
pub open spec fn timestamp_display(t: Timestamp) -> Seq<char> {
    date_display(t.spec_date()) + " "@ + fixed_digits(t.hour as nat, 2) + ":"@ + fixed_digits(
        t.minute as nat,
        2,
    ) + ":"@ + fixed_digits(t.second as nat, 2) + (if t.nanosecond != 0 {
        "."@ + fixed_digits(t.nanosecond as nat, 9)
    } else {
        Seq::empty()
    })
}

/// A fixed offset as text: a sign and `hours:minutes`, two digits each.
pub open spec fn offset_display(off: int) -> Seq<char> {
    let a = if off < 0 {
        -off
    } else {
        off
    };
    (if off < 0 {
        seq!['-']
    } else {
        seq!['+']
    }) + fixed_digits((a / 3600) as nat, 2) + ":"@ + fixed_digits(((a % 3600) / 60) as nat, 2)
}

fn year_magnitude_string(a: u64) -> (r: String)
    ensures
        r@ == year_magnitude_chars(a as int),
{
    if a < 10000 {
        fixed_width_string(a, 4)
    } else {
        u64_to_string(a)
    }
}

pub fn year_string(y: i32) -> (r: String)
    ensures
        r@ == year_chars(y as int),
{
    if y < 0 {
        proof {
            reveal_strlit("-");
        }
        let mut s = String::from_str("-");
        proof {
            assert(s@ =~= seq!['-']);
        }
        let wide: i64 = y as i64;
        let magnitude = year_magnitude_string((-wide) as u64);
        s.append(magnitude.as_str());
        s
    } else {
        year_magnitude_string(y as u64)
    }
}

pub fn date_to_string(d: &Date) -> (r: String)
    ensures
        r@ == date_display(*d),
{
    let mut s = year_string(d.year);
    s.append("-");
    let month = fixed_width_string(d.month as u64, 2);
    s.append(month.as_str());
    s.append("-");
    let day = fixed_width_string(d.day as u64, 2);
    s.append(day.as_str());
    s
}

pub fn timestamp_to_string(t: &Timestamp) -> (r: String)
    ensures
        r@ == timestamp_display(*t),
{
    let date = t.date();
    let mut s = date_to_string(&date);
    s.append(" ");
    let hour = fixed_width_string(t.hour as u64, 2);
    s.append(hour.as_str());
    s.append(":");
    let minute = fixed_width_string(t.minute as u64, 2);
    s.append(minute.as_str());
    s.append(":");
    let second = fixed_width_string(t.second as u64, 2);
    s.append(second.as_str());
    if t.nanosecond != 0 {
        s.append(".");
        let nano = fixed_width_string(t.nanosecond as u64, 9);
        s.append(nano.as_str());
    }
    proof {
        assert(s@ =~= timestamp_display(*t));
    }
    s
}

pub fn offset_to_string(off: i32) -> (r: String)
    requires
        tz_offset_representable(off as int),
    ensures
        r@ == offset_display(off as int),
{
    proof {
        reveal_strlit("-");
        reveal_strlit("+");
    }
    let mut s = if off < 0 {
        String::from_str("-")
    } else {
        String::from_str("+")
    };
    proof {
        if off < 0 {
            assert(s@ =~= seq!['-']);
        } else {
            assert(s@ =~= seq!['+']);
        }
    }
    let a: u32 = if off < 0 {
        (-off) as u32
    } else {
        off as u32
    };
    let hours = fixed_width_string((a / 3600) as u64, 2);
    s.append(hours.as_str());
    s.append(":");
    let minutes = fixed_width_string((a % 3600 / 60) as u64, 2);
    s.append(minutes.as_str());
    proof {
        assert(s@ =~= offset_display(off as int));
    }
    s
}

} // verus!
