use vstd::prelude::*;

verus! {

/// A calendar date with a time of day, to be read in the machine's local
/// time zone: the value that a date string on the command line denotes.
#[derive(Clone, Copy, PartialEq, Eq, Structural, Debug)]
pub struct LocalDateTime {
    pub year: u32,
    pub month: u32,
    pub day: u32,
    pub hour: u32,
    pub minute: u32,
    pub second: u32,
}

pub open spec fn spec_is_leap_year(y: int) -> bool {
    (y % 4 == 0 && y % 100 != 0) || y % 400 == 0
}

pub open spec fn spec_days_in_month(y: int, m: int) -> int {
    if m == 2 {
        if spec_is_leap_year(y) {
            29
        } else {
            28
        }
    } else if m == 4 || m == 6 || m == 9 || m == 11 {
        30
    } else {
        31
    }
}

pub open spec fn valid_date(y: int, m: int, d: int) -> bool {
    1 <= m <= 12 && 1 <= d <= spec_days_in_month(y, m)
}

pub open spec fn valid_time(h: int, mi: int, s: int) -> bool {
    0 <= h <= 23 && 0 <= mi <= 59 && 0 <= s <= 59
}

impl LocalDateTime {
    /// The fields name a real proleptic-Gregorian calendar date, with a
    /// four-digit year, and a real time of day.
    pub open spec fn well_formed(self) -> bool {
        &&& self.year <= 9999
        &&& valid_date(self.year as int, self.month as int, self.day as int)
        &&& valid_time(self.hour as int, self.minute as int, self.second as int)
    }
}

pub open spec fn is_digit(c: char) -> bool {
    '0' <= c && c <= '9'
}

pub open spec fn digit_val(c: char) -> int {
    c as int - '0' as int
}

/// The number written by the two digits of `s` at `i` and `i + 1`.
pub open spec fn spec_two(s: Seq<char>, i: int) -> int {
    10 * digit_val(s[i]) + digit_val(s[i + 1])
}

/// The number written by the four digits of `s` starting at `i`.
pub open spec fn spec_four(s: Seq<char>, i: int) -> int {
    1000 * digit_val(s[i]) + 100 * digit_val(s[i + 1]) + 10 * digit_val(s[i + 2]) + digit_val(
        s[i + 3],
    )
}

/// `s` starts with `YYYY-MM-DD`: four digits, a dash, two digits, a dash,
/// two digits.
pub open spec fn date_shape(s: Seq<char>) -> bool {
    &&& s.len() >= 10
    &&& is_digit(s[0]) && is_digit(s[1]) && is_digit(s[2]) && is_digit(s[3])
    &&& s[4] == '-'
    &&& is_digit(s[5]) && is_digit(s[6])
    &&& s[7] == '-'
    &&& is_digit(s[8]) && is_digit(s[9])
}

/// The whole of `s` is `YYYY-MM-DD`.
pub open spec fn date_only_format(s: Seq<char>) -> bool {
    s.len() == 10 && date_shape(s)
}

/// The whole of `s` is `YYYY-MM-DD HH:MM:SS`.
pub open spec fn datetime_format(s: Seq<char>) -> bool {
    &&& s.len() == 19
    &&& date_shape(s)
    &&& s[10] == ' '
    &&& is_digit(s[11]) && is_digit(s[12])
    &&& s[13] == ':'
    &&& is_digit(s[14]) && is_digit(s[15])
    &&& s[16] == ':'
    &&& is_digit(s[17]) && is_digit(s[18])
}

pub open spec fn spec_year(s: Seq<char>) -> int {
    spec_four(s, 0)
}

pub open spec fn spec_month(s: Seq<char>) -> int {
    spec_two(s, 5)
}

pub open spec fn spec_day(s: Seq<char>) -> int {
    spec_two(s, 8)
}

pub open spec fn spec_hour(s: Seq<char>) -> int {
    spec_two(s, 11)
}

pub open spec fn spec_minute(s: Seq<char>) -> int {
    spec_two(s, 14)
}

pub open spec fn spec_second(s: Seq<char>) -> int {
    spec_two(s, 17)
}

/// `s` is a date string the program accepts: either format, with fields
/// that name a real calendar date and, where present, a real time of day.
pub open spec fn date_string_ok(s: Seq<char>) -> bool {
    ||| (datetime_format(s) && valid_date(spec_year(s), spec_month(s), spec_day(s)) && valid_time(
        spec_hour(s),
        spec_minute(s),
        spec_second(s),
    ))
    ||| (date_only_format(s) && valid_date(spec_year(s), spec_month(s), spec_day(s)))
}

/// `dt` is the value that the accepted string `s` denotes; a date-only
/// string denotes midnight.
pub open spec fn denotes(s: Seq<char>, dt: LocalDateTime) -> bool {
    &&& dt.year == spec_year(s)
    &&& dt.month == spec_month(s)
    &&& dt.day == spec_day(s)
    &&& if datetime_format(s) {
        dt.hour == spec_hour(s) && dt.minute == spec_minute(s) && dt.second == spec_second(s)
    } else {
        dt.hour == 0 && dt.minute == 0 && dt.second == 0
    }
}

fn digit_of(c: char) -> (r: Option<u32>)
    ensures
        r is Some <==> is_digit(c),
        r is Some ==> r->0 == digit_val(c) && r->0 <= 9,
{
    let v = c as u32;
    if 48 <= v && v <= 57 {
        Some(v - 48)
    } else {
        None
    }
}

fn read_two(s: &str, i: usize) -> (r: Option<u32>)
    requires
        i + 1 < s@.len(),
        s@.len() <= usize::MAX,
    ensures
        r is Some <==> is_digit(s@[i as int]) && is_digit(s@[i as int + 1]),
        r is Some ==> r->0 == spec_two(s@, i as int) && r->0 <= 99,
{
    let a = match digit_of(s.get_char(i)) {
        Some(d) => d,
        None => {
            return None;
        },
    };
    let b = match digit_of(s.get_char(i + 1)) {
        Some(d) => d,
        None => {
            return None;
        },
    };
    Some(10 * a + b)
}

fn read_four(s: &str, i: usize) -> (r: Option<u32>)
    requires
        i + 3 < s@.len(),
        s@.len() <= usize::MAX,
    ensures
        r is Some <==> is_digit(s@[i as int]) && is_digit(s@[i as int + 1]) && is_digit(
            s@[i as int + 2],
        ) && is_digit(s@[i as int + 3]),
        r is Some ==> r->0 == spec_four(s@, i as int) && r->0 <= 9999,
{
    let hi = match read_two(s, i) {
        Some(v) => v,
        None => {
            return None;
        },
    };
    let lo = match read_two(s, i + 2) {
        Some(v) => v,
        None => {
            return None;
        },
    };
    Some(100 * hi + lo)
}

fn expect_char(s: &str, i: usize, c: char) -> (r: bool)
    requires
        i < s@.len(),
    ensures
        r <==> s@[i as int] == c,
{
    s.get_char(i) == c
}

pub fn is_leap_year(y: u32) -> (r: bool)
    ensures
        r == spec_is_leap_year(y as int),
{
    (y % 4 == 0 && y % 100 != 0) || y % 400 == 0
}

pub fn days_in_month(y: u32, m: u32) -> (r: u32)
    requires
        1 <= m && m <= 12,
    ensures
        r as int == spec_days_in_month(y as int, m as int),
{
    if m == 2 {
        if is_leap_year(y) {
            29
        } else {
            28
        }
    } else if m == 4 || m == 6 || m == 9 || m == 11 {
        30
    } else {
        31
    }
}

/// Parses a date string, trying `YYYY-MM-DD HH:MM:SS` and then `YYYY-MM-DD`;
/// a date-only string denotes midnight. Returns `None` exactly when the
/// string matches neither format or its fields name no real date or time.
pub fn parse_date_string(s: &str) -> (r: Option<LocalDateTime>)
    ensures
        r is Some <==> date_string_ok(s@),
        r is Some ==> r->0.well_formed() && denotes(s@, r->0),
{
    let n = s.unicode_len();
    if n != 10 && n != 19 {
        return None;
    }
    let year = match read_four(s, 0) {
        Some(v) => v,
        None => {
            return None;
        },
    };
    if !expect_char(s, 4, '-') {
        return None;
    }
    let month = match read_two(s, 5) {
        Some(v) => v,
        None => {
            return None;
        },
    };
    if !expect_char(s, 7, '-') {
        return None;
    }
    let day = match read_two(s, 8) {
        Some(v) => v,
        None => {
            return None;
        },
    };
    if month < 1 || month > 12 {
        return None;
    }
    if day < 1 || day > days_in_month(year, month) {
        return None;
    }
    if n == 10 {
        return Some(LocalDateTime { year, month, day, hour: 0, minute: 0, second: 0 });
    }
    if !expect_char(s, 10, ' ') {
        return None;
    }
    let hour = match read_two(s, 11) {
        Some(v) => v,
        None => {
            return None;
        },
    };
    if !expect_char(s, 13, ':') {
        return None;
    }
    let minute = match read_two(s, 14) {
        Some(v) => v,
        None => {
            return None;
        },
    };
    if !expect_char(s, 16, ':') {
        return None;
    }
    let second = match read_two(s, 17) {
        Some(v) => v,
        None => {
            return None;
        },
    };
    if hour > 23 || minute > 59 || second > 59 {
        return None;
    }
    Some(LocalDateTime { year, month, day, hour, minute, second })
}

} // verus!
