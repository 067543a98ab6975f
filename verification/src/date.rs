//! Calendar dates, kept as text of the form `YYYY-MM-DD`.

use crate::text::{chars_of, decimal_digits, decimal_text, digit_char, digit_value, is_digit, push_char};
use vstd::prelude::*;

verus! {

/// Whether the year `y` has a 29th of February.
pub open spec fn is_leap_year(y: int) -> bool {
    y % 4 == 0 && (y % 100 != 0 || y % 400 == 0)
}

/// The number of days in month `m` of year `y`.
pub open spec fn days_in_month(y: int, m: int) -> int {
    if m == 2 {
        if is_leap_year(y) {
            29
        } else {
            28
        }
    } else if m == 4 || m == 6 || m == 9 || m == 11 {
        30
    } else {
        31
    }
}

/// Whether there is a day `d` of month `m` in year `y` of the Gregorian calendar, the
/// year being one that four digits can write.
pub open spec fn is_calendar_date(y: int, m: int, d: int) -> bool {
    0 <= y <= 9999 && 1 <= m <= 12 && 1 <= d <= days_in_month(y, m)
}

/// A number below 10000 in four digits.
pub open spec fn four_digits(n: int) -> Seq<char> {
    seq![
        digit_char((n / 1000) as nat),
        digit_char((n / 100 % 10) as nat),
        digit_char((n / 10 % 10) as nat),
        digit_char((n % 10) as nat),
    ]
}

/// The text `YYYY-MM-DD` of a date.
pub open spec fn iso_text(y: int, m: int, d: int) -> Seq<char> {
    seq![
        digit_char((y / 1000) as nat),
        digit_char((y / 100 % 10) as nat),
        digit_char((y / 10 % 10) as nat),
        digit_char((y % 10) as nat),
        '-',
        digit_char((m / 10) as nat),
        digit_char((m % 10) as nat),
        '-',
        digit_char((d / 10) as nat),
        digit_char((d % 10) as nat),
    ]
}

/// Whether `s` is four digits, a hyphen, two digits, a hyphen and two digits.
pub open spec fn is_iso_shape(s: Seq<char>) -> bool {
    &&& s.len() == 10
    &&& is_digit(s[0]) && is_digit(s[1]) && is_digit(s[2]) && is_digit(s[3])
    &&& s[4] == '-'
    &&& is_digit(s[5]) && is_digit(s[6])
    &&& s[7] == '-'
    &&& is_digit(s[8]) && is_digit(s[9])
}

/// The year that a text of the shape `YYYY-MM-DD` gives.
pub open spec fn iso_year(s: Seq<char>) -> int {
    (digit_value(s[0]) * 1000 + digit_value(s[1]) * 100 + digit_value(s[2]) * 10 + digit_value(
        s[3],
    )) as int
}

/// The month that a text of the shape `YYYY-MM-DD` gives.
pub open spec fn iso_month(s: Seq<char>) -> int {
    (digit_value(s[5]) * 10 + digit_value(s[6])) as int
}

/// The day that a text of the shape `YYYY-MM-DD` gives.
pub open spec fn iso_day(s: Seq<char>) -> int {
    (digit_value(s[8]) * 10 + digit_value(s[9])) as int
}

/// Whether `s` is the text `YYYY-MM-DD` of a day that the calendar has.
pub open spec fn is_iso_date(s: Seq<char>) -> bool {
    is_iso_shape(s) && is_calendar_date(iso_year(s), iso_month(s), iso_day(s))
}

/// The English name of month `m`.
pub open spec fn month_name(m: int) -> Seq<char> {
    if m == 1 {
        "January"@
    } else if m == 2 {
        "February"@
    } else if m == 3 {
        "March"@
    } else if m == 4 {
        "April"@
    } else if m == 5 {
        "May"@
    } else if m == 6 {
        "June"@
    } else if m == 7 {
        "July"@
    } else if m == 8 {
        "August"@
    } else if m == 9 {
        "September"@
    } else if m == 10 {
        "October"@
    } else if m == 11 {
        "November"@
    } else {
        "December"@
    }
}

/// A date as it is written out in a document: the name of the month, the day without
/// padding, a comma and the year, as in `February 17, 2023`.
pub open spec fn long_form(y: int, m: int, d: int) -> Seq<char> {
    month_name(m) + seq![' '] + decimal_digits(d as nat) + seq![',', ' '] + four_digits(y)
}

/// The date that lies `days` days after a given one, as `time::Date::checked_add`
/// finds it: `None` where that day is past the last one that `time` can hold.
pub uninterp spec fn days_later(year: int, month: int, day: int, days: int) -> Option<
    (i32, u8, u8),
>;

/// Asks `time` whether a month has a given day.
///
/// Calls `time::Date::from_calendar_date`, which accepts a day of a month of a year
/// between 0 and 9999 exactly where the day is at least 1 and at most the length of
/// that month, February having 29 days in leap years.
#[verifier::external_body]
fn time_has_day(year: i32, month: u8, day: u8) -> (r: bool)
    requires
        0 <= year <= 9999,
        1 <= month <= 12,
    ensures
        r == (1 <= day <= days_in_month(year as int, month as int)),
{
    match time::Month::try_from(month) {
        Ok(month) => time::Date::from_calendar_date(year, month, day).is_ok(),
        Err(_) => false,
    }
}

/// Adds days to a date.
///
/// Calls `time::Date::checked_add` with a duration of `days` whole days; the result is
/// only named, by [`days_later`].
#[verifier::external_body]
fn time_add_days(year: i32, month: u8, day: u8, days: u16) -> (r: Option<(i32, u8, u8)>)
    requires
        is_calendar_date(year as int, month as int, day as int),
    ensures
        r == days_later(year as int, month as int, day as int, days as int),
{
    let month = time::Month::try_from(month).ok()?;
    let date = time::Date::from_calendar_date(year, month, day).ok()?;
    let later = date.checked_add(time::Duration::days(days.into()))?;
    Some((later.year(), u8::from(later.month()), later.day()))
}

/// A day of the calendar.
#[derive(Clone, Copy, Debug)]
pub struct CalendarDate {
    year: i32,
    month: u8,
    day: u8,
}

impl CalendarDate {
    #[verifier::type_invariant]
    spec fn valid(self) -> bool {
        is_calendar_date(self.year as int, self.month as int, self.day as int)
    }

    pub closed spec fn spec_year(self) -> int {
        self.year as int
    }

    pub closed spec fn spec_month(self) -> int {
        self.month as int
    }

    pub closed spec fn spec_day(self) -> int {
        self.day as int
    }

    /// The given day, if the calendar has it.
    pub fn new(year: i32, month: u8, day: u8) -> (r: Option<CalendarDate>)
        ensures
            r is Some <==> is_calendar_date(year as int, month as int, day as int),
            r matches Some(date) ==> date.spec_year() == year && date.spec_month() == month
                && date.spec_day() == day,
    {
        if 0 <= year && year <= 9999 && 1 <= month && month <= 12 && time_has_day(
            year,
            month,
            day,
        ) {
            Some(CalendarDate { year, month, day })
        } else {
            None
        }
    }

    pub fn year(self) -> (y: i32)
        ensures
            y == self.spec_year(),
    {
        self.year
    }

    pub fn month(self) -> (m: u8)
        ensures
            m == self.spec_month(),
    {
        self.month
    }

    pub fn day(self) -> (d: u8)
        ensures
            d == self.spec_day(),
    {
        self.day
    }

    /// The day that lies `days` days later, if it is still in a year that four digits
    /// can write: see [`later_date`].
    pub fn checked_add_days(self, days: u16) -> (r: Option<CalendarDate>)
        ensures
            match r {
                Some(date) => later_date(
                    self.spec_year(),
                    self.spec_month(),
                    self.spec_day(),
                    days as int,
                ) == Some((date.spec_year(), date.spec_month(), date.spec_day())),
                None => later_date(
                    self.spec_year(),
                    self.spec_month(),
                    self.spec_day(),
                    days as int,
                ) is None,
            },
    {
        proof {
            use_type_invariant(self);
        }
        match time_add_days(self.year, self.month, self.day, days) {
            Some((year, month, day)) => CalendarDate::new(year, month, day),
            None => None,
        }
    }
}

/// The day that lies `days` days after a given one: what [`days_later`] gives, where
/// that is a day of a year that four digits can write.
pub open spec fn later_date(y: int, m: int, d: int, days: int) -> Option<(int, int, int)> {
    match days_later(y, m, d, days) {
        Some((year, month, day)) => if is_calendar_date(year as int, month as int, day as int) {
            Some((year as int, month as int, day as int))
        } else {
            None
        },
        None => None,
    }
}

/// Why a text is not a date.
#[derive(Clone, Copy, Debug, PartialEq, Eq, Structural)]
pub enum DateError {
    /// The text is not of the form `YYYY-MM-DD`.
    Malformed,
    /// The text names a month or a day that the calendar does not have.
    NoSuchDay,
}

/// A date, kept as its text `YYYY-MM-DD`.
#[derive(Debug)]
pub struct DateString(String);

impl Clone for DateString {
    fn clone(&self) -> (r: DateString)
        ensures
            r@ == self@,
    {
        proof {
            use_type_invariant(self);
        }
        DateString(self.0.clone())
    }
}

impl View for DateString {
    type V = Seq<char>;

    closed spec fn view(&self) -> Seq<char> {
        self.0@
    }
}

impl PartialEq for DateString {
    fn eq(&self, other: &DateString) -> (r: bool) {
        self.0 == other.0
    }
}

impl Eq for DateString {

}

impl vstd::std_specs::cmp::PartialEqSpecImpl for DateString {
    open spec fn obeys_eq_spec() -> bool {
        true
    }

    open spec fn eq_spec(&self, other: &DateString) -> bool {
        self@ == other@
    }
}

/// Reads the digit at index `i`.
fn digit_at(chars: &Vec<char>, i: usize) -> (r: Option<u8>)
    requires
        i < chars.len(),
    ensures
        r is Some <==> is_digit(chars@[i as int]),
        r matches Some(d) ==> d == digit_value(chars@[i as int]) && d < 10,
{
    let c = chars[i];
    if '0' <= c && c <= '9' {
        Some(((c as u32) - ('0' as u32)) as u8)
    } else {
        None
    }
}

/// Reads year, month and day from a text of the shape `YYYY-MM-DD`.
fn read_iso(chars: &Vec<char>) -> (r: Option<(i32, u8, u8)>)
    ensures
        r is Some <==> is_iso_shape(chars@),
        r matches Some((y, m, d)) ==> y == iso_year(chars@) && m == iso_month(chars@) && d
            == iso_day(chars@),
{
    if chars.len() != 10 || chars[4] != '-' || chars[7] != '-' {
        return None;
    }
    let y0 = digit_at(chars, 0)?;
    let y1 = digit_at(chars, 1)?;
    let y2 = digit_at(chars, 2)?;
    let y3 = digit_at(chars, 3)?;
    let m0 = digit_at(chars, 5)?;
    let m1 = digit_at(chars, 6)?;
    let d0 = digit_at(chars, 8)?;
    let d1 = digit_at(chars, 9)?;
    let year: i32 = (y0 as i32) * 1000 + (y1 as i32) * 100 + (y2 as i32) * 10 + (y3 as i32);
    Some((year, m0 * 10 + m1, d0 * 10 + d1))
}

/// Appends the digit that stands for `d`.
fn push_digit(out: &mut String, d: u8)
    requires
        d < 10,
    ensures
        final(out)@ == old(out)@.push(digit_char(d as nat)),
{
    push_char(out, (48u8 + d) as char);
}

impl DateString {
    #[verifier::type_invariant]
    spec fn valid(&self) -> bool {
        is_iso_date(self.0@)
    }

    /// Accepts `s` as a date where it is the text `YYYY-MM-DD` of a day that the
    /// calendar has, and says what is wrong with it where it is not.
    pub fn try_new(s: String) -> (r: Result<DateString, DateError>)
        ensures
            match r {
                Ok(date) => is_iso_date(s@) && date@ == s@,
                Err(DateError::Malformed) => !is_iso_shape(s@),
                Err(DateError::NoSuchDay) => is_iso_shape(s@) && !is_iso_date(s@),
            },
    {
        let chars = chars_of(s.as_str());
        match read_iso(&chars) {
            None => Err(DateError::Malformed),
            Some((year, month, day)) => {
                if 1 <= month && month <= 12 && time_has_day(year, month, day) {
                    Ok(DateString(s))
                } else {
                    Err(DateError::NoSuchDay)
                }
            },
        }
    }

    /// The text `YYYY-MM-DD`, which is that of a day that the calendar has.
    pub fn as_str(&self) -> (s: &str)
        ensures
            s@ == self@,
            is_iso_date(self@),
    {
        proof {
            use_type_invariant(self);
        }
        self.0.as_str()
    }

    /// The day that the text names.
    pub fn to_date(&self) -> (date: CalendarDate)
        ensures
            date.spec_year() == iso_year(self@),
            date.spec_month() == iso_month(self@),
            date.spec_day() == iso_day(self@),
    {
        proof {
            use_type_invariant(self);
        }
        let chars = chars_of(self.0.as_str());
        match read_iso(&chars) {
            Some((year, month, day)) => CalendarDate { year, month, day },
            None => {
                proof {
                    assert(false);
                }
                CalendarDate { year: 0, month: 1, day: 1 }
            },
        }
    }

    /// The text of a day.
    pub fn from_date(date: CalendarDate) -> (r: DateString)
        ensures
            r@ == iso_text(date.spec_year(), date.spec_month(), date.spec_day()),
            iso_year(r@) == date.spec_year(),
            iso_month(r@) == date.spec_month(),
            iso_day(r@) == date.spec_day(),
    {
        proof {
            use_type_invariant(date);
        }
        let year: u16 = date.year as u16;
        let mut out = String::new();
        push_digit(&mut out, (year / 1000) as u8);
        push_digit(&mut out, (year / 100 % 10) as u8);
        push_digit(&mut out, (year / 10 % 10) as u8);
        push_digit(&mut out, (year % 10) as u8);
        push_char(&mut out, '-');
        push_digit(&mut out, date.month / 10);
        push_digit(&mut out, date.month % 10);
        push_char(&mut out, '-');
        push_digit(&mut out, date.day / 10);
        push_digit(&mut out, date.day % 10);
        proof {
            lemma_iso_text_round_trip(date.year as int, date.month as int, date.day as int);
            assert(out@ =~= iso_text(date.year as int, date.month as int, date.day as int));
        }
        DateString(out)
    }

    /// The date as it is written out in a document: see [`long_form`].
    pub fn to_string_long_form(&self) -> (r: String)
        ensures
            r@ == long_form(iso_year(self@), iso_month(self@), iso_day(self@)),
    {
        let date = self.to_date();
        proof {
            use_type_invariant(date);
        }
        let mut out = String::new();
        let name: &str = if date.month == 1 {
            "January"
        } else if date.month == 2 {
            "February"
        } else if date.month == 3 {
            "March"
        } else if date.month == 4 {
            "April"
        } else if date.month == 5 {
            "May"
        } else if date.month == 6 {
            "June"
        } else if date.month == 7 {
            "July"
        } else if date.month == 8 {
            "August"
        } else if date.month == 9 {
            "September"
        } else if date.month == 10 {
            "October"
        } else if date.month == 11 {
            "November"
        } else {
            "December"
        };
        out.append(name);
        push_char(&mut out, ' ');
        let day = decimal_text(date.day as u32);
        out.append(day.as_str());
        push_char(&mut out, ',');
        push_char(&mut out, ' ');
        let year: u16 = date.year as u16;
        push_digit(&mut out, (year / 1000) as u8);
        push_digit(&mut out, (year / 100 % 10) as u8);
        push_digit(&mut out, (year / 10 % 10) as u8);
        push_digit(&mut out, (year % 10) as u8);
        proof {
            assert(out@ =~= long_form(date.year as int, date.month as int, date.day as int));
        }
        out
    }

    /// The date that lies `days` days later, if it is still in a year that four digits
    /// can write: see [`later_date`].
    pub fn checked_add_days(&self, days: u16) -> (r: Option<DateString>)
        ensures
            match r {
                Some(due) => later_date(
                    iso_year(self@),
                    iso_month(self@),
                    iso_day(self@),
                    days as int,
                ) == Some((iso_year(due@), iso_month(due@), iso_day(due@))),
                None => later_date(iso_year(self@), iso_month(self@), iso_day(self@), days as int)
                    is None,
            },
    {
        let date = self.to_date();
        match date.checked_add_days(days) {
            Some(later) => Some(DateString::from_date(later)),
            None => None,
        }
    }
}

/// A digit stands for its value, and a value below ten for its digit.
pub proof fn lemma_digits()
    ensures
        forall|d: nat| d < 10 ==> is_digit(#[trigger] digit_char(d)) && digit_value(digit_char(d)) == d,
        forall|c: char| is_digit(c) ==> digit_value(c) < 10 && #[trigger] digit_char(digit_value(c)) == c,
{
}

/// A number below 10000 is made up of its four digits.
proof fn lemma_digits_of_number(n: int)
    requires
        0 <= n <= 9999,
    ensures
        0 <= n / 1000 < 10,
        0 <= n / 100 % 10 < 10,
        0 <= n / 10 % 10 < 10,
        0 <= n % 10 < 10,
        (n / 1000) * 1000 + (n / 100 % 10) * 100 + (n / 10 % 10) * 10 + n % 10 == n,
{
}

/// A number below 100 is made up of its two digits.
proof fn lemma_two_digits_of_number(n: int)
    requires
        0 <= n <= 99,
    ensures
        0 <= n / 10 < 10,
        0 <= n % 10 < 10,
        (n / 10) * 10 + n % 10 == n,
{
}

/// The text of year, month and day has the shape of a date and gives them back.
proof fn lemma_iso_text_parts(y: int, m: int, d: int)
    requires
        0 <= y <= 9999,
        0 <= m <= 99,
        0 <= d <= 99,
    ensures
        is_iso_shape(iso_text(y, m, d)),
        iso_year(iso_text(y, m, d)) == y,
        iso_month(iso_text(y, m, d)) == m,
        iso_day(iso_text(y, m, d)) == d,
{
    lemma_digits();
    lemma_digits_of_number(y);
    lemma_two_digits_of_number(m);
    lemma_two_digits_of_number(d);
    let s = iso_text(y, m, d);
    assert(s.len() == 10);
    assert(s[0] == digit_char((y / 1000) as nat));
    assert(s[1] == digit_char((y / 100 % 10) as nat));
    assert(s[2] == digit_char((y / 10 % 10) as nat));
    assert(s[3] == digit_char((y % 10) as nat));
    assert(s[4] == '-');
    assert(s[5] == digit_char((m / 10) as nat));
    assert(s[6] == digit_char((m % 10) as nat));
    assert(s[7] == '-');
    assert(s[8] == digit_char((d / 10) as nat));
    assert(s[9] == digit_char((d % 10) as nat));
}

/// The text of a day reads back as that day, and is a date.
pub proof fn lemma_iso_text_round_trip(y: int, m: int, d: int)
    requires
        is_calendar_date(y, m, d),
    ensures
        is_iso_date(iso_text(y, m, d)),
        iso_year(iso_text(y, m, d)) == y,
        iso_month(iso_text(y, m, d)) == m,
        iso_day(iso_text(y, m, d)) == d,
{
    lemma_iso_text_parts(y, m, d);
}

/// The digits of a number of four digits are found again by division.
proof fn lemma_four_digit_number(a: int, b: int, c: int, e: int)
    requires
        0 <= a < 10,
        0 <= b < 10,
        0 <= c < 10,
        0 <= e < 10,
    ensures
        (a * 1000 + b * 100 + c * 10 + e) / 1000 == a,
        (a * 1000 + b * 100 + c * 10 + e) / 100 % 10 == b,
        (a * 1000 + b * 100 + c * 10 + e) / 10 % 10 == c,
        (a * 1000 + b * 100 + c * 10 + e) % 10 == e,
{
    let n = a * 1000 + b * 100 + c * 10 + e;
    assert(n / 100 == a * 10 + b);
    assert(n / 10 == a * 100 + b * 10 + c);
}

/// A date is the text of the day that it names.
pub proof fn lemma_iso_date_is_its_text(s: Seq<char>)
    requires
        is_iso_date(s),
    ensures
        iso_text(iso_year(s), iso_month(s), iso_day(s)) == s,
{
    lemma_digits();
    let (y, m, d) = (iso_year(s), iso_month(s), iso_day(s));
    let t = iso_text(y, m, d);
    lemma_four_digit_number(
        digit_value(s[0]) as int,
        digit_value(s[1]) as int,
        digit_value(s[2]) as int,
        digit_value(s[3]) as int,
    );
    assert(m / 10 == digit_value(s[5]) && m % 10 == digit_value(s[6]));
    assert(d / 10 == digit_value(s[8]) && d % 10 == digit_value(s[9]));
    assert(t[0] == s[0] && t[1] == s[1] && t[2] == s[2] && t[3] == s[3] && t[4] == s[4]);
    assert(t[5] == s[5] && t[6] == s[6] && t[7] == s[7] && t[8] == s[8] && t[9] == s[9]);
    assert(t =~= s);
}

} // verus!
