//! Calendar dates.
//!
//! A [`Date`] holds year, month and day as numbers. Which triples are dates
//! and how one is printed is left to the `chrono` crate; reading the eight
//! digits of a date, ordering and the step to the next month are done here.
use vstd::prelude::*;
use vstd::string::StringSliceAdditionalSpecFns;
use chrono::NaiveDate;
use crate::text::{digits_of, padded};

verus! {

/// The first year of the calendar.
pub const MIN_YEAR: i32 = -262_143;

/// The last year of the calendar.
pub const MAX_YEAR: i32 = 262_142;

/// Whether a year has a 29th of February: every fourth year, but of the
/// years that end a century only every fourth.
pub open spec fn is_leap_year(year: int) -> bool {
    year % 4 == 0 && (year % 100 != 0 || year % 400 == 0)
}

/// The number of days of a month of a year.
pub open spec fn days_in_month(year: int, month: int) -> int {
    if month == 2 {
        if is_leap_year(year) {
            29
        } else {
            28
        }
    } else if month == 4 || month == 6 || month == 9 || month == 11 {
        30
    } else {
        31
    }
}

/// Whether the calendar has the day `day` in month `month` of year `year`.
/// The calendar is the Gregorian one, carried back before its introduction,
/// from [`MIN_YEAR`] to [`MAX_YEAR`].
pub open spec fn is_calendar_date(year: int, month: int, day: int) -> bool {
    &&& MIN_YEAR <= year <= MAX_YEAR
    &&& 1 <= month <= 12
    &&& 1 <= day <= days_in_month(year, month)
}

/// The text that a year is printed as: four digits from 0 to 9999, else a
/// sign and at least four digits.
pub open spec fn year_text(year: int) -> Seq<char> {
    if 0 <= year <= 9999 {
        padded(year, 4)
    } else if year < 0 {
        seq!['-'] + if -year < 10000 {
            padded(-year, 4)
        } else {
            digits_of(-year)
        }
    } else {
        seq!['+'] + digits_of(year)
    }
}

/// The text that a date is printed as: year, month and day, the latter two
/// with two digits each, separated by hyphens.
pub open spec fn date_text(year: int, month: int, day: int) -> Seq<char> {
    year_text(year) + seq!['-'] + padded(month, 2) + seq!['-'] + padded(day, 2)
}

/// Trusted: `NaiveDate::from_ymd_opt`, asked only whether it makes a date.
/// It makes one of the days of the calendar and of nothing else.
#[verifier::external_body]
fn calendar_has(year: i32, month: u32, day: u32) -> (exists: bool)
    ensures
        exists == is_calendar_date(year as int, month as int, day as int),
{
    NaiveDate::from_ymd_opt(year, month, day).is_some()
}

/// Trusted: `to_string` on the date that `NaiveDate::from_ymd_opt` makes of
/// the arguments; `None` where they are no date. A date is printed as its
/// year, month and day with hyphens between them.
#[verifier::external_body]
fn print_date(year: i32, month: u32, day: u32) -> (text: Option<String>)
    ensures
        match text {
            Some(t) => is_calendar_date(year as int, month as int, day as int) && t@ == date_text(
                year as int,
                month as int,
                day as int,
            ),
            None => !is_calendar_date(year as int, month as int, day as int),
        },
{
    NaiveDate::from_ymd_opt(year, month, day).map(|date| date.to_string())
}

/// A day of the calendar.
#[derive(Debug, Clone, Copy, PartialEq, Eq, Structural)]
pub struct Date {
    year: i32,
    month: u32,
    day: u32,
}

/// What a [`Date`] holds, as mathematical integers.
pub struct DateView {
    pub year: int,
    pub month: int,
    pub day: int,
}

impl View for Date {
    type V = DateView;

    closed spec fn view(&self) -> DateView {
        DateView { year: self.year as int, month: self.month as int, day: self.day as int }
    }
}

impl DateView {
    /// The date comes before `other`.
    pub open spec fn is_before(self, other: DateView) -> bool {
        self.year < other.year || (self.year == other.year && (self.month < other.month || (
        self.month == other.month && self.day < other.day)))
    }

    /// Year and month of the month that follows this date's month.
    pub open spec fn following_month(self) -> (int, int) {
        if self.month == 12 {
            (self.year + 1, 1)
        } else {
            (self.year, self.month + 1)
        }
    }

    /// The first day of the month that follows this date's month, where the
    /// calendar has it.
    pub open spec fn next_month_start(self) -> Option<DateView> {
        let (year, month) = self.following_month();
        if is_calendar_date(year, month, 1) {
            Some(DateView { year, month, day: 1 })
        } else {
            None
        }
    }

    /// The date lies in `[start, end)`.
    pub open spec fn is_within(self, start: DateView, end: DateView) -> bool {
        !self.is_before(start) && self.is_before(end)
    }

    /// The printed form.
    pub open spec fn text(self) -> Seq<char> {
        date_text(self.year, self.month, self.day)
    }
}

/// The view of a date that may be missing.
pub open spec fn view_of(date: Option<Date>) -> Option<DateView> {
    match date {
        Some(d) => Some(d@),
        None => None,
    }
}

/// Why a text is no date.
#[derive(Debug, Clone, Copy, PartialEq, Eq, Structural)]
pub enum DateError {
    /// The text is not made of eight digits.
    NotEightDigits,
    /// The calendar has no such day.
    NoSuchDay,
}

/// `c` is one of the digits `0` to `9`.
pub open spec fn is_digit(c: char) -> bool {
    '0' <= c <= '9'
}

/// The number that a string of digits stands for.
pub open spec fn number_of(digits: Seq<char>) -> int
    decreases digits.len(),
{
    if digits.len() == 0 {
        0
    } else {
        number_of(digits.drop_last()) * 10 + (digits.last() as int - '0' as int)
    }
}

/// The text is made of eight digits.
pub open spec fn is_compact(text: Seq<char>) -> bool {
    text.len() == 8 && forall|i: int| 0 <= i < 8 ==> is_digit(#[trigger] text[i])
}

/// The date that a text of the form `YYYYMMDD` stands for: four digits for
/// the year, two for the month, two for the day, and nothing else.
pub open spec fn date_from_compact(text: Seq<char>) -> Result<DateView, DateError> {
    if !is_compact(text) {
        Err(DateError::NotEightDigits)
    } else {
        let year = number_of(text.subrange(0, 4));
        let month = number_of(text.subrange(4, 6));
        let day = number_of(text.subrange(6, 8));
        if is_calendar_date(year, month, day) {
            Ok(DateView { year, month, day })
        } else {
            Err(DateError::NoSuchDay)
        }
    }
}

/// `10^exponent` for the few exponents that a date needs.
spec fn pow10_small(exponent: int) -> int {
    if exponent <= 0 {
        1
    } else if exponent == 1 {
        10
    } else if exponent == 2 {
        100
    } else if exponent == 3 {
        1000
    } else {
        10000
    }
}

/// The number that the digits of a text from `from` up to `to` stand for.
fn read_number(bytes: &[u8], from: usize, to: usize, Ghost(text): Ghost<Seq<char>>) -> (number: u32)
    requires
        from <= to <= bytes@.len(),
        to - from <= 4,
        bytes@.len() == text.len(),
        forall|i: int|
            0 <= i < text.len() ==> is_digit(#[trigger] text[i]) && bytes@[i] == text[i] as u8,
    ensures
        number == number_of(text.subrange(from as int, to as int)),
        number < 10000,
{
    let mut number: u32 = 0;
    let mut index = from;
    assert(text.subrange(from as int, from as int) =~= Seq::<char>::empty());
    while index < to
        invariant
            from <= index <= to <= bytes@.len(),
            to - from <= 4,
            bytes@.len() == text.len(),
            forall|i: int|
                0 <= i < text.len() ==> is_digit(#[trigger] text[i]) && bytes@[i] == text[i] as u8,
            number == number_of(text.subrange(from as int, index as int)),
            number < pow10_small(index - from),
        decreases to - index,
    {
        let ghost upto = text.subrange(from as int, index + 1);
        assert(upto.drop_last() =~= text.subrange(from as int, index as int));
        assert(upto.last() == text[index as int]);
        assert(is_digit(text[index as int]));
        let digit = bytes[index] - 48;
        number = number * 10 + digit as u32;
        index += 1;
    }
    number
}

impl Date {
    #[verifier::type_invariant]
    spec fn on_calendar(self) -> bool {
        is_calendar_date(self.year as int, self.month as int, self.day as int)
    }

    /// The given day, where the calendar has it.
    pub fn from_ymd(year: i32, month: u32, day: u32) -> (date: Option<Date>)
        ensures
            match date {
                Some(d) => is_calendar_date(year as int, month as int, day as int) && d@ == (
                DateView { year: year as int, month: month as int, day: day as int }),
                None => !is_calendar_date(year as int, month as int, day as int),
            },
    {
        if calendar_has(year, month, day) {
            Some(Date { year, month, day })
        } else {
            None
        }
    }

    /// Reads a date written as `YYYYMMDD`.
    pub fn parse(text: &str) -> (date: Result<Date, DateError>)
        ensures
            match date {
                Ok(d) => date_from_compact(text@) == Ok::<DateView, DateError>(d@) && 0 <= d@.year
                    < 10000,
                Err(reason) => date_from_compact(text@) == Err::<DateView, DateError>(reason),
            },
    {
        broadcast use vstd::string::is_ascii_spec_bytes;

        if !text.is_ascii() {
            assert(!is_compact(text@)) by {
                if is_compact(text@) {
                    assert forall|i: int| 0 <= i < text@.len() implies '\0' <= #[trigger] text@[i]
                        <= '\u{7f}' by {
                        assert(is_digit(text@[i]));
                    }
                }
            }
            return Err(DateError::NotEightDigits);
        }
        let bytes = text.as_bytes();
        assert(bytes@ =~= Seq::new(text@.len(), |i: int| text@[i] as u8));
        if bytes.len() != 8 {
            return Err(DateError::NotEightDigits);
        }
        let mut index: usize = 0;
        while index < 8
            invariant
                index <= 8,
                bytes@.len() == 8,
                text@.len() == 8,
                forall|i: int| 0 <= i < 8 ==> bytes@[i] == (#[trigger] text@[i]) as u8,
                forall|i: int| 0 <= i < 8 ==> '\0' <= #[trigger] text@[i] <= '\u{7f}',
                forall|i: int| 0 <= i < index ==> is_digit(#[trigger] text@[i]),
            decreases 8 - index,
        {
            if bytes[index] < 48 || bytes[index] > 57 {
                assert(!is_digit(text@[index as int]));
                return Err(DateError::NotEightDigits);
            }
            index += 1;
        }
        let year = read_number(bytes, 0, 4, Ghost(text@));
        let month = read_number(bytes, 4, 6, Ghost(text@));
        let day = read_number(bytes, 6, 8, Ghost(text@));
        match Date::from_ymd(year as i32, month, day) {
            Some(date) => Ok(date),
            None => Err(DateError::NoSuchDay),
        }
    }

    /// The year, from [`MIN_YEAR`] to [`MAX_YEAR`].
    pub fn year(&self) -> (year: i32)
        ensures
            year == self@.year,
            MIN_YEAR <= year <= MAX_YEAR,
    {
        proof {
            use_type_invariant(self);
        }
        self.year
    }

    /// The month, from 1 to 12.
    pub fn month(&self) -> (month: u32)
        ensures
            month == self@.month,
            1 <= month <= 12,
    {
        proof {
            use_type_invariant(self);
        }
        self.month
    }

    /// The day of the month, from 1 to 31.
    pub fn day(&self) -> (day: u32)
        ensures
            day == self@.day,
            1 <= day <= 31,
    {
        proof {
            use_type_invariant(self);
        }
        self.day
    }

    /// Whether this date comes before `other`.
    pub fn is_before(&self, other: &Date) -> (before: bool)
        ensures
            before == self@.is_before(other@),
    {
        self.year < other.year || (self.year == other.year && (self.month < other.month || (
        self.month == other.month && self.day < other.day)))
    }

    /// Whether this date lies in `[start, end)`.
    pub fn is_within(&self, start: &Date, end: &Date) -> (within: bool)
        ensures
            within == self@.is_within(start@, end@),
    {
        !self.is_before(start) && self.is_before(end)
    }

    /// The first day of the following month: of January of the next year
    /// after December. `None` where the calendar ends before it.
    pub fn next_month_start(&self) -> (start: Option<Date>)
        ensures
            view_of(start) == self@.next_month_start(),
    {
        proof {
            use_type_invariant(self);
        }
        if self.month == 12 {
            Date::from_ymd(self.year + 1, 1, 1)
        } else {
            Date::from_ymd(self.year, self.month + 1, 1)
        }
    }

    /// The date in print, as `YYYY-MM-DD`.
    pub fn to_string(&self) -> (text: String)
        ensures
            text@ == self@.text(),
    {
        proof {
            use_type_invariant(self);
        }
        print_date(self.year, self.month, self.day).unwrap()
    }
}

/// The period that starts on the date that a text stands for and ends
/// before the first day of the following month: the start and the first
/// day that lies outside. A date of eight digits always has a following
/// month.
pub open spec fn period_of(text: Seq<char>) -> Result<(DateView, DateView), DateError> {
    match date_from_compact(text) {
        Err(reason) => Err(reason),
        Ok(start) => {
            let (year, month) = start.following_month();
            Ok((start, DateView { year, month, day: 1 }))
        },
    }
}

/// The period that starts on the given date, written as `YYYYMMDD`, and
/// runs to the end of that date's month: the start, and the first day of
/// the following month, which lies outside the period.
pub fn get_date_boundaries(start_date_string: &str) -> (period: Result<(Date, Date), DateError>)
    ensures
        match period {
            Ok((start, end)) => period_of(start_date_string@) == Ok::<
                (DateView, DateView),
                DateError,
            >((start@, end@)),
            Err(reason) => period_of(start_date_string@) == Err::<(DateView, DateView), DateError>(
                reason,
            ),
        },
{
    let start = match Date::parse(start_date_string) {
        Ok(start) => start,
        Err(reason) => { return Err(reason); },
    };
    let end = start.next_month_start().unwrap();
    Ok((start, end))
}

} // verus!
