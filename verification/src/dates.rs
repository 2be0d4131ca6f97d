//! Calendar dates and plan months.
use crate::text::owned;
use vstd::prelude::*;

verus! {

pub open spec fn is_leap_year(year: int) -> bool {
    (year % 4 == 0 && year % 100 != 0) || year % 400 == 0
}

pub open spec fn days_in_month(year: int, month: int) -> int {
    if month == 2 {
        if is_leap_year(year) {
            29
        } else {
            28
        }
    } else if month == 4 || month == 6 || month == 9 || month == 11 {
        30
    } else {
        31
    }
}

/// A day of the proleptic Gregorian calendar within the years the `time` crate
/// represents (-9999 to 9999).
pub open spec fn valid_date(year: int, month: int, day: int) -> bool {
    &&& -9999 <= year <= 9999
    &&& 1 <= month <= 12
    &&& 1 <= day <= days_in_month(year, month)
}

/// A calendar date.
#[derive(Clone, Copy, Debug, PartialEq, Eq, Hash, PartialOrd, Ord)]
pub struct CalendarDate {
    year: i32,
    month: u8,
    day: u8,
}

impl CalendarDate {
    #[verifier::type_invariant]
    spec fn well_formed(self) -> bool {
        valid_date(self.year as int, self.month as int, self.day as int)
    }

    pub closed spec fn year_spec(self) -> int {
        self.year as int
    }

    pub closed spec fn month_spec(self) -> int {
        self.month as int
    }

    pub closed spec fn day_spec(self) -> int {
        self.day as int
    }

    /// The date with this year, month (1 to 12) and day, if there is one.
    pub fn new(year: i32, month: u8, day: u8) -> (result: Option<CalendarDate>)
        ensures
            match result {
                Some(date) => date.year_spec() == year && date.month_spec() == month
                    && date.day_spec() == day,
                None => !valid_date(year as int, month as int, day as int),
            },
    {
        if year < -9999 || year > 9999 || month < 1 || month > 12 || day < 1 {
            return None;
        }
        let leap = (year % 4 == 0 && year % 100 != 0) || year % 400 == 0;
        let last: u8 = if month == 2 {
            if leap {
                29
            } else {
                28
            }
        } else if month == 4 || month == 6 || month == 9 || month == 11 {
            30
        } else {
            31
        };
        if day > last {
            None
        } else {
            Some(CalendarDate { year, month, day })
        }
    }

    pub fn year(&self) -> (result: i32)
        ensures
            result == self.year_spec(),
    {
        self.year
    }

    pub fn month(&self) -> (result: u8)
        ensures
            result == self.month_spec(),
            1 <= result <= 12,
    {
        proof {
            use_type_invariant(self);
        }
        self.month
    }

    pub fn day(&self) -> (result: u8)
        ensures
            result == self.day_spec(),
            1 <= result <= 31,
    {
        proof {
            use_type_invariant(self);
        }
        self.day
    }

    /// The date as the `time` crate writes it (`YYYY-MM-DD` for years 0 to 9999). For
    /// those years, read back as an ISO 8601 date it is the same date.
    pub fn to_string(&self) -> (result: String)
        ensures
            result@ == date_text(self.year_spec(), self.month_spec(), self.day_spec()),
            0 <= self.year_spec() ==> iso_date_parsed(result@) == date_read(
                self.year_spec(),
                self.month_spec(),
                self.day_spec(),
            ),
    {
        proof {
            use_type_invariant(self);
        }
        format_date(self.year, self.month, self.day)
    }
}

/// The decimal digit `d` (0 to 9) as a character.
pub open spec fn digit_char(d: int) -> char {
    (48 + d) as char
}

/// The last `width` decimal digits of `n`, with leading zeros.
pub open spec fn zero_padded(n: nat, width: nat) -> Seq<char>
    decreases width,
{
    if width == 0 {
        Seq::empty()
    } else {
        zero_padded(n / 10, (width - 1) as nat).push(digit_char((n % 10) as int))
    }
}

/// The text the `time` crate's `Display` writes for a date of the years -9999 to 9999:
/// a minus sign for a year before 0, the year in four digits, then the month and the
/// day in two digits each, joined by hyphens (`2026-01-01`).
pub open spec fn date_text(year: int, month: int, day: int) -> Seq<char> {
    let sign = if year < 0 {
        seq!['-']
    } else {
        Seq::<char>::empty()
    };
    let magnitude = if year < 0 {
        -year
    } else {
        year
    };
    sign + zero_padded(magnitude as nat, 4) + seq!['-'] + zero_padded(month as nat, 2) + seq!['-']
        + zero_padded(day as nat, 2)
}

/// What `time::Date::parse` with the ISO 8601 date format makes of a text: the year,
/// month and day, or the message of its error.
pub uninterp spec fn iso_date_parsed(text: Seq<char>) -> Result<(int, int, int), Seq<char>>;

/// A successful ISO 8601 read of this date.
pub open spec fn date_read(year: int, month: int, day: int) -> Result<(int, int, int), Seq<char>> {
    Ok((year, month, day))
}

/// Calls `time::Date::from_calendar_date` and then `Display`. Trusted: the text is the
/// one `date_text` describes, and for the years 0 to 9999 `Date::parse` with the ISO
/// 8601 date format reads it back to the same date (it reads a signed year only in six
/// digits, so the text of a year before 0 does not read back).
#[verifier::external_body]
fn format_date(year: i32, month: u8, day: u8) -> (result: String)
    requires
        valid_date(year as int, month as int, day as int),
    ensures
        result@ == date_text(year as int, month as int, day as int),
        0 <= year ==> iso_date_parsed(result@) == date_read(year as int, month as int, day as int),
{
    let month = time::Month::try_from(month).expect("month in 1..=12");
    time::Date::from_calendar_date(year, month, day).expect("valid calendar date").to_string()
}

/// Calls `time::Date::parse(text, &Iso8601::DATE)`. Trusted: the date, or the error's
/// message, is the one named by `iso_date_parsed`; a parsed date is a valid calendar
/// date, since `time::Date` holds no other.
#[verifier::external_body]
fn parse_iso_date(text: &str) -> (result: Result<CalendarDate, String>)
    ensures
        match result {
            Ok(date) => iso_date_parsed(text@) == Ok::<(int, int, int), Seq<char>>(
                (date.year_spec(), date.month_spec(), date.day_spec()),
            ),
            Err(message) => iso_date_parsed(text@) == Err::<(int, int, int), Seq<char>>(
                message@,
            ),
        },
{
    match time::Date::parse(text, &time::format_description::well_known::Iso8601::DATE) {
        Ok(date) => Ok(CalendarDate { year: date.year(), month: date.month() as u8, day: date.day() }),
        Err(error) => Err(error.to_string()),
    }
}

impl CalendarDate {
    /// Reads an ISO 8601 calendar date (`YYYY-MM-DD`).
    pub fn parse_iso(text: &str) -> (result: Result<CalendarDate, String>)
        ensures
            match result {
                Ok(date) => iso_date_parsed(text@) == Ok::<(int, int, int), Seq<char>>(
                    (date.year_spec(), date.month_spec(), date.day_spec()),
                ),
                Err(message) => iso_date_parsed(text@) == Err::<(int, int, int), Seq<char>>(
                    message@,
                ),
            },
    {
        parse_iso_date(text)
    }
}

/// The error of a month that is not the first day of its month.
#[derive(Clone, Copy, Debug, PartialEq, Eq, Structural)]
pub struct PlanMonthError;

impl PlanMonthError {
    /// The error's message.
    pub fn message(&self) -> (result: String)
        ensures
            result@ == "month must be the first day of its UTC month"@,
    {
        owned("month must be the first day of its UTC month")
    }
}

/// A plan month, written as the first day of the month.
#[derive(Clone, Copy, Debug, PartialEq, Eq, Hash, PartialOrd, Ord)]
pub struct PlanMonth(CalendarDate);

impl PlanMonth {
    #[verifier::type_invariant]
    spec fn well_formed(self) -> bool {
        self.0.day_spec() == 1
    }

    pub closed spec fn date_spec(self) -> CalendarDate {
        self.0
    }

    /// The month that starts on `date`; an error unless `date` is the first of a month.
    pub fn new(date: CalendarDate) -> (result: Result<PlanMonth, PlanMonthError>)
        ensures
            date.day_spec() == 1 ==> (result matches Ok(month) && month.date_spec() == date),
            date.day_spec() != 1 ==> result == Err::<PlanMonth, PlanMonthError>(PlanMonthError),
    {
        if date.day() == 1 {
            Ok(PlanMonth(date))
        } else {
            Err(PlanMonthError)
        }
    }

    pub fn date(self) -> (result: CalendarDate)
        ensures
            result == self.date_spec(),
            result.day_spec() == 1,
    {
        proof {
            use_type_invariant(&self);
        }
        self.0
    }

    /// The month's first day as the `time` crate writes it. For the years 0 to 9999,
    /// read back with `from_str` it is the same month.
    pub fn to_string(&self) -> (result: String)
        ensures
            result@ == date_text(
                self.date_spec().year_spec(),
                self.date_spec().month_spec(),
                self.date_spec().day_spec(),
            ),
            0 <= self.date_spec().year_spec() ==> iso_date_parsed(result@) == date_read(
                self.date_spec().year_spec(),
                self.date_spec().month_spec(),
                1,
            ),
    {
        proof {
            use_type_invariant(self);
        }
        self.0.to_string()
    }

    /// Reads an ISO 8601 date that is the first day of its month.
    pub fn from_str(value: &str) -> (result: Result<PlanMonth, PlanMonthError>)
        ensures
            match iso_date_parsed(value@) {
                Ok((year, month, day)) => if day == 1 {
                    result matches Ok(m) && m.date_spec().year_spec() == year
                        && m.date_spec().month_spec() == month && m.date_spec().day_spec() == 1
                } else {
                    result == Err::<PlanMonth, PlanMonthError>(PlanMonthError)
                },
                Err(_) => result == Err::<PlanMonth, PlanMonthError>(PlanMonthError),
            },
    {
        match parse_iso_date(value) {
            Ok(date) => PlanMonth::new(date),
            Err(_) => Err(PlanMonthError),
        }
    }
}

} // verus!
