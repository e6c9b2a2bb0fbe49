use vstd::prelude::*;

verus! {

#[verifier::external_type_specification]
#[verifier::external_body]
pub struct ExParseError(chrono::format::ParseError);

/// The number of days that one year of age stands for. Age is a linear
/// approximation: leap days and month boundaries are not taken into account.
pub const DAYS_PER_YEAR: i64 = 365;

/// The largest age that a profile can hold.
pub const MAX_AGE: i64 = 255;

/// Why a profile could not be built.
#[derive(Debug, Clone, Copy, PartialEq, Eq, Structural)]
pub enum ProfileError {
    /// The birth date is not a calendar date in the form `YYYY-MM-DD`.
    InvalidBirthDate,
    /// The birth date lies after the current date.
    BirthDateInFuture,
    /// The age does not fit the range of a profile's age.
    AgeOutOfRange,
}

/// The format a birth date is written in.
pub open spec fn birth_date_format() -> Seq<char> {
    "%Y-%m-%d"@
}

pub open spec fn is_digit(c: char) -> bool {
    '0' <= c && c <= '9'
}

pub open spec fn digit_value(c: char) -> int {
    c as int - '0' as int
}

/// The number written by the two digits of `s` at `i` and `i + 1`.
pub open spec fn two_digits(s: Seq<char>, i: int) -> int {
    10 * digit_value(s[i]) + digit_value(s[i + 1])
}

pub open spec fn iso_year(s: Seq<char>) -> int {
    100 * two_digits(s, 0) + two_digits(s, 2)
}

pub open spec fn iso_month(s: Seq<char>) -> int {
    two_digits(s, 5)
}

pub open spec fn iso_day(s: Seq<char>) -> int {
    two_digits(s, 8)
}

/// Leap years of the proleptic Gregorian calendar.
pub open spec fn is_leap_year(y: int) -> bool {
    (y % 4 == 0 && y % 100 != 0) || y % 400 == 0
}

pub open spec fn days_in_month(y: int, m: int) -> int {
    if m == 2 {
        if is_leap_year(y) {
            29
        } else {
            28
        }
    } else if m == 4 || m == 6 || m == 9 || m == 11 {
        30
    } else {
        31
    }
}

/// The days of year `y` that come before the first day of month `m`.
pub open spec fn days_before_month(y: int, m: int) -> int
    decreases m,
{
    if m <= 1 {
        0
    } else {
        days_before_month(y, m - 1) + days_in_month(y, m - 1)
    }
}

/// Day number of a date of the proleptic Gregorian calendar, counted so that
/// 0001-01-01 is day 1.
pub open spec fn day_number(y: int, m: int, d: int) -> int {
    let p = y - 1;
    365 * p + p / 4 - p / 100 + p / 400 + days_before_month(y, m) + d
}

/// `s` is exactly a calendar date written `YYYY-MM-DD`, with four, two and
/// two ASCII digits.
pub open spec fn is_iso_date(s: Seq<char>) -> bool {
    &&& s.len() == 10
    &&& s[4] == '-'
    &&& s[7] == '-'
    &&& forall|i: int| 0 <= i < 10 && i != 4 && i != 7 ==> is_digit(#[trigger] s[i])
    &&& 1 <= iso_month(s) <= 12
    &&& 1 <= iso_day(s) <= days_in_month(iso_year(s), iso_month(s))
}

/// The day number of a date written `YYYY-MM-DD`.
pub open spec fn iso_day_number(s: Seq<char>) -> int {
    day_number(iso_year(s), iso_month(s), iso_day(s))
}

/// The day number that chrono reads from text `s` in format `fmt`, if it
/// reads a date there.
pub uninterp spec fn parsed_day_number(s: Seq<char>, fmt: Seq<char>) -> Option<int>;

/// Relies on chrono's `NaiveDate::parse_from_str`, which reads a date from
/// `s` in the strftime format `fmt` and fails when the text does not match
/// the format or names no calendar date, and on `Datelike::num_days_from_ce`,
/// which counts days so that 0001-01-01 is day 1.
#[verifier::external_body]
fn parse_day_number(s: &str, fmt: &str) -> (r: Result<i32, chrono::format::ParseError>)
    ensures
        match r {
            Ok(d) => parsed_day_number(s@, fmt@) == Some(d as int),
            Err(_) => parsed_day_number(s@, fmt@) is None,
        },
        fmt@ == birth_date_format() && is_iso_date(s@) ==> r is Ok && r->Ok_0 as int
            == iso_day_number(s@),
{
    match chrono::NaiveDate::parse_from_str(s, fmt) {
        Ok(d) => Ok(chrono::Datelike::num_days_from_ce(&d)),
        Err(e) => Err(e),
    }
}

/// Relies on chrono's `Utc::now`, `DateTime::date_naive` and
/// `Datelike::num_days_from_ce`: the current UTC date as a day number. Nothing
/// is known of its value.
#[verifier::external_body]
pub(crate) fn today_day_number() -> (r: i32) {
    chrono::Datelike::num_days_from_ce(&chrono::Utc::now().date_naive())
}

/// Reads a birth date written `YYYY-MM-DD` and returns its day number
/// (0001-01-01 is day 1).
pub fn parse_birth_date(s: &str) -> (r: Result<i32, ProfileError>)
    ensures
        r is Ok <==> parsed_day_number(s@, birth_date_format()) is Some,
        r matches Ok(d) ==> parsed_day_number(s@, birth_date_format()) == Some(d as int),
        r matches Err(e) ==> e == ProfileError::InvalidBirthDate,
        is_iso_date(s@) ==> (r matches Ok(d) && d as int == iso_day_number(s@)),
{
    match parse_day_number(s, "%Y-%m-%d") {
        Ok(d) => Ok(d),
        Err(_) => Err(ProfileError::InvalidBirthDate),
    }
}

/// The age in whole years of someone born on day `birth`, on day `today`:
/// the days between the two divided by 365, rounded down.
pub open spec fn age_outcome(today: int, birth: int) -> Result<int, ProfileError> {
    if today < birth {
        Err(ProfileError::BirthDateInFuture)
    } else if (today - birth) / (DAYS_PER_YEAR as int) > MAX_AGE {
        Err(ProfileError::AgeOutOfRange)
    } else {
        Ok((today - birth) / (DAYS_PER_YEAR as int))
    }
}

/// Computes the age on day `today` of someone born on day `birth`.
pub fn age_in_years(today: i32, birth: i32) -> (r: Result<u8, ProfileError>)
    ensures
        match r {
            Ok(a) => age_outcome(today as int, birth as int) == Ok::<int, ProfileError>(a as int),
            Err(e) => age_outcome(today as int, birth as int) == Err::<int, ProfileError>(e),
        },
        today >= birth ==> (r matches Ok(a) ==> a as int == (today - birth) / 365 && a >= 0),
{
    let days: i64 = today as i64 - birth as i64;
    if days < 0 {
        Err(ProfileError::BirthDateInFuture)
    } else {
        let years: i64 = days / DAYS_PER_YEAR;
        if years > MAX_AGE {
            Err(ProfileError::AgeOutOfRange)
        } else {
            Ok(years as u8)
        }
    }
}

} // verus!
