//! French actuarial mortality lookup: a fixed table of per-age-band death
//! rates, and the derivation of a person's current age from their birth year.
//!
//! Rates are carried in tenths of per-mille, so the table value 3.3 per
//! thousand is stored as 33. Divided by 10000 that is the probability of
//! dying within the next year.

use vstd::prelude::*;
use crate::Error;
use crate::gender::Gender;

verus! {

/// The mortality rate for an age and gender, in tenths of per-mille.
/// Ages outside the table's bands (above 110) have rate 0.
pub open spec fn rate_tenths_spec(age: int, gender: Gender) -> int {
    let male = gender == Gender::Male;
    if age < 0 {
        0
    } else if age == 0 {
        if male { 33 } else { 28 }
    } else if age <= 4 {
        2
    } else if age <= 9 {
        1
    } else if age <= 14 {
        1
    } else if age <= 19 {
        if male { 3 } else { 1 }
    } else if age <= 24 {
        if male { 5 } else { 2 }
    } else if age <= 29 {
        if male { 7 } else { 2 }
    } else if age <= 34 {
        if male { 8 } else { 3 }
    } else if age <= 39 {
        if male { 11 } else { 5 }
    } else if age <= 44 {
        if male { 16 } else { 8 }
    } else if age <= 49 {
        if male { 27 } else { 14 }
    } else if age <= 54 {
        if male { 42 } else { 23 }
    } else if age <= 59 {
        if male { 67 } else { 34 }
    } else if age <= 64 {
        if male { 107 } else { 50 }
    } else if age <= 69 {
        if male { 156 } else { 72 }
    } else if age <= 79 {
        if male { 269 } else { 136 }
    } else if age <= 89 {
        if male { 796 } else { 517 }
    } else if age <= 110 {
        if male { 2356 } else { 1859 }
    } else {
        0
    }
}

/// Looks an age up in the mortality table. The result is in tenths of
/// per-mille: dividing by 10000 gives the probability of dying within the
/// next year.
pub fn mortality_rate_tenths(age: u8, gender: Gender) -> (r: u32)
    ensures
        r == rate_tenths_spec(age as int, gender),
{
    let (male_rate, female_rate): (u32, u32) = if age == 0 {
        (33, 28)
    } else if age <= 4 {
        (2, 2)
    } else if age <= 9 {
        (1, 1)
    } else if age <= 14 {
        (1, 1)
    } else if age <= 19 {
        (3, 1)
    } else if age <= 24 {
        (5, 2)
    } else if age <= 29 {
        (7, 2)
    } else if age <= 34 {
        (8, 3)
    } else if age <= 39 {
        (11, 5)
    } else if age <= 44 {
        (16, 8)
    } else if age <= 49 {
        (27, 14)
    } else if age <= 54 {
        (42, 23)
    } else if age <= 59 {
        (67, 34)
    } else if age <= 64 {
        (107, 50)
    } else if age <= 69 {
        (156, 72)
    } else if age <= 79 {
        (269, 136)
    } else if age <= 89 {
        (796, 517)
    } else if age <= 110 {
        (2356, 1859)
    } else {
        (0, 0)
    };
    match gender {
        Gender::Male => male_rate,
        Gender::Female => female_rate,
    }
}

/// The Gregorian leap-year rule.
pub open spec fn is_leap_year(year: int) -> bool {
    year % 4 == 0 && (year % 100 != 0 || year % 400 == 0)
}

/// The day of the year of June 15: day 166, or 167 in a leap year.
pub open spec fn june_15_ordinal(year: int) -> int {
    if is_leap_year(year) { 167 } else { 166 }
}

/// The age, on day `now_ordinal` of year `now_year`, of a person born on
/// June 15 of `year`: the year difference, less one if June 15's day of the
/// year has not been reached yet.
pub open spec fn age_on(year: int, now_year: int, now_ordinal: int) -> int {
    now_year - year - (if now_ordinal < june_15_ordinal(year) { 1int } else { 0int })
}

/// The age as the lookup needs it: an error when it does not fit a small
/// non-negative integer, e.g. for a birth year in the future.
pub open spec fn age_result_spec(year: int, now_year: int, now_ordinal: int) -> Result<u8, Error> {
    let a = age_on(year, now_year, now_ordinal);
    if 0 <= a <= 255 {
        Ok(a as u8)
    } else {
        Err(Error::AgeOutOfRange)
    }
}

/// Derives the current age from the birth year and the given calendar date,
/// with the birth date fixed at June 15 of the birth year.
pub fn age_from_date(year: usize, now_year: i32, now_ordinal: u32) -> (r: Result<u8, Error>)
    ensures
        r == age_result_spec(year as int, now_year as int, now_ordinal as int),
{
    let leap = year % 4 == 0 && (year % 100 != 0 || year % 400 == 0);
    let birth_ordinal: u32 = if leap { 167 } else { 166 };
    let adjust: i128 = if now_ordinal < birth_ordinal { 1 } else { 0 };
    let age: i128 = now_year as i128 - year as i128 - adjust;
    if 0 <= age && age <= 255 {
        Ok(age as u8)
    } else {
        Err(Error::AgeOutOfRange)
    }
}

/// Relies on `chrono::Utc::now` for the current UTC date and on
/// `chrono::Datelike::year` / `chrono::Datelike::ordinal` to read its
/// calendar year and day of the year; chrono documents the day of the year
/// as ranging over 1..=366. Nothing more is assumed: the date is whatever
/// the system clock says. Note that `chrono::Utc::now` itself panics when
/// the system clock predates the Unix epoch; the guarantee here is of every
/// normal return.
#[verifier::external_body]
pub(crate) fn current_year_and_ordinal() -> (r: (i32, u32))
    ensures
        1 <= r.1 <= 366,
{
    let now = chrono::Utc::now();
    (chrono::Datelike::year(&now), chrono::Datelike::ordinal(&now))
}

/// The mortality rate looked up at a given calendar date: the age derived
/// from the birth year, then the table column for the gender.
pub open spec fn rate_result_spec(
    year: int,
    gender: Gender,
    now_year: int,
    now_ordinal: int,
) -> Result<u32, Error> {
    match age_result_spec(year, now_year, now_ordinal) {
        Ok(a) => Ok(rate_tenths_spec(a as int, gender) as u32),
        Err(e) => Err(e),
    }
}

/// A birth year and a gender: the inputs of the life-expectancy commands.
#[derive(Clone, Copy, Debug, PartialEq, Eq, Structural)]
pub struct LifeExpectancyArgs {
    /// Year of birth.
    pub year: usize,
    /// Selects the mortality table's column.
    pub gender: Gender,
}

impl LifeExpectancyArgs {
    /// Reads the clock once and derives the current age from the birth
    /// year. The result is the model's answer for the date the clock gave,
    /// which is some date with a day of the year in 1..=366.
    pub fn age_now(&self) -> (r: Result<u8, Error>)
        ensures
            exists|ny: int, no: int|
                1 <= no <= 366 && r == age_result_spec(self.year as int, ny, no),
    {
        let (ny, no) = current_year_and_ordinal();
        let r = age_from_date(self.year, ny, no);
        proof {
            assert(1 <= no as int <= 366
                && r == age_result_spec(self.year as int, ny as int, no as int));
        }
        r
    }

    /// Looks the current age up in the mortality table, in tenths of
    /// per-mille, for the date the clock gave.
    pub fn survival_rate_fr(&self) -> (r: Result<u32, Error>)
        ensures
            exists|ny: int, no: int|
                1 <= no <= 366 && r == rate_result_spec(self.year as int, self.gender, ny, no),
    {
        let (ny, no) = current_year_and_ordinal();
        let r = match age_from_date(self.year, ny, no) {
            Ok(age) => Ok(mortality_rate_tenths(age, self.gender)),
            Err(e) => Err(e),
        };
        proof {
            assert(1 <= no as int <= 366
                && r == rate_result_spec(self.year as int, self.gender, ny as int, no as int));
        }
        r
    }
}

/// The probability of dying within the next year, in hundredths of a
/// percent: the table's per-mille rate divided by 1000 is the probability,
/// so the rate 3.3 per-mille comes back as 33, i.e. 0.33%.
pub fn die_next_year_france(args: LifeExpectancyArgs) -> (r: Result<u32, Error>)
    ensures
        exists|ny: int, no: int|
            1 <= no <= 366 && r == rate_result_spec(args.year as int, args.gender, ny, no),
{
    args.survival_rate_fr()
}

} // verus!
