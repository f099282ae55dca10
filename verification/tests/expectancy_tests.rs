use chrono::Datelike;
use oddscalc::gender::Gender;
use oddscalc::expectancy::{days_left, days_left_at, expected_age_of_death,
    expected_age_of_death_at};
use oddscalc::mortality::LifeExpectancyArgs;
use oddscalc::Error;

#[test]
fn expected_age_is_the_midpoint_of_the_remaining_ages() {
    // The walk visits ages 30..=109 with one frozen weight, so the weighted
    // mean is (30 + 109) / 2 = 69.5 years, i.e. 139 half-years.
    assert_eq!(expected_age_of_death_at(30, Gender::Male), Ok(139));
    assert_eq!(expected_age_of_death_at(1, Gender::Female), Ok(110));
    assert_eq!(expected_age_of_death_at(44, Gender::Female), Ok(153));
}

#[test]
fn nonpositive_weight_fails_the_estimate() {
    // Age 40 male: rate 1.6 per-mille, so each step's weight 1 - 1.6 is
    // negative and the total weight is not positive.
    assert_eq!(expected_age_of_death_at(40, Gender::Male), Err(Error::WeightNotPositive));
    assert_eq!(expected_age_of_death_at(45, Gender::Female), Err(Error::WeightNotPositive));
    // A newborn's rate 3.3 per-mille also exceeds 1.
    assert_eq!(expected_age_of_death_at(0, Gender::Male), Err(Error::WeightNotPositive));
    // From 110 up the walk is empty and the total weight is zero.
    assert_eq!(expected_age_of_death_at(110, Gender::Male), Err(Error::WeightNotPositive));
    assert_eq!(expected_age_of_death_at(200, Gender::Female), Err(Error::WeightNotPositive));
}

#[test]
fn days_left_counts_half_the_surplus_years() {
    // (109 - 30) / 2 years at 365.25 days: 79 * 1461 / 8 = 14427 (rounded
    // down from 14427.375).
    assert_eq!(days_left_at(30, Gender::Male), Ok(14427));
    // (109 - 1) / 2 * 365.25 = 19723.5, rounded down.
    assert_eq!(days_left_at(1, Gender::Female), Ok(19723));
}

#[test]
fn days_left_passes_the_weight_error_on() {
    assert_eq!(days_left_at(0, Gender::Male), Err(Error::WeightNotPositive));
    assert_eq!(days_left_at(64, Gender::Female), Err(Error::WeightNotPositive));
    assert_eq!(days_left_at(110, Gender::Male), Err(Error::WeightNotPositive));
}

#[test]
fn the_walk_never_reports_too_old() {
    // The "too old" error would need an expected age of death at or below
    // the current age, which the table never produces: every age whose rate
    // keeps the weight positive lies well below the midpoint with 109.
    for age in 0..=255u8 {
        for gender in [Gender::Male, Gender::Female] {
            assert_ne!(days_left_at(age, gender), Err(Error::TooOld));
        }
    }
}

#[test]
fn clock_versions_agree_with_the_age_versions() {
    let now = chrono::Utc::now();
    let birth_year: usize = 1995;
    let leap = birth_year % 4 == 0 && (birth_year % 100 != 0 || birth_year % 400 == 0);
    let june_15 = if leap { 167 } else { 166 };
    let age = (now.year() - birth_year as i32 - i32::from(now.ordinal() < june_15)) as u8;
    let args = LifeExpectancyArgs { year: birth_year, gender: Gender::Female };
    assert_eq!(expected_age_of_death(args), expected_age_of_death_at(age, Gender::Female));
    assert_eq!(days_left(args), days_left_at(age, Gender::Female));
}

#[test]
fn future_birth_year_fails_days_left() {
    let args = LifeExpectancyArgs { year: 999_999, gender: Gender::Male };
    assert_eq!(days_left(args), Err(Error::AgeOutOfRange));
    assert_eq!(expected_age_of_death(args), Err(Error::AgeOutOfRange));
}

#[test]
fn expectancy_error_message_wording() {
    assert_eq!(Error::WeightNotPositive.message(), "Failed to calculate expected age of death.");
    assert_eq!(Error::TooOld.message(), "you are too old");
}
