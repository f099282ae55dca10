//! Expected age of death and days of life remaining.
//!
//! Starting at the current age, the estimate walks the ages up to 110 and
//! accumulates a weighted sum, where each step's weight is one minus the
//! mortality rate of the starting age (the rate is deliberately frozen at
//! the starting age at every step; the weights therefore all agree). The
//! expected age of death is the weighted mean of the visited ages, and is
//! defined only when the total weight is positive.
//!
//! Weights are carried in tenths: the weight 1 - rate becomes
//! 10 - rate_tenths.

use vstd::prelude::*;
use vstd::arithmetic::div_mod::lemma_div_multiples_vanish;
use crate::Error;
use crate::gender::Gender;
use crate::mortality::{
    age_result_spec, age_from_date, current_year_and_ordinal, mortality_rate_tenths,
    rate_tenths_spec, LifeExpectancyArgs,
};

verus! {

/// One step's weight, in tenths: ten times (1 - rate), with the rate taken
/// from the table in tenths of per-mille.
pub open spec fn death_weight_tenths(age: int, gender: Gender) -> int {
    10 - rate_tenths_spec(age, gender)
}

/// The total weight accumulated over the simulated ages in [age, i), with
/// the rate frozen at the starting age.
pub open spec fn weight_units(age: int, gender: Gender, i: int) -> int
    decreases i - age,
{
    if i <= age {
        0
    } else {
        weight_units(age, gender, i - 1) + death_weight_tenths(age, gender)
    }
}

/// The weighted sum of the simulated ages in [age, i), with the rate frozen
/// at the starting age.
pub open spec fn weighted_age_units(age: int, gender: Gender, i: int) -> int
    decreases i - age,
{
    if i <= age {
        0
    } else {
        weighted_age_units(age, gender, i - 1) + (i - 1) * death_weight_tenths(age, gender)
    }
}

/// The estimate is defined exactly when the total weight is positive: the
/// walk must be non-empty (age below 110) and the frozen per-step weight
/// positive (rate below 1 per-mille).
pub open spec fn expectancy_ok(age: int, gender: Gender) -> bool {
    age < 110 && rate_tenths_spec(age, gender) < 10
}

/// The expected age of death in half-years: the weighted mean of the ages
/// age..=109, which comes to (age + 109) / 2 years since the weights all
/// agree.
pub open spec fn expected_result_spec(age: int, gender: Gender) -> Result<u16, Error> {
    if expectancy_ok(age, gender) {
        Ok((age + 109) as u16)
    } else {
        Err(Error::WeightNotPositive)
    }
}

/// Days from `age` to the expected age of death: half the half-year surplus
/// (109 - age), at 365.25 days a year, rounded down.
pub open spec fn days_left_count(age: int) -> int
    recommends
        age <= 109,
{
    (109 - age) * 1461 / 8
}

/// What days-left reports: the weight error is passed on; an expected age
/// of death at or below the current age is the "too old" error; otherwise
/// the day count.
pub open spec fn days_result_spec(age: int, gender: Gender) -> Result<u32, Error> {
    if !expectancy_ok(age, gender) {
        Err(Error::WeightNotPositive)
    } else if age + 109 <= 2 * age {
        Err(Error::TooOld)
    } else {
        Ok(days_left_count(age) as u32)
    }
}

/// The total weight in closed form: each of the 110 - age steps adds the
/// same frozen weight.
pub proof fn lemma_weight_units_closed(age: int, gender: Gender, i: int)
    requires
        age <= i,
    ensures
        weight_units(age, gender, i) == (i - age) * death_weight_tenths(age, gender),
    decreases i - age,
{
    let d = death_weight_tenths(age, gender);
    if i > age {
        lemma_weight_units_closed(age, gender, i - 1);
        assert(weight_units(age, gender, i) == weight_units(age, gender, i - 1) + d);
        assert((i - age) * d == (i - 1 - age) * d + d) by (nonlinear_arith);
    } else {
        assert(weight_units(age, gender, i) == 0);
        assert((i - age) * d == 0) by (nonlinear_arith)
            requires
                i == age,
        ;
    }
}

/// The weighted age sum in closed form: twice the sum is the step count
/// times the first and last visited ages' total, times the frozen weight.
pub proof fn lemma_weighted_age_units_closed(age: int, gender: Gender, i: int)
    requires
        age <= i,
    ensures
        2 * weighted_age_units(age, gender, i) == (i - age) * (age + i - 1) * death_weight_tenths(
            age,
            gender,
        ),
    decreases i - age,
{
    let d = death_weight_tenths(age, gender);
    if i > age {
        lemma_weighted_age_units_closed(age, gender, i - 1);
        assert(weighted_age_units(age, gender, i) == weighted_age_units(age, gender, i - 1) + (i
            - 1) * d);
        assert((i - age) * (age + i - 1) * d == (i - 1 - age) * (age + i - 2) * d + 2 * ((i - 1)
            * d)) by (nonlinear_arith);
    } else {
        assert(weighted_age_units(age, gender, i) == 0);
        assert((i - age) * (age + i - 1) * d == 0) by (nonlinear_arith)
            requires
                i == age,
        ;
    }
}

/// The weighted-mean identity behind the estimate: since every step of the
/// walk to 110 carries the same weight, twice the weighted age sum equals
/// the total weight times (age + 109) — the mean age is (age + 109) / 2,
/// whatever the frozen weight is.
pub proof fn lemma_expectancy_weighted_mean(age: int, gender: Gender)
    requires
        0 <= age <= 110,
    ensures
        2 * weighted_age_units(age, gender, 110) == weight_units(age, gender, 110) * (age + 109),
{
    let d = death_weight_tenths(age, gender);
    lemma_weight_units_closed(age, gender, 110);
    lemma_weighted_age_units_closed(age, gender, 110);
    assert((110 - age) * (age + 109) * d == ((110 - age) * d) * (age + 109)) by (nonlinear_arith);
}

/// If the expected age of death does not exceed the current age, days-left
/// reports the "too old" error rather than a day count.
pub proof fn lemma_days_left_too_old(age: int, gender: Gender)
    requires
        expected_result_spec(age, gender) is Ok,
        expected_result_spec(age, gender)->Ok_0 <= 2 * age,
    ensures
        days_result_spec(age, gender) == Err::<u32, Error>(Error::TooOld),
{
}

/// With this mortality table the "too old" error never actually comes
/// back: reaching the expected age of death would take an age of at least
/// 109, and from age 35 on every male rate (from 45 on every female rate)
/// exceeds 1 per-mille, which already fails the walk's weight.
pub proof fn lemma_too_old_is_unreachable(age: int, gender: Gender)
    ensures
        days_result_spec(age, gender) != Err::<u32, Error>(Error::TooOld),
{
}

/// Runs the weighted walk from `age` to 110 and returns the expected age of
/// death in half-years (e.g. 139 for 69.5 years), or the weight error when
/// the total weight is not positive.
pub fn expected_age_of_death_at(age: u8, gender: Gender) -> (r: Result<u16, Error>)
    ensures
        r == expected_result_spec(age as int, gender),
        r is Ok ==> 2 * weighted_age_units(age as int, gender, 110) == weight_units(
            age as int,
            gender,
            110,
        ) * (r->Ok_0 as int),
{
    let rate = mortality_rate_tenths(age, gender);
    proof {
        assert(0 <= rate_tenths_spec(age as int, gender) <= 2356);
    }
    let d: i64 = 10 - rate as i64;
    let mut w: i64 = 0;
    let mut ta: i64 = 0;
    let mut a: u16 = age as u16;
    while a < 110
        invariant
            age as int <= a as int,
            a as int <= 110 || a as int == age as int,
            d == death_weight_tenths(age as int, gender),
            -2346 <= d <= 10,
            w == weight_units(age as int, gender, a as int),
            ta == weighted_age_units(age as int, gender, a as int),
            -2346 * (a as int - age as int) <= w <= 10 * (a as int - age as int),
            -258060 * (a as int - age as int) <= ta <= 1100 * (a as int - age as int),
        decreases 110 - a as int,
    {
        proof {
            assert(-258060 <= (a as int) * d && (a as int) * d <= 1100) by (nonlinear_arith)
                requires
                    0 <= a as int,
                    (a as int) < 110,
                    -2346 <= d <= 10,
            ;
        }
        w = w + d;
        ta = ta + (a as i64) * d;
        a = a + 1;
    }
    if w > 0 {
        proof {
            // A positive total weight forces a non-empty walk, so the loop
            // ran from age to 110.
            assert(a as int == 110);
            lemma_weight_units_closed(age as int, gender, 110);
            lemma_expectancy_weighted_mean(age as int, gender);
            // With 110 - age of the same weight summing to something
            // positive, the weight itself is positive.
            assert((110 - age as int) * d > 0 ==> d > 0) by (nonlinear_arith)
                requires
                    0 <= 110 - age as int,
            ;
            // Twice the weighted age sum is non-negative, being w times a
            // positive mean.
            assert(w * (age as int + 109) > 0) by (nonlinear_arith)
                requires
                    w > 0,
                    0 <= age as int,
            ;
        }
        let top: u64 = (2 * ta) as u64;
        let bottom: u64 = w as u64;
        let h: u64 = top / bottom;
        proof {
            lemma_div_multiples_vanish(age as int + 109, w as int);
            assert((w as int * (age as int + 109)) / (w as int) == age as int + 109);
            assert(top as int == w as int * (age as int + 109));
        }
        Ok(h as u16)
    } else {
        proof {
            // A non-positive total weight refutes both ways the estimate
            // could have been defined.
            lemma_weight_units_closed(age as int, gender, a as int);
            if age < 110 {
                assert(a as int == 110);
                assert(d > 0 ==> (110 - age as int) * d > 0) by (nonlinear_arith)
                    requires
                        0 < 110 - age as int,
                ;
            }
        }
        Err(Error::WeightNotPositive)
    }
}

/// Days from the current age to the expected age of death, at 365.25 days a
/// year, rounded down; the "too old" error when the expected age of death
/// does not exceed the current age.
pub fn days_left_at(age: u8, gender: Gender) -> (r: Result<u32, Error>)
    ensures
        r == days_result_spec(age as int, gender),
{
    match expected_age_of_death_at(age, gender) {
        Err(e) => Err(e),
        Ok(h) => {
            let twice_age: u16 = 2 * (age as u16);
            if h <= twice_age {
                Err(Error::TooOld)
            } else {
                let diff: u32 = (h - twice_age) as u32;
                let days: u32 = diff * 1461 / 8;
                Ok(days)
            }
        },
    }
}

/// The expected age of death at a given calendar date: the age derived from
/// the birth year, then the weighted walk.
pub open spec fn expected_at_date_spec(
    year: int,
    gender: Gender,
    now_year: int,
    now_ordinal: int,
) -> Result<u16, Error> {
    match age_result_spec(year, now_year, now_ordinal) {
        Ok(a) => expected_result_spec(a as int, gender),
        Err(e) => Err(e),
    }
}

/// Days left at a given calendar date.
pub open spec fn days_at_date_spec(
    year: int,
    gender: Gender,
    now_year: int,
    now_ordinal: int,
) -> Result<u32, Error> {
    match age_result_spec(year, now_year, now_ordinal) {
        Ok(a) => days_result_spec(a as int, gender),
        Err(e) => Err(e),
    }
}

/// Reads the clock once and runs the expectancy walk on the current age.
/// The result is the model's answer for the date the clock gave.
pub fn expected_age_of_death(args: LifeExpectancyArgs) -> (r: Result<u16, Error>)
    ensures
        exists|ny: int, no: int|
            1 <= no <= 366 && r == expected_at_date_spec(args.year as int, args.gender, ny, no),
{
    let (ny, no) = current_year_and_ordinal();
    let r = match age_from_date(args.year, ny, no) {
        Ok(age) => expected_age_of_death_at(age, args.gender),
        Err(e) => Err(e),
    };
    proof {
        assert(1 <= no as int <= 366
            && r == expected_at_date_spec(args.year as int, args.gender, ny as int, no as int));
    }
    r
}

/// Reads the clock once and reports the days of life remaining for the
/// current age. The result is the model's answer for the date the clock
/// gave.
pub fn days_left(args: LifeExpectancyArgs) -> (r: Result<u32, Error>)
    ensures
        exists|ny: int, no: int|
            1 <= no <= 366 && r == days_at_date_spec(args.year as int, args.gender, ny, no),
{
    let (ny, no) = current_year_and_ordinal();
    let r = match age_from_date(args.year, ny, no) {
        Ok(age) => days_left_at(age, args.gender),
        Err(e) => Err(e),
    };
    proof {
        assert(1 <= no as int <= 366
            && r == days_at_date_spec(args.year as int, args.gender, ny as int, no as int));
    }
    r
}

} // verus!
