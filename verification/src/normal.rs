//! Planner for the standard-deviation / percentile converter.
//!
//! A single scalar chooses among three readings: below 20 it is a count of
//! standard deviations whose two-tailed probability mass is wanted; from 20
//! up to (but excluding) 100 it is a two-tailed percent confidence level;
//! from 100 up it is a one-sided rarity denominator ("1 in v"). The last
//! two both ask for a quantile of the standard normal distribution, and the
//! probability to query it at is an exact rational in the input.
//!
//! The scalar is carried in micro-units (millionths), so 1.959964 arrives
//! as 1_959_964. Evaluating the normal distribution itself is left to the
//! caller: it is floating-point work, and everything this module decides —
//! the branch and the exact quantile probability — is integer arithmetic.

use vstd::prelude::*;

verus! {

/// What the converter should compute for an input.
#[derive(Clone, Copy, Debug, PartialEq, Eq, Structural)]
pub enum StdPlan {
    /// The input is a standard-deviation count `sd` (in micro-units):
    /// report the probability mass within [-sd, sd] under the standard
    /// normal distribution, as a percentage, with the derived "1 in N"
    /// odds figure where N = round(2 / (1 - mass)).
    TwoTailedMass { sd_micros: i64 },
    /// The input asks for a z-score: report the standard normal quantile at
    /// probability `p_num / p_den`, rounded to one decimal.
    QuantileZ { p_num: i64, p_den: i64 },
}

/// The plan for an input `v` in micro-units:
/// below 20 the two-tailed mass of `v` itself; from 20 below 100 the
/// quantile at 1 - (100 - v) / 200 = (100 + v) / 200; from 100 up the
/// quantile at 1 - 1/v = (v - 1) / v.
pub open spec fn std_plan_spec(v_micros: int) -> StdPlan {
    if v_micros < 20_000_000 {
        StdPlan::TwoTailedMass { sd_micros: v_micros as i64 }
    } else if v_micros < 100_000_000 {
        StdPlan::QuantileZ { p_num: (100_000_000 + v_micros) as i64, p_den: 200_000_000 }
    } else {
        StdPlan::QuantileZ { p_num: (v_micros - 1_000_000) as i64, p_den: v_micros as i64 }
    }
}

/// Chooses the converter's branch for the input and carries the exact
/// quantile probability where one is asked for. Whenever a quantile is
/// asked for, its probability lies strictly between 0 and 1, so the
/// standard normal quantile at it is defined and finite.
pub fn std_plan(v_micros: i64) -> (p: StdPlan)
    ensures
        p == std_plan_spec(v_micros as int),
        p matches StdPlan::QuantileZ { p_num, p_den } ==> 0 < p_num < p_den,
{
    if v_micros < 20_000_000 {
        StdPlan::TwoTailedMass { sd_micros: v_micros }
    } else if v_micros < 100_000_000 {
        StdPlan::QuantileZ { p_num: 100_000_000 + v_micros, p_den: 200_000_000 }
    } else {
        StdPlan::QuantileZ { p_num: v_micros - 1_000_000, p_den: v_micros }
    }
}

} // verus!
