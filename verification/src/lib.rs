//! Small numeric utilities: a standard-deviation / percentile conversion
//! planner for the standard normal distribution, a harmonic-sum rarity
//! estimator, and a French actuarial mortality lookup with a derived
//! life-expectancy estimate.

use vstd::prelude::*;

pub mod gender;
pub mod harmonic;
pub mod mortality;
pub mod expectancy;
pub mod normal;

verus! {

/// The error kinds the library reports. All are user-input errors: the
/// caller is expected to stop and print a message.
#[derive(Clone, Copy, Debug, PartialEq, Eq, Structural)]
pub enum Error {
    /// A gender string that is not "male" or "female" (case-insensitively).
    InvalidGender,
    /// A computed age that does not fit a small non-negative integer,
    /// e.g. from a birth year in the future.
    AgeOutOfRange,
    /// The weighted life-expectancy sum has no positive total weight.
    WeightNotPositive,
    /// The expected age of death does not exceed the current age.
    TooOld,
    /// A zero count or zero position handed to the harmonic estimator.
    DegenerateInput,
}

impl Error {
    /// The human-readable message for this error kind.
    pub open spec fn message_spec(self) -> Seq<char> {
        match self {
            Error::InvalidGender => "Invalid gender"@,
            Error::AgeOutOfRange => "age is out of the representable range"@,
            Error::WeightNotPositive => "Failed to calculate expected age of death."@,
            Error::TooOld => "you are too old"@,
            Error::DegenerateInput => "n and positions must both be positive"@,
        }
    }

    /// Returns the message a front end should print for this error.
    pub fn message(&self) -> (m: &'static str)
        ensures
            m@ == self.message_spec(),
    {
        match self {
            Error::InvalidGender => "Invalid gender",
            Error::AgeOutOfRange => "age is out of the representable range",
            Error::WeightNotPositive => "Failed to calculate expected age of death.",
            Error::TooOld => "you are too old",
            Error::DegenerateInput => "n and positions must both be positive",
        }
    }
}

} // verus!
