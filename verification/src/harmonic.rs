//! Harmonic-sum rarity estimator: the expected value of drawing "1 of n",
//! computed as (1 / positions) / H(n) with H(n) the n-th harmonic number.
//!
//! The harmonic sum is carried in fixed point at a scale of 10^17: each
//! term 1/i is taken in units of 10^-17, rounded down, so the sum keeps
//! resolving new terms up to a count of 10^17 — far past the point where an
//! f64 accumulation of the same sum stops moving. The share itself is kept
//! as an exact rational percentage — numerator the constant 10^19,
//! denominator `positions` times the harmonic sum in fixed-point units — so
//! that no output quantum can lose a small share's positivity or its strict
//! ordering. A truncated micro-percent reading (units of 10^-6 of a
//! percent) is derived from it.

use vstd::prelude::*;
use vstd::arithmetic::div_mod::{
    lemma_basic_div, lemma_div_basics, lemma_div_is_ordered, lemma_div_is_ordered_by_denominator,
    lemma_div_multiples_vanish, lemma_div_nonincreasing, lemma_div_pos_is_pos,
    lemma_fundamental_div_mod, lemma_mod_division_less_than_divisor,
};
use vstd::arithmetic::power2::{lemma2_to64, lemma2_to64_rest, lemma_pow2_pos, lemma_pow2_unfold, pow2};
use crate::Error;

verus! {

/// The fixed-point scale of the harmonic sum: 10^17.
pub open spec fn harmonic_scale() -> int {
    100_000_000_000_000_000
}

/// The n-th harmonic number H(n) = sum of 1/i for i in 1..=n, in fixed
/// point at the scale, each term rounded down.
pub open spec fn harmonic_units(n: int) -> int
    decreases n,
{
    if n <= 0 {
        0
    } else {
        harmonic_units(n - 1) + harmonic_scale() / n
    }
}

/// The numerator of the share as a percentage: 100 times the scale, since
/// the percentage is 100 / (positions * H(n)) and H(n) is carried at the
/// scale.
pub open spec fn rarity_percent_num() -> int {
    10_000_000_000_000_000_000
}

/// The denominator of the share as a percentage.
pub open spec fn rarity_percent_den(n: int, positions: int) -> int {
    positions * harmonic_units(n)
}

/// The estimator's result truncated to micro-percent: the percentage
/// numerator, scaled by a million, over the denominator, rounded down.
pub open spec fn rarity_micro_percent(n: int, positions: int) -> int
    recommends
        1 <= n,
        1 <= positions,
{
    10_000_000_000_000_000_000_000_000int / rarity_percent_den(n, positions)
}

/// Strictly-less on fractions with positive denominators, by
/// cross-multiplication.
pub open spec fn share_lt(a_num: int, a_den: int, b_num: int, b_den: int) -> bool
    recommends
        0 < a_den,
        0 < b_den,
{
    a_num * b_den < b_num * a_den
}

/// The exact share of drawing "1 of n", as a rational percentage. Both
/// parts are positive, so the share never collapses to zero the way a
/// fixed-quantum reading can.
#[derive(Clone, Copy, Debug, PartialEq, Eq, Structural)]
pub struct RarityShare {
    /// Numerator of the percentage; always 10^19.
    pub percent_num: u64,
    /// Denominator of the percentage: positions times the harmonic sum in
    /// fixed-point units.
    pub percent_den: u128,
}

/// The harmonic sum never falls below its first term.
pub proof fn lemma_harmonic_units_at_least_first_term(n: int)
    requires
        1 <= n,
    ensures
        harmonic_units(n) >= harmonic_scale(),
    decreases n,
{
    if n == 1 {
        lemma_div_basics(harmonic_scale());
        assert(harmonic_units(1) == harmonic_units(0) + harmonic_scale() / 1);
    } else {
        lemma_harmonic_units_at_least_first_term(n - 1);
        lemma_div_pos_is_pos(harmonic_scale(), n);
    }
}

/// Every fixed-point term is non-negative, so the sum never falls as the
/// count grows.
proof fn lemma_harmonic_units_nondecreasing(n1: int, n2: int)
    requires
        0 <= n1 <= n2,
    ensures
        harmonic_units(n1) <= harmonic_units(n2),
    decreases n2 - n1,
{
    if n1 < n2 {
        lemma_harmonic_units_nondecreasing(n1, n2 - 1);
        lemma_div_pos_is_pos(harmonic_scale(), n2);
    }
}

/// Walking from m to j, every term is at most the term at m + 1.
proof fn lemma_harmonic_block_accumulation(m: int, j: int)
    requires
        1 <= m <= j,
    ensures
        harmonic_units(j) <= harmonic_units(m) + (j - m) * (harmonic_scale() / (m + 1)),
    decreases j - m,
{
    let q = harmonic_scale() / (m + 1);
    if j > m {
        lemma_harmonic_block_accumulation(m, j - 1);
        lemma_div_is_ordered_by_denominator(harmonic_scale(), m + 1, j);
        assert((j - m) * q == (j - 1 - m) * q + q) by (nonlinear_arith);
    } else {
        assert((j - m) * q == 0) by (nonlinear_arith)
            requires
                j == m,
        ;
    }
}

/// Doubling the count adds at most one whole scale to the sum: the block
/// (n/2, n] holds at most n/2 + 1 terms, each at most scale / (n/2 + 1).
proof fn lemma_harmonic_units_halving(n: int)
    requires
        2 <= n,
    ensures
        harmonic_units(n) <= harmonic_units(n / 2) + harmonic_scale(),
{
    let m = n / 2;
    let q = harmonic_scale() / (m + 1);
    lemma_div_is_ordered(2, n, 2);
    assert(2int / 2int == 1);
    lemma_harmonic_block_accumulation(m, n);
    lemma_fundamental_div_mod(n, 2);
    lemma_mod_division_less_than_divisor(n, 2);
    assert(n - m <= m + 1);
    lemma_div_pos_is_pos(harmonic_scale(), m + 1);
    assert((n - m) * q <= (m + 1) * q) by (nonlinear_arith)
        requires
            n - m <= m + 1,
            0 <= q,
    ;
    lemma_fundamental_div_mod(harmonic_scale(), m + 1);
    lemma_mod_division_less_than_divisor(harmonic_scale(), m + 1);
    assert((m + 1) * q <= harmonic_scale());
}

/// By the doubling step, the sum at 2^k is at most k + 1 scales.
proof fn lemma_harmonic_units_pow2_bound(k: nat)
    ensures
        harmonic_units(pow2(k) as int) <= (k as int + 1) * harmonic_scale(),
    decreases k,
{
    if k == 0 {
        lemma2_to64();
        lemma_div_basics(harmonic_scale());
        assert(harmonic_units(1) == harmonic_units(0) + harmonic_scale() / 1);
    } else {
        lemma_harmonic_units_pow2_bound((k - 1) as nat);
        lemma_pow2_unfold(k);
        lemma_pow2_pos((k - 1) as nat);
        let m = pow2((k - 1) as nat) as int;
        let n = pow2(k) as int;
        lemma_div_multiples_vanish(m, 2);
        assert(n / 2 == m);
        lemma_harmonic_units_halving(n);
    }
}

/// For any count an executable machine word can hold, the harmonic sum
/// stays within 65 scales.
pub proof fn lemma_harmonic_units_upper_bound(n: int)
    requires
        0 <= n,
        n < 0x1_0000_0000_0000_0000,
    ensures
        harmonic_units(n) <= 6_500_000_000_000_000_000,
{
    lemma2_to64();
    lemma2_to64_rest();
    lemma_harmonic_units_nondecreasing(n, pow2(64) as int);
    lemma_harmonic_units_pow2_bound(64);
}

/// Within the scale, each fixed-point term is at least one unit.
proof fn lemma_term_at_least_one_unit(i: int)
    requires
        1 <= i <= harmonic_scale(),
    ensures
        harmonic_scale() / i >= 1,
{
    lemma_div_is_ordered(i, harmonic_scale(), i);
    lemma_div_basics(i);
}

/// The harmonic sum strictly grows as long as the count stays within the
/// scale; past it the terms round down to zero and the sum stands still.
pub proof fn lemma_harmonic_units_strictly_increase(n1: int, n2: int)
    requires
        1 <= n1 < n2,
        n2 <= harmonic_scale(),
    ensures
        harmonic_units(n1) < harmonic_units(n2),
    decreases n2 - n1,
{
    lemma_term_at_least_one_unit(n2);
    if n1 + 1 < n2 {
        lemma_harmonic_units_strictly_increase(n1, n2 - 1);
    }
}

/// The exact share is strictly positive for positive inputs: its numerator
/// is the fixed 10^19 and its denominator, shown positive here. The
/// micro-percent reading can still truncate a share below one micro-percent
/// to 0; the exact pair keeps it positive.
pub proof fn lemma_rarity_share_positive(n: int, positions: int)
    requires
        1 <= n,
        1 <= positions,
    ensures
        0 < rarity_percent_den(n, positions),
        0 < rarity_percent_num(),
{
    lemma_harmonic_units_at_least_first_term(n);
    assert(positions * harmonic_units(n) > 0) by (nonlinear_arith)
        requires
            1 <= positions,
            0 < harmonic_units(n),
    ;
}

/// For a fixed count, more positions give a strictly smaller exact share.
pub proof fn lemma_rarity_share_decreases_in_positions(n: int, p1: int, p2: int)
    requires
        1 <= n,
        1 <= p1 < p2,
    ensures
        share_lt(
            rarity_percent_num(),
            rarity_percent_den(n, p2),
            rarity_percent_num(),
            rarity_percent_den(n, p1),
        ),
{
    lemma_harmonic_units_at_least_first_term(n);
    let h = harmonic_units(n);
    assert(rarity_percent_num() * (p1 * h) < rarity_percent_num() * (p2 * h))
        by (nonlinear_arith)
        requires
            1 <= p1 < p2,
            0 < h,
    ;
}

/// For fixed positions, a larger count gives a strictly smaller exact
/// share, as long as the larger count stays within the fixed-point scale of
/// 10^17 — past it the terms round down to zero and two counts can share
/// the same sum. An f64 accumulation of the same series already stops
/// resolving terms around 3 * 10^14, well inside this range.
pub proof fn lemma_rarity_share_decreases_in_count(n1: int, n2: int, positions: int)
    requires
        1 <= n1 < n2,
        n2 <= harmonic_scale(),
        1 <= positions,
    ensures
        share_lt(
            rarity_percent_num(),
            rarity_percent_den(n2, positions),
            rarity_percent_num(),
            rarity_percent_den(n1, positions),
        ),
{
    lemma_harmonic_units_at_least_first_term(n1);
    lemma_harmonic_units_strictly_increase(n1, n2);
    let h1 = harmonic_units(n1);
    let h2 = harmonic_units(n2);
    assert(rarity_percent_num() * (positions * h1) < rarity_percent_num() * (positions * h2))
        by (nonlinear_arith)
        requires
            1 <= positions,
            0 < h1,
            h1 < h2,
    ;
}

/// Computes the exact share of drawing `1 of n` over `positions` positions,
/// as a rational percentage.
///
/// Both inputs must be positive; a zero count or zero positions would make
/// the formula degenerate, and is rejected instead.
pub fn reimann_zeta_exact(n: usize, positions: usize) -> (r: Result<RarityShare, Error>)
    ensures
        r is Ok <==> (1 <= n && 1 <= positions),
        !(1 <= n && 1 <= positions) ==> r == Err::<RarityShare, Error>(Error::DegenerateInput),
        r is Ok ==> r->Ok_0.percent_num == rarity_percent_num(),
        r is Ok ==> r->Ok_0.percent_den == rarity_percent_den(n as int, positions as int),
        r is Ok ==> r->Ok_0.percent_den >= harmonic_scale(),
{
    if n == 0 || positions == 0 {
        return Err(Error::DegenerateInput);
    }
    let mut sum: u128 = 0;
    let mut i: usize = 0;
    while i < n
        invariant
            0 <= i <= n,
            sum == harmonic_units(i as int),
            sum <= 6_500_000_000_000_000_000,
        decreases n - i,
    {
        i = i + 1;
        proof {
            lemma_div_pos_is_pos(harmonic_scale(), i as int);
            lemma_div_nonincreasing(harmonic_scale(), i as int);
            lemma_harmonic_units_upper_bound(i as int);
        }
        sum = sum + 100_000_000_000_000_000 / (i as u128);
    }
    proof {
        lemma_harmonic_units_at_least_first_term(n as int);
        assert((positions as int) * (sum as int) >= 1 * (sum as int)) by (nonlinear_arith)
            requires
                1 <= positions as int,
                0 <= sum as int,
        ;
        assert((positions as int) * (sum as int) < u128::MAX) by (nonlinear_arith)
            requires
                0 <= positions as int,
                (positions as int) < 0x1_0000_0000_0000_0000,
                0 <= sum as int,
                (sum as int) <= 6_500_000_000_000_000_000,
        ;
    }
    let denom: u128 = (positions as u128) * sum;
    Ok(RarityShare { percent_num: 10_000_000_000_000_000_000, percent_den: denom })
}

/// The share truncated to micro-percent: 100% comes back as 100_000_000.
/// A true share below one micro-percent truncates to 0 here; callers that
/// must keep such a share positive read `reimann_zeta_exact` instead.
pub fn reimann_zeta(n: usize, positions: usize) -> (r: Result<u64, Error>)
    ensures
        r is Ok <==> (1 <= n && 1 <= positions),
        !(1 <= n && 1 <= positions) ==> r == Err::<u64, Error>(Error::DegenerateInput),
        r is Ok ==> r->Ok_0 == rarity_micro_percent(n as int, positions as int),
{
    match reimann_zeta_exact(n, positions) {
        Err(e) => Err(e),
        Ok(share) => {
            let micro: u128 = (share.percent_num as u128) * 1_000_000 / share.percent_den;
            proof {
                assert((share.percent_num as int) * 1_000_000
                    == 10_000_000_000_000_000_000_000_000);
                lemma_div_is_ordered_by_denominator(
                    10_000_000_000_000_000_000_000_000,
                    harmonic_scale(),
                    share.percent_den as int,
                );
                assert(10_000_000_000_000_000_000_000_000int / harmonic_scale() == 100_000_000);
            }
            Ok(micro as u64)
        },
    }
}

} // verus!
