use oddscalc::harmonic::{reimann_zeta, reimann_zeta_exact, RarityShare};
use oddscalc::Error;

#[test]
fn one_of_one_is_certain() {
    // H(1) = 1, positions = 1: (1/1)/1 = 100%, i.e. 100_000_000
    // micro-percent.
    assert_eq!(reimann_zeta(1, 1), Ok(100_000_000));
}

#[test]
fn exact_share_of_one_of_one() {
    // H(1) in fixed point is the scale 10^17, so the percentage is
    // 10^19 / 10^17 = 100.
    assert_eq!(
        reimann_zeta_exact(1, 1),
        Ok(RarityShare {
            percent_num: 10_000_000_000_000_000_000,
            percent_den: 100_000_000_000_000_000,
        })
    );
}

#[test]
fn tiny_shares_stay_positive_in_the_exact_pair() {
    // One position in a billion: the share is 10^-7 percent. The
    // micro-percent reading truncates it to 0, the exact pair keeps it
    // positive.
    let share = reimann_zeta_exact(1, 1_000_000_000).unwrap();
    assert!(share.percent_num > 0);
    assert!(share.percent_den > 0);
    assert_eq!(reimann_zeta(1, 1_000_000_000), Ok(0));
}

#[test]
fn more_positions_strictly_shrink_the_exact_share() {
    // Both readings truncate to 0 micro-percent, but the exact shares still
    // order strictly: equal numerators, so the larger denominator is the
    // strictly smaller share.
    let s1 = reimann_zeta_exact(1, 1_000_000_000).unwrap();
    let s2 = reimann_zeta_exact(1, 2_000_000_000).unwrap();
    assert_eq!(s1.percent_num, s2.percent_num);
    assert!(s2.percent_den > s1.percent_den);
    assert_eq!(reimann_zeta(1, 1_000_000_000), Ok(0));
    assert_eq!(reimann_zeta(1, 2_000_000_000), Ok(0));
}

#[test]
fn a_larger_count_strictly_shrinks_the_exact_share() {
    let s3 = reimann_zeta_exact(3, 1).unwrap();
    let s4 = reimann_zeta_exact(4, 1).unwrap();
    assert!(s3.percent_num as u128 * s4.percent_den > s4.percent_num as u128 * s3.percent_den);
}

#[test]
fn the_exact_share_rejects_the_same_degenerate_inputs() {
    assert_eq!(reimann_zeta_exact(0, 1), Err(Error::DegenerateInput));
    assert_eq!(reimann_zeta_exact(1, 0), Err(Error::DegenerateInput));
}

#[test]
fn the_micro_percent_reading_derives_from_the_exact_share() {
    for n in 1..=50usize {
        for positions in 1..=3usize {
            let share = reimann_zeta_exact(n, positions).unwrap();
            let derived = (share.percent_num as u128 * 1_000_000 / share.percent_den) as u64;
            assert_eq!(reimann_zeta(n, positions), Ok(derived));
        }
    }
}

#[test]
fn zero_count_is_rejected() {
    assert_eq!(reimann_zeta(0, 1), Err(Error::DegenerateInput));
}

#[test]
fn zero_positions_are_rejected() {
    assert_eq!(reimann_zeta(5, 0), Err(Error::DegenerateInput));
    assert_eq!(reimann_zeta(0, 0), Err(Error::DegenerateInput));
}

#[test]
fn two_of_a_pair_follows_the_harmonic_sum() {
    // H(2) = 1.5, in fixed point 15 * 10^16; 10^25 / (15 * 10^16) rounds
    // down to 66666666 micro-percent, i.e. about 66.67%.
    assert_eq!(reimann_zeta(2, 1), Ok(66_666_666));
}

#[test]
fn positions_scale_the_share_down() {
    // H(4) in fixed point: 10^17 * (1 + 1/2 + 1/3 + 1/4) with the third
    // term rounded down. Two positions give the exact 24% that
    // (1/2) / (25/12) gives: 24_000_000 micro-percent.
    assert_eq!(reimann_zeta(4, 2), Ok(24_000_000));
}

#[test]
fn fixed_point_tracks_the_float_formula() {
    for n in 1..=200usize {
        for positions in 1..=3usize {
            let micro = reimann_zeta(n, positions).unwrap();
            let h: f64 = (1..=n).map(|i| 1.0 / i as f64).sum();
            let value = (1.0 / positions as f64) / h;
            let float_micro = value * 100.0 * 1_000_000.0;
            let diff = (micro as f64 - float_micro).abs();
            assert!(diff <= 2.0, "n={n} positions={positions}: {micro} vs {float_micro}");
        }
    }
}
