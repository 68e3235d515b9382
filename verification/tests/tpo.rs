use kand::ohlcv::tpo::{check_tpo_outputs, tpo_levels, tpo_profile};
use kand::KandError;

#[test]
fn profile_counts_the_bars_at_each_level() {
    // Bars reaching levels 1..=3, 2..=4 and 0..=2 of five levels.
    let counts = tpo_profile(5, &[(1, 3), (2, 4), (0, 2)]);
    assert_eq!(counts, vec![1, 2, 3, 2, 1]);
}

#[test]
fn profile_of_high_low_bars() {
    // Highs 25.8, 22.1, 20.3 and lows 10.5, 15.7, 12.4 on levels of 5 from 10.
    let counts = tpo_profile(4, &[(0, 3), (1, 2), (0, 2)]);
    assert_eq!(counts, vec![2, 3, 3, 1]);
}

#[test]
fn profile_ignores_levels_beyond_the_profile() {
    assert_eq!(tpo_profile(3, &[(1, 7), (5, 9)]), vec![0, 1, 1]);
    assert_eq!(tpo_profile(0, &[(0, 2)]), Vec::<usize>::new());
    assert_eq!(tpo_profile(3, &[]), vec![0, 0, 0]);
    assert_eq!(tpo_profile(3, &[(2, 1)]), vec![0, 0, 0]);
}

#[test]
fn levels_of_one_bar() {
    assert_eq!(tpo_levels(0, 1), vec![0, 1]);
    assert_eq!(tpo_levels(2, 5), vec![2, 3, 4, 5]);
    assert_eq!(tpo_levels(3, 3), vec![3]);
    assert_eq!(tpo_levels(5, 2), Vec::<usize>::new());
    assert_eq!(tpo_levels(usize::MAX, usize::MAX), vec![usize::MAX]);
    assert_eq!(tpo_levels(usize::MAX - 1, usize::MAX), vec![usize::MAX - 1, usize::MAX]);
}

#[test]
fn profile_is_the_sum_of_bar_levels() {
    let bars = [(1usize, 3usize), (2, 4), (0, 2)];
    let mut summed = vec![0usize; 5];
    for &(low, high) in bars.iter() {
        for level in tpo_levels(low, high) {
            if level < 5 {
                summed[level] += 1;
            }
        }
    }
    assert_eq!(tpo_profile(5, &bars), summed);
}

#[test]
fn tpo_output_checks() {
    assert_eq!(check_tpo_outputs(5, 5, 5, 5), Ok(()));
    assert_eq!(check_tpo_outputs(5, 6, 6, 6), Ok(()));
    assert_eq!(check_tpo_outputs(5, 4, 5, 5), Err(KandError::InsufficientData));
    assert_eq!(check_tpo_outputs(5, 5, 4, 5), Err(KandError::LengthMismatch));
    assert_eq!(check_tpo_outputs(5, 5, 5, 6), Err(KandError::LengthMismatch));
}
