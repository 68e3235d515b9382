//! Time Price Opportunity (TPO) profile: how many bars traded at each price level.
//!
//! A bar is given by the indices of the lowest and highest levels it
//! reached, `(low_level, high_level)`; it covers every level in between.
use vstd::prelude::*;

use crate::checks::parameter_outcome;
use crate::error::KandError;

verus! {

/// Whether the bar `(low_level, high_level)` covers `level`.
pub open spec fn covers(bar: (usize, usize), level: int) -> bool {
    bar.0 <= level <= bar.1
}

/// How many of `bars` cover `level`.
pub open spec fn coverage(bars: Seq<(usize, usize)>, level: int) -> nat
    decreases bars.len(),
{
    if bars.len() == 0 {
        0
    } else {
        coverage(bars.drop_last(), level) + if covers(bars.last(), level) {
            1nat
        } else {
            0nat
        }
    }
}

/// The levels a bar covers, from its lowest level up to its highest.
pub open spec fn bar_levels(low_level: usize, high_level: usize) -> Seq<usize> {
    Seq::new(
        if low_level <= high_level { (high_level - low_level + 1) as nat } else { 0nat },
        |i: int| (low_level + i) as usize,
    )
}

/// What `tpo` answers to its checks of the output series, once the number
/// of levels is known: the profile must fit, and the three output series
/// must have one length.
pub open spec fn tpo_outputs_outcome(levels: usize, output_len: usize, ceiling_len: usize, floor_len: usize) -> Result<(), KandError> {
    if output_len < levels {
        Err(KandError::InsufficientData)
    } else if output_len != ceiling_len || output_len != floor_len {
        Err(KandError::LengthMismatch)
    } else {
        Ok(())
    }
}

/// Checks the output series of `tpo` against the number of levels.
pub fn check_tpo_outputs(levels: usize, output_len: usize, ceiling_len: usize, floor_len: usize) -> (r: Result<(), KandError>)
    ensures
        r == tpo_outputs_outcome(levels, output_len, ceiling_len, floor_len),
{
    if output_len < levels {
        return Err(KandError::InsufficientData);
    }
    if output_len != ceiling_len || output_len != floor_len {
        return Err(KandError::LengthMismatch);
    }
    Ok(())
}

/// The number of bars covering a level is the number of bars whose low is
/// at or below the level and whose high is at or above it.
pub proof fn lemma_coverage_counts_bars(bars: Seq<(usize, usize)>, level: int)
    ensures
        coverage(bars, level) == bars.filter(|b: (usize, usize)| b.0 <= level && level <= b.1).len(),
    decreases bars.len(),
{
    reveal(Seq::filter);
    if bars.len() > 0 {
        lemma_coverage_counts_bars(bars.drop_last(), level);
    }
}

/// The TPO profile of `bars` over `levels` price levels: for each level,
/// the number of bars that cover it. Levels a bar reaches at or above
/// `levels` are not counted.
pub fn tpo_profile(levels: usize, bars: &[(usize, usize)]) -> (counts: Vec<usize>)
    ensures
        counts@.len() == levels,
        forall|l: int| 0 <= l < levels ==> #[trigger] counts@[l] == coverage(bars@, l),
        forall|l: int|
            0 <= l < levels ==> #[trigger] counts@[l] == bars@.filter(
                |b: (usize, usize)| b.0 <= l && l <= b.1,
            ).len(),
{
    let mut counts: Vec<usize> = Vec::new();
    let mut l: usize = 0;
    while l < levels
        invariant
            l <= levels,
            counts@.len() == l,
            forall|k: int| 0 <= k < l ==> #[trigger] counts@[k] == 0,
        decreases levels - l,
    {
        counts.push(0);
        l = l + 1;
    }
    let mut b: usize = 0;
    while b < bars.len()
        invariant
            b <= bars.len(),
            counts@.len() == levels,
            forall|k: int| 0 <= k < levels ==> #[trigger] counts@[k] == coverage(bars@.take(b as int), k),
            forall|k: int| 0 <= k < levels ==> #[trigger] counts@[k] <= b,
        decreases bars.len() - b,
    {
        let bar = bars[b];
        let low = bar.0;
        let high = bar.1;
        let mut l: usize = low;
        while l <= high && l < levels
            invariant
                b < bars.len(),
                bar == bars@[b as int],
                low == bar.0,
                high == bar.1,
                low <= l,
                l == low || l - 1 <= high,
                l <= levels || l == low,
                counts@.len() == levels,
                forall|k: int| 0 <= k < levels ==> #[trigger] counts@[k] == coverage(bars@.take(b as int), k)
                    + if low <= k < l { 1nat } else { 0nat },
                forall|k: int| 0 <= k < levels ==> #[trigger] counts@[k] <= b + if low <= k < l { 1int } else { 0int },
            decreases levels - l,
        {
            let c = counts[l];
            counts.set(l, c + 1);
            l = l + 1;
        }
        proof {
            let prefix = bars@.take(b as int + 1);
            assert(prefix.drop_last() =~= bars@.take(b as int));
            assert(prefix.last() == bar);
            assert forall|k: int| 0 <= k < levels implies #[trigger] counts@[k] == coverage(prefix, k) by {
                assert(coverage(prefix, k) == coverage(bars@.take(b as int), k) + if covers(bar, k) {
                    1nat
                } else {
                    0nat
                });
            }
        }
        b = b + 1;
    }
    assert(bars@.take(bars@.len() as int) =~= bars@);
    assert forall|l: int| 0 <= l < levels implies #[trigger] counts@[l] == bars@.filter(
        |b: (usize, usize)| b.0 <= l && l <= b.1,
    ).len() by {
        lemma_coverage_counts_bars(bars@, l);
    }
    counts
}

/// Checks the interval given to `tpo_incremental`: `InvalidParameter`
/// unless it is positive.
pub fn check_tpo_incremental(interval_positive: bool) -> (r: Result<(), KandError>)
    ensures
        r == parameter_outcome(interval_positive),
{
    if !interval_positive {
        return Err(KandError::InvalidParameter);
    }
    Ok(())
}

/// The levels one bar covers, `low_level..=high_level`, in increasing order.
pub fn tpo_levels(low_level: usize, high_level: usize) -> (r: Vec<usize>)
    ensures
        r@ == bar_levels(low_level, high_level),
        r@.len() == if low_level <= high_level { high_level - low_level + 1 } else { 0 },
        forall|i: int| 0 <= i < r@.len() ==> #[trigger] r@[i] == low_level + i,
{
    let mut r: Vec<usize> = Vec::new();
    if low_level > high_level {
        assert(r@ =~= bar_levels(low_level, high_level));
        return r;
    }
    let mut l: usize = low_level;
    loop
        invariant_except_break
            low_level <= l <= high_level,
            r@.len() == l - low_level,
            forall|i: int| 0 <= i < r@.len() ==> #[trigger] r@[i] == low_level + i,
        ensures
            r@.len() == high_level - low_level + 1,
            forall|i: int| 0 <= i < r@.len() ==> #[trigger] r@[i] == low_level + i,
        decreases high_level - l,
    {
        r.push(l);
        if l == high_level {
            break;
        }
        l = l + 1;
    }
    assert(r@ =~= bar_levels(low_level, high_level));
    r
}

} // verus!
