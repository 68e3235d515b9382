//! Helpers shared by the indicators: window searches, smoothing factors and
//! price levels.
use vstd::prelude::*;

use crate::error::KandError;

verus! {

/// What `lowest_bars` and `highest_bars` answer to their argument checks,
/// over the array's length, the start index and the lookback: the window
/// of `lookback` values ending at `start_idx` must lie in the array.
pub open spec fn bars_outcome(len: usize, start_idx: usize, lookback: usize) -> Result<(), KandError> {
    if len == 0 || start_idx >= len || lookback == 0 || start_idx < lookback - 1 {
        Err(KandError::InvalidParameter)
    } else {
        Ok(())
    }
}

/// Checks the arguments of `lowest_bars` and `highest_bars`.
pub fn check_bars(len: usize, start_idx: usize, lookback: usize) -> (r: Result<(), KandError>)
    ensures
        r == bars_outcome(len, start_idx, lookback),
{
    if len == 0 || start_idx >= len || lookback == 0 || start_idx < lookback - 1 {
        return Err(KandError::InvalidParameter);
    }
    Ok(())
}

/// What `k_denominator` answers: `period + 1` for a nonzero period.
pub open spec fn k_denominator_outcome(period: usize) -> Result<usize, KandError> {
    if period == 0 {
        Err(KandError::InvalidParameter)
    } else {
        Ok((period + 1) as usize)
    }
}

/// The denominator of the smoothing factor `k = 2 / (period + 1)`:
/// `period + 1`, for a nonzero period.
pub fn k_denominator(period: usize) -> (r: Result<usize, KandError>)
    requires
        period < usize::MAX,
    ensures
        r == k_denominator_outcome(period),
{
    if period == 0 {
        return Err(KandError::InvalidParameter);
    }
    Ok(period + 1)
}

/// What `get_levels_hl` answers to its argument checks, over the lengths of
/// the high and low series and whether the interval is positive.
pub open spec fn levels_hl_outcome(high_len: usize, low_len: usize, interval_positive: bool) -> Result<(), KandError> {
    if high_len == 0 {
        Err(KandError::InvalidData)
    } else if high_len != low_len {
        Err(KandError::LengthMismatch)
    } else if !interval_positive {
        Err(KandError::InvalidParameter)
    } else {
        Ok(())
    }
}

/// Checks the arguments of `get_levels_hl`.
pub fn check_levels_hl(high_len: usize, low_len: usize, interval_positive: bool) -> (r: Result<(), KandError>)
    ensures
        r == levels_hl_outcome(high_len, low_len, interval_positive),
{
    if high_len == 0 {
        return Err(KandError::InvalidData);
    }
    if high_len != low_len {
        return Err(KandError::LengthMismatch);
    }
    if !interval_positive {
        return Err(KandError::InvalidParameter);
    }
    Ok(())
}

} // verus!
