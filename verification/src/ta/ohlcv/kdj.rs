//! KDJ (stochastic) indicator.
use vstd::prelude::*;

use crate::checks::{all_equal, lengths_match, window, window_lookback};
use crate::error::KandError;

verus! {

/// The lookback of KDJ: `period - 1`, the last index of the first window.
pub fn lookback(param_period: usize) -> (r: Result<usize, KandError>)
    ensures
        r == window_lookback(param_period),
{
    window(param_period)
}

/// What `kdj` answers to its argument checks, over the lengths of the
/// close, high and low series, the lengths of the K, D and J series, and
/// the period. Any empty input series is `InvalidData`.
pub open spec fn kdj_outcome(len: usize, high_len: usize, low_len: usize, output_lens: Seq<usize>, param_period: usize) -> Result<usize, KandError> {
    if param_period < 2 {
        Err(KandError::InvalidParameter)
    } else if len == 0 || high_len == 0 || low_len == 0 {
        Err(KandError::InvalidData)
    } else if high_len != len || low_len != len || !all_equal(output_lens, len) {
        Err(KandError::LengthMismatch)
    } else if len <= param_period - 1 {
        Err(KandError::InsufficientData)
    } else {
        Ok((param_period - 1) as usize)
    }
}

/// Checks the arguments of `kdj` and gives its lookback.
pub fn check_kdj(
    len: usize,
    high_len: usize,
    low_len: usize,
    output_lens: &[usize],
    param_period: usize,
) -> (r: Result<usize, KandError>)
    ensures
        r == kdj_outcome(len, high_len, low_len, output_lens@, param_period),
{
    let lookback = lookback(param_period)?;
    if len == 0 || high_len == 0 || low_len == 0 {
        return Err(KandError::InvalidData);
    }
    if high_len != len || low_len != len || !lengths_match(len, output_lens) {
        return Err(KandError::LengthMismatch);
    }
    if len <= lookback {
        return Err(KandError::InsufficientData);
    }
    Ok(lookback)
}

} // verus!
