//! Bollinger Bands: an SMA with bands a number of standard deviations away.
use vstd::prelude::*;

use crate::checks::{all_equal, lengths_match, window_lookback};
use crate::error::KandError;
use crate::ta::ohlcv::sma;

verus! {

/// The lookback of Bollinger Bands: that of its SMA, `period - 1`.
pub fn lookback(param_period: usize) -> (r: Result<usize, KandError>)
    ensures
        r == window_lookback(param_period),
{
    sma::lookback(param_period)
}

/// What `bbands` answers to its argument checks, over the price series'
/// length, the lengths of its seven output series, and the period.
pub open spec fn bbands_outcome(len: usize, output_lens: Seq<usize>, param_period: usize) -> Result<usize, KandError> {
    if param_period < 2 {
        Err(KandError::InvalidParameter)
    } else if len == 0 {
        Err(KandError::InvalidData)
    } else if len <= param_period - 1 {
        Err(KandError::InsufficientData)
    } else if !all_equal(output_lens, len) {
        Err(KandError::LengthMismatch)
    } else {
        Ok((param_period - 1) as usize)
    }
}

/// Checks the arguments of `bbands` and gives its lookback.
pub fn check_bbands(len: usize, output_lens: &[usize], param_period: usize) -> (r: Result<usize, KandError>)
    ensures
        r == bbands_outcome(len, output_lens@, param_period),
{
    let lookback = lookback(param_period)?;
    if len == 0 {
        return Err(KandError::InvalidData);
    }
    if len <= lookback {
        return Err(KandError::InsufficientData);
    }
    if !lengths_match(len, output_lens) {
        return Err(KandError::LengthMismatch);
    }
    Ok(lookback)
}

} // verus!
