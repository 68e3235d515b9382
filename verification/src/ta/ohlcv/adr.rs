//! Average Daily Range (ADR): the SMA of the high-low range.
use vstd::prelude::*;

use crate::checks::{all_equal, lengths_match, window_lookback};
use crate::error::KandError;
use crate::ta::ohlcv::sma;

verus! {

/// The lookback of ADR: that of its SMA, `period - 1`.
pub fn lookback(param_period: usize) -> (r: Result<usize, KandError>)
    ensures
        r == window_lookback(param_period),
{
    sma::lookback(param_period)
}

/// What `adr` answers to its argument checks, over the high series' length,
/// the lengths of the low and output series, and the period.
pub open spec fn adr_outcome(len: usize, other_lens: Seq<usize>, param_period: usize) -> Result<usize, KandError> {
    if param_period < 2 {
        Err(KandError::InvalidParameter)
    } else if len == 0 {
        Err(KandError::InvalidData)
    } else if len <= param_period - 1 {
        Err(KandError::InsufficientData)
    } else if !all_equal(other_lens, len) {
        Err(KandError::LengthMismatch)
    } else {
        Ok((param_period - 1) as usize)
    }
}

/// Checks the arguments of `adr` and gives its lookback.
pub fn check_adr(len: usize, other_lens: &[usize], param_period: usize) -> (r: Result<usize, KandError>)
    ensures
        r == adr_outcome(len, other_lens@, param_period),
{
    let lookback = lookback(param_period)?;
    if len == 0 {
        return Err(KandError::InvalidData);
    }
    if len <= lookback {
        return Err(KandError::InsufficientData);
    }
    if !lengths_match(len, other_lens) {
        return Err(KandError::LengthMismatch);
    }
    Ok(lookback)
}

} // verus!
