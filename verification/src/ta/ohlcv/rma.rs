//! Running Moving Average (RMA, Wilder's smoothing).
use vstd::prelude::*;

use crate::checks::{window, window_lookback};
use crate::error::KandError;

verus! {

/// The lookback of RMA: `period - 1` values come before the first average.
pub fn lookback(param_period: usize) -> (r: Result<usize, KandError>)
    ensures
        r == window_lookback(param_period),
{
    window(param_period)
}

/// What `rma` answers to its argument checks, over the input and output
/// lengths and the period.
pub open spec fn rma_outcome(len: usize, output_len: usize, param_period: usize) -> Result<usize, KandError> {
    if param_period < 2 {
        Err(KandError::InvalidParameter)
    } else if len == 0 {
        Err(KandError::InvalidData)
    } else if len <= param_period - 1 {
        Err(KandError::InsufficientData)
    } else if output_len != len {
        Err(KandError::LengthMismatch)
    } else {
        Ok((param_period - 1) as usize)
    }
}

/// Checks the arguments of `rma` and gives its lookback.
pub fn check_rma(len: usize, output_len: usize, param_period: usize) -> (r: Result<usize, KandError>)
    ensures
        r == rma_outcome(len, output_len, param_period),
{
    let lookback = lookback(param_period)?;
    if len == 0 {
        return Err(KandError::InvalidData);
    }
    if len <= lookback {
        return Err(KandError::InsufficientData);
    }
    if output_len != len {
        return Err(KandError::LengthMismatch);
    }
    Ok(lookback)
}

} // verus!
