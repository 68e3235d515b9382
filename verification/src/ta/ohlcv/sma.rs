//! Simple Moving Average (SMA): the arithmetic mean of the last `period` values.
use vstd::prelude::*;

use crate::checks::{window, window_lookback};
use crate::error::KandError;

verus! {

/// The lookback of SMA: `period - 1` values come before the first average.
///
/// `InvalidParameter` when `param_period` is below 2.
pub fn lookback(param_period: usize) -> (r: Result<usize, KandError>)
    ensures
        r == window_lookback(param_period),
{
    window(param_period)
}

/// What `sma` answers to its argument checks: the first failing check's
/// error, in the order that `sma` makes them, or the lookback.
pub open spec fn sma_outcome(input_len: usize, output_len: usize, param_period: usize) -> Result<usize, KandError> {
    if param_period < 2 {
        Err(KandError::InvalidParameter)
    } else if input_len == 0 {
        Err(KandError::InvalidData)
    } else if output_len != input_len {
        Err(KandError::LengthMismatch)
    } else if input_len <= param_period - 1 {
        Err(KandError::InsufficientData)
    } else {
        Ok((param_period - 1) as usize)
    }
}

/// Checks the arguments of `sma` (input length, output length, period) and
/// gives its lookback: the first output index that holds an average.
pub fn check_sma(input_len: usize, output_len: usize, param_period: usize) -> (r: Result<usize, KandError>)
    ensures
        r == sma_outcome(input_len, output_len, param_period),
{
    let lookback = lookback(param_period)?;
    if input_len == 0 {
        return Err(KandError::InvalidData);
    }
    if output_len != input_len {
        return Err(KandError::LengthMismatch);
    }
    if input_len <= lookback {
        return Err(KandError::InsufficientData);
    }
    Ok(lookback)
}

} // verus!
