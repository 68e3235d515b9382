//! Rolling minimum (MIN) over a window of `period` values.
use vstd::prelude::*;

use crate::checks::{window, window_lookback};
use crate::error::KandError;

verus! {

/// The lookback of MIN: `period - 1` values come before the first minimum.
pub fn lookback(param_period: usize) -> (r: Result<usize, KandError>)
    ensures
        r == window_lookback(param_period),
{
    window(param_period)
}

/// What `min` answers to its argument checks, over the input and output
/// lengths and the period.
pub open spec fn min_outcome(len: usize, output_len: usize, param_period: usize) -> Result<usize, KandError> {
    if param_period < 2 {
        Err(KandError::InvalidParameter)
    } else if len == 0 {
        Err(KandError::InvalidData)
    } else if output_len != len {
        Err(KandError::LengthMismatch)
    } else if len <= param_period - 1 {
        Err(KandError::InsufficientData)
    } else {
        Ok((param_period - 1) as usize)
    }
}

/// Checks the arguments of `min` and gives its lookback.
pub fn check_min(len: usize, output_len: usize, param_period: usize) -> (r: Result<usize, KandError>)
    ensures
        r == min_outcome(len, output_len, param_period),
{
    let lookback = lookback(param_period)?;
    if len == 0 {
        return Err(KandError::InvalidData);
    }
    if output_len != len {
        return Err(KandError::LengthMismatch);
    }
    if len <= lookback {
        return Err(KandError::InsufficientData);
    }
    Ok(lookback)
}

} // verus!
