//! Exponential Moving Average (EMA), as the other indicators use it: seeded
//! with the average of the first `period` values.
use vstd::prelude::*;

use crate::error::KandError;

verus! {

/// The lookback of EMA for a period: `period - 1`, for a nonzero period.
pub open spec fn ema_lookback(param_period: usize) -> Result<usize, KandError> {
    if param_period == 0 {
        Err(KandError::InvalidParameter)
    } else {
        Ok((param_period - 1) as usize)
    }
}

/// The lookback of EMA: `period - 1` values come before the first average.
pub fn lookback(param_period: usize) -> (r: Result<usize, KandError>)
    ensures
        r == ema_lookback(param_period),
{
    if param_period == 0 {
        return Err(KandError::InvalidParameter);
    }
    Ok(param_period - 1)
}

/// What `ema` answers to its argument checks, over the input and output
/// lengths and the period.
pub open spec fn ema_outcome(len: usize, output_len: usize, param_period: usize) -> Result<usize, KandError> {
    if param_period == 0 {
        Err(KandError::InvalidParameter)
    } else if len == 0 {
        Err(KandError::InvalidData)
    } else if output_len != len {
        Err(KandError::LengthMismatch)
    } else if len <= param_period - 1 {
        Err(KandError::InsufficientData)
    } else {
        Ok((param_period - 1) as usize)
    }
}

/// Checks the arguments of `ema` and gives its lookback.
pub fn check_ema(len: usize, output_len: usize, param_period: usize) -> (r: Result<usize, KandError>)
    ensures
        r == ema_outcome(len, output_len, param_period),
{
    let lookback = lookback(param_period)?;
    if len == 0 {
        return Err(KandError::InvalidData);
    }
    if output_len != len {
        return Err(KandError::LengthMismatch);
    }
    if len <= lookback {
        return Err(KandError::InsufficientData);
    }
    Ok(lookback)
}

/// What `check_ema_incremental` answers: `InvalidParameter` for a period of 0.
pub open spec fn ema_incremental_outcome(param_period: usize) -> Result<(), KandError> {
    if param_period == 0 {
        Err(KandError::InvalidParameter)
    } else {
        Ok(())
    }
}

/// Checks the period given to `ema_incremental`: `InvalidParameter` when it is 0.
pub fn check_ema_incremental(param_period: usize) -> (r: Result<(), KandError>)
    ensures
        r == ema_incremental_outcome(param_period),
{
    if param_period == 0 {
        return Err(KandError::InvalidParameter);
    }
    Ok(())
}

} // verus!
