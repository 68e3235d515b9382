//! Momentum (MOM): the difference between a price and the price `period` bars earlier.
use vstd::prelude::*;

use crate::error::KandError;

verus! {

/// The lookback of MOM for a period: the period itself, from 2 up.
pub open spec fn mom_lookback(param_period: usize) -> Result<usize, KandError> {
    if param_period < 2 {
        Err(KandError::InvalidParameter)
    } else {
        Ok(param_period)
    }
}

/// The lookback of MOM: `period` values come before the first momentum.
pub fn lookback(param_period: usize) -> (r: Result<usize, KandError>)
    ensures
        r == mom_lookback(param_period),
{
    if param_period < 2 {
        return Err(KandError::InvalidParameter);
    }
    Ok(param_period)
}

/// What `mom` answers to its argument checks, over the input and output
/// lengths and the period.
pub open spec fn mom_outcome(len: usize, output_len: usize, param_period: usize) -> Result<usize, KandError> {
    if param_period < 2 {
        Err(KandError::InvalidParameter)
    } else if len == 0 {
        Err(KandError::InvalidData)
    } else if len < param_period {
        Err(KandError::InsufficientData)
    } else if output_len != len {
        Err(KandError::LengthMismatch)
    } else {
        Ok(param_period)
    }
}

/// Checks the arguments of `mom` and gives its lookback. A series exactly
/// `period` values long is accepted; all of its outputs are then NaN.
pub fn check_mom(len: usize, output_len: usize, param_period: usize) -> (r: Result<usize, KandError>)
    ensures
        r == mom_outcome(len, output_len, param_period),
{
    let lookback = lookback(param_period)?;
    if len == 0 {
        return Err(KandError::InvalidData);
    }
    if len < lookback {
        return Err(KandError::InsufficientData);
    }
    if output_len != len {
        return Err(KandError::LengthMismatch);
    }
    Ok(lookback)
}

} // verus!
