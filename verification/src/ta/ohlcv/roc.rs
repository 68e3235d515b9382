//! Rate of Change (ROC): the percentage change over `period` steps.
use vstd::prelude::*;

use crate::error::KandError;

verus! {

/// The lookback of ROC for a period: the period itself, for a nonzero period.
pub open spec fn roc_lookback(param_period: usize) -> Result<usize, KandError> {
    if param_period == 0 {
        Err(KandError::InvalidParameter)
    } else {
        Ok(param_period)
    }
}

/// The lookback of ROC: `period` values come before the first change.
pub fn lookback(param_period: usize) -> (r: Result<usize, KandError>)
    ensures
        r == roc_lookback(param_period),
{
    if param_period == 0 {
        return Err(KandError::InvalidParameter);
    }
    Ok(param_period)
}

/// What `roc` answers to its argument checks, over the input and output
/// lengths and the period.
pub open spec fn roc_outcome(len: usize, output_len: usize, param_period: usize) -> Result<usize, KandError> {
    if param_period == 0 {
        Err(KandError::InvalidParameter)
    } else if len == 0 {
        Err(KandError::InvalidData)
    } else if output_len != len {
        Err(KandError::LengthMismatch)
    } else if len <= param_period {
        Err(KandError::InsufficientData)
    } else {
        Ok(param_period)
    }
}

/// Checks the arguments of `roc` and gives its lookback.
pub fn check_roc(len: usize, output_len: usize, param_period: usize) -> (r: Result<usize, KandError>)
    ensures
        r == roc_outcome(len, output_len, param_period),
{
    let lookback = lookback(param_period)?;
    if len == 0 {
        return Err(KandError::InvalidData);
    }
    if output_len != len {
        return Err(KandError::LengthMismatch);
    }
    if len <= lookback {
        return Err(KandError::InsufficientData);
    }
    Ok(lookback)
}

} // verus!
