//! Parabolic SAR (Stop and Reverse).
use vstd::prelude::*;

use crate::checks::{all_equal, lengths_match, parameter_outcome};
use crate::error::KandError;

verus! {

/// The lookback of the Parabolic SAR: 1, for valid parameters.
pub open spec fn sar_lookback(params_valid: bool) -> Result<usize, KandError> {
    if !params_valid {
        Err(KandError::InvalidParameter)
    } else {
        Ok(1)
    }
}

/// The lookback of the Parabolic SAR: one bar, once the acceleration is
/// positive and below the maximum; `InvalidParameter` otherwise.
pub fn lookback(params_valid: bool) -> (r: Result<usize, KandError>)
    ensures
        r == sar_lookback(params_valid),
{
    if !params_valid {
        return Err(KandError::InvalidParameter);
    }
    Ok(1)
}

/// Checks the parameters given to `sar_incremental`: `InvalidParameter`
/// unless the acceleration is positive and below the maximum.
pub fn check_sar_incremental(params_valid: bool) -> (r: Result<(), KandError>)
    ensures
        r == parameter_outcome(params_valid),
{
    if !params_valid {
        return Err(KandError::InvalidParameter);
    }
    Ok(())
}

/// What `sar` answers to its argument checks, over the high series'
/// length, the lengths of the low, SAR, trend, acceleration and extreme
/// point series, and whether the acceleration is positive and below the maximum.
pub open spec fn sar_outcome(len: usize, other_lens: Seq<usize>, params_valid: bool) -> Result<usize, KandError> {
    if len == 0 {
        Err(KandError::InvalidData)
    } else if !all_equal(other_lens, len) {
        Err(KandError::LengthMismatch)
    } else if !params_valid {
        Err(KandError::InvalidParameter)
    } else if len <= 1 {
        Err(KandError::InsufficientData)
    } else {
        Ok(1)
    }
}

/// Checks the arguments of `sar` and gives its lookback, 1.
pub fn check_sar(len: usize, other_lens: &[usize], params_valid: bool) -> (r: Result<usize, KandError>)
    ensures
        r == sar_outcome(len, other_lens@, params_valid),
{
    let lookback: usize = 1;
    if len == 0 {
        return Err(KandError::InvalidData);
    }
    if !lengths_match(len, other_lens) {
        return Err(KandError::LengthMismatch);
    }
    if !params_valid {
        return Err(KandError::InvalidParameter);
    }
    if len <= lookback {
        return Err(KandError::InsufficientData);
    }
    Ok(lookback)
}

} // verus!
