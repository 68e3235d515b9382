//! Argument checks shared by the indicators.
use vstd::prelude::*;

use crate::error::KandError;

verus! {

/// Every length in `lengths` equals `len`.
pub open spec fn all_equal(lengths: Seq<usize>, len: usize) -> bool {
    forall|i: int| 0 <= i < lengths.len() ==> lengths[i] == len
}

/// The lookback of a window of `period` values: `period - 1`, for a period of at least 2.
pub open spec fn window_lookback(period: usize) -> Result<usize, KandError> {
    if period < 2 {
        Err(KandError::InvalidParameter)
    } else {
        Ok((period - 1) as usize)
    }
}

/// What a check of one parameter answers: `InvalidParameter` unless the
/// parameter is valid.
pub open spec fn parameter_outcome(valid: bool) -> Result<(), KandError> {
    if valid {
        Ok(())
    } else {
        Err(KandError::InvalidParameter)
    }
}

/// Whether every array length in `lengths` equals `len`.
pub fn lengths_match(len: usize, lengths: &[usize]) -> (r: bool)
    ensures
        r == all_equal(lengths@, len),
{
    let mut i: usize = 0;
    while i < lengths.len()
        invariant
            i <= lengths.len(),
            forall|j: int| 0 <= j < i ==> lengths@[j] == len,
        decreases lengths.len() - i,
    {
        if lengths[i] != len {
            return false;
        }
        i = i + 1;
    }
    true
}

/// What `check_period` answers for a period: `InvalidParameter` below 2.
pub open spec fn period_outcome(param_period: usize) -> Result<(), KandError> {
    if param_period < 2 {
        Err(KandError::InvalidParameter)
    } else {
        Ok(())
    }
}

/// Checks a window period: `InvalidParameter` when it is below 2.
pub fn check_period(param_period: usize) -> (r: Result<(), KandError>)
    ensures
        r == period_outcome(param_period),
{
    if param_period < 2 {
        return Err(KandError::InvalidParameter);
    }
    Ok(())
}

/// The lookback of a window of `param_period` values.
pub fn window(param_period: usize) -> (r: Result<usize, KandError>)
    ensures
        r == window_lookback(param_period),
{
    if param_period < 2 {
        return Err(KandError::InvalidParameter);
    }
    Ok(param_period - 1)
}

} // verus!
