//! Rolling population variance (VAR) over a window of `period` values.
use vstd::prelude::*;

use crate::checks::{all_equal, lengths_match, window, window_lookback};
use crate::error::KandError;

verus! {

/// The lookback of VAR: `period - 1` values come before the first variance.
pub fn lookback(param_period: usize) -> (r: Result<usize, KandError>)
    ensures
        r == window_lookback(param_period),
{
    window(param_period)
}

/// What `var` answers to its argument checks, over the input length, the
/// lengths of its variance, sum and sum of squares series, and the period.
pub open spec fn var_outcome(len: usize, output_lens: Seq<usize>, param_period: usize) -> Result<usize, KandError> {
    if param_period < 2 {
        Err(KandError::InvalidParameter)
    } else if len == 0 {
        Err(KandError::InvalidData)
    } else if !all_equal(output_lens, len) {
        Err(KandError::LengthMismatch)
    } else if len <= param_period - 1 {
        Err(KandError::InsufficientData)
    } else {
        Ok((param_period - 1) as usize)
    }
}

/// Checks the arguments of `var` and gives its lookback.
pub fn check_var(len: usize, output_lens: &[usize], param_period: usize) -> (r: Result<usize, KandError>)
    ensures
        r == var_outcome(len, output_lens@, param_period),
{
    let lookback = lookback(param_period)?;
    if len == 0 {
        return Err(KandError::InvalidData);
    }
    if !lengths_match(len, output_lens) {
        return Err(KandError::LengthMismatch);
    }
    if len <= lookback {
        return Err(KandError::InsufficientData);
    }
    Ok(lookback)
}

} // verus!
