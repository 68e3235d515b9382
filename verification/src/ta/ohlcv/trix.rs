//! TRIX: the one-step rate of change of a triple EMA.
use vstd::prelude::*;

use crate::checks::{all_equal, lengths_match};
use crate::ta::ohlcv::{ema, roc};
use crate::error::KandError;

verus! {

/// The lookback of TRIX, for a period of at least 2: three EMA lookbacks of
/// `period - 1` each, plus the one value that a one-step rate of change
/// looks back.
pub open spec fn trix_lookback(param_period: usize) -> Result<usize, KandError> {
    if param_period < 2 {
        Err(KandError::InvalidParameter)
    } else {
        Ok((3 * (param_period - 1) + 1) as usize)
    }
}

/// The lookback of TRIX for a period.
pub fn lookback(param_period: usize) -> (r: Result<usize, KandError>)
    requires
        param_period < 2 || 3 * (param_period - 1) + 1 <= usize::MAX,
    ensures
        r == trix_lookback(param_period),
{
    if param_period < 2 {
        return Err(KandError::InvalidParameter);
    }
    let ema_lookback = ema::lookback(param_period)?;
    let roc_lookback = roc::lookback(1)?;
    Ok(3 * ema_lookback + roc_lookback)
}

/// What `trix` answers to its argument checks, over the input length, the
/// lengths of the TRIX and three EMA output series, and the period.
pub open spec fn trix_outcome(len: usize, output_lens: Seq<usize>, param_period: usize) -> Result<usize, KandError> {
    match trix_lookback(param_period) {
        Err(e) => Err(e),
        Ok(lookback) => if len == 0 {
            Err(KandError::InvalidData)
        } else if len <= lookback {
            Err(KandError::InsufficientData)
        } else if !all_equal(output_lens, len) {
            Err(KandError::LengthMismatch)
        } else {
            Ok(lookback)
        },
    }
}

/// Checks the arguments of `trix` and gives its lookback.
pub fn check_trix(len: usize, output_lens: &[usize], param_period: usize) -> (r: Result<usize, KandError>)
    requires
        param_period < 2 || 3 * (param_period - 1) + 1 <= usize::MAX,
    ensures
        r == trix_outcome(len, output_lens@, param_period),
{
    let lookback = lookback(param_period)?;
    if len == 0 {
        return Err(KandError::InvalidData);
    }
    if len <= lookback {
        return Err(KandError::InsufficientData);
    }
    if !lengths_match(len, output_lens) {
        return Err(KandError::LengthMismatch);
    }
    Ok(lookback)
}

} // verus!
