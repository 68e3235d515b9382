//! Accumulation/Distribution Oscillator (ADOSC): a fast EMA of the A/D line
//! minus a slow one.
use vstd::prelude::*;

use crate::checks::{all_equal, lengths_match};
use crate::ta::ohlcv::ema::{self, ema_lookback};
use crate::error::KandError;

verus! {

/// The lookback of ADOSC: that of the slow EMA, `slow - 1`.
///
/// `InvalidParameter` when either period is 0, or when the fast period is
/// not below the slow one; the slow period is then at least 2.
pub open spec fn adosc_lookback(fast: usize, slow: usize) -> Result<usize, KandError> {
    if fast == 0 || slow == 0 {
        Err(KandError::InvalidParameter)
    } else if fast >= slow {
        Err(KandError::InvalidParameter)
    } else {
        ema_lookback(slow)
    }
}

/// The lookback of ADOSC for a fast and a slow EMA period.
pub fn lookback(param_fast_period: usize, param_slow_period: usize) -> (r: Result<usize, KandError>)
    ensures
        r == adosc_lookback(param_fast_period, param_slow_period),
        r is Ok ==> r == Ok::<usize, KandError>((param_slow_period - 1) as usize),
{
    if param_fast_period == 0 || param_slow_period == 0 {
        return Err(KandError::InvalidParameter);
    }
    if param_fast_period >= param_slow_period {
        return Err(KandError::InvalidParameter);
    }
    ema::lookback(param_slow_period)
}

/// What `adosc` answers to its argument checks, over the high series'
/// length, the lengths of the other input and output series, and the periods.
pub open spec fn adosc_outcome(len: usize, other_lens: Seq<usize>, fast: usize, slow: usize) -> Result<usize, KandError> {
    match adosc_lookback(fast, slow) {
        Err(e) => Err(e),
        Ok(lookback) => if len == 0 {
            Err(KandError::InvalidData)
        } else if len <= lookback {
            Err(KandError::InsufficientData)
        } else if !all_equal(other_lens, len) {
            Err(KandError::LengthMismatch)
        } else {
            Ok(lookback)
        },
    }
}

/// Checks the arguments of `adosc` and gives its lookback.
pub fn check_adosc(
    len: usize,
    other_lens: &[usize],
    param_fast_period: usize,
    param_slow_period: usize,
) -> (r: Result<usize, KandError>)
    ensures
        r == adosc_outcome(len, other_lens@, param_fast_period, param_slow_period),
{
    let lookback = lookback(param_fast_period, param_slow_period)?;
    if len == 0 {
        return Err(KandError::InvalidData);
    }
    if len <= lookback {
        return Err(KandError::InsufficientData);
    }
    if !lengths_match(len, other_lens) {
        return Err(KandError::LengthMismatch);
    }
    Ok(lookback)
}

/// What `check_adosc_incremental` answers: `InvalidParameter` when either period is 0 or the fast period is not below the slow one.
pub open spec fn adosc_incremental_outcome(fast: usize, slow: usize) -> Result<(), KandError> {
    if fast == 0 || slow == 0 || fast >= slow {
        Err(KandError::InvalidParameter)
    } else {
        Ok(())
    }
}

/// Checks the periods given to `adosc_incremental`: `InvalidParameter`
/// when either is 0, or when the fast period is not below the slow one.
pub fn check_adosc_incremental(param_fast_period: usize, param_slow_period: usize) -> (r: Result<(), KandError>)
    ensures
        r == adosc_incremental_outcome(param_fast_period, param_slow_period),
{
    if param_fast_period == 0 || param_slow_period == 0 {
        return Err(KandError::InvalidParameter);
    }
    if param_fast_period >= param_slow_period {
        return Err(KandError::InvalidParameter);
    }
    Ok(())
}

} // verus!
