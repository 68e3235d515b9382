//! Marubozu: a long-bodied candle with (almost) no shadows.
use vstd::prelude::*;

use crate::checks::{all_equal, lengths_match, window, window_lookback};
use crate::error::KandError;
use crate::types::Signal;

verus! {

/// The lookback of Marubozu detection: `period - 1` candles feed the first
/// average body size.
pub fn lookback(param_period: usize) -> (r: Result<usize, KandError>)
    ensures
        r == window_lookback(param_period),
{
    window(param_period)
}

/// What `cdl_marubozu` answers to its argument checks, over the open
/// series' length, the lengths of the high, low, close, signal and body
/// average series, the period, and whether the shadow percentage is positive.
pub open spec fn cdl_marubozu_outcome(
    len: usize,
    other_lens: Seq<usize>,
    param_period: usize,
    shadow_percent_positive: bool,
) -> Result<usize, KandError> {
    if param_period < 2 {
        Err(KandError::InvalidParameter)
    } else if len == 0 {
        Err(KandError::InvalidData)
    } else if len <= param_period - 1 {
        Err(KandError::InsufficientData)
    } else if !all_equal(other_lens, len) {
        Err(KandError::LengthMismatch)
    } else if !shadow_percent_positive {
        Err(KandError::InvalidParameter)
    } else {
        Ok((param_period - 1) as usize)
    }
}

/// Checks the arguments of `cdl_marubozu` and gives its lookback.
pub fn check_cdl_marubozu(
    len: usize,
    other_lens: &[usize],
    param_period: usize,
    shadow_percent_positive: bool,
) -> (r: Result<usize, KandError>)
    ensures
        r == cdl_marubozu_outcome(len, other_lens@, param_period, shadow_percent_positive),
{
    let lookback = lookback(param_period)?;
    if len == 0 {
        return Err(KandError::InvalidData);
    }
    if len <= lookback {
        return Err(KandError::InsufficientData);
    }
    if !lengths_match(len, other_lens) {
        return Err(KandError::LengthMismatch);
    }
    if !shadow_percent_positive {
        return Err(KandError::InvalidParameter);
    }
    Ok(lookback)
}

/// What `check_cdl_marubozu_incremental` answers: `InvalidParameter` for a period below 2 or a shadow percentage that is not positive.
pub open spec fn cdl_marubozu_incremental_outcome(param_period: usize, shadow_percent_positive: bool) -> Result<(), KandError> {
    if param_period < 2 || !shadow_percent_positive {
        Err(KandError::InvalidParameter)
    } else {
        Ok(())
    }
}

/// Checks the parameters of `cdl_marubozu_incremental`: the period first,
/// then the sign of the shadow percentage.
pub fn check_cdl_marubozu_incremental(param_period: usize, shadow_percent_positive: bool) -> (r: Result<(), KandError>)
    ensures
        r == cdl_marubozu_incremental_outcome(param_period, shadow_percent_positive),
{
    if param_period < 2 {
        return Err(KandError::InvalidParameter);
    }
    if !shadow_percent_positive {
        return Err(KandError::InvalidParameter);
    }
    Ok(())
}

/// The Marubozu rule: a long body with both shadows short is bullish when the candle rose and bearish otherwise; anything else is neutral.
pub open spec fn marubozu_rule(long_body: bool, short_upper_shadow: bool, short_lower_shadow: bool, rising: bool) -> Signal {
    if long_body && short_upper_shadow && short_lower_shadow {
        if rising {
            Signal::Bullish
        } else {
            Signal::Bearish
        }
    } else {
        Signal::Neutral
    }
}

/// The signal of one candle: when its body is longer than the average body
/// and both shadows are within the shadow threshold, bullish if it closed
/// above its open and bearish otherwise; neutral when it is no Marubozu.
pub fn marubozu_signal(long_body: bool, short_upper_shadow: bool, short_lower_shadow: bool, rising: bool) -> (r: Signal)
    ensures
        r == marubozu_rule(long_body, short_upper_shadow, short_lower_shadow, rising),
{
    if long_body && short_upper_shadow && short_lower_shadow {
        if rising {
            Signal::Bullish
        } else {
            Signal::Bearish
        }
    } else {
        Signal::Neutral
    }
}

} // verus!
