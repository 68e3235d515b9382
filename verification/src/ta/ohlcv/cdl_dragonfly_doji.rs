//! Dragonfly Doji: a candle whose open and close sit at its high, with a
//! long lower shadow.
use vstd::prelude::*;

use crate::checks::{all_equal, lengths_match, parameter_outcome};
use crate::error::KandError;
use crate::types::Signal;

verus! {

/// The lookback of the Dragonfly Doji: none, one candle suffices.
pub fn lookback() -> (r: Result<usize, KandError>)
    ensures
        r == Ok::<usize, KandError>(0),
{
    Ok(0)
}

/// What `cdl_dragonfly_doji` answers to its argument checks, over the open
/// series' length, the lengths of the high, low, close and signal series,
/// and whether the body percentage is positive.
pub open spec fn cdl_dragonfly_doji_outcome(len: usize, other_lens: Seq<usize>, body_percent_positive: bool) -> Result<(), KandError> {
    if !all_equal(other_lens, len) {
        Err(KandError::LengthMismatch)
    } else if !body_percent_positive {
        Err(KandError::InvalidParameter)
    } else {
        Ok(())
    }
}

/// Checks the arguments of `cdl_dragonfly_doji`; the series may be empty.
pub fn check_cdl_dragonfly_doji(len: usize, other_lens: &[usize], body_percent_positive: bool) -> (r: Result<(), KandError>)
    ensures
        r == cdl_dragonfly_doji_outcome(len, other_lens@, body_percent_positive),
{
    if !lengths_match(len, other_lens) {
        return Err(KandError::LengthMismatch);
    }
    if !body_percent_positive {
        return Err(KandError::InvalidParameter);
    }
    Ok(())
}

/// Checks the body percentage given to `cdl_dragonfly_doji_incremental`:
/// `InvalidParameter` unless it is positive.
pub fn check_cdl_dragonfly_doji_incremental(body_percent_positive: bool) -> (r: Result<(), KandError>)
    ensures
        r == parameter_outcome(body_percent_positive),
{
    if !body_percent_positive {
        return Err(KandError::InvalidParameter);
    }
    Ok(())
}

/// The Dragonfly Doji rule: bullish when the body is a doji body and the upper shadow is no longer than the body; neutral otherwise.
pub open spec fn dragonfly_doji_rule(is_doji_body: bool, has_minimal_upper_shadow: bool) -> Signal {
    if is_doji_body && has_minimal_upper_shadow {
        Signal::Bullish
    } else {
        Signal::Neutral
    }
}

/// The signal of one candle: bullish when its body is a doji body (the
/// range is positive and the body is within the given percentage of it) and
/// its upper shadow is no longer than its body; neutral otherwise.
pub fn dragonfly_doji_signal(is_doji_body: bool, has_minimal_upper_shadow: bool) -> (r: Signal)
    ensures
        r == dragonfly_doji_rule(is_doji_body, has_minimal_upper_shadow),
{
    if is_doji_body && has_minimal_upper_shadow {
        Signal::Bullish
    } else {
        Signal::Neutral
    }
}

} // verus!
