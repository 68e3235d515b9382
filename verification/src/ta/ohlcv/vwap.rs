//! Volume Weighted Average Price (VWAP).
use vstd::prelude::*;

use crate::checks::{all_equal, lengths_match};
use crate::error::KandError;

verus! {

/// The lookback of VWAP: none.
pub fn lookback() -> (r: Result<usize, KandError>)
    ensures
        r == Ok::<usize, KandError>(0),
{
    Ok(0)
}

/// What `vwap` answers to its argument checks, over the high series'
/// length and the lengths of the low, close, volume and three output series.
pub open spec fn vwap_outcome(len: usize, other_lens: Seq<usize>) -> Result<(), KandError> {
    if len == 0 {
        Err(KandError::InvalidData)
    } else if !all_equal(other_lens, len) {
        Err(KandError::LengthMismatch)
    } else {
        Ok(())
    }
}

/// Checks the arguments of `vwap`.
pub fn check_vwap(len: usize, other_lens: &[usize]) -> (r: Result<(), KandError>)
    ensures
        r == vwap_outcome(len, other_lens@),
{
    if len == 0 {
        return Err(KandError::InvalidData);
    }
    if !lengths_match(len, other_lens) {
        return Err(KandError::LengthMismatch);
    }
    Ok(())
}

} // verus!
