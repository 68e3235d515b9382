//! Accumulation/Distribution line (A/D).
use vstd::prelude::*;

use crate::checks::{all_equal, lengths_match};
use crate::error::KandError;

verus! {

/// The lookback of A/D: none, the line starts at the first bar.
pub fn lookback() -> (r: Result<usize, KandError>)
    ensures
        r == Ok::<usize, KandError>(0),
{
    Ok(0)
}

/// What `ad` answers to its argument checks, over the high series' length
/// and the lengths of the low, close, volume and output series.
pub open spec fn ad_outcome(len: usize, other_lens: Seq<usize>) -> Result<usize, KandError> {
    if len == 0 {
        Err(KandError::InvalidData)
    } else if !all_equal(other_lens, len) {
        Err(KandError::LengthMismatch)
    } else {
        Ok(0)
    }
}

/// Checks the arguments of `ad` and gives its lookback.
pub fn check_ad(len: usize, other_lens: &[usize]) -> (r: Result<usize, KandError>)
    ensures
        r == ad_outcome(len, other_lens@),
{
    let lookback = lookback()?;
    if len == 0 {
        return Err(KandError::InvalidData);
    }
    if !lengths_match(len, other_lens) {
        return Err(KandError::LengthMismatch);
    }
    Ok(lookback)
}

} // verus!
