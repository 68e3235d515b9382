//! VEGAS channel: EMAs of 144, 169, 576 and 676 periods.
use vstd::prelude::*;

use crate::checks::{all_equal, lengths_match};
use crate::error::KandError;

verus! {

/// The lookback of VEGAS: that of its longest EMA, 676 - 1 = 675.
pub fn lookback() -> (r: Result<usize, KandError>)
    ensures
        r == Ok::<usize, KandError>(675),
{
    Ok(676 - 1)
}

/// What `vegas` answers to its argument checks, over the price series'
/// length and the lengths of its four output series.
pub open spec fn vegas_outcome(len: usize, output_lens: Seq<usize>) -> Result<usize, KandError> {
    if len == 0 {
        Err(KandError::InvalidData)
    } else if !all_equal(output_lens, len) {
        Err(KandError::LengthMismatch)
    } else if len < 676 {
        Err(KandError::InsufficientData)
    } else {
        Ok(675)
    }
}

/// Checks the arguments of `vegas` and gives its lookback.
pub fn check_vegas(len: usize, output_lens: &[usize]) -> (r: Result<usize, KandError>)
    ensures
        r == vegas_outcome(len, output_lens@),
{
    let lookback = lookback()?;
    if len == 0 {
        return Err(KandError::InvalidData);
    }
    if !lengths_match(len, output_lens) {
        return Err(KandError::LengthMismatch);
    }
    if len < 676 {
        return Err(KandError::InsufficientData);
    }
    Ok(lookback)
}

} // verus!
