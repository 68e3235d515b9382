//! Median Price (MEDPRICE): the midpoint of high and low.
use vstd::prelude::*;

use crate::checks::{all_equal, lengths_match};
use crate::error::KandError;

verus! {

/// The lookback of MEDPRICE: none.
pub fn lookback() -> (r: Result<usize, KandError>)
    ensures
        r == Ok::<usize, KandError>(0),
{
    Ok(0)
}

/// What `medprice` answers to its argument checks, over the high series'
/// length and the lengths of the low and output series.
pub open spec fn medprice_outcome(len: usize, other_lens: Seq<usize>) -> Result<(), KandError> {
    if len == 0 {
        Err(KandError::InvalidData)
    } else if !all_equal(other_lens, len) {
        Err(KandError::LengthMismatch)
    } else {
        Ok(())
    }
}

/// Checks the arguments of `medprice`.
pub fn check_medprice(len: usize, other_lens: &[usize]) -> (r: Result<(), KandError>)
    ensures
        r == medprice_outcome(len, other_lens@),
{
    if len == 0 {
        return Err(KandError::InvalidData);
    }
    if !lengths_match(len, other_lens) {
        return Err(KandError::LengthMismatch);
    }
    Ok(())
}

} // verus!
