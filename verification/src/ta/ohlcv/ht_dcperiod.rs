//! Hilbert Transform Dominant Cycle Period (HT_DCPERIOD).
use vstd::prelude::*;

use crate::error::KandError;

verus! {

/// The lookback of HT_DCPERIOD: 32 values.
pub fn lookback() -> (r: Result<usize, KandError>)
    ensures
        r == Ok::<usize, KandError>(32),
{
    Ok(32)
}

/// What `ht_dcperiod` answers to its argument checks, over the input and
/// output lengths.
pub open spec fn ht_dcperiod_outcome(len: usize, output_len: usize) -> Result<usize, KandError> {
    if len == 0 {
        Err(KandError::InvalidData)
    } else if output_len != len {
        Err(KandError::LengthMismatch)
    } else if len <= 32 {
        Err(KandError::InsufficientData)
    } else {
        Ok(32)
    }
}

/// Checks the arguments of `ht_dcperiod` and gives its lookback.
pub fn check_ht_dcperiod(len: usize, output_len: usize) -> (r: Result<usize, KandError>)
    ensures
        r == ht_dcperiod_outcome(len, output_len),
{
    let lookback = lookback()?;
    if len == 0 {
        return Err(KandError::InvalidData);
    }
    if len != output_len {
        return Err(KandError::LengthMismatch);
    }
    if len <= lookback {
        return Err(KandError::InsufficientData);
    }
    Ok(lookback)
}

} // verus!
