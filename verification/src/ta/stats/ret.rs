//! Simple returns of a price series.
use vstd::prelude::*;

use crate::error::StatsError;

verus! {

/// Checks the lengths given to `ret`: at least two prices, and as many
/// outputs as prices.
pub fn check_ret(values_len: usize, performances_len: usize) -> (r: Result<(), StatsError>)
    ensures
        r is Ok <==> values_len >= 2 && performances_len == values_len,
        values_len < 2 ==> (r matches Err(StatsError::InvalidInput(m)) && m@
            == "At least two price values are required"@),
        values_len >= 2 && performances_len != values_len ==> (r matches Err(StatsError::InvalidInput(m))
            && m@ == "Output slice must have length equal to input length"@),
{
    if values_len < 2 {
        return Err(StatsError::InvalidInput("At least two price values are required".to_owned()));
    }
    if performances_len != values_len {
        return Err(
            StatsError::InvalidInput("Output slice must have length equal to input length".to_owned()),
        );
    }
    Ok(())
}

} // verus!
