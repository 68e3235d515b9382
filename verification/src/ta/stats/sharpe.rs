//! Sharpe ratio of a series of returns.
use vstd::prelude::*;

use crate::error::StatsError;

verus! {

/// Checks the number of returns given to `sharpe`: at least two, for a
/// sample standard deviation.
pub fn check_sharpe(returns_len: usize) -> (r: Result<(), StatsError>)
    ensures
        r is Ok <==> returns_len >= 2,
        returns_len < 2 ==> (r matches Err(StatsError::InvalidInput(m)) && m@
            == "At least two return values are required to compute the Sharpe ratio"@),
{
    if returns_len < 2 {
        return Err(
            StatsError::InvalidInput(
                "At least two return values are required to compute the Sharpe ratio".to_owned(),
            ),
        );
    }
    Ok(())
}

} // verus!
