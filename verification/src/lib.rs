//! Technical analysis indicators: their lookbacks, argument checks, TPO
//! profile counting and candlestick signal rules.
use vstd::prelude::*;

pub mod check_laws;
pub mod checks;
pub mod error;
pub mod helper;
pub mod laws;
pub mod ta;
pub mod types;

pub use error::{KandError, StatsError};
pub use ta::{ohlcv, stats};
pub use types::{Signal, TAInt};
