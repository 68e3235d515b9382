//! Error types of the indicator and statistics functions.
use vstd::prelude::*;

verus! {

/// Errors reported by the indicator functions.
#[derive(Debug, PartialEq, Eq)]
pub enum KandError {
    /// Invalid parameter value provided to the function
    InvalidParameter,
    /// Insufficient data points for the requested calculation
    InsufficientData,
    /// Input data contains NaN (Not a Number) values
    NaNDetected,
    /// Input arrays have mismatched lengths
    LengthMismatch,
    /// Input data is invalid (out of range or empty)
    InvalidData,
    /// File operation error occurred
    FileError,
    /// Failed to convert between numeric types
    ConversionError,
    /// Invalid input, with a description
    InvalidInput(String),
    /// Calculation error, with a description
    CalculationError(String),
}

/// Errors reported by the statistics functions, with a description.
#[derive(Debug, PartialEq, Eq)]
pub enum StatsError {
    /// Invalid input
    InvalidInput(String),
    /// Failed conversion between numeric types
    ConversionError(String),
}

} // verus!
