//! Signals reported by the candlestick pattern detectors.
use vstd::prelude::*;

verus! {

/// Integer type of indicator outputs.
pub type TAInt = i64;

/// The signal a candlestick pattern gives for one bar.
#[derive(Debug, Clone, Copy, PartialEq, Eq, Structural)]
pub enum Signal {
    /// A bullish pattern: 100.
    Bullish,
    /// A bearish pattern: -100.
    Bearish,
    /// No pattern: 0.
    Neutral,
}

/// The integer that stands for a signal in the output series.
pub open spec fn signal_value(s: Signal) -> TAInt {
    match s {
        Signal::Bullish => 100,
        Signal::Bearish => -100i64,
        Signal::Neutral => 0,
    }
}

impl From<Signal> for TAInt {
    fn from(s: Signal) -> (r: TAInt) {
        match s {
            Signal::Bullish => 100,
            Signal::Bearish => -100i64,
            Signal::Neutral => 0,
        }
    }
}

impl vstd::std_specs::convert::FromSpecImpl<Signal> for TAInt {
    open spec fn obeys_from_spec() -> bool {
        true
    }

    open spec fn from_spec(s: Signal) -> TAInt {
        signal_value(s)
    }
}

} // verus!
