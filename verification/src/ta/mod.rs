pub mod ohlcv;
pub mod stats;
