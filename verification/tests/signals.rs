use kand::ohlcv::cdl_dragonfly_doji::dragonfly_doji_signal;
use kand::ohlcv::cdl_marubozu::marubozu_signal;
use kand::{Signal, TAInt};

#[test]
fn signal_values() {
    assert_eq!(TAInt::from(Signal::Bullish), 100);
    assert_eq!(TAInt::from(Signal::Bearish), -100);
    assert_eq!(TAInt::from(Signal::Neutral), 0);
    let v: TAInt = Signal::Bearish.into();
    assert_eq!(v, -100);
}

#[test]
fn dragonfly_doji_rule() {
    assert_eq!(dragonfly_doji_signal(true, true), Signal::Bullish);
    assert_eq!(dragonfly_doji_signal(true, false), Signal::Neutral);
    assert_eq!(dragonfly_doji_signal(false, true), Signal::Neutral);
    assert_eq!(dragonfly_doji_signal(false, false), Signal::Neutral);
}

#[test]
fn marubozu_rule() {
    assert_eq!(marubozu_signal(true, true, true, true), Signal::Bullish);
    assert_eq!(marubozu_signal(true, true, true, false), Signal::Bearish);
    assert_eq!(marubozu_signal(false, true, true, true), Signal::Neutral);
    assert_eq!(marubozu_signal(true, false, true, true), Signal::Neutral);
    assert_eq!(marubozu_signal(true, true, false, false), Signal::Neutral);
}
