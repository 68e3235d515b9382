use kand::ohlcv::{
    ad, adosc, adr, bbands, cdl_dragonfly_doji, cdl_marubozu, ht_dcperiod, kdj, medprice, mom,
    rma, sma, trix, vegas, vwap,
};
use kand::stats::{max, min, stddev};
use kand::KandError;

#[test]
fn lookbacks_without_parameters() {
    assert_eq!(ad::lookback(), Ok(0));
    assert_eq!(cdl_dragonfly_doji::lookback(), Ok(0));
    assert_eq!(medprice::lookback(), Ok(0));
    assert_eq!(vwap::lookback(), Ok(0));
    assert_eq!(ht_dcperiod::lookback(), Ok(32));
    assert_eq!(vegas::lookback(), Ok(675));
}

#[test]
fn window_lookbacks_are_period_minus_one() {
    assert_eq!(sma::lookback(14), Ok(13));
    assert_eq!(rma::lookback(14), Ok(13));
    assert_eq!(adr::lookback(14), Ok(13));
    assert_eq!(bbands::lookback(20), Ok(19));
    assert_eq!(cdl_marubozu::lookback(14), Ok(13));
    assert_eq!(kdj::lookback(9), Ok(8));
    assert_eq!(max::lookback(14), Ok(13));
    assert_eq!(min::lookback(14), Ok(13));
    assert_eq!(stddev::lookback(14), Ok(13));
    assert_eq!(sma::lookback(2), Ok(1));
}

#[test]
fn window_lookbacks_reject_short_periods() {
    for period in [0usize, 1] {
        assert_eq!(sma::lookback(period), Err(KandError::InvalidParameter));
        assert_eq!(rma::lookback(period), Err(KandError::InvalidParameter));
        assert_eq!(adr::lookback(period), Err(KandError::InvalidParameter));
        assert_eq!(bbands::lookback(period), Err(KandError::InvalidParameter));
        assert_eq!(cdl_marubozu::lookback(period), Err(KandError::InvalidParameter));
        assert_eq!(kdj::lookback(period), Err(KandError::InvalidParameter));
        assert_eq!(max::lookback(period), Err(KandError::InvalidParameter));
        assert_eq!(min::lookback(period), Err(KandError::InvalidParameter));
        assert_eq!(stddev::lookback(period), Err(KandError::InvalidParameter));
        assert_eq!(mom::lookback(period), Err(KandError::InvalidParameter));
        assert_eq!(trix::lookback(period), Err(KandError::InvalidParameter));
    }
}

#[test]
fn mom_lookback_is_the_period() {
    assert_eq!(mom::lookback(14), Ok(14));
    assert_eq!(mom::lookback(2), Ok(2));
}

#[test]
fn trix_lookback_is_three_ema_lookbacks_and_one() {
    assert_eq!(trix::lookback(14), Ok(40));
    assert_eq!(trix::lookback(3), Ok(7));
    assert_eq!(trix::lookback(2), Ok(4));
}

#[test]
fn adosc_lookback_is_the_slow_ema_lookback() {
    assert_eq!(adosc::lookback(3, 10), Ok(9));
    assert_eq!(adosc::lookback(2, 10), Ok(9));
    assert_eq!(adosc::lookback(1, 10), Ok(9));
    assert_eq!(adosc::lookback(1, 2), Ok(1));
    assert_eq!(adosc::lookback(0, 10), Err(KandError::InvalidParameter));
    assert_eq!(adosc::lookback(3, 0), Err(KandError::InvalidParameter));
    assert_eq!(adosc::lookback(10, 3), Err(KandError::InvalidParameter));
    assert_eq!(adosc::lookback(5, 5), Err(KandError::InvalidParameter));
}
