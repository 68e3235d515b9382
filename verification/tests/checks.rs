use kand::checks::{check_period, lengths_match, window};
use kand::helper::{check_bars, check_levels_hl, k_denominator};
use kand::ohlcv::{
    ad, adosc, adr, bbands, cdl_dragonfly_doji, cdl_marubozu, ht_dcperiod, kdj, medprice, mom,
    rma, sar, sma, trix, vegas, vwap,
};
use kand::stats::{max, min, stddev};
use kand::stats::{ret::check_ret, sharpe::check_sharpe};
use kand::{KandError, StatsError};

#[test]
fn lengths_match_compares_every_length() {
    assert!(lengths_match(5, &[]));
    assert!(lengths_match(5, &[5, 5, 5]));
    assert!(!lengths_match(5, &[5, 4, 5]));
    assert!(!lengths_match(5, &[5, 5, 6]));
}

#[test]
fn period_checks() {
    assert_eq!(check_period(2), Ok(()));
    assert_eq!(check_period(1), Err(KandError::InvalidParameter));
    assert_eq!(window(3), Ok(2));
    assert_eq!(window(0), Err(KandError::InvalidParameter));
}

#[test]
fn sma_checks_in_order() {
    assert_eq!(sma::check_sma(39, 39, 14), Ok(13));
    assert_eq!(sma::check_sma(5, 5, 1), Err(KandError::InvalidParameter));
    assert_eq!(sma::check_sma(0, 0, 3), Err(KandError::InvalidData));
    // The lengths are checked before the amount of data.
    assert_eq!(sma::check_sma(2, 1, 3), Err(KandError::LengthMismatch));
    assert_eq!(sma::check_sma(2, 2, 3), Err(KandError::InsufficientData));
    assert_eq!(sma::check_sma(3, 3, 3), Ok(2));
}

#[test]
fn max_and_min_check_in_different_orders() {
    // MAX checks the amount of data before the output length, MIN after it.
    assert_eq!(max::check_max(2, 1, 3), Err(KandError::InsufficientData));
    assert_eq!(min::check_min(2, 1, 3), Err(KandError::LengthMismatch));
    assert_eq!(max::check_max(25, 25, 14), Ok(13));
    assert_eq!(min::check_min(25, 25, 14), Ok(13));
    assert_eq!(max::check_max(0, 0, 14), Err(KandError::InvalidData));
    assert_eq!(min::check_min(5, 5, 0), Err(KandError::InvalidParameter));
}

#[test]
fn mom_and_rma_checks() {
    assert_eq!(mom::check_mom(13, 13, 14), Err(KandError::InsufficientData));
    assert_eq!(mom::check_mom(14, 14, 14), Ok(14));
    assert_eq!(mom::check_mom(2, 2, 2), Ok(2));
    assert_eq!(mom::check_mom(15, 15, 14), Ok(14));
    assert_eq!(mom::check_mom(15, 14, 14), Err(KandError::LengthMismatch));
    assert_eq!(rma::check_rma(13, 12, 14), Err(KandError::InsufficientData));
    assert_eq!(rma::check_rma(14, 12, 14), Err(KandError::LengthMismatch));
    assert_eq!(rma::check_rma(14, 14, 14), Ok(13));
}

#[test]
fn multi_series_checks() {
    assert_eq!(ad::check_ad(4, &[4, 4, 4, 4]), Ok(0));
    assert_eq!(ad::check_ad(0, &[0, 0, 0, 0]), Err(KandError::InvalidData));
    assert_eq!(ad::check_ad(4, &[4, 3, 4, 4]), Err(KandError::LengthMismatch));
    assert_eq!(adr::check_adr(10, &[10, 10], 5), Ok(4));
    assert_eq!(adr::check_adr(4, &[3, 10], 5), Err(KandError::InsufficientData));
    assert_eq!(bbands::check_bbands(45, &[45; 7], 20), Ok(19));
    assert_eq!(bbands::check_bbands(45, &[45, 45, 45, 44, 45, 45, 45], 20), Err(KandError::LengthMismatch));
    assert_eq!(kdj::check_kdj(9, 9, 9, &[9; 3], 9), Ok(8));
    assert_eq!(kdj::check_kdj(8, 9, 9, &[9; 3], 9), Err(KandError::LengthMismatch));
    assert_eq!(kdj::check_kdj(8, 8, 8, &[8; 3], 9), Err(KandError::InsufficientData));
    // Any empty input series is invalid data.
    assert_eq!(kdj::check_kdj(8, 0, 8, &[8; 3], 9), Err(KandError::InvalidData));
    assert_eq!(kdj::check_kdj(8, 8, 0, &[8; 3], 9), Err(KandError::InvalidData));
    assert_eq!(kdj::check_kdj(8, 8, 8, &[8, 0, 8], 2), Err(KandError::LengthMismatch));
    assert_eq!(medprice::check_medprice(3, &[3, 3]), Ok(()));
    assert_eq!(medprice::check_medprice(3, &[3, 2]), Err(KandError::LengthMismatch));
    assert_eq!(medprice::check_medprice(0, &[0, 0]), Err(KandError::InvalidData));
    assert_eq!(stddev::check_stddev(25, &[25; 3], 14), Ok(13));
    assert_eq!(stddev::check_stddev(5, &[4, 5, 5], 14), Err(KandError::LengthMismatch));
    assert_eq!(trix::check_trix(20, &[20; 4], 3), Ok(7));
    assert_eq!(trix::check_trix(7, &[7; 4], 3), Err(KandError::InsufficientData));
    assert_eq!(vegas::check_vegas(676, &[676; 4]), Ok(675));
    assert_eq!(vegas::check_vegas(675, &[675; 4]), Err(KandError::InsufficientData));
    assert_eq!(vegas::check_vegas(675, &[674, 675, 675, 675]), Err(KandError::LengthMismatch));
    assert_eq!(vwap::check_vwap(40, &[40; 6]), Ok(()));
    assert_eq!(vwap::check_vwap(0, &[0; 6]), Err(KandError::InvalidData));
    assert_eq!(ht_dcperiod::check_ht_dcperiod(33, 33), Ok(32));
    assert_eq!(ht_dcperiod::check_ht_dcperiod(32, 31), Err(KandError::LengthMismatch));
    assert_eq!(ht_dcperiod::check_ht_dcperiod(32, 32), Err(KandError::InsufficientData));
}

#[test]
fn adosc_checks() {
    assert_eq!(adosc::check_adosc(40, &[40; 7], 3, 10), Ok(9));
    assert_eq!(adosc::check_adosc(9, &[40; 7], 3, 10), Err(KandError::InsufficientData));
    assert_eq!(adosc::check_adosc(40, &[40; 7], 10, 3), Err(KandError::InvalidParameter));
    assert_eq!(adosc::check_adosc(40, &[40, 40, 39, 40, 40, 40, 40], 3, 10), Err(KandError::LengthMismatch));
    assert_eq!(adosc::check_adosc(40, &[40; 7], 1, 10), Ok(9));
    assert_eq!(adosc::check_adosc(40, &[40; 7], 0, 10), Err(KandError::InvalidParameter));
    assert_eq!(adosc::check_adosc_incremental(1, 10), Ok(()));
    assert_eq!(adosc::check_adosc_incremental(0, 10), Err(KandError::InvalidParameter));
    assert_eq!(adosc::check_adosc_incremental(10, 10), Err(KandError::InvalidParameter));
}

#[test]
fn candlestick_checks() {
    assert_eq!(cdl_dragonfly_doji::check_cdl_dragonfly_doji(0, &[0; 4], true), Ok(()));
    assert_eq!(cdl_dragonfly_doji::check_cdl_dragonfly_doji(3, &[3, 3, 2, 3], false), Err(KandError::LengthMismatch));
    assert_eq!(cdl_dragonfly_doji::check_cdl_dragonfly_doji(3, &[3; 4], false), Err(KandError::InvalidParameter));
    assert_eq!(cdl_marubozu::check_cdl_marubozu(62, &[62; 5], 14, true), Ok(13));
    assert_eq!(cdl_marubozu::check_cdl_marubozu(62, &[62; 5], 14, false), Err(KandError::InvalidParameter));
    assert_eq!(cdl_marubozu::check_cdl_marubozu(13, &[62; 5], 14, false), Err(KandError::InsufficientData));
    assert_eq!(cdl_marubozu::check_cdl_marubozu_incremental(14, true), Ok(()));
    assert_eq!(cdl_marubozu::check_cdl_marubozu_incremental(1, true), Err(KandError::InvalidParameter));
    assert_eq!(cdl_marubozu::check_cdl_marubozu_incremental(14, false), Err(KandError::InvalidParameter));
}

#[test]
fn sar_checks() {
    assert_eq!(sar::check_sar(40, &[40; 5], true), Ok(1));
    assert_eq!(sar::check_sar(0, &[0; 5], false), Err(KandError::InvalidData));
    assert_eq!(sar::check_sar(40, &[40, 40, 40, 40, 39], false), Err(KandError::LengthMismatch));
    assert_eq!(sar::check_sar(1, &[1; 5], false), Err(KandError::InvalidParameter));
    assert_eq!(sar::check_sar(1, &[1; 5], true), Err(KandError::InsufficientData));
}

#[test]
fn helper_checks() {
    // The window [2, 4] of [5, 2, 4, 1, 3] lies in the array.
    assert_eq!(check_bars(5, 4, 3), Ok(()));
    assert_eq!(check_bars(5, 2, 3), Ok(()));
    assert_eq!(check_bars(5, 1, 3), Err(KandError::InvalidParameter));
    assert_eq!(check_bars(5, 5, 3), Err(KandError::InvalidParameter));
    assert_eq!(check_bars(0, 0, 1), Err(KandError::InvalidParameter));
    assert_eq!(check_bars(5, 4, 0), Err(KandError::InvalidParameter));
    assert_eq!(k_denominator(14), Ok(15));
    assert_eq!(k_denominator(0), Err(KandError::InvalidParameter));
    assert_eq!(check_levels_hl(3, 3, true), Ok(()));
    assert_eq!(check_levels_hl(0, 0, true), Err(KandError::InvalidData));
    assert_eq!(check_levels_hl(2, 1, true), Err(KandError::LengthMismatch));
    assert_eq!(check_levels_hl(1, 1, false), Err(KandError::InvalidParameter));
}

#[test]
fn stats_length_checks() {
    assert_eq!(check_ret(3, 3), Ok(()));
    assert_eq!(
        check_ret(1, 1),
        Err(StatsError::InvalidInput("At least two price values are required".to_string()))
    );
    assert_eq!(
        check_ret(3, 2),
        Err(StatsError::InvalidInput(
            "Output slice must have length equal to input length".to_string()
        ))
    );
    assert_eq!(check_sharpe(2), Ok(()));
    assert!(matches!(check_sharpe(1), Err(StatsError::InvalidInput(_))));
}

#[test]
fn kdj_windows_pass_the_window_search_checks() {
    let period = 9;
    let len = 20;
    let lookback = kdj::check_kdj(len, len, len, &[len; 3], period).unwrap();
    for i in lookback..len {
        assert_eq!(check_bars(len, i, period), Ok(()));
    }
}

#[test]
fn window_indicators_accept_the_same_arguments() {
    for len in 0..6usize {
        for out in 0..6usize {
            for period in 0..6usize {
                let accepted = period >= 2 && len >= period && out == len;
                let sma = sma::check_sma(len, out, period);
                assert_eq!(sma.is_ok(), accepted);
                assert_eq!(rma::check_rma(len, out, period).is_ok(), accepted);
                assert_eq!(max::check_max(len, out, period).is_ok(), accepted);
                assert_eq!(min::check_min(len, out, period), sma);
                if accepted {
                    assert_eq!(sma, Ok(period - 1));
                }
            }
        }
    }
}

#[test]
fn test_rma_error_conditions() {
    // Three prices and three outputs with a period of 1.
    assert_eq!(rma::check_rma(3, 3, 1), Err(KandError::InvalidParameter));
    // A short output.
    assert_eq!(rma::check_rma(3, 2, 2), Err(KandError::LengthMismatch));
    // A period longer than the series.
    assert_eq!(rma::check_rma(3, 3, 4), Err(KandError::InsufficientData));
    // An empty series.
    assert_eq!(rma::check_rma(0, 0, 2), Err(KandError::InvalidData));
}

#[test]
fn ema_roc_and_var_checks() {
    assert_eq!(kand::ohlcv::ema::lookback(14), Ok(13));
    assert_eq!(kand::ohlcv::ema::lookback(1), Ok(0));
    assert_eq!(kand::ohlcv::ema::lookback(0), Err(KandError::InvalidParameter));
    assert_eq!(kand::ohlcv::ema::check_ema(10, 10, 3), Ok(2));
    assert_eq!(kand::ohlcv::ema::check_ema(0, 0, 3), Err(KandError::InvalidData));
    assert_eq!(kand::ohlcv::ema::check_ema(2, 1, 3), Err(KandError::LengthMismatch));
    assert_eq!(kand::ohlcv::ema::check_ema(2, 2, 3), Err(KandError::InsufficientData));
    assert_eq!(kand::ohlcv::ema::check_ema_incremental(1), Ok(()));
    assert_eq!(kand::ohlcv::ema::check_ema_incremental(0), Err(KandError::InvalidParameter));
    assert_eq!(kand::ohlcv::roc::lookback(1), Ok(1));
    assert_eq!(kand::ohlcv::roc::lookback(0), Err(KandError::InvalidParameter));
    assert_eq!(kand::ohlcv::roc::check_roc(5, 5, 1), Ok(1));
    assert_eq!(kand::ohlcv::roc::check_roc(1, 1, 1), Err(KandError::InsufficientData));
    assert_eq!(kand::ohlcv::roc::check_roc(5, 4, 1), Err(KandError::LengthMismatch));
    assert_eq!(kand::stats::var::lookback(14), Ok(13));
    assert_eq!(kand::stats::var::check_var(25, &[25; 3], 14), Ok(13));
    assert_eq!(kand::stats::var::check_var(13, &[13; 3], 14), Err(KandError::InsufficientData));
    assert_eq!(kand::stats::var::check_var(13, &[13, 12, 13], 14), Err(KandError::LengthMismatch));
}

#[test]
fn float_parameter_checks() {
    assert_eq!(sar::lookback(true), Ok(1));
    assert_eq!(sar::lookback(false), Err(KandError::InvalidParameter));
    assert_eq!(sar::check_sar_incremental(true), Ok(()));
    assert_eq!(sar::check_sar_incremental(false), Err(KandError::InvalidParameter));
    assert_eq!(cdl_dragonfly_doji::check_cdl_dragonfly_doji_incremental(true), Ok(()));
    assert_eq!(
        cdl_dragonfly_doji::check_cdl_dragonfly_doji_incremental(false),
        Err(KandError::InvalidParameter)
    );
    assert_eq!(kand::ohlcv::tpo::check_tpo_incremental(true), Ok(()));
    assert_eq!(kand::ohlcv::tpo::check_tpo_incremental(false), Err(KandError::InvalidParameter));
}
