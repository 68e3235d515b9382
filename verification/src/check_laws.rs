//! What every argument check accepts, what each accepted call gives, and
//! that each error it reports has its cause: stated over the lengths and
//! parameters themselves.
use vstd::prelude::*;

use crate::checks::{parameter_outcome, period_outcome, window_lookback};
use crate::error::KandError;
use crate::helper::{bars_outcome, k_denominator_outcome, levels_hl_outcome};
use crate::ta::ohlcv::ad::ad_outcome;
use crate::ta::ohlcv::adosc::{adosc_incremental_outcome, adosc_lookback, adosc_outcome};
use crate::ta::ohlcv::adr::adr_outcome;
use crate::ta::ohlcv::bbands::bbands_outcome;
use crate::ta::ohlcv::cdl_dragonfly_doji::cdl_dragonfly_doji_outcome;
use crate::ta::ohlcv::cdl_marubozu::{cdl_marubozu_incremental_outcome, cdl_marubozu_outcome};
use crate::ta::ohlcv::ema::{ema_incremental_outcome, ema_lookback, ema_outcome};
use crate::ta::ohlcv::ht_dcperiod::ht_dcperiod_outcome;
use crate::ta::ohlcv::kdj::kdj_outcome;
use crate::ta::ohlcv::medprice::medprice_outcome;
use crate::ta::ohlcv::mom::{mom_lookback, mom_outcome};
use crate::ta::ohlcv::rma::rma_outcome;
use crate::ta::ohlcv::roc::{roc_lookback, roc_outcome};
use crate::ta::ohlcv::sar::{sar_lookback, sar_outcome};
use crate::ta::ohlcv::sma::sma_outcome;
use crate::ta::ohlcv::tpo::tpo_outputs_outcome;
use crate::ta::ohlcv::trix::{trix_lookback, trix_outcome};
use crate::ta::ohlcv::vegas::vegas_outcome;
use crate::ta::ohlcv::vwap::vwap_outcome;
use crate::ta::stats::max::max_outcome;
use crate::ta::stats::min::min_outcome;
use crate::ta::stats::stddev::stddev_outcome;
use crate::ta::stats::var::var_outcome;

verus! {

/// SMA accepts a period of at least 2, an output as long as the input and more input values than its lookback `period - 1`, and then gives that lookback; each error it reports has its cause.
pub proof fn lemma_sma_accepts(len: usize, output_len: usize, param_period: usize)
    ensures
        sma_outcome(len, output_len, param_period) is Ok <==> (param_period >= 2 && output_len == len && len > param_period - 1),
        sma_outcome(len, output_len, param_period) matches Ok(lookback) ==> lookback == param_period - 1,
        sma_outcome(len, output_len, param_period) matches Err(KandError::InvalidParameter) ==> (param_period < 2),
        sma_outcome(len, output_len, param_period) matches Err(KandError::InvalidData) ==> (len == 0),
        sma_outcome(len, output_len, param_period) matches Err(KandError::LengthMismatch) ==> (output_len != len),
        sma_outcome(len, output_len, param_period) matches Err(KandError::InsufficientData) ==> (len <= param_period - 1),
        sma_outcome(len, output_len, param_period) is Err ==> (sma_outcome(len, output_len, param_period) matches Err(KandError::InvalidParameter) || sma_outcome(len, output_len, param_period) matches Err(KandError::InvalidData) || sma_outcome(len, output_len, param_period) matches Err(KandError::LengthMismatch) || sma_outcome(len, output_len, param_period) matches Err(KandError::InsufficientData)),
        (param_period < 2) ==> (sma_outcome(len, output_len, param_period) matches Err(KandError::InvalidParameter)),
        (param_period >= 2 && len == 0) ==> (sma_outcome(len, output_len, param_period) matches Err(KandError::InvalidData)),
{
}

/// RMA accepts a period of at least 2, an output as long as the input and more input values than `period - 1`, and then gives that lookback; each error it reports has its cause.
pub proof fn lemma_rma_accepts(len: usize, output_len: usize, param_period: usize)
    ensures
        rma_outcome(len, output_len, param_period) is Ok <==> (param_period >= 2 && output_len == len && len > param_period - 1),
        rma_outcome(len, output_len, param_period) matches Ok(lookback) ==> lookback == param_period - 1,
        rma_outcome(len, output_len, param_period) matches Err(KandError::InvalidParameter) ==> (param_period < 2),
        rma_outcome(len, output_len, param_period) matches Err(KandError::InvalidData) ==> (len == 0),
        rma_outcome(len, output_len, param_period) matches Err(KandError::LengthMismatch) ==> (output_len != len),
        rma_outcome(len, output_len, param_period) matches Err(KandError::InsufficientData) ==> (len <= param_period - 1),
        rma_outcome(len, output_len, param_period) is Err ==> (rma_outcome(len, output_len, param_period) matches Err(KandError::InvalidParameter) || rma_outcome(len, output_len, param_period) matches Err(KandError::InvalidData) || rma_outcome(len, output_len, param_period) matches Err(KandError::LengthMismatch) || rma_outcome(len, output_len, param_period) matches Err(KandError::InsufficientData)),
        (param_period < 2) ==> (rma_outcome(len, output_len, param_period) matches Err(KandError::InvalidParameter)),
        (param_period >= 2 && len == 0) ==> (rma_outcome(len, output_len, param_period) matches Err(KandError::InvalidData)),
{
}

/// MAX accepts a period of at least 2, an output as long as the input and more input values than `period - 1`, and then gives that lookback; each error it reports has its cause.
pub proof fn lemma_max_accepts(len: usize, output_len: usize, param_period: usize)
    ensures
        max_outcome(len, output_len, param_period) is Ok <==> (param_period >= 2 && output_len == len && len > param_period - 1),
        max_outcome(len, output_len, param_period) matches Ok(lookback) ==> lookback == param_period - 1,
        max_outcome(len, output_len, param_period) matches Err(KandError::InvalidParameter) ==> (param_period < 2),
        max_outcome(len, output_len, param_period) matches Err(KandError::InvalidData) ==> (len == 0),
        max_outcome(len, output_len, param_period) matches Err(KandError::LengthMismatch) ==> (output_len != len),
        max_outcome(len, output_len, param_period) matches Err(KandError::InsufficientData) ==> (len <= param_period - 1),
        max_outcome(len, output_len, param_period) is Err ==> (max_outcome(len, output_len, param_period) matches Err(KandError::InvalidParameter) || max_outcome(len, output_len, param_period) matches Err(KandError::InvalidData) || max_outcome(len, output_len, param_period) matches Err(KandError::LengthMismatch) || max_outcome(len, output_len, param_period) matches Err(KandError::InsufficientData)),
        (param_period < 2) ==> (max_outcome(len, output_len, param_period) matches Err(KandError::InvalidParameter)),
        (param_period >= 2 && len == 0) ==> (max_outcome(len, output_len, param_period) matches Err(KandError::InvalidData)),
{
}

/// MIN accepts a period of at least 2, an output as long as the input and more input values than `period - 1`, and then gives that lookback; each error it reports has its cause.
pub proof fn lemma_min_accepts(len: usize, output_len: usize, param_period: usize)
    ensures
        min_outcome(len, output_len, param_period) is Ok <==> (param_period >= 2 && output_len == len && len > param_period - 1),
        min_outcome(len, output_len, param_period) matches Ok(lookback) ==> lookback == param_period - 1,
        min_outcome(len, output_len, param_period) matches Err(KandError::InvalidParameter) ==> (param_period < 2),
        min_outcome(len, output_len, param_period) matches Err(KandError::InvalidData) ==> (len == 0),
        min_outcome(len, output_len, param_period) matches Err(KandError::LengthMismatch) ==> (output_len != len),
        min_outcome(len, output_len, param_period) matches Err(KandError::InsufficientData) ==> (len <= param_period - 1),
        min_outcome(len, output_len, param_period) is Err ==> (min_outcome(len, output_len, param_period) matches Err(KandError::InvalidParameter) || min_outcome(len, output_len, param_period) matches Err(KandError::InvalidData) || min_outcome(len, output_len, param_period) matches Err(KandError::LengthMismatch) || min_outcome(len, output_len, param_period) matches Err(KandError::InsufficientData)),
        (param_period < 2) ==> (min_outcome(len, output_len, param_period) matches Err(KandError::InvalidParameter)),
        (param_period >= 2 && len == 0) ==> (min_outcome(len, output_len, param_period) matches Err(KandError::InvalidData)),
{
}

/// MOM accepts a period of at least 2, an output as long as the input and at least `period` input values, and then gives the lookback `period`; data is insufficient only when the input is shorter than the period.
pub proof fn lemma_mom_accepts(len: usize, output_len: usize, param_period: usize)
    ensures
        mom_outcome(len, output_len, param_period) is Ok <==> (param_period >= 2 && output_len == len && len >= param_period),
        mom_outcome(len, output_len, param_period) matches Ok(lookback) ==> lookback == param_period,
        mom_outcome(len, output_len, param_period) matches Err(KandError::InvalidParameter) ==> (param_period < 2),
        mom_outcome(len, output_len, param_period) matches Err(KandError::InvalidData) ==> (len == 0),
        mom_outcome(len, output_len, param_period) matches Err(KandError::LengthMismatch) ==> (output_len != len),
        mom_outcome(len, output_len, param_period) matches Err(KandError::InsufficientData) ==> (len < param_period),
        mom_outcome(len, output_len, param_period) is Err ==> (mom_outcome(len, output_len, param_period) matches Err(KandError::InvalidParameter) || mom_outcome(len, output_len, param_period) matches Err(KandError::InvalidData) || mom_outcome(len, output_len, param_period) matches Err(KandError::LengthMismatch) || mom_outcome(len, output_len, param_period) matches Err(KandError::InsufficientData)),
        (param_period < 2) ==> (mom_outcome(len, output_len, param_period) matches Err(KandError::InvalidParameter)),
        (param_period >= 2 && len == 0) ==> (mom_outcome(len, output_len, param_period) matches Err(KandError::InvalidData)),
{
}

/// EMA accepts a nonzero period, an output as long as the input and more input values than `period - 1`, and then gives that lookback; each error it reports has its cause.
pub proof fn lemma_ema_accepts(len: usize, output_len: usize, param_period: usize)
    ensures
        ema_outcome(len, output_len, param_period) is Ok <==> (param_period >= 1 && output_len == len && len > param_period - 1),
        ema_outcome(len, output_len, param_period) matches Ok(lookback) ==> lookback == param_period - 1,
        ema_outcome(len, output_len, param_period) matches Err(KandError::InvalidParameter) ==> (param_period == 0),
        ema_outcome(len, output_len, param_period) matches Err(KandError::InvalidData) ==> (len == 0),
        ema_outcome(len, output_len, param_period) matches Err(KandError::LengthMismatch) ==> (output_len != len),
        ema_outcome(len, output_len, param_period) matches Err(KandError::InsufficientData) ==> (len <= param_period - 1),
        ema_outcome(len, output_len, param_period) is Err ==> (ema_outcome(len, output_len, param_period) matches Err(KandError::InvalidParameter) || ema_outcome(len, output_len, param_period) matches Err(KandError::InvalidData) || ema_outcome(len, output_len, param_period) matches Err(KandError::LengthMismatch) || ema_outcome(len, output_len, param_period) matches Err(KandError::InsufficientData)),
        (param_period == 0) ==> (ema_outcome(len, output_len, param_period) matches Err(KandError::InvalidParameter)),
        (param_period >= 1 && len == 0) ==> (ema_outcome(len, output_len, param_period) matches Err(KandError::InvalidData)),
{
}

/// ROC accepts a nonzero period, an output as long as the input and more input values than the period, and then gives the period as its lookback; each error it reports has its cause.
pub proof fn lemma_roc_accepts(len: usize, output_len: usize, param_period: usize)
    ensures
        roc_outcome(len, output_len, param_period) is Ok <==> (param_period >= 1 && output_len == len && len > param_period),
        roc_outcome(len, output_len, param_period) matches Ok(lookback) ==> lookback == param_period,
        roc_outcome(len, output_len, param_period) matches Err(KandError::InvalidParameter) ==> (param_period == 0),
        roc_outcome(len, output_len, param_period) matches Err(KandError::InvalidData) ==> (len == 0),
        roc_outcome(len, output_len, param_period) matches Err(KandError::LengthMismatch) ==> (output_len != len),
        roc_outcome(len, output_len, param_period) matches Err(KandError::InsufficientData) ==> (len <= param_period),
        roc_outcome(len, output_len, param_period) is Err ==> (roc_outcome(len, output_len, param_period) matches Err(KandError::InvalidParameter) || roc_outcome(len, output_len, param_period) matches Err(KandError::InvalidData) || roc_outcome(len, output_len, param_period) matches Err(KandError::LengthMismatch) || roc_outcome(len, output_len, param_period) matches Err(KandError::InsufficientData)),
        (param_period == 0) ==> (roc_outcome(len, output_len, param_period) matches Err(KandError::InvalidParameter)),
        (param_period >= 1 && len == 0) ==> (roc_outcome(len, output_len, param_period) matches Err(KandError::InvalidData)),
{
}

/// ADR accepts a period of at least 2, series all as long as the high series and more values than `period - 1`, and then gives that lookback; each error it reports has its cause.
pub proof fn lemma_adr_accepts(len: usize, lens: Seq<usize>, param_period: usize)
    ensures
        adr_outcome(len, lens, param_period) is Ok <==> (param_period >= 2 && (forall|i: int| 0 <= i < lens.len() ==> lens[i] == len) && len > param_period - 1),
        adr_outcome(len, lens, param_period) matches Ok(lookback) ==> lookback == param_period - 1,
        adr_outcome(len, lens, param_period) matches Err(KandError::InvalidParameter) ==> (param_period < 2),
        adr_outcome(len, lens, param_period) matches Err(KandError::InvalidData) ==> (len == 0),
        adr_outcome(len, lens, param_period) matches Err(KandError::LengthMismatch) ==> ((exists|i: int| 0 <= i < lens.len() && lens[i] != len)),
        adr_outcome(len, lens, param_period) matches Err(KandError::InsufficientData) ==> (len <= param_period - 1),
        adr_outcome(len, lens, param_period) is Err ==> (adr_outcome(len, lens, param_period) matches Err(KandError::InvalidParameter) || adr_outcome(len, lens, param_period) matches Err(KandError::InvalidData) || adr_outcome(len, lens, param_period) matches Err(KandError::LengthMismatch) || adr_outcome(len, lens, param_period) matches Err(KandError::InsufficientData)),
        (param_period < 2) ==> (adr_outcome(len, lens, param_period) matches Err(KandError::InvalidParameter)),
        (param_period >= 2 && len == 0) ==> (adr_outcome(len, lens, param_period) matches Err(KandError::InvalidData)),
{
}

/// Bollinger Bands accept a period of at least 2, outputs all as long as the input and more input values than `period - 1`, and then give that lookback; each error they report has its cause.
pub proof fn lemma_bbands_accepts(len: usize, lens: Seq<usize>, param_period: usize)
    ensures
        bbands_outcome(len, lens, param_period) is Ok <==> (param_period >= 2 && (forall|i: int| 0 <= i < lens.len() ==> lens[i] == len) && len > param_period - 1),
        bbands_outcome(len, lens, param_period) matches Ok(lookback) ==> lookback == param_period - 1,
        bbands_outcome(len, lens, param_period) matches Err(KandError::InvalidParameter) ==> (param_period < 2),
        bbands_outcome(len, lens, param_period) matches Err(KandError::InvalidData) ==> (len == 0),
        bbands_outcome(len, lens, param_period) matches Err(KandError::LengthMismatch) ==> ((exists|i: int| 0 <= i < lens.len() && lens[i] != len)),
        bbands_outcome(len, lens, param_period) matches Err(KandError::InsufficientData) ==> (len <= param_period - 1),
        bbands_outcome(len, lens, param_period) is Err ==> (bbands_outcome(len, lens, param_period) matches Err(KandError::InvalidParameter) || bbands_outcome(len, lens, param_period) matches Err(KandError::InvalidData) || bbands_outcome(len, lens, param_period) matches Err(KandError::LengthMismatch) || bbands_outcome(len, lens, param_period) matches Err(KandError::InsufficientData)),
        (param_period < 2) ==> (bbands_outcome(len, lens, param_period) matches Err(KandError::InvalidParameter)),
        (param_period >= 2 && len == 0) ==> (bbands_outcome(len, lens, param_period) matches Err(KandError::InvalidData)),
{
}

/// STDDEV accepts a period of at least 2, outputs all as long as the input and more input values than `period - 1`, and then gives that lookback; each error it reports has its cause.
pub proof fn lemma_stddev_accepts(len: usize, lens: Seq<usize>, param_period: usize)
    ensures
        stddev_outcome(len, lens, param_period) is Ok <==> (param_period >= 2 && (forall|i: int| 0 <= i < lens.len() ==> lens[i] == len) && len > param_period - 1),
        stddev_outcome(len, lens, param_period) matches Ok(lookback) ==> lookback == param_period - 1,
        stddev_outcome(len, lens, param_period) matches Err(KandError::InvalidParameter) ==> (param_period < 2),
        stddev_outcome(len, lens, param_period) matches Err(KandError::InvalidData) ==> (len == 0),
        stddev_outcome(len, lens, param_period) matches Err(KandError::LengthMismatch) ==> ((exists|i: int| 0 <= i < lens.len() && lens[i] != len)),
        stddev_outcome(len, lens, param_period) matches Err(KandError::InsufficientData) ==> (len <= param_period - 1),
        stddev_outcome(len, lens, param_period) is Err ==> (stddev_outcome(len, lens, param_period) matches Err(KandError::InvalidParameter) || stddev_outcome(len, lens, param_period) matches Err(KandError::InvalidData) || stddev_outcome(len, lens, param_period) matches Err(KandError::LengthMismatch) || stddev_outcome(len, lens, param_period) matches Err(KandError::InsufficientData)),
        (param_period < 2) ==> (stddev_outcome(len, lens, param_period) matches Err(KandError::InvalidParameter)),
        (param_period >= 2 && len == 0) ==> (stddev_outcome(len, lens, param_period) matches Err(KandError::InvalidData)),
{
}

/// VAR accepts a period of at least 2, outputs all as long as the input and more input values than `period - 1`, and then gives that lookback; each error it reports has its cause.
pub proof fn lemma_var_accepts(len: usize, lens: Seq<usize>, param_period: usize)
    ensures
        var_outcome(len, lens, param_period) is Ok <==> (param_period >= 2 && (forall|i: int| 0 <= i < lens.len() ==> lens[i] == len) && len > param_period - 1),
        var_outcome(len, lens, param_period) matches Ok(lookback) ==> lookback == param_period - 1,
        var_outcome(len, lens, param_period) matches Err(KandError::InvalidParameter) ==> (param_period < 2),
        var_outcome(len, lens, param_period) matches Err(KandError::InvalidData) ==> (len == 0),
        var_outcome(len, lens, param_period) matches Err(KandError::LengthMismatch) ==> ((exists|i: int| 0 <= i < lens.len() && lens[i] != len)),
        var_outcome(len, lens, param_period) matches Err(KandError::InsufficientData) ==> (len <= param_period - 1),
        var_outcome(len, lens, param_period) is Err ==> (var_outcome(len, lens, param_period) matches Err(KandError::InvalidParameter) || var_outcome(len, lens, param_period) matches Err(KandError::InvalidData) || var_outcome(len, lens, param_period) matches Err(KandError::LengthMismatch) || var_outcome(len, lens, param_period) matches Err(KandError::InsufficientData)),
        (param_period < 2) ==> (var_outcome(len, lens, param_period) matches Err(KandError::InvalidParameter)),
        (param_period >= 2 && len == 0) ==> (var_outcome(len, lens, param_period) matches Err(KandError::InvalidData)),
{
}

/// TRIX accepts a period of at least 2, outputs all as long as the input and more input values than its lookback `3 * (period - 1) + 1`, and then gives that lookback; data is insufficient only when the input is no longer than the lookback.
pub proof fn lemma_trix_accepts(len: usize, lens: Seq<usize>, param_period: usize)
    requires
        param_period < 2 || 3 * (param_period - 1) + 1 <= usize::MAX,
    ensures
        trix_outcome(len, lens, param_period) is Ok <==> (param_period >= 2 && (forall|i: int| 0 <= i < lens.len() ==> lens[i] == len) && len > 3 * (param_period - 1) + 1),
        trix_outcome(len, lens, param_period) matches Ok(lookback) ==> lookback == 3 * (param_period - 1) + 1,
        trix_outcome(len, lens, param_period) matches Err(KandError::InvalidParameter) ==> (param_period < 2),
        trix_outcome(len, lens, param_period) matches Err(KandError::InvalidData) ==> (len == 0),
        trix_outcome(len, lens, param_period) matches Err(KandError::LengthMismatch) ==> ((exists|i: int| 0 <= i < lens.len() && lens[i] != len)),
        trix_outcome(len, lens, param_period) matches Err(KandError::InsufficientData) ==> (len <= 3 * (param_period - 1) + 1),
        trix_outcome(len, lens, param_period) is Err ==> (trix_outcome(len, lens, param_period) matches Err(KandError::InvalidParameter) || trix_outcome(len, lens, param_period) matches Err(KandError::InvalidData) || trix_outcome(len, lens, param_period) matches Err(KandError::LengthMismatch) || trix_outcome(len, lens, param_period) matches Err(KandError::InsufficientData)),
        (param_period < 2) ==> (trix_outcome(len, lens, param_period) matches Err(KandError::InvalidParameter)),
        (param_period >= 2 && len == 0) ==> (trix_outcome(len, lens, param_period) matches Err(KandError::InvalidData)),
{
}

/// ADOSC accepts nonzero periods with the fast one below the slow one, series all as long as the high series and more values than `slow - 1`, and then gives that lookback; data is insufficient only when the series is no longer than `slow - 1`.
pub proof fn lemma_adosc_accepts(len: usize, lens: Seq<usize>, fast: usize, slow: usize)
    ensures
        adosc_outcome(len, lens, fast, slow) is Ok <==> (0 < fast && fast < slow && (forall|i: int| 0 <= i < lens.len() ==> lens[i] == len) && len > slow - 1),
        adosc_outcome(len, lens, fast, slow) matches Ok(lookback) ==> lookback == slow - 1,
        adosc_outcome(len, lens, fast, slow) matches Err(KandError::InvalidParameter) ==> (fast == 0 || slow == 0 || fast >= slow),
        adosc_outcome(len, lens, fast, slow) matches Err(KandError::InvalidData) ==> (len == 0),
        adosc_outcome(len, lens, fast, slow) matches Err(KandError::LengthMismatch) ==> ((exists|i: int| 0 <= i < lens.len() && lens[i] != len)),
        adosc_outcome(len, lens, fast, slow) matches Err(KandError::InsufficientData) ==> (len <= slow - 1),
        adosc_outcome(len, lens, fast, slow) is Err ==> (adosc_outcome(len, lens, fast, slow) matches Err(KandError::InvalidParameter) || adosc_outcome(len, lens, fast, slow) matches Err(KandError::InvalidData) || adosc_outcome(len, lens, fast, slow) matches Err(KandError::LengthMismatch) || adosc_outcome(len, lens, fast, slow) matches Err(KandError::InsufficientData)),
        (fast == 0 || slow == 0 || fast >= slow) ==> (adosc_outcome(len, lens, fast, slow) matches Err(KandError::InvalidParameter)),
        (0 < fast && fast < slow && len == 0) ==> (adosc_outcome(len, lens, fast, slow) matches Err(KandError::InvalidData)),
{
}

/// Marubozu detection accepts a period of at least 2, a positive shadow percentage, series all as long as the open series and more candles than `period - 1`, and then gives that lookback; data is insufficient only when there are no more candles than `period - 1`.
pub proof fn lemma_cdl_marubozu_accepts(len: usize, lens: Seq<usize>, param_period: usize, shadow_percent_positive: bool)
    ensures
        cdl_marubozu_outcome(len, lens, param_period, shadow_percent_positive) is Ok <==> (param_period >= 2 && shadow_percent_positive && (forall|i: int| 0 <= i < lens.len() ==> lens[i] == len) && len > param_period - 1),
        cdl_marubozu_outcome(len, lens, param_period, shadow_percent_positive) matches Ok(lookback) ==> lookback == param_period - 1,
        cdl_marubozu_outcome(len, lens, param_period, shadow_percent_positive) matches Err(KandError::InvalidParameter) ==> (param_period < 2 || !shadow_percent_positive),
        cdl_marubozu_outcome(len, lens, param_period, shadow_percent_positive) matches Err(KandError::InvalidData) ==> (len == 0),
        cdl_marubozu_outcome(len, lens, param_period, shadow_percent_positive) matches Err(KandError::LengthMismatch) ==> ((exists|i: int| 0 <= i < lens.len() && lens[i] != len)),
        cdl_marubozu_outcome(len, lens, param_period, shadow_percent_positive) matches Err(KandError::InsufficientData) ==> (len <= param_period - 1),
        cdl_marubozu_outcome(len, lens, param_period, shadow_percent_positive) is Err ==> (cdl_marubozu_outcome(len, lens, param_period, shadow_percent_positive) matches Err(KandError::InvalidParameter) || cdl_marubozu_outcome(len, lens, param_period, shadow_percent_positive) matches Err(KandError::InvalidData) || cdl_marubozu_outcome(len, lens, param_period, shadow_percent_positive) matches Err(KandError::LengthMismatch) || cdl_marubozu_outcome(len, lens, param_period, shadow_percent_positive) matches Err(KandError::InsufficientData)),
        (param_period < 2) ==> (cdl_marubozu_outcome(len, lens, param_period, shadow_percent_positive) matches Err(KandError::InvalidParameter)),
        (param_period >= 2 && len == 0) ==> (cdl_marubozu_outcome(len, lens, param_period, shadow_percent_positive) matches Err(KandError::InvalidData)),
{
}

/// KDJ accepts a period of at least 2, high, low and output series all as long as the close series and more values than `period - 1`, and then gives that lookback; any empty input series is invalid data.
pub proof fn lemma_kdj_accepts(len: usize, high_len: usize, low_len: usize, lens: Seq<usize>, param_period: usize)
    ensures
        kdj_outcome(len, high_len, low_len, lens, param_period) is Ok <==> (param_period >= 2 && high_len == len && low_len == len && (forall|i: int| 0 <= i < lens.len() ==> lens[i] == len) && len > param_period - 1),
        kdj_outcome(len, high_len, low_len, lens, param_period) matches Ok(lookback) ==> lookback == param_period - 1,
        kdj_outcome(len, high_len, low_len, lens, param_period) matches Err(KandError::InvalidParameter) ==> (param_period < 2),
        kdj_outcome(len, high_len, low_len, lens, param_period) matches Err(KandError::InvalidData) ==> (len == 0 || high_len == 0 || low_len == 0),
        kdj_outcome(len, high_len, low_len, lens, param_period) matches Err(KandError::LengthMismatch) ==> (high_len != len || low_len != len || (exists|i: int| 0 <= i < lens.len() && lens[i] != len)),
        kdj_outcome(len, high_len, low_len, lens, param_period) matches Err(KandError::InsufficientData) ==> (len <= param_period - 1),
        kdj_outcome(len, high_len, low_len, lens, param_period) is Err ==> (kdj_outcome(len, high_len, low_len, lens, param_period) matches Err(KandError::InvalidParameter) || kdj_outcome(len, high_len, low_len, lens, param_period) matches Err(KandError::InvalidData) || kdj_outcome(len, high_len, low_len, lens, param_period) matches Err(KandError::LengthMismatch) || kdj_outcome(len, high_len, low_len, lens, param_period) matches Err(KandError::InsufficientData)),
        (param_period < 2) ==> (kdj_outcome(len, high_len, low_len, lens, param_period) matches Err(KandError::InvalidParameter)),
        (param_period >= 2 && (len == 0 || high_len == 0 || low_len == 0)) ==> (kdj_outcome(len, high_len, low_len, lens, param_period) matches Err(KandError::InvalidData)),
{
}

/// Dragonfly Doji detection accepts series all of one length, empty ones too, and a positive body percentage; each error it reports has its cause.
pub proof fn lemma_cdl_dragonfly_doji_accepts(len: usize, lens: Seq<usize>, body_percent_positive: bool)
    ensures
        cdl_dragonfly_doji_outcome(len, lens, body_percent_positive) is Ok <==> ((forall|i: int| 0 <= i < lens.len() ==> lens[i] == len) && body_percent_positive),
        cdl_dragonfly_doji_outcome(len, lens, body_percent_positive) matches Err(KandError::LengthMismatch) ==> ((exists|i: int| 0 <= i < lens.len() && lens[i] != len)),
        cdl_dragonfly_doji_outcome(len, lens, body_percent_positive) matches Err(KandError::InvalidParameter) ==> (!body_percent_positive),
        cdl_dragonfly_doji_outcome(len, lens, body_percent_positive) is Err ==> (cdl_dragonfly_doji_outcome(len, lens, body_percent_positive) matches Err(KandError::LengthMismatch) || cdl_dragonfly_doji_outcome(len, lens, body_percent_positive) matches Err(KandError::InvalidParameter)),
        ((exists|i: int| 0 <= i < lens.len() && lens[i] != len)) ==> (cdl_dragonfly_doji_outcome(len, lens, body_percent_positive) matches Err(KandError::LengthMismatch)),
{
}

/// A/D accepts a nonempty high series with the other series all as long, and then gives the lookback 0; each error it reports has its cause.
pub proof fn lemma_ad_accepts(len: usize, lens: Seq<usize>)
    ensures
        ad_outcome(len, lens) is Ok <==> (len > 0 && (forall|i: int| 0 <= i < lens.len() ==> lens[i] == len)),
        ad_outcome(len, lens) matches Ok(lookback) ==> lookback == 0,
        ad_outcome(len, lens) matches Err(KandError::InvalidData) ==> (len == 0),
        ad_outcome(len, lens) matches Err(KandError::LengthMismatch) ==> ((exists|i: int| 0 <= i < lens.len() && lens[i] != len)),
        ad_outcome(len, lens) is Err ==> (ad_outcome(len, lens) matches Err(KandError::InvalidData) || ad_outcome(len, lens) matches Err(KandError::LengthMismatch)),
        (len == 0) ==> (ad_outcome(len, lens) matches Err(KandError::InvalidData)),
{
}

/// MEDPRICE accepts a nonempty high series with the other series all as long; each error it reports has its cause.
pub proof fn lemma_medprice_accepts(len: usize, lens: Seq<usize>)
    ensures
        medprice_outcome(len, lens) is Ok <==> (len > 0 && (forall|i: int| 0 <= i < lens.len() ==> lens[i] == len)),
        medprice_outcome(len, lens) matches Err(KandError::InvalidData) ==> (len == 0),
        medprice_outcome(len, lens) matches Err(KandError::LengthMismatch) ==> ((exists|i: int| 0 <= i < lens.len() && lens[i] != len)),
        medprice_outcome(len, lens) is Err ==> (medprice_outcome(len, lens) matches Err(KandError::InvalidData) || medprice_outcome(len, lens) matches Err(KandError::LengthMismatch)),
        (len == 0) ==> (medprice_outcome(len, lens) matches Err(KandError::InvalidData)),
{
}

/// VWAP accepts a nonempty high series with the other series all as long; each error it reports has its cause.
pub proof fn lemma_vwap_accepts(len: usize, lens: Seq<usize>)
    ensures
        vwap_outcome(len, lens) is Ok <==> (len > 0 && (forall|i: int| 0 <= i < lens.len() ==> lens[i] == len)),
        vwap_outcome(len, lens) matches Err(KandError::InvalidData) ==> (len == 0),
        vwap_outcome(len, lens) matches Err(KandError::LengthMismatch) ==> ((exists|i: int| 0 <= i < lens.len() && lens[i] != len)),
        vwap_outcome(len, lens) is Err ==> (vwap_outcome(len, lens) matches Err(KandError::InvalidData) || vwap_outcome(len, lens) matches Err(KandError::LengthMismatch)),
        (len == 0) ==> (vwap_outcome(len, lens) matches Err(KandError::InvalidData)),
{
}

/// VEGAS accepts at least 676 prices with outputs all as long, and then gives the lookback 675; data is insufficient only below 676 prices.
pub proof fn lemma_vegas_accepts(len: usize, lens: Seq<usize>)
    ensures
        vegas_outcome(len, lens) is Ok <==> (len >= 676 && (forall|i: int| 0 <= i < lens.len() ==> lens[i] == len)),
        vegas_outcome(len, lens) matches Ok(lookback) ==> lookback == 675,
        vegas_outcome(len, lens) matches Err(KandError::InvalidData) ==> (len == 0),
        vegas_outcome(len, lens) matches Err(KandError::LengthMismatch) ==> ((exists|i: int| 0 <= i < lens.len() && lens[i] != len)),
        vegas_outcome(len, lens) matches Err(KandError::InsufficientData) ==> (len < 676),
        vegas_outcome(len, lens) is Err ==> (vegas_outcome(len, lens) matches Err(KandError::InvalidData) || vegas_outcome(len, lens) matches Err(KandError::LengthMismatch) || vegas_outcome(len, lens) matches Err(KandError::InsufficientData)),
        (len == 0) ==> (vegas_outcome(len, lens) matches Err(KandError::InvalidData)),
{
}

/// HT_DCPERIOD accepts more than 32 prices with an output as long, and then gives the lookback 32; each error it reports has its cause.
pub proof fn lemma_ht_dcperiod_accepts(len: usize, output_len: usize)
    ensures
        ht_dcperiod_outcome(len, output_len) is Ok <==> (len > 32 && output_len == len),
        ht_dcperiod_outcome(len, output_len) matches Ok(lookback) ==> lookback == 32,
        ht_dcperiod_outcome(len, output_len) matches Err(KandError::InvalidData) ==> (len == 0),
        ht_dcperiod_outcome(len, output_len) matches Err(KandError::LengthMismatch) ==> (output_len != len),
        ht_dcperiod_outcome(len, output_len) matches Err(KandError::InsufficientData) ==> (len <= 32),
        ht_dcperiod_outcome(len, output_len) is Err ==> (ht_dcperiod_outcome(len, output_len) matches Err(KandError::InvalidData) || ht_dcperiod_outcome(len, output_len) matches Err(KandError::LengthMismatch) || ht_dcperiod_outcome(len, output_len) matches Err(KandError::InsufficientData)),
        (len == 0) ==> (ht_dcperiod_outcome(len, output_len) matches Err(KandError::InvalidData)),
{
}

/// The Parabolic SAR accepts at least two bars with the other series all as long and valid parameters, and then gives the lookback 1; each error it reports has its cause.
pub proof fn lemma_sar_accepts(len: usize, lens: Seq<usize>, params_valid: bool)
    ensures
        sar_outcome(len, lens, params_valid) is Ok <==> (len > 1 && (forall|i: int| 0 <= i < lens.len() ==> lens[i] == len) && params_valid),
        sar_outcome(len, lens, params_valid) matches Ok(lookback) ==> lookback == 1,
        sar_outcome(len, lens, params_valid) matches Err(KandError::InvalidData) ==> (len == 0),
        sar_outcome(len, lens, params_valid) matches Err(KandError::LengthMismatch) ==> ((exists|i: int| 0 <= i < lens.len() && lens[i] != len)),
        sar_outcome(len, lens, params_valid) matches Err(KandError::InvalidParameter) ==> (!params_valid),
        sar_outcome(len, lens, params_valid) matches Err(KandError::InsufficientData) ==> (len <= 1),
        sar_outcome(len, lens, params_valid) is Err ==> (sar_outcome(len, lens, params_valid) matches Err(KandError::InvalidData) || sar_outcome(len, lens, params_valid) matches Err(KandError::LengthMismatch) || sar_outcome(len, lens, params_valid) matches Err(KandError::InvalidParameter) || sar_outcome(len, lens, params_valid) matches Err(KandError::InsufficientData)),
        (len == 0) ==> (sar_outcome(len, lens, params_valid) matches Err(KandError::InvalidData)),
{
}

/// The window searches accept exactly the windows of `lookback` values that end at `start_idx` and lie inside the array.
pub proof fn lemma_bars_accepts(len: usize, start_idx: usize, lookback: usize)
    ensures
        bars_outcome(len, start_idx, lookback) is Ok <==> (lookback > 0 && start_idx < len && start_idx + 1 >= lookback),
        bars_outcome(len, start_idx, lookback) matches Err(KandError::InvalidParameter) ==> (!(lookback > 0 && start_idx < len && start_idx + 1 >= lookback)),
        bars_outcome(len, start_idx, lookback) is Err ==> (bars_outcome(len, start_idx, lookback) matches Err(KandError::InvalidParameter)),
{
}

/// The level computation accepts nonempty high and low series of one length and a positive interval; each error it reports has its cause.
pub proof fn lemma_levels_hl_accepts(high_len: usize, low_len: usize, interval_positive: bool)
    ensures
        levels_hl_outcome(high_len, low_len, interval_positive) is Ok <==> (high_len > 0 && high_len == low_len && interval_positive),
        levels_hl_outcome(high_len, low_len, interval_positive) matches Err(KandError::InvalidData) ==> (high_len == 0),
        levels_hl_outcome(high_len, low_len, interval_positive) matches Err(KandError::LengthMismatch) ==> (high_len != low_len),
        levels_hl_outcome(high_len, low_len, interval_positive) matches Err(KandError::InvalidParameter) ==> (!interval_positive),
        levels_hl_outcome(high_len, low_len, interval_positive) is Err ==> (levels_hl_outcome(high_len, low_len, interval_positive) matches Err(KandError::InvalidData) || levels_hl_outcome(high_len, low_len, interval_positive) matches Err(KandError::LengthMismatch) || levels_hl_outcome(high_len, low_len, interval_positive) matches Err(KandError::InvalidParameter)),
        (high_len == 0) ==> (levels_hl_outcome(high_len, low_len, interval_positive) matches Err(KandError::InvalidData)),
{
}

/// TPO accepts output series of one length that holds every level; each error it reports has its cause.
pub proof fn lemma_tpo_outputs_accepts(levels: usize, output_len: usize, ceiling_len: usize, floor_len: usize)
    ensures
        tpo_outputs_outcome(levels, output_len, ceiling_len, floor_len) is Ok <==> (output_len >= levels && ceiling_len == output_len && floor_len == output_len),
        tpo_outputs_outcome(levels, output_len, ceiling_len, floor_len) matches Err(KandError::InsufficientData) ==> (output_len < levels),
        tpo_outputs_outcome(levels, output_len, ceiling_len, floor_len) matches Err(KandError::LengthMismatch) ==> (ceiling_len != output_len || floor_len != output_len),
        tpo_outputs_outcome(levels, output_len, ceiling_len, floor_len) is Err ==> (tpo_outputs_outcome(levels, output_len, ceiling_len, floor_len) matches Err(KandError::InsufficientData) || tpo_outputs_outcome(levels, output_len, ceiling_len, floor_len) matches Err(KandError::LengthMismatch)),
        (output_len < levels) ==> (tpo_outputs_outcome(levels, output_len, ceiling_len, floor_len) matches Err(KandError::InsufficientData)),
{
}

/// A period check passes exactly the periods of at least 2.
pub proof fn lemma_period_accepts(param_period: usize)
    ensures
        period_outcome(param_period) is Ok <==> (param_period >= 2),
        period_outcome(param_period) matches Err(KandError::InvalidParameter) ==> (param_period < 2),
        period_outcome(param_period) is Err ==> (period_outcome(param_period) matches Err(KandError::InvalidParameter)),
{
}

/// A one-parameter check passes exactly the valid parameters.
pub proof fn lemma_parameter_accepts(valid: bool)
    ensures
        parameter_outcome(valid) is Ok <==> (valid),
        parameter_outcome(valid) matches Err(KandError::InvalidParameter) ==> (!valid),
        parameter_outcome(valid) is Err ==> (parameter_outcome(valid) matches Err(KandError::InvalidParameter)),
{
}

/// The incremental EMA passes exactly the nonzero periods.
pub proof fn lemma_ema_incremental_accepts(param_period: usize)
    ensures
        ema_incremental_outcome(param_period) is Ok <==> (param_period >= 1),
        ema_incremental_outcome(param_period) matches Err(KandError::InvalidParameter) ==> (param_period == 0),
        ema_incremental_outcome(param_period) is Err ==> (ema_incremental_outcome(param_period) matches Err(KandError::InvalidParameter)),
{
}

/// The incremental ADOSC passes exactly nonzero periods with the fast one below the slow one.
pub proof fn lemma_adosc_incremental_accepts(fast: usize, slow: usize)
    ensures
        adosc_incremental_outcome(fast, slow) is Ok <==> (0 < fast && fast < slow),
        adosc_incremental_outcome(fast, slow) matches Err(KandError::InvalidParameter) ==> (fast == 0 || slow == 0 || fast >= slow),
        adosc_incremental_outcome(fast, slow) is Err ==> (adosc_incremental_outcome(fast, slow) matches Err(KandError::InvalidParameter)),
{
}

/// The incremental Marubozu detector passes exactly a period of at least 2 with a positive shadow percentage.
pub proof fn lemma_cdl_marubozu_incremental_accepts(param_period: usize, shadow_percent_positive: bool)
    ensures
        cdl_marubozu_incremental_outcome(param_period, shadow_percent_positive) is Ok <==> (param_period >= 2 && shadow_percent_positive),
        cdl_marubozu_incremental_outcome(param_period, shadow_percent_positive) matches Err(KandError::InvalidParameter) ==> (param_period < 2 || !shadow_percent_positive),
        cdl_marubozu_incremental_outcome(param_period, shadow_percent_positive) is Err ==> (cdl_marubozu_incremental_outcome(param_period, shadow_percent_positive) matches Err(KandError::InvalidParameter)),
{
}

/// The smoothing factor `2 / (period + 1)` takes exactly the nonzero periods, with the denominator one more than the period.
pub proof fn lemma_k_denominator_accepts(period: usize)
    requires
        period < usize::MAX,
    ensures
        k_denominator_outcome(period) is Ok <==> (period != 0),
        k_denominator_outcome(period) matches Ok(lookback) ==> lookback == period + 1,
        k_denominator_outcome(period) matches Err(KandError::InvalidParameter) ==> (period == 0),
        k_denominator_outcome(period) is Err ==> (k_denominator_outcome(period) matches Err(KandError::InvalidParameter)),
{
}

/// A window of `period` values has lookback `period - 1`, for exactly the periods of at least 2.
pub proof fn lemma_window_lookback_accepts(param_period: usize)
    ensures
        window_lookback(param_period) is Ok <==> (param_period >= 2),
        window_lookback(param_period) matches Ok(lookback) ==> lookback == param_period - 1,
        window_lookback(param_period) matches Err(KandError::InvalidParameter) ==> (param_period < 2),
        window_lookback(param_period) is Err ==> (window_lookback(param_period) matches Err(KandError::InvalidParameter)),
{
}

/// MOM looks back exactly its period, for exactly the periods of at least 2.
pub proof fn lemma_mom_lookback_accepts(param_period: usize)
    ensures
        mom_lookback(param_period) is Ok <==> (param_period >= 2),
        mom_lookback(param_period) matches Ok(lookback) ==> lookback == param_period,
        mom_lookback(param_period) matches Err(KandError::InvalidParameter) ==> (param_period < 2),
        mom_lookback(param_period) is Err ==> (mom_lookback(param_period) matches Err(KandError::InvalidParameter)),
{
}

/// EMA looks back `period - 1` values, for exactly the nonzero periods.
pub proof fn lemma_ema_lookback_accepts(param_period: usize)
    ensures
        ema_lookback(param_period) is Ok <==> (param_period >= 1),
        ema_lookback(param_period) matches Ok(lookback) ==> lookback == param_period - 1,
        ema_lookback(param_period) matches Err(KandError::InvalidParameter) ==> (param_period == 0),
        ema_lookback(param_period) is Err ==> (ema_lookback(param_period) matches Err(KandError::InvalidParameter)),
{
}

/// ROC looks back exactly its period, for exactly the nonzero periods.
pub proof fn lemma_roc_lookback_accepts(param_period: usize)
    ensures
        roc_lookback(param_period) is Ok <==> (param_period >= 1),
        roc_lookback(param_period) matches Ok(lookback) ==> lookback == param_period,
        roc_lookback(param_period) matches Err(KandError::InvalidParameter) ==> (param_period == 0),
        roc_lookback(param_period) is Err ==> (roc_lookback(param_period) matches Err(KandError::InvalidParameter)),
{
}

/// TRIX looks back `3 * (period - 1) + 1` values, for exactly the periods of at least 2.
pub proof fn lemma_trix_lookback_accepts(param_period: usize)
    requires
        param_period < 2 || 3 * (param_period - 1) + 1 <= usize::MAX,
    ensures
        trix_lookback(param_period) is Ok <==> (param_period >= 2),
        trix_lookback(param_period) matches Ok(lookback) ==> lookback == 3 * (param_period - 1) + 1,
        trix_lookback(param_period) matches Err(KandError::InvalidParameter) ==> (param_period < 2),
        trix_lookback(param_period) is Err ==> (trix_lookback(param_period) matches Err(KandError::InvalidParameter)),
{
}

/// ADOSC looks back `slow - 1` values, for exactly the nonzero periods with the fast one below the slow one.
pub proof fn lemma_adosc_lookback_accepts(fast: usize, slow: usize)
    ensures
        adosc_lookback(fast, slow) is Ok <==> (0 < fast && fast < slow),
        adosc_lookback(fast, slow) matches Ok(lookback) ==> lookback == slow - 1,
        adosc_lookback(fast, slow) matches Err(KandError::InvalidParameter) ==> (fast == 0 || slow == 0 || fast >= slow),
        adosc_lookback(fast, slow) is Err ==> (adosc_lookback(fast, slow) matches Err(KandError::InvalidParameter)),
{
}

/// The Parabolic SAR looks back one bar, for exactly the valid parameters.
pub proof fn lemma_sar_lookback_accepts(params_valid: bool)
    ensures
        sar_lookback(params_valid) is Ok <==> (params_valid),
        sar_lookback(params_valid) matches Ok(lookback) ==> lookback == 1,
        sar_lookback(params_valid) matches Err(KandError::InvalidParameter) ==> (!params_valid),
        sar_lookback(params_valid) is Err ==> (sar_lookback(params_valid) matches Err(KandError::InvalidParameter)),
{
}

} // verus!
