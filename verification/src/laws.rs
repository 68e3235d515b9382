//! Properties that span several functions of the library.
use vstd::prelude::*;

use crate::error::KandError;
use crate::helper::bars_outcome;
use crate::ta::ohlcv::kdj::kdj_outcome;
use crate::ta::ohlcv::rma::rma_outcome;
use crate::ta::ohlcv::sma::sma_outcome;
use crate::ta::ohlcv::ema::ema_lookback;
use crate::ta::ohlcv::roc::roc_lookback;
use crate::ta::ohlcv::cdl_dragonfly_doji::dragonfly_doji_rule;
use crate::ta::ohlcv::cdl_marubozu::marubozu_rule;
use crate::ta::ohlcv::tpo::{bar_levels, coverage, covers};
use crate::types::{signal_value, Signal};
use crate::ta::ohlcv::trix::trix_lookback;
use crate::ta::stats::max::max_outcome;
use crate::ta::stats::min::min_outcome;

verus! {

/// The single-series window indicators (SMA, RMA, MAX, MIN) accept exactly
/// the same arguments: a period of at least 2, at least `period` input
/// values, and an output as long as the input. They then all give the
/// lookback `period - 1`, an index inside the series; they differ only in
/// which error they report first when several checks fail.
pub proof fn lemma_window_indicators_accept(len: usize, output_len: usize, param_period: usize)
    ensures
        sma_outcome(len, output_len, param_period) is Ok <==> (param_period >= 2 && len >= param_period
            && output_len == len),
        rma_outcome(len, output_len, param_period) == sma_outcome(len, output_len, param_period)
            || (rma_outcome(len, output_len, param_period) is Err && sma_outcome(len, output_len, param_period) is Err),
        max_outcome(len, output_len, param_period) == sma_outcome(len, output_len, param_period)
            || (max_outcome(len, output_len, param_period) is Err && sma_outcome(len, output_len, param_period) is Err),
        min_outcome(len, output_len, param_period) == sma_outcome(len, output_len, param_period),
        sma_outcome(len, output_len, param_period) matches Ok(lookback) ==> lookback
            == param_period - 1 && lookback < len,
{
}

/// The lookback of TRIX is three EMA lookbacks plus the lookback of a
/// one-step rate of change, for every period of at least 2; TRIX accepts
/// exactly those periods.
pub proof fn lemma_trix_lookback_composes(param_period: usize)
    requires
        param_period < 2 || 3 * (param_period - 1) + 1 <= usize::MAX,
    ensures
        trix_lookback(param_period) is Ok <==> param_period >= 2,
        param_period >= 2 ==> (ema_lookback(param_period) matches Ok(e) && roc_lookback(1) matches Ok(
            r,
        ) && trix_lookback(param_period) == Ok::<usize, KandError>((3 * e + r) as usize)),
{
}

/// Every window that `kdj` searches for its highest high and lowest low,
/// the `period` values ending at an index from the lookback on, passes the
/// checks of `highest_bars` and `lowest_bars`.
pub proof fn lemma_kdj_windows_in_range(
    len: usize,
    high_len: usize,
    low_len: usize,
    output_lens: Seq<usize>,
    param_period: usize,
    i: usize,
)
    requires
        kdj_outcome(len, high_len, low_len, output_lens, param_period) is Ok,
        (param_period - 1) as usize <= i < len,
    ensures
        bars_outcome(high_len, i, param_period) == Ok::<(), KandError>(()),
        bars_outcome(low_len, i, param_period) == Ok::<(), KandError>(()),
{
}

/// The TPO profile of a series with one more bar is the profile of the
/// series plus one at each level that the bar covers, and those are exactly
/// the levels that `tpo_levels` lists for the bar: the batch profile is the
/// sum of the incremental entries.
pub proof fn lemma_profile_adds_bar_levels(bars: Seq<(usize, usize)>, bar: (usize, usize), level: usize)
    ensures
        coverage(bars.push(bar), level as int) == coverage(bars, level as int) + if bar_levels(
            bar.0,
            bar.1,
        ).contains(level) {
            1nat
        } else {
            0nat
        },
{
    assert(bars.push(bar).drop_last() =~= bars);
    if covers(bar, level as int) {
        assert(bar_levels(bar.0, bar.1)[level - bar.0] == level);
    }
}

/// The levels of one bar are `low, low + 1, ..., high`: `high - low + 1`
/// of them in increasing order when `low <= high`, none otherwise; a level
/// is among them exactly when it lies between the bar's low and high.
pub proof fn lemma_bar_levels_are_the_range(low_level: usize, high_level: usize, level: usize)
    ensures
        bar_levels(low_level, high_level).len() == if low_level <= high_level {
            high_level - low_level + 1
        } else {
            0
        },
        forall|i: int|
            0 <= i < bar_levels(low_level, high_level).len() ==> #[trigger] bar_levels(
                low_level,
                high_level,
            )[i] == low_level + i,
        bar_levels(low_level, high_level).contains(level) <==> low_level <= level <= high_level,
{
    if low_level <= level <= high_level {
        assert(bar_levels(low_level, high_level)[level - low_level] == level);
    }
}

/// A bar counts in a profile at every level from its low to its high and
/// nowhere else: the profile of one bar is 1 between its low and high and
/// 0 elsewhere, and adding a bar adds exactly that.
pub proof fn lemma_one_bar_counts_once_per_level(bars: Seq<(usize, usize)>, bar: (usize, usize), level: int)
    ensures
        coverage(Seq::<(usize, usize)>::empty(), level) == 0,
        coverage(seq![bar], level) == if bar.0 <= level <= bar.1 {
            1nat
        } else {
            0nat
        },
        coverage(bars.push(bar), level) == coverage(bars, level) + if bar.0 <= level <= bar.1 {
            1nat
        } else {
            0nat
        },
{
    assert(seq![bar].drop_last() =~= Seq::<(usize, usize)>::empty());
    assert(bars.push(bar).drop_last() =~= bars);
}

/// The Marubozu rule gives a bullish signal exactly for a rising candle with
/// a long body and two short shadows, a bearish one exactly for such a
/// candle that did not rise, and no signal otherwise.
pub proof fn lemma_marubozu_rule(long_body: bool, short_upper: bool, short_lower: bool, rising: bool)
    ensures
        (marubozu_rule(long_body, short_upper, short_lower, rising) == Signal::Bullish) <==> (long_body
            && short_upper && short_lower && rising),
        (marubozu_rule(long_body, short_upper, short_lower, rising) == Signal::Bearish) <==> (long_body
            && short_upper && short_lower && !rising),
        (marubozu_rule(long_body, short_upper, short_lower, rising) == Signal::Neutral) <==> !(long_body
            && short_upper && short_lower),
{
}

/// The Dragonfly Doji rule gives a bullish signal exactly for a doji body
/// with a minimal upper shadow, never a bearish one, and no signal otherwise.
pub proof fn lemma_dragonfly_doji_rule(is_doji_body: bool, has_minimal_upper_shadow: bool)
    ensures
        (dragonfly_doji_rule(is_doji_body, has_minimal_upper_shadow) == Signal::Bullish) <==> (
        is_doji_body && has_minimal_upper_shadow),
        dragonfly_doji_rule(is_doji_body, has_minimal_upper_shadow) != Signal::Bearish,
{
}

/// Signals are stored as 100 for bullish, -100 for bearish and 0 for none.
pub proof fn lemma_signal_values(s: Signal)
    ensures
        signal_value(s) > 0 <==> s == Signal::Bullish,
        signal_value(s) < 0 <==> s == Signal::Bearish,
        signal_value(s) == 0 <==> s == Signal::Neutral,
        s != Signal::Neutral ==> signal_value(s) == 100 || signal_value(s) == -100,
        signal_value(Signal::Bullish) == -signal_value(Signal::Bearish),
{
}

/// No level of a TPO profile counts more bars than the series holds.
pub proof fn lemma_profile_bounded(bars: Seq<(usize, usize)>, level: int)
    ensures
        coverage(bars, level) <= bars.len(),
    decreases bars.len(),
{
    if bars.len() > 0 {
        lemma_profile_bounded(bars.drop_last(), level);
    }
}

} // verus!
