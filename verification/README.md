# kand

Technical analysis indicators (moving averages, oscillators, candlestick
patterns, TPO profiles, return statistics) over price series.

- `src/` is the verified library. It holds what the indicators decide over
  integers and booleans: the lookbacks, the ordered argument checks over
  array lengths and periods (which error each combination gets), the TPO
  profile counting and level ranges, and the candlestick signal rules.
  Where a check compares floating-point parameters (the SAR acceleration,
  the candle percentages, the TPO interval), `app/` makes the comparison
  and hands the library its outcome as a `bool`. `src/laws.rs` states the
  properties that span several functions.
- `app/` holds the floating-point arithmetic of each indicator, and the
  checks that are float comparisons through and through: the NaN checks,
  the zero-divisor check of the rate of change, the recompute signal of the
  incremental minimum, and every check of `fv`, `kelly` and `nper` and the
  zero-price check of `ret`. Each function asks the library for its lookback
  and argument checks, then computes. `app/python.rs` exposes some of them
  to Python through PyO3 and NumPy.
- `tests/` runs the library on concrete values.
