//! Series math: moving average, exponential moving average, Bollinger bands,
//! RSI and ATR over fixed-point series. Every function returns `None` when the
//! series is shorter than the window, and never panics.
use vstd::prelude::*;
use crate::fixed::{valid_series, valid_value, MAX_MULTIPLIER, MAX_PERIOD, MAX_VALUE, SCALE};
use crate::roots::{isqrt, isqrt_u128, lemma_isqrt_le};

verus! {

/// Sum of a sequence of values.
pub open spec fn sum(s: Seq<i64>) -> int
    decreases s.len(),
{
    if s.len() == 0 {
        0
    } else {
        sum(s.drop_last()) + s.last()
    }
}

/// The last `period` elements of `s`.
pub open spec fn last_window(s: Seq<i64>, period: nat) -> Seq<i64> {
    s.subrange(s.len() - period, s.len() as int)
}

/// Floor of the mean of the last `period` elements; absent when the window is
/// empty or longer than the series.
pub open spec fn moving_average(s: Seq<i64>, period: nat) -> Option<int> {
    if period == 0 || s.len() < period {
        None
    } else {
        Some(sum(last_window(s, period)) / (period as int))
    }
}

/// EMA after the first `k` elements (`k >= period`): the seed is the floored
/// mean of the first `period` elements, and each later price `x` moves the
/// average to `(ema * (period - 1) + 2 * x) / (period + 1)`, floored; this is
/// `ema + (x - ema) * 2 / (period + 1)`.
pub open spec fn ema_upto(s: Seq<i64>, period: nat, k: nat) -> int
    decreases k,
{
    if k <= period {
        sum(s.subrange(0, period as int)) / (period as int)
    } else {
        (ema_upto(s, period, (k - 1) as nat) * (period - 1) + 2 * s[k - 1]) / (period + 1) as int
    }
}

/// Exponential moving average of the whole series; absent when the series is
/// shorter than the window.
pub open spec fn exponential_moving_average(s: Seq<i64>, period: nat) -> Option<int> {
    if period == 0 || s.len() < period {
        None
    } else {
        Some(ema_upto(s, period, s.len()))
    }
}

/// Sum of squared distances of the elements of `w` from `m`.
pub open spec fn sq_dev_sum(w: Seq<i64>, m: int) -> int
    decreases w.len(),
{
    if w.len() == 0 {
        0
    } else {
        sq_dev_sum(w.drop_last(), m) + (w.last() - m) * (w.last() - m)
    }
}

/// Distance of the outer bands from the middle band: `multiplier` (fixed
/// point) times the floored population standard deviation of the window
/// around the middle band, floored.
pub open spec fn band_width(w: Seq<i64>, mid: int, multiplier: int) -> int {
    multiplier * isqrt((sq_dev_sum(w, mid) / (w.len() as int)) as nat) / (SCALE as int)
}

/// Bollinger bands `(lower, middle, upper)` over the last `period` elements.
pub open spec fn bollinger_bands(s: Seq<i64>, period: nat, multiplier: int) -> Option<(int, int, int)> {
    match moving_average(s, period) {
        None => None,
        Some(mid) => {
            let w = band_width(last_window(s, period), mid, multiplier);
            Some((mid - w, mid, mid + w))
        },
    }
}

/// Gain of step `i` (from `s[i]` to `s[i + 1]`).
pub open spec fn gain(s: Seq<i64>, i: int) -> int {
    if s[i + 1] - s[i] > 0 { s[i + 1] - s[i] } else { 0 }
}

/// Loss of step `i` (from `s[i]` to `s[i + 1]`).
pub open spec fn loss(s: Seq<i64>, i: int) -> int {
    if s[i + 1] - s[i] > 0 { 0 } else { s[i] - s[i + 1] }
}

/// Sum of the gains (or losses) of the first `k` steps.
pub open spec fn step_sum(s: Seq<i64>, k: nat, gains: bool) -> int
    decreases k,
{
    if k == 0 {
        0
    } else {
        step_sum(s, (k - 1) as nat, gains) + if gains { gain(s, k - 1) } else { loss(s, k - 1) }
    }
}

/// Extra precision of the RSI averages: they are kept in units of
/// `1 / RSI_WORK_SCALE` of the series' unit.
pub const RSI_WORK_SCALE: u128 = 1_000_000;

/// Wilder-smoothed average gain (or loss) after `k` steps (`k >= period`), in
/// units of `1 / RSI_WORK_SCALE`: the seed is the sum of the first `period`
/// steps (fewer if the series has fewer) divided by `period`; each later step
/// `x` moves it to `(avg * (period - 1) + x) / period`. Every division is floored.
pub open spec fn wilder_avg(s: Seq<i64>, period: nat, k: nat, gains: bool) -> int
    decreases k,
{
    if k <= period {
        let n = if s.len() - 1 < period { (s.len() - 1) as nat } else { period };
        step_sum(s, n, gains) * (RSI_WORK_SCALE as int) / (period as int)
    } else {
        let x = if gains { gain(s, k - 1) } else { loss(s, k - 1) };
        (wilder_avg(s, period, (k - 1) as nat, gains) * (period - 1) + x * (RSI_WORK_SCALE as int)) / (period as int)
    }
}

/// RSI in fixed point: `100` when the average loss is zero, else
/// `100 * avg_gain / (avg_gain + avg_loss)` (that is `100 - 100 / (1 + rs)`), floored.
pub open spec fn rsi(s: Seq<i64>, period: nat) -> Option<int> {
    if period == 0 || s.len() < period {
        None
    } else {
        let k = if s.len() - 1 > period { (s.len() - 1) as nat } else { period };
        let g = wilder_avg(s, period, k, true);
        let l = wilder_avg(s, period, k, false);
        if l == 0 {
            Some(100 * SCALE)
        } else {
            Some(100 * SCALE * g / (g + l))
        }
    }
}

pub open spec fn abs(x: int) -> int {
    if x < 0 { -x } else { x }
}

/// True range of bar `i` (`i >= 1`).
pub open spec fn true_range(h: Seq<i64>, l: Seq<i64>, c: Seq<i64>, i: int) -> int {
    let a = h[i] - l[i];
    let b = abs(h[i] - c[i - 1]);
    let d = abs(l[i] - c[i - 1]);
    let m = if a > b { a } else { b };
    if m > d { m } else { d }
}

/// Sum of the true ranges of bars `1..=k`.
pub open spec fn true_range_sum(h: Seq<i64>, l: Seq<i64>, c: Seq<i64>, k: nat) -> int
    decreases k,
{
    if k == 0 {
        0
    } else {
        true_range_sum(h, l, c, (k - 1) as nat) + true_range(h, l, c, k as int)
    }
}

/// Number of bars that all three series cover.
pub open spec fn common_len(h: Seq<i64>, l: Seq<i64>, c: Seq<i64>) -> nat {
    let m = if h.len() < l.len() { h.len() } else { l.len() };
    if m < c.len() { m } else { c.len() }
}

/// ATR: the floored mean of the first `period` true ranges (not a rolling
/// average); absent unless the bars yield at least `period` true ranges.
pub open spec fn atr(h: Seq<i64>, l: Seq<i64>, c: Seq<i64>, period: nat) -> Option<int> {
    if period == 0 || common_len(h, l, c) <= period {
        None
    } else {
        Some(true_range_sum(h, l, c, period) / (period as int))
    }
}

/// A series shorter than the window yields no MA, EMA, Bollinger bands or
/// RSI, and bars shorter than the ATR window yield no ATR.
pub proof fn lemma_short_series_absent(s: Seq<i64>, period: nat, multiplier: int, h: Seq<i64>, l: Seq<i64>, c: Seq<i64>)
    ensures
        s.len() < period ==> moving_average(s, period) is None,
        s.len() < period ==> exponential_moving_average(s, period) is None,
        s.len() < period ==> bollinger_bands(s, period, multiplier) is None,
        s.len() < period ==> rsi(s, period) is None,
        (h.len() < period || l.len() < period || c.len() < period) ==> atr(h, l, c, period) is None,
{
}

/// Bollinger bands are ordered `lower <= middle <= upper` for a non-negative multiplier.
pub proof fn lemma_bands_ordered(s: Seq<i64>, period: nat, multiplier: int)
    requires
        multiplier >= 0,
    ensures
        bollinger_bands(s, period, multiplier) matches Some(b) ==> b.0 <= b.1 <= b.2,
{
    if let Some(mid) = moving_average(s, period) {
        let w = last_window(s, period);
        let sd = isqrt((sq_dev_sum(w, mid) / (w.len() as int)) as nat);
        assert(multiplier * sd >= 0) by (nonlinear_arith)
            requires multiplier >= 0, sd >= 0;
    }
}

proof fn lemma_step_sum_nonneg(s: Seq<i64>, k: nat, gains: bool)
    ensures
        step_sum(s, k, gains) >= 0,
    decreases k,
{
    if k > 0 {
        lemma_step_sum_nonneg(s, (k - 1) as nat, gains);
    }
}

proof fn lemma_wilder_avg_nonneg(s: Seq<i64>, period: nat, k: nat, gains: bool)
    requires
        period > 0,
    ensures
        wilder_avg(s, period, k, gains) >= 0,
    decreases k,
{
    if k <= period {
        let n = if s.len() - 1 < period { (s.len() - 1) as nat } else { period };
        lemma_step_sum_nonneg(s, n, gains);
        let t = step_sum(s, n, gains) * (RSI_WORK_SCALE as int);
        assert(t >= 0) by (nonlinear_arith)
            requires step_sum(s, n, gains) >= 0, t == step_sum(s, n, gains) * (RSI_WORK_SCALE as int);
    } else {
        lemma_wilder_avg_nonneg(s, period, (k - 1) as nat, gains);
        let a = wilder_avg(s, period, (k - 1) as nat, gains);
        let x = if gains { gain(s, k - 1) } else { loss(s, k - 1) };
        assert(x >= 0);
        assert(a * (period - 1) + x * (RSI_WORK_SCALE as int) >= 0) by (nonlinear_arith)
            requires a >= 0, x >= 0, period >= 1;
    }
}

/// RSI always lies within `[0, 100]`.
pub proof fn lemma_rsi_in_range(s: Seq<i64>, period: nat)
    ensures
        rsi(s, period) matches Some(v) ==> 0 <= v <= 100 * SCALE,
{
    if period > 0 && s.len() >= period {
        let k = if s.len() - 1 > period { (s.len() - 1) as nat } else { period };
        let g = wilder_avg(s, period, k, true);
        let l = wilder_avg(s, period, k, false);
        lemma_wilder_avg_nonneg(s, period, k, true);
        lemma_wilder_avg_nonneg(s, period, k, false);
        if l != 0 {
            let h = 100 * SCALE;
            assert(0 <= h * g / (g + l) <= h) by (nonlinear_arith)
                requires g >= 0, l > 0, h == 100_000_000;
        }
    }
}

proof fn lemma_sum_push(s: Seq<i64>, lo: int, hi: int)
    requires
        0 <= lo <= hi < s.len(),
    ensures
        sum(s.subrange(lo, hi + 1)) == sum(s.subrange(lo, hi)) + s[hi],
{
    assert(s.subrange(lo, hi + 1).drop_last() =~= s.subrange(lo, hi));
}

/// Sums `s[lo..hi]` of a valid series.
fn sum_range(s: &[i64], lo: usize, hi: usize) -> (r: u128)
    requires
        lo <= hi <= s@.len(),
        valid_series(s@),
    ensures
        r == sum(s@.subrange(lo as int, hi as int)),
        r <= (hi - lo) * MAX_VALUE,
{
    let mut acc: u128 = 0;
    let mut i: usize = lo;
    while i < hi
        invariant
            lo <= i <= hi <= s@.len(),
            valid_series(s@),
            acc == sum(s@.subrange(lo as int, i as int)),
            acc <= (i - lo) * MAX_VALUE,
        decreases hi - i,
    {
        proof {
            lemma_sum_push(s@, lo as int, i as int);
            assert(valid_value(s@[i as int]));
        }
        acc = acc + s[i] as u128;
        i = i + 1;
    }
    acc
}

/// Moving average of the last `period` prices, floored to the fixed-point unit.
pub fn calculate_moving_average(prices: &[i64], period: usize) -> (r: Option<i64>)
    requires
        valid_series(prices@),
    ensures
        r matches Some(v) ==> moving_average(prices@, period as nat) == Some(v as int),
        r is None <==> moving_average(prices@, period as nat) is None,
{
    if period == 0 || prices.len() < period {
        return None;
    }
    let total = sum_range(prices, prices.len() - period, prices.len());
    proof {
        assert((total as int) / (period as int) <= MAX_VALUE) by (nonlinear_arith)
            requires total <= period * MAX_VALUE, period > 0;
    }
    Some((total / period as u128) as i64)
}

proof fn lemma_sq_dev_push(s: Seq<i64>, lo: int, hi: int, m: int)
    requires
        0 <= lo <= hi < s.len(),
    ensures
        sq_dev_sum(s.subrange(lo, hi + 1), m) == sq_dev_sum(s.subrange(lo, hi), m) + (s[hi] - m) * (s[hi] - m),
{
    assert(s.subrange(lo, hi + 1).drop_last() =~= s.subrange(lo, hi));
}

/// Exponential moving average: seeded with the mean of the first `period`
/// prices, then smoothed with factor `2 / (period + 1)` over the rest.
pub fn calculate_exponential_moving_average(prices: &[i64], period: usize) -> (r: Option<i64>)
    requires
        valid_series(prices@),
    ensures
        r matches Some(v) ==> exponential_moving_average(prices@, period as nat) == Some(v as int),
        r is None <==> exponential_moving_average(prices@, period as nat) is None,
        r matches Some(v) ==> valid_value(v),
{
    if period == 0 || prices.len() < period {
        return None;
    }
    let total = sum_range(prices, 0, period);
    let p = period as u128;
    proof {
        assert((total as int) / (period as int) <= MAX_VALUE) by (nonlinear_arith)
            requires total <= period * MAX_VALUE, period > 0;
    }
    let mut ema: u128 = total / p;
    let mut k: usize = period;
    while k < prices.len()
        invariant
            period > 0,
            p == period,
            period <= k <= prices@.len(),
            valid_series(prices@),
            ema <= MAX_VALUE,
            ema == ema_upto(prices@, period as nat, k as nat),
        decreases prices@.len() - k,
    {
        let x = prices[k];
        proof {
            assert(valid_value(x));
            assert((ema * (p - 1) + 2 * x) / (p + 1) as int <= MAX_VALUE) by (nonlinear_arith)
                requires ema <= MAX_VALUE, 0 <= x <= MAX_VALUE, p >= 1;
            assert(ema * (p - 1) <= MAX_VALUE * p) by (nonlinear_arith)
                requires ema <= MAX_VALUE, p >= 1;
        }
        ema = (ema * (p - 1) + 2 * (x as u128)) / (p + 1);
        k = k + 1;
    }
    Some(ema as i64)
}

/// Sum of squared distances of `s[lo..hi]` from `m`.
fn sq_dev_range(s: &[i64], lo: usize, hi: usize, m: i64) -> (r: u128)
    requires
        lo <= hi <= s@.len(),
        hi - lo <= MAX_PERIOD,
        valid_series(s@),
        valid_value(m),
    ensures
        r == sq_dev_sum(s@.subrange(lo as int, hi as int), m as int),
        r <= (hi - lo) * (MAX_VALUE * MAX_VALUE),
{
    let mut acc: u128 = 0;
    let mut i: usize = lo;
    while i < hi
        invariant
            lo <= i <= hi <= s@.len(),
            hi - lo <= MAX_PERIOD,
            valid_series(s@),
            valid_value(m),
            acc == sq_dev_sum(s@.subrange(lo as int, i as int), m as int),
            acc <= (i - lo) * (MAX_VALUE * MAX_VALUE),
        decreases hi - i,
    {
        proof {
            lemma_sq_dev_push(s@, lo as int, i as int, m as int);
            assert(valid_value(s@[i as int]));
        }
        let d: i128 = s[i] as i128 - m as i128;
        assert(0 <= d * d <= MAX_VALUE * MAX_VALUE) by (nonlinear_arith)
            requires -MAX_VALUE <= d <= MAX_VALUE;
        assert(acc + d * d <= (i + 1 - lo) * (MAX_VALUE * MAX_VALUE)) by (nonlinear_arith)
            requires
                acc <= (i - lo) * (MAX_VALUE * MAX_VALUE),
                d * d <= MAX_VALUE * MAX_VALUE;
        acc = acc + (d * d) as u128;
        i = i + 1;
    }
    acc
}

/// Bollinger bands `(lower, middle, upper)` over the last `period` prices.
pub fn calculate_bollinger_bands(prices: &[i64], period: usize, std_dev_multiplier: i64) -> (r: Option<(i64, i64, i64)>)
    requires
        valid_series(prices@),
        period <= MAX_PERIOD,
        0 <= std_dev_multiplier <= MAX_MULTIPLIER,
    ensures
        r matches Some(b) ==> bollinger_bands(prices@, period as nat, std_dev_multiplier as int)
            == Some((b.0 as int, b.1 as int, b.2 as int)),
        r is None <==> bollinger_bands(prices@, period as nat, std_dev_multiplier as int) is None,
        r matches Some(b) ==> b.0 <= b.1 <= b.2,
{
    if period == 0 || prices.len() < period {
        return None;
    }
    let lo = prices.len() - period;
    let total = sum_range(prices, lo, prices.len());
    proof {
        assert((total as int) / (period as int) <= MAX_VALUE) by (nonlinear_arith)
            requires total <= period * MAX_VALUE, period > 0;
    }
    let mid = (total / period as u128) as i64;
    let sq = sq_dev_range(prices, lo, prices.len(), mid);
    assert(prices@.subrange(lo as int, prices@.len() as int) =~= last_window(prices@, period as nat));
    let var = sq / period as u128;
    proof {
        assert(var <= MAX_VALUE * MAX_VALUE) by (nonlinear_arith)
            requires sq <= period * (MAX_VALUE * MAX_VALUE), period > 0, var == sq / period as u128;
        lemma_isqrt_le(var as nat, MAX_VALUE as nat);
    }
    let sd = isqrt_u128(var);
    assert(std_dev_multiplier as u128 * sd <= MAX_MULTIPLIER * MAX_VALUE) by (nonlinear_arith)
        requires sd <= MAX_VALUE, 0 <= std_dev_multiplier <= MAX_MULTIPLIER;
    let width = std_dev_multiplier as u128 * sd / SCALE as u128;
    proof {
        assert(width <= MAX_VALUE * 1000) by (nonlinear_arith)
            requires
                sd <= MAX_VALUE,
                std_dev_multiplier <= MAX_MULTIPLIER,
                width as int == (std_dev_multiplier as int) * (sd as int) / 1_000_000int,
                MAX_MULTIPLIER == 1000 * SCALE,
                SCALE == 1_000_000;
    }
    let w = width as i64;
    Some((mid - w, mid, mid + w))
}

/// Relative Strength Index with Wilder smoothing, in fixed point within `[0, 100]`.
pub fn calculate_rsi(prices: &[i64], period: usize) -> (r: Option<i64>)
    requires
        valid_series(prices@),
    ensures
        r matches Some(v) ==> rsi(prices@, period as nat) == Some(v as int),
        r is None <==> rsi(prices@, period as nat) is None,
        r matches Some(v) ==> 0 <= v <= 100 * SCALE,
{
    if period == 0 || prices.len() < period {
        return None;
    }
    let n = prices.len();
    let p = period as u128;
    let seed_steps: usize = if n - 1 < period { n - 1 } else { period };
    let mut g: u128 = 0;
    let mut l: u128 = 0;
    let mut i: usize = 0;
    while i < seed_steps
        invariant
            i <= seed_steps < n == prices@.len(),
            valid_series(prices@),
            g == step_sum(prices@, i as nat, true),
            l == step_sum(prices@, i as nat, false),
            g <= i * MAX_VALUE,
            l <= i * MAX_VALUE,
        decreases seed_steps - i,
    {
        let a = prices[i];
        let b = prices[i + 1];
        proof {
            assert(valid_value(a));
            assert(valid_value(b));
        }
        if b > a {
            g = g + (b - a) as u128;
        } else {
            l = l + (a - b) as u128;
        }
        i = i + 1;
    }
    proof {
        assert(g * RSI_WORK_SCALE <= period * (MAX_VALUE * RSI_WORK_SCALE)) by (nonlinear_arith)
            requires g <= seed_steps * MAX_VALUE, seed_steps <= period;
        assert(l * RSI_WORK_SCALE <= period * (MAX_VALUE * RSI_WORK_SCALE)) by (nonlinear_arith)
            requires l <= seed_steps * MAX_VALUE, seed_steps <= period;
        assert(((g * RSI_WORK_SCALE) as int) / (period as int) <= MAX_VALUE * RSI_WORK_SCALE) by (nonlinear_arith)
            requires g * RSI_WORK_SCALE <= period * (MAX_VALUE * RSI_WORK_SCALE), period > 0;
        assert(((l * RSI_WORK_SCALE) as int) / (period as int) <= MAX_VALUE * RSI_WORK_SCALE) by (nonlinear_arith)
            requires l * RSI_WORK_SCALE <= period * (MAX_VALUE * RSI_WORK_SCALE), period > 0;
    }
    let mut avg_g: u128 = g * RSI_WORK_SCALE / p;
    let mut avg_l: u128 = l * RSI_WORK_SCALE / p;
    let mut k: usize = period;
    while k < n - 1
        invariant
            p == period,
            1 <= period <= k,
            period <= n == prices@.len(),
            k <= n - 1 || k == period,
            valid_series(prices@),
            avg_g <= MAX_VALUE * RSI_WORK_SCALE,
            avg_l <= MAX_VALUE * RSI_WORK_SCALE,
            avg_g == wilder_avg(prices@, period as nat, k as nat, true),
            avg_l == wilder_avg(prices@, period as nat, k as nat, false),
        decreases n - k,
    {
        let a = prices[k];
        let b = prices[k + 1];
        proof {
            assert(valid_value(a));
            assert(valid_value(b));
        }
        let (xg, xl): (u128, u128) = if b > a { ((b - a) as u128, 0) } else { (0, (a - b) as u128) };
        proof {
            assert((avg_g * (p - 1) + xg * RSI_WORK_SCALE) / (p as int) <= MAX_VALUE * RSI_WORK_SCALE) by (nonlinear_arith)
                requires avg_g <= MAX_VALUE * RSI_WORK_SCALE, xg <= MAX_VALUE, p >= 1;
            assert((avg_l * (p - 1) + xl * RSI_WORK_SCALE) / (p as int) <= MAX_VALUE * RSI_WORK_SCALE) by (nonlinear_arith)
                requires avg_l <= MAX_VALUE * RSI_WORK_SCALE, xl <= MAX_VALUE, p >= 1;
            assert(avg_g * (p - 1) + xg * RSI_WORK_SCALE <= MAX_VALUE * RSI_WORK_SCALE * p) by (nonlinear_arith)
                requires avg_g <= MAX_VALUE * RSI_WORK_SCALE, xg <= MAX_VALUE, p >= 1;
            assert(avg_l * (p - 1) + xl * RSI_WORK_SCALE <= MAX_VALUE * RSI_WORK_SCALE * p) by (nonlinear_arith)
                requires avg_l <= MAX_VALUE * RSI_WORK_SCALE, xl <= MAX_VALUE, p >= 1;
        }
        avg_g = (avg_g * (p - 1) + xg * RSI_WORK_SCALE) / p;
        avg_l = (avg_l * (p - 1) + xl * RSI_WORK_SCALE) / p;
        k = k + 1;
    }
    if avg_l == 0 {
        return Some(100 * SCALE);
    }
    let hundred: u128 = 100 * SCALE as u128;
    assert(hundred * avg_g <= 100_000_000 * (MAX_VALUE * RSI_WORK_SCALE)) by (nonlinear_arith)
        requires avg_g <= MAX_VALUE * RSI_WORK_SCALE, hundred == 100_000_000;
    let v = hundred * avg_g / (avg_g + avg_l);
    proof {
        assert(v <= hundred) by (nonlinear_arith)
            requires v == hundred * avg_g / (avg_g + avg_l), avg_l > 0, hundred > 0;
    }
    Some(v as i64)
}

/// Average True Range: the floored mean of the first `period` true ranges.
pub fn calculate_atr(highs: &[i64], lows: &[i64], closes: &[i64], period: usize) -> (r: Option<i64>)
    requires
        valid_series(highs@),
        valid_series(lows@),
        valid_series(closes@),
    ensures
        r matches Some(v) ==> atr(highs@, lows@, closes@, period as nat) == Some(v as int),
        r is None <==> atr(highs@, lows@, closes@, period as nat) is None,
        r matches Some(v) ==> valid_value(v),
{
    let mut n = highs.len();
    if lows.len() < n {
        n = lows.len();
    }
    if closes.len() < n {
        n = closes.len();
    }
    if period == 0 || n <= period {
        return None;
    }
    let mut total: u128 = 0;
    let mut i: usize = 1;
    while i <= period
        invariant
            1 <= i <= period + 1,
            period < n,
            n == common_len(highs@, lows@, closes@),
            n <= highs@.len() && n <= lows@.len() && n <= closes@.len(),
            valid_series(highs@),
            valid_series(lows@),
            valid_series(closes@),
            total == true_range_sum(highs@, lows@, closes@, (i - 1) as nat),
            total <= (i - 1) * MAX_VALUE,
        decreases period + 1 - i,
    {
        let h = highs[i];
        let lo = lows[i];
        let c = closes[i - 1];
        proof {
            assert(valid_value(h));
            assert(valid_value(lo));
            assert(valid_value(c));
        }
        let a = h - lo;
        let b = if h >= c { h - c } else { c - h };
        let d = if lo >= c { lo - c } else { c - lo };
        let m = if a > b { a } else { b };
        let tr = if m > d { m } else { d };
        total = total + tr as u128;
        i = i + 1;
    }
    proof {
        assert((total as int) / (period as int) <= MAX_VALUE) by (nonlinear_arith)
            requires total <= period * MAX_VALUE, period > 0;
    }
    Some((total / period as u128) as i64)
}

} // verus!
