//! Indicator snapshots: every indicator of the primary bar series and of the
//! optional auxiliary price and index series, computed together.
use vstd::prelude::*;
use crate::fixed::{valid_series, MAX_MULTIPLIER, MAX_PERIOD};
use crate::market::{valid_bars, IndexHistoryEntry, OhlcHistoryEntry, PriceHistoryEntry};
use crate::series::{
    atr, bollinger_bands, calculate_atr, calculate_bollinger_bands,
    calculate_exponential_moving_average, calculate_moving_average, calculate_rsi,
    exponential_moving_average, moving_average, rsi,
};

verus! {

/// One immutable snapshot of indicator values (fixed point). A field is
/// absent when its series is missing or shorter than the indicator's window.
#[derive(Clone, Copy, Debug, PartialEq, Eq)]
pub struct Indicators {
    /// Moving average of the auxiliary price series.
    pub ma: Option<i64>,
    /// Exponential moving average of the auxiliary price series.
    pub ema: Option<i64>,
    /// Bollinger bands `(lower, middle, upper)` of the auxiliary price series.
    pub bollinger_bands: Option<(i64, i64, i64)>,
    /// RSI of the auxiliary price series.
    pub rsi: Option<i64>,
    /// Moving average of the index series.
    pub i_ma: Option<i64>,
    /// Exponential moving average of the index series.
    pub i_ema: Option<i64>,
    /// Bollinger bands of the index series.
    pub i_bollinger_bands: Option<(i64, i64, i64)>,
    /// RSI of the index series.
    pub i_rsi: Option<i64>,
    /// Average true range of the bar series.
    pub atr: Option<i64>,
    /// Moving average of the bar closes.
    pub ohlc_ma: Option<i64>,
    /// Exponential moving average of the bar closes.
    pub ohlc_ema: Option<i64>,
    /// Bollinger bands of the bar closes.
    pub ohlc_bollinger_bands: Option<(i64, i64, i64)>,
    /// RSI of the bar closes.
    pub ohlc_rsi: Option<i64>,
}

impl Indicators {
    /// A snapshot with every indicator absent.
    pub fn empty() -> (r: Indicators)
        ensures
            r == Indicators::none(),
    {
        Indicators {
            ma: None,
            ema: None,
            bollinger_bands: None,
            rsi: None,
            i_ma: None,
            i_ema: None,
            i_bollinger_bands: None,
            i_rsi: None,
            atr: None,
            ohlc_ma: None,
            ohlc_ema: None,
            ohlc_bollinger_bands: None,
            ohlc_rsi: None,
        }
    }

    pub open spec fn none() -> Indicators {
        Indicators {
            ma: None,
            ema: None,
            bollinger_bands: None,
            rsi: None,
            i_ma: None,
            i_ema: None,
            i_bollinger_bands: None,
            i_rsi: None,
            atr: None,
            ohlc_ma: None,
            ohlc_ema: None,
            ohlc_bollinger_bands: None,
            ohlc_rsi: None,
        }
    }
}

/// Closing prices of the bars.
pub open spec fn closes(bars: Seq<OhlcHistoryEntry>) -> Seq<i64> {
    bars.map_values(|b: OhlcHistoryEntry| b.close)
}

/// High prices of the bars.
pub open spec fn highs(bars: Seq<OhlcHistoryEntry>) -> Seq<i64> {
    bars.map_values(|b: OhlcHistoryEntry| b.high)
}

/// Low prices of the bars.
pub open spec fn lows(bars: Seq<OhlcHistoryEntry>) -> Seq<i64> {
    bars.map_values(|b: OhlcHistoryEntry| b.low)
}

/// Values of a price history.
pub open spec fn price_values(points: Seq<PriceHistoryEntry>) -> Seq<i64> {
    points.map_values(|p: PriceHistoryEntry| p.value)
}

/// Values of an index history.
pub open spec fn index_values(points: Seq<IndexHistoryEntry>) -> Seq<i64> {
    points.map_values(|p: IndexHistoryEntry| p.value)
}

pub open spec fn narrow(o: Option<int>) -> Option<i64> {
    match o {
        Some(v) => Some(v as i64),
        None => None,
    }
}

pub open spec fn narrow_bands(o: Option<(int, int, int)>) -> Option<(i64, i64, i64)> {
    match o {
        Some(b) => Some((b.0 as i64, b.1 as i64, b.2 as i64)),
        None => None,
    }
}

/// Window lengths and Bollinger multiplier of the indicator set.
#[derive(Debug, Clone, Copy, PartialEq, Eq, Structural)]
pub struct IndicatorPeriods {
    pub ma_period: usize,
    pub ema_period: usize,
    pub bb_period: usize,
    pub bb_std_dev_multiplier: i64,
    pub rsi_period: usize,
    pub atr_period: usize,
}

impl IndicatorPeriods {
    /// The Bollinger window and multiplier are within the series math's limits.
    pub open spec fn wf(&self) -> bool {
        &&& self.bb_period <= MAX_PERIOD
        &&& 0 <= self.bb_std_dev_multiplier <= MAX_MULTIPLIER
    }
}

/// The snapshot of a bar series and the optional auxiliary series.
pub open spec fn snapshot(
    bars: Seq<OhlcHistoryEntry>,
    cfg: IndicatorPeriods,
    prices: Option<Seq<i64>>,
    index: Option<Seq<i64>>,
) -> Indicators {
    let c = closes(bars);
    Indicators {
        ma: match prices { Some(p) => narrow(moving_average(p, cfg.ma_period as nat)), None => None },
        ema: match prices { Some(p) => narrow(exponential_moving_average(p, cfg.ema_period as nat)), None => None },
        bollinger_bands: match prices {
            Some(p) => narrow_bands(bollinger_bands(p, cfg.bb_period as nat, cfg.bb_std_dev_multiplier as int)),
            None => None,
        },
        rsi: match prices { Some(p) => narrow(rsi(p, cfg.rsi_period as nat)), None => None },
        i_ma: match index { Some(p) => narrow(moving_average(p, cfg.ma_period as nat)), None => None },
        i_ema: match index { Some(p) => narrow(exponential_moving_average(p, cfg.ema_period as nat)), None => None },
        i_bollinger_bands: match index {
            Some(p) => narrow_bands(bollinger_bands(p, cfg.bb_period as nat, cfg.bb_std_dev_multiplier as int)),
            None => None,
        },
        i_rsi: match index { Some(p) => narrow(rsi(p, cfg.rsi_period as nat)), None => None },
        atr: narrow(atr(highs(bars), lows(bars), c, cfg.atr_period as nat)),
        ohlc_ma: narrow(moving_average(c, cfg.ma_period as nat)),
        ohlc_ema: narrow(exponential_moving_average(c, cfg.ema_period as nat)),
        ohlc_bollinger_bands: narrow_bands(bollinger_bands(c, cfg.bb_period as nat, cfg.bb_std_dev_multiplier as int)),
        ohlc_rsi: narrow(rsi(c, cfg.rsi_period as nat)),
    }
}

/// High, low and close prices of the bars, in order.
pub fn bar_prices(bars: &[OhlcHistoryEntry]) -> (r: (Vec<i64>, Vec<i64>, Vec<i64>))
    requires
        valid_bars(bars@),
    ensures
        r.0@ == highs(bars@),
        r.1@ == lows(bars@),
        r.2@ == closes(bars@),
        valid_series(r.0@),
        valid_series(r.1@),
        valid_series(r.2@),
{
    let mut h: Vec<i64> = Vec::new();
    let mut l: Vec<i64> = Vec::new();
    let mut c: Vec<i64> = Vec::new();
    let mut i: usize = 0;
    while i < bars.len()
        invariant
            i <= bars@.len(),
            valid_bars(bars@),
            h@ =~= highs(bars@.subrange(0, i as int)),
            l@ =~= lows(bars@.subrange(0, i as int)),
            c@ =~= closes(bars@.subrange(0, i as int)),
            valid_series(h@),
            valid_series(l@),
            valid_series(c@),
        decreases bars@.len() - i,
    {
        let b = bars[i];
        assert(bars@[i as int].wf());
        h.push(b.high);
        l.push(b.low);
        c.push(b.close);
        i = i + 1;
        assert(h@ =~= highs(bars@.subrange(0, i as int)));
        assert(l@ =~= lows(bars@.subrange(0, i as int)));
        assert(c@ =~= closes(bars@.subrange(0, i as int)));
    }
    assert(bars@.subrange(0, bars@.len() as int) =~= bars@);
    (h, l, c)
}

/// Values of a price history, in order.
pub fn price_history_values(points: &[PriceHistoryEntry]) -> (r: Vec<i64>)
    ensures
        r@ == price_values(points@),
{
    let mut v: Vec<i64> = Vec::new();
    let mut i: usize = 0;
    while i < points.len()
        invariant
            i <= points@.len(),
            v@ =~= price_values(points@.subrange(0, i as int)),
        decreases points@.len() - i,
    {
        v.push(points[i].value);
        i = i + 1;
        assert(v@ =~= price_values(points@.subrange(0, i as int)));
    }
    assert(points@.subrange(0, points@.len() as int) =~= points@);
    v
}

/// Values of an index history, in order.
pub fn index_history_values(points: &[IndexHistoryEntry]) -> (r: Vec<i64>)
    ensures
        r@ == index_values(points@),
{
    let mut v: Vec<i64> = Vec::new();
    let mut i: usize = 0;
    while i < points.len()
        invariant
            i <= points@.len(),
            v@ =~= index_values(points@.subrange(0, i as int)),
        decreases points@.len() - i,
    {
        v.push(points[i].value);
        i = i + 1;
        assert(v@ =~= index_values(points@.subrange(0, i as int)));
    }
    assert(points@.subrange(0, points@.len() as int) =~= points@);
    v
}

pub open spec fn opt_price_values(o: Option<&[PriceHistoryEntry]>) -> Option<Seq<i64>> {
    match o {
        Some(p) => Some(price_values(p@)),
        None => None,
    }
}

pub open spec fn opt_index_values(o: Option<&[IndexHistoryEntry]>) -> Option<Seq<i64>> {
    match o {
        Some(p) => Some(index_values(p@)),
        None => None,
    }
}

pub open spec fn valid_opt_series(o: Option<Seq<i64>>) -> bool {
    o matches Some(s) ==> valid_series(s)
}

/// MA, EMA, Bollinger bands and RSI of one auxiliary series.
pub open spec fn series_set(v: Seq<i64>, cfg: IndicatorPeriods) -> (Option<i64>, Option<i64>, Option<(i64, i64, i64)>, Option<i64>) {
    (
        narrow(moving_average(v, cfg.ma_period as nat)),
        narrow(exponential_moving_average(v, cfg.ema_period as nat)),
        narrow_bands(bollinger_bands(v, cfg.bb_period as nat, cfg.bb_std_dev_multiplier as int)),
        narrow(rsi(v, cfg.rsi_period as nat)),
    )
}

fn series_indicators(v: &[i64], periods: &IndicatorPeriods) -> (r: (Option<i64>, Option<i64>, Option<(i64, i64, i64)>, Option<i64>))
    requires
        valid_series(v@),
        periods.wf(),
    ensures
        r == series_set(v@, *periods),
{
    (
        calculate_moving_average(v, periods.ma_period),
        calculate_exponential_moving_average(v, periods.ema_period),
        calculate_bollinger_bands(v, periods.bb_period, periods.bb_std_dev_multiplier),
        calculate_rsi(v, periods.rsi_period),
    )
}

/// Computes the snapshot of the bar series and, where given, of the
/// auxiliary price and index series. A missing auxiliary series leaves its
/// fields absent and does not affect the others.
pub fn update_price_indicators(
    ohlc_data: &[OhlcHistoryEntry],
    periods: &IndicatorPeriods,
    price_data: Option<&[PriceHistoryEntry]>,
    index_data: Option<&[IndexHistoryEntry]>,
) -> (r: Indicators)
    requires
        valid_bars(ohlc_data@),
        periods.wf(),
        valid_opt_series(opt_price_values(price_data)),
        valid_opt_series(opt_index_values(index_data)),
    ensures
        r == snapshot(ohlc_data@, *periods, opt_price_values(price_data), opt_index_values(index_data)),
{
    let (h, l, c) = bar_prices(ohlc_data);
    let atr_v = calculate_atr(h.as_slice(), l.as_slice(), c.as_slice(), periods.atr_period);
    let bar_set = series_indicators(c.as_slice(), periods);
    let price_set = match price_data {
        Some(points) => {
            let v = price_history_values(points);
            series_indicators(v.as_slice(), periods)
        },
        None => (None, None, None, None),
    };
    let index_set = match index_data {
        Some(points) => {
            let v = index_history_values(points);
            series_indicators(v.as_slice(), periods)
        },
        None => (None, None, None, None),
    };
    Indicators {
        ma: price_set.0,
        ema: price_set.1,
        bollinger_bands: price_set.2,
        rsi: price_set.3,
        i_ma: index_set.0,
        i_ema: index_set.1,
        i_bollinger_bands: index_set.2,
        i_rsi: index_set.3,
        atr: atr_v,
        ohlc_ma: bar_set.0,
        ohlc_ema: bar_set.1,
        ohlc_bollinger_bands: bar_set.2,
        ohlc_rsi: bar_set.3,
    }
}

/// Building a snapshot is deterministic: the same bars, windows and auxiliary
/// series always give the same snapshot.
pub proof fn lemma_snapshot_deterministic(
    bars1: Seq<OhlcHistoryEntry>,
    bars2: Seq<OhlcHistoryEntry>,
    cfg: IndicatorPeriods,
    prices: Option<Seq<i64>>,
    index: Option<Seq<i64>>,
)
    requires
        bars1 == bars2,
    ensures
        snapshot(bars1, cfg, prices, index) == snapshot(bars2, cfg, prices, index),
{
}

/// A missing auxiliary series leaves every bar-series field as it would be
/// with that series present.
pub proof fn lemma_auxiliary_independent(
    bars: Seq<OhlcHistoryEntry>,
    cfg: IndicatorPeriods,
    prices: Option<Seq<i64>>,
    index: Option<Seq<i64>>,
)
    ensures
        ({
            let full = snapshot(bars, cfg, prices, index);
            let bare = snapshot(bars, cfg, None, None);
            &&& bare.ma is None && bare.ema is None && bare.bollinger_bands is None && bare.rsi is None
            &&& bare.i_ma is None && bare.i_ema is None && bare.i_bollinger_bands is None && bare.i_rsi is None
            &&& full.atr == bare.atr
            &&& full.ohlc_ma == bare.ohlc_ma
            &&& full.ohlc_ema == bare.ohlc_ema
            &&& full.ohlc_bollinger_bands == bare.ohlc_bollinger_bands
            &&& full.ohlc_rsi == bare.ohlc_rsi
        }),
{
}

/// Moving average of the bar closes.
pub fn calculate_moving_average_ohlc(ohlcs: &[OhlcHistoryEntry], period: usize) -> (r: Option<i64>)
    requires
        valid_bars(ohlcs@),
    ensures
        r == narrow(moving_average(closes(ohlcs@), period as nat)),
{
    let (_, _, c) = bar_prices(ohlcs);
    calculate_moving_average(c.as_slice(), period)
}

/// Exponential moving average of the bar closes.
pub fn calculate_exponential_moving_average_ohlc(ohlcs: &[OhlcHistoryEntry], period: usize) -> (r: Option<i64>)
    requires
        valid_bars(ohlcs@),
    ensures
        r == narrow(exponential_moving_average(closes(ohlcs@), period as nat)),
{
    let (_, _, c) = bar_prices(ohlcs);
    calculate_exponential_moving_average(c.as_slice(), period)
}

/// Bollinger bands of the bar closes.
pub fn calculate_bollinger_bands_ohlc(ohlcs: &[OhlcHistoryEntry], period: usize, std_dev_multiplier: i64) -> (r: Option<(i64, i64, i64)>)
    requires
        valid_bars(ohlcs@),
        period <= MAX_PERIOD,
        0 <= std_dev_multiplier <= MAX_MULTIPLIER,
    ensures
        r == narrow_bands(bollinger_bands(closes(ohlcs@), period as nat, std_dev_multiplier as int)),
{
    let (_, _, c) = bar_prices(ohlcs);
    calculate_bollinger_bands(c.as_slice(), period, std_dev_multiplier)
}

/// RSI of the bar closes.
pub fn calculate_rsi_ohlc(ohlcs: &[OhlcHistoryEntry], period: usize) -> (r: Option<i64>)
    requires
        valid_bars(ohlcs@),
    ensures
        r == narrow(rsi(closes(ohlcs@), period as nat)),
{
    let (_, _, c) = bar_prices(ohlcs);
    calculate_rsi(c.as_slice(), period)
}

} // verus!
