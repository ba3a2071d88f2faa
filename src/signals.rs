//! Signal fusion: the latest tick price and an indicator snapshot are scored
//! with configurable weights and mapped to a discrete trading signal.
use vstd::prelude::*;
use crate::fixed::{MAX_VALUE, SCALE};
use crate::indicators::Indicators;
use crate::market::PriceData;

verus! {

/// Discrete trading recommendation. `Undefined` marks rejected fusion input
/// and is treated like `Hold` everywhere downstream.
#[derive(Debug, Clone, Copy, PartialEq, Eq, Structural)]
pub enum Signal {
    StrongSell,
    Sell,
    Hold,
    Buy,
    StrongBuy,
    Undefined,
}

/// Largest weight of one indicator category (one thousand, in fixed point).
pub const MAX_WEIGHT: i64 = 1_000_000_000;

/// Weights (fixed point) of the indicator categories and the gap band
/// (fixed point, in price units) that separates strong from plain signals.
#[derive(Debug, Clone, Copy, PartialEq, Eq, Structural)]
pub struct SignalSettings {
    pub bollinger_weight: i64,
    pub rsi_weight: i64,
    pub ma_ema_weight: i64,
    pub atr_weight: i64,
    pub gap_value: i64,
}

impl SignalSettings {
    /// Weights are non-negative and the gap is a non-negative price distance.
    pub open spec fn wf(&self) -> bool {
        &&& 0 <= self.bollinger_weight <= MAX_WEIGHT
        &&& 0 <= self.rsi_weight <= MAX_WEIGHT
        &&& 0 <= self.ma_ema_weight <= MAX_WEIGHT
        &&& 0 <= self.atr_weight <= MAX_WEIGHT
        &&& 0 <= self.gap_value <= MAX_VALUE
    }

    /// Whether the four weights add up to exactly one (a mismatch only
    /// deserves a warning).
    pub fn weights_sum_to_one(&self) -> (r: bool)
        requires
            self.wf(),
        ensures
            r == (self.bollinger_weight + self.rsi_weight + self.ma_ema_weight + self.atr_weight == SCALE),
    {
        self.bollinger_weight + self.rsi_weight + self.ma_ema_weight + self.atr_weight == SCALE
    }
}

/// The default settings: bollinger 0.25, rsi 0.30, ma/ema 0.20, atr 0.25 and
/// a gap of 15 price units.
pub fn load_signal_settings() -> (r: SignalSettings)
    ensures
        r.wf(),
        r == (SignalSettings {
            bollinger_weight: 250_000,
            rsi_weight: 300_000,
            ma_ema_weight: 200_000,
            atr_weight: 250_000,
            gap_value: 15_000_000,
        }),
{
    SignalSettings {
        bollinger_weight: 250_000,
        rsi_weight: 300_000,
        ma_ema_weight: 200_000,
        atr_weight: 250_000,
        gap_value: 15 * SCALE,
    }
}

/// Label of a signal.
pub open spec fn signal_label(s: Signal) -> Seq<char> {
    match s {
        Signal::StrongSell => "Signal: Strong Sell 🚫"@,
        Signal::Sell => "Signal: Sell 🚩"@,
        Signal::Hold => "Signal: Hold"@,
        Signal::Buy => "Signal: Buy ✅"@,
        Signal::StrongBuy => "Signal: Strong Buy 💚"@,
        Signal::Undefined => "Signal: Undefined"@,
    }
}

/// Direction and strength of a signal: `-2..=2`, with `Undefined` as `0`.
pub open spec fn signal_value(s: Signal) -> int {
    match s {
        Signal::StrongSell => -2,
        Signal::Sell => -1,
        Signal::Hold => 0,
        Signal::Buy => 1,
        Signal::StrongBuy => 2,
        Signal::Undefined => 0,
    }
}

/// A signal that asks for a trade.
pub open spec fn is_directional(s: Signal) -> bool {
    s != Signal::Hold && s != Signal::Undefined
}

/// Fusion input is acceptable: a positive price, and every present indicator
/// in range (bands, MA, EMA and ATR non-negative; RSI within `[0, 100]`).
pub open spec fn valid_fusion_input(price: int, ind: Indicators) -> bool {
    &&& price > 0
    &&& (ind.ohlc_bollinger_bands matches Some(b) ==> b.0 >= 0 && b.1 >= 0 && b.2 >= 0)
    &&& (ind.ohlc_rsi matches Some(r) ==> 0 <= r <= 100 * SCALE)
    &&& (ind.ohlc_ma matches Some(m) ==> m >= 0)
    &&& (ind.ohlc_ema matches Some(e) ==> e >= 0)
    &&& (ind.atr matches Some(a) ==> a >= 0)
}

/// Bollinger contribution: beyond a band by more than the gap counts twice.
pub open spec fn bollinger_score(price: int, bands: Option<(i64, i64, i64)>, w: int, gap: int) -> int {
    match bands {
        None => 0,
        Some(b) => {
            if price > b.2 + gap {
                0 - 2 * w
            } else if price < b.0 - gap {
                2 * w
            } else if price > b.2 {
                0 - w
            } else if price < b.0 {
                w
            } else {
                0
            }
        },
    }
}

/// RSI contribution: above 80 / 70 sells, below 20 / 30 buys.
pub open spec fn rsi_score(rsi: Option<i64>, w: int) -> int {
    match rsi {
        None => 0,
        Some(r) => {
            if r > 80 * SCALE {
                0 - 2 * w
            } else if r > 70 * SCALE {
                0 - w
            } else if r < 20 * SCALE {
                2 * w
            } else if r < 30 * SCALE {
                w
            } else {
                0
            }
        },
    }
}

/// Moving-average contribution (used for MA and EMA alike).
pub open spec fn average_score(price: int, avg: Option<i64>, w: int, gap: int) -> int {
    match avg {
        None => 0,
        Some(a) => {
            if price > a + gap {
                0 - 2 * w
            } else if price > a {
                0 - w
            } else if price < a - gap {
                2 * w
            } else if price < a {
                w
            } else {
                0
            }
        },
    }
}

/// ATR contribution. With `hv = 0.005 * price`, `buy = 1.5 * hv` and
/// `sell = 1.75 * hv`: `atr > sell` and `price > atr + sell` is a strong sell,
/// `atr > sell` and `price < atr - buy` a strong buy, otherwise `atr > hv`
/// sells when `price > atr` and buys when `price < atr`. The thresholds are
/// compared exactly: `hv = price / 200`, `buy = 3 * price / 400`,
/// `sell = 7 * price / 800`.
pub open spec fn atr_score(price: int, atr: Option<i64>, w: int) -> int {
    match atr {
        None => 0,
        Some(a) => {
            if 800 * a > 7 * price && 800 * price > 800 * a + 7 * price {
                0 - 2 * w
            } else if 800 * a > 7 * price && 400 * price < 400 * a - 3 * price {
                2 * w
            } else if 200 * a > price && price > a {
                0 - w
            } else if 200 * a > price && price < a {
                w
            } else {
                0
            }
        },
    }
}

/// Weighted score (fixed point) of a price against the bar-series indicators;
/// an absent indicator contributes nothing.
pub open spec fn fused_score(price: int, ind: Indicators, st: SignalSettings) -> int {
    bollinger_score(price, ind.ohlc_bollinger_bands, st.bollinger_weight as int, st.gap_value as int)
        + rsi_score(ind.ohlc_rsi, st.rsi_weight as int)
        + average_score(price, ind.ohlc_ma, st.ma_ema_weight as int, st.gap_value as int)
        + average_score(price, ind.ohlc_ema, st.ma_ema_weight as int, st.gap_value as int)
        + atr_score(price, ind.atr, st.atr_weight as int)
}

/// Signal of a score: `>= 1.55` strong buy, `> 0.2` buy, `<= -1.55` strong
/// sell, `< -0.2` sell, otherwise hold.
pub open spec fn classify(score: int) -> Signal {
    if score >= 1_550_000 {
        Signal::StrongBuy
    } else if score > 200_000 {
        Signal::Buy
    } else if score <= -1_550_000 {
        Signal::StrongSell
    } else if score < -200_000 {
        Signal::Sell
    } else {
        Signal::Hold
    }
}

/// The fused signal: `Undefined` on rejected input, else the class of the score.
pub open spec fn fuse(price: int, ind: Indicators, st: SignalSettings) -> Signal {
    if !valid_fusion_input(price, ind) {
        Signal::Undefined
    } else {
        classify(fused_score(price, ind, st))
    }
}

fn bollinger_part(price: i128, bands: Option<(i64, i64, i64)>, w: i128, gap: i128) -> (r: i128)
    requires
        0 <= w <= MAX_WEIGHT,
        0 <= gap <= MAX_VALUE,
    ensures
        r == bollinger_score(price as int, bands, w as int, gap as int),
        -2 * MAX_WEIGHT <= r <= 2 * MAX_WEIGHT,
{
    match bands {
        None => 0,
        Some(b) => {
            let lower = b.0 as i128;
            let upper = b.2 as i128;
            if price > upper + gap {
                0 - 2 * w
            } else if price < lower - gap {
                2 * w
            } else if price > upper {
                0 - w
            } else if price < lower {
                w
            } else {
                0
            }
        },
    }
}

fn rsi_part(rsi: Option<i64>, w: i128) -> (r: i128)
    requires
        0 <= w <= MAX_WEIGHT,
    ensures
        r == rsi_score(rsi, w as int),
        -2 * MAX_WEIGHT <= r <= 2 * MAX_WEIGHT,
{
    match rsi {
        None => 0,
        Some(v) => {
            if v > 80 * SCALE {
                0 - 2 * w
            } else if v > 70 * SCALE {
                0 - w
            } else if v < 20 * SCALE {
                2 * w
            } else if v < 30 * SCALE {
                w
            } else {
                0
            }
        },
    }
}

fn average_part(price: i128, avg: Option<i64>, w: i128, gap: i128) -> (r: i128)
    requires
        0 <= w <= MAX_WEIGHT,
        0 <= gap <= MAX_VALUE,
    ensures
        r == average_score(price as int, avg, w as int, gap as int),
        -2 * MAX_WEIGHT <= r <= 2 * MAX_WEIGHT,
{
    match avg {
        None => 0,
        Some(v) => {
            let a = v as i128;
            if price > a + gap {
                0 - 2 * w
            } else if price > a {
                0 - w
            } else if price < a - gap {
                2 * w
            } else if price < a {
                w
            } else {
                0
            }
        },
    }
}

fn atr_part(price: i128, atr: Option<i64>, w: i128) -> (r: i128)
    requires
        0 <= w <= MAX_WEIGHT,
        i64::MIN <= price <= i64::MAX,
    ensures
        r == atr_score(price as int, atr, w as int),
        -2 * MAX_WEIGHT <= r <= 2 * MAX_WEIGHT,
{
    match atr {
        None => 0,
        Some(v) => {
            let a = v as i128;
            if 800 * a > 7 * price && 800 * price > 800 * a + 7 * price {
                0 - 2 * w
            } else if 800 * a > 7 * price && 400 * price < 400 * a - 3 * price {
                2 * w
            } else if 200 * a > price && price > a {
                0 - w
            } else if 200 * a > price && price < a {
                w
            } else {
                0
            }
        },
    }
}

/// Validates the input, scores the tick price against the bar-series
/// indicators with the given weights, and classifies the score.
pub fn calculate_ohlc_with_price_signal(price_data: &PriceData, indicators: &Indicators, settings: &SignalSettings) -> (r: Signal)
    requires
        settings.wf(),
    ensures
        r == fuse(price_data.last_price as int, *indicators, *settings),
{
    let price = price_data.last_price;
    if price <= 0 {
        return Signal::Undefined;
    }
    if let Some(b) = indicators.ohlc_bollinger_bands {
        if b.0 < 0 || b.1 < 0 || b.2 < 0 {
            return Signal::Undefined;
        }
    }
    if let Some(v) = indicators.ohlc_rsi {
        if v < 0 || v > 100 * SCALE {
            return Signal::Undefined;
        }
    }
    if let Some(v) = indicators.ohlc_ma {
        if v < 0 {
            return Signal::Undefined;
        }
    }
    if let Some(v) = indicators.ohlc_ema {
        if v < 0 {
            return Signal::Undefined;
        }
    }
    if let Some(v) = indicators.atr {
        if v < 0 {
            return Signal::Undefined;
        }
    }
    let p = price as i128;
    let gap = settings.gap_value as i128;
    let mw = settings.ma_ema_weight as i128;
    let score = bollinger_part(p, indicators.ohlc_bollinger_bands, settings.bollinger_weight as i128, gap)
        + rsi_part(indicators.ohlc_rsi, settings.rsi_weight as i128)
        + average_part(p, indicators.ohlc_ma, mw, gap)
        + average_part(p, indicators.ohlc_ema, mw, gap)
        + atr_part(p, indicators.atr, settings.atr_weight as i128);
    if score >= 1_550_000 {
        Signal::StrongBuy
    } else if score > 200_000 {
        Signal::Buy
    } else if score <= -1_550_000 {
        Signal::StrongSell
    } else if score < -200_000 {
        Signal::Sell
    } else {
        Signal::Hold
    }
}

/// Fusion is a function of its inputs: equal price, snapshot and settings
/// give equal signals.
pub proof fn lemma_fusion_deterministic(
    p1: int, i1: Indicators, s1: SignalSettings,
    p2: int, i2: Indicators, s2: SignalSettings,
)
    requires
        p1 == p2,
        i1 == i2,
        s1 == s2,
    ensures
        fuse(p1, i1, s1) == fuse(p2, i2, s2),
{
}

/// An absent indicator contributes exactly nothing: dropping one from the
/// snapshot removes its own contribution and leaves the rest of the score.
pub proof fn lemma_absent_contributes_nothing(price: int, ind: Indicators, st: SignalSettings)
    ensures
        fused_score(price, Indicators { ohlc_bollinger_bands: None, ..ind }, st)
            == fused_score(price, ind, st) - bollinger_score(price, ind.ohlc_bollinger_bands, st.bollinger_weight as int, st.gap_value as int),
        fused_score(price, Indicators { ohlc_rsi: None, ..ind }, st)
            == fused_score(price, ind, st) - rsi_score(ind.ohlc_rsi, st.rsi_weight as int),
        fused_score(price, Indicators { ohlc_ma: None, ..ind }, st)
            == fused_score(price, ind, st) - average_score(price, ind.ohlc_ma, st.ma_ema_weight as int, st.gap_value as int),
        fused_score(price, Indicators { ohlc_ema: None, ..ind }, st)
            == fused_score(price, ind, st) - average_score(price, ind.ohlc_ema, st.ma_ema_weight as int, st.gap_value as int),
        fused_score(price, Indicators { atr: None, ..ind }, st)
            == fused_score(price, ind, st) - atr_score(price, ind.atr, st.atr_weight as int),
{
}

/// An absent indicator and one present at a neutral value give the same
/// signal: RSI at 50, MA or EMA at the price, bands collapsed on the price,
/// ATR at zero.
pub proof fn lemma_absent_same_as_neutral(price: i64, ind: Indicators, st: SignalSettings)
    requires
        price > 0,
        st.wf(),
    ensures
        fuse(price as int, Indicators { ohlc_rsi: None, ..ind }, st)
            == fuse(price as int, Indicators { ohlc_rsi: Some(50_000_000i64), ..ind }, st),
        fuse(price as int, Indicators { ohlc_ma: None, ..ind }, st)
            == fuse(price as int, Indicators { ohlc_ma: Some(price), ..ind }, st),
        fuse(price as int, Indicators { ohlc_ema: None, ..ind }, st)
            == fuse(price as int, Indicators { ohlc_ema: Some(price), ..ind }, st),
        fuse(price as int, Indicators { ohlc_bollinger_bands: None, ..ind }, st)
            == fuse(price as int, Indicators { ohlc_bollinger_bands: Some((price, price, price)), ..ind }, st),
        fuse(price as int, Indicators { atr: None, ..ind }, st)
            == fuse(price as int, Indicators { atr: Some(0), ..ind }, st),
{
}

impl Signal {
    /// Human-readable label.
    pub fn to_string(&self) -> (r: String)
        ensures
            r@ == signal_label(*self),
    {
        match self {
            Signal::StrongSell => String::from_str("Signal: Strong Sell 🚫"),
            Signal::Sell => String::from_str("Signal: Sell 🚩"),
            Signal::Hold => String::from_str("Signal: Hold"),
            Signal::Buy => String::from_str("Signal: Buy ✅"),
            Signal::StrongBuy => String::from_str("Signal: Strong Buy 💚"),
            Signal::Undefined => String::from_str("Signal: Undefined"),
        }
    }

    /// `-2` strong sell, `-1` sell, `0` hold or undefined, `1` buy, `2` strong buy.
    pub fn value(&self) -> (r: i32)
        ensures
            r == signal_value(*self),
    {
        match self {
            Signal::StrongSell => -2,
            Signal::Sell => -1,
            Signal::Hold => 0,
            Signal::Buy => 1,
            Signal::StrongBuy => 2,
            Signal::Undefined => 0,
        }
    }

    /// Whether the signal asks for a trade (buy or sell, plain or strong).
    pub fn is_directional(&self) -> (r: bool)
        ensures
            r == is_directional(*self),
    {
        match self {
            Signal::Hold | Signal::Undefined => false,
            _ => true,
        }
    }
}

} // verus!
