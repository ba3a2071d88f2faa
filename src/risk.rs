//! Risk sizing: order quantity, stop-loss / take-profit levels, margin,
//! liquidation price and maintenance margin. Prices, ratios and fee rates are
//! fixed point; quantities are whole quote units; margins are base units.
use vstd::prelude::*;
use vstd::arithmetic::div_mod::{
    lemma_div_is_ordered, lemma_div_is_ordered_by_denominator, lemma_fundamental_div_mod,
    lemma_fundamental_div_mod_converse, lemma_div_denominator,
};
use crate::fixed::{valid_value, MAX_VALUE, SCALE};
use crate::market::{FuturesMarket, Side, Tier};

verus! {

/// Base units in one whole unit of the account currency.
pub const BASE_UNITS_PER_WHOLE: u64 = 100_000_000;

/// Largest leverage the sizing accepts.
pub const MAX_LEVERAGE: u64 = 1000;

/// Largest risk ratio the sizing accepts (one thousand, in fixed point).
pub const MAX_RATIO: i64 = 1_000_000_000;

/// Largest order quantity the margin computation accepts.
pub const MAX_QUANTITY: u64 = 4_000_000_000;

/// Why a trade could not be sized.
#[derive(Debug, Clone, Copy, PartialEq, Eq, Structural)]
pub enum SizingError {
    /// The ATR is absent or not positive.
    AtrRequired,
    /// No fee tier starts at or below the margin.
    NoMatchingFeeTier,
    /// The liquidation price is unbounded or zero for these inputs.
    NoLiquidationPrice,
    /// The entry price is not positive.
    InvalidPrice,
}

/// Text reported for a sizing failure.
pub open spec fn sizing_reason(e: SizingError) -> Seq<char> {
    match e {
        SizingError::AtrRequired => "ATR is required for the trade."@,
        SizingError::NoMatchingFeeTier => "No matching fee tier found"@,
        SizingError::NoLiquidationPrice => "No liquidation price for these parameters"@,
        SizingError::InvalidPrice => "Entry price must be positive"@,
    }
}

impl SizingError {
    /// Text reported for the failure.
    pub fn reason(&self) -> (r: String)
        ensures
            r@ == sizing_reason(*self),
    {
        match self {
            SizingError::AtrRequired => String::from_str("ATR is required for the trade."),
            SizingError::NoMatchingFeeTier => String::from_str("No matching fee tier found"),
            SizingError::NoLiquidationPrice => String::from_str("No liquidation price for these parameters"),
            SizingError::InvalidPrice => String::from_str("Entry price must be positive"),
        }
    }
}

/// `q` limited above by `mx`, then below by `mn`.
pub open spec fn clamp(q: int, mn: int, mx: int) -> int {
    let a = if q < mx { q } else { mx };
    if a > mn { a } else { mn }
}

/// Quantity before the market limits: the balance valued at `entry`
/// (`balance * entry / BASE_UNITS_PER_WHOLE`), times the risk fraction, shared
/// among `max_trades` positions, times the leverage, divided by the ATR.
pub open spec fn raw_quantity(balance: int, entry: int, risk: int, max_trades: int, leverage: int, atr: int) -> int {
    let value = balance * entry / (BASE_UNITS_PER_WHOLE as int);
    let per_trade = value * risk / (SCALE * max_trades);
    per_trade * leverage / atr
}

/// Order quantity within the market limits. Without a position cap
/// (`max_trades == 0`) the per-trade budget is unbounded.
pub open spec fn trade_quantity(balance: int, entry: int, risk: int, max_trades: int, leverage: int, atr: int, mn: int, mx: int) -> int {
    if max_trades == 0 {
        clamp(mx, mn, mx)
    } else {
        clamp(raw_quantity(balance, entry, risk, max_trades, leverage, atr), mn, mx)
    }
}

/// The sized quantity lies within the market bounds for every balance,
/// entry, risk, position cap, leverage and ATR.
pub proof fn lemma_quantity_clamped(balance: int, entry: int, risk: int, max_trades: int, leverage: int, atr: int, mn: int, mx: int)
    requires
        mn <= mx,
    ensures
        mn <= trade_quantity(balance, entry, risk, max_trades, leverage, atr, mn, mx) <= mx,
{
}

/// Order quantity sized by balance, risk per trade, position cap, leverage
/// and volatility, limited to the market's quantity bounds. Fails without a
/// positive ATR, then on a non-positive entry price.
pub fn calculate_trade_quantity(
    balance_sats: u64,
    entry_price: i64,
    risk_per_trade_percent: i64,
    max_trades: u64,
    leverage: u64,
    atr: Option<i64>,
    market_data: &FuturesMarket,
) -> (r: Result<u64, SizingError>)
    requires
        entry_price <= MAX_VALUE,
        risk_per_trade_percent >= 0,
    ensures
        ({
            let mn = market_data.limits.quantity.min as int;
            let mx = market_data.limits.quantity.max as int;
            match atr {
                Some(a) if a > 0 => if entry_price <= 0 {
                    r == Err::<u64, SizingError>(SizingError::InvalidPrice)
                } else {
                    r == Ok::<u64, SizingError>(trade_quantity(
                        balance_sats as int, entry_price as int, risk_per_trade_percent as int,
                        max_trades as int, leverage as int, a as int, mn, mx) as u64)
                },
                _ => r == Err::<u64, SizingError>(SizingError::AtrRequired),
            }
        }),
        r matches Ok(q) ==> (market_data.limits.quantity.min <= market_data.limits.quantity.max ==>
            market_data.limits.quantity.min <= q <= market_data.limits.quantity.max),
{
    let a = match atr {
        Some(a) if a > 0 => a,
        _ => return Err(SizingError::AtrRequired),
    };
    if entry_price <= 0 {
        return Err(SizingError::InvalidPrice);
    }
    let mn = market_data.limits.quantity.min;
    let mx = market_data.limits.quantity.max;
    if max_trades == 0 {
        let q = if mx > mn { mx } else { mn };
        return Ok(q);
    }
    assert(balance_sats * entry_price <= 0x1_0000_0000_0000_0000 * MAX_VALUE) by (nonlinear_arith)
        requires balance_sats <= 0xFFFF_FFFF_FFFF_FFFF, 0 <= entry_price <= MAX_VALUE;
    let value: u128 = balance_sats as u128 * entry_price as u128 / BASE_UNITS_PER_WHOLE as u128;
    proof {
        lemma_div_is_ordered_by_denominator((balance_sats * entry_price) as int, 1, BASE_UNITS_PER_WHOLE as int);
    }
    // value * risk / SCALE, with the risk split into whole and fractional parts
    let s: u128 = SCALE as u128;
    let rq: u128 = risk_per_trade_percent as u128 / s;
    let rr: u128 = risk_per_trade_percent as u128 % s;
    proof {
        let x = (balance_sats * entry_price) as int;
        lemma_div_is_ordered(x, 0x1_0000_0000_0000_0000int * 40_000 * 100_000_000, 100_000_000);
        assert((0x1_0000_0000_0000_0000int * 40_000 * 100_000_000) / 100_000_000 == 0x1_0000_0000_0000_0000int * 40_000);
        assert(rq <= 0x8000_0000_0000) by (nonlinear_arith)
            requires rq == (risk_per_trade_percent as int) / 1_000_000, risk_per_trade_percent <= 0x7FFF_FFFF_FFFF_FFFF;
    }
    assert(value * rq <= 0x1_0000_0000_0000_0000 * 40_000 * 0x8000_0000_0000) by (nonlinear_arith)
        requires value <= 0x1_0000_0000_0000_0000 * 40_000, rq <= 0x8000_0000_0000;
    assert(value * rr <= 0x1_0000_0000_0000_0000 * 40_000 * SCALE) by (nonlinear_arith)
        requires value <= 0x1_0000_0000_0000_0000 * 40_000, rr < SCALE;
    let scaled: u128 = value * rq + value * rr / s;
    proof {
        let v = value as int;
        let risk = risk_per_trade_percent as int;
        lemma_fundamental_div_mod(risk, SCALE as int);
        lemma_fundamental_div_mod(v * rr, SCALE as int);
        assert(v * risk == (v * rq + (v * rr) / (SCALE as int)) * (SCALE as int) + (v * rr) % (SCALE as int)) by (nonlinear_arith)
            requires
                risk == (SCALE as int) * rq + rr,
                v * rr == (SCALE as int) * ((v * rr) / (SCALE as int)) + (v * rr) % (SCALE as int);
        lemma_fundamental_div_mod_converse(v * risk, SCALE as int, v * rq + (v * rr) / (SCALE as int), (v * rr) % (SCALE as int));
        lemma_div_denominator(v * risk, SCALE as int, max_trades as int);
    }
    let per_trade: u128 = scaled / max_trades as u128;
    let raw: u128 = match per_trade.checked_mul(leverage as u128) {
        Some(x) => x / a as u128,
        None => {
            proof {
                let x = per_trade * leverage;
                assert(x >= 0x1_0000_0000_0000_0000_0000_0000_0000_0000);
                lemma_div_is_ordered(0x1_0000_0000_0000_0000_0000_0000_0000_0000int, x as int, a as int);
                lemma_div_is_ordered_by_denominator(0x1_0000_0000_0000_0000_0000_0000_0000_0000int, a as int, 0x8000_0000_0000_0000int);
                assert(0x1_0000_0000_0000_0000_0000_0000_0000_0000int / 0x8000_0000_0000_0000int == 0x2_0000_0000_0000_0000int);
            }
            0x2_0000_0000_0000_0000
        },
    };
    let capped: u64 = if raw < mx as u128 { raw as u64 } else { mx };
    let q = if capped > mn { capped } else { mn };
    Ok(q)
}

/// Take-profit and stop-loss levels `(takeprofit, stoploss)`: the distance
/// `atr * leverage` scaled by the risk-to-reward (target) and risk-to-loss
/// (stop) ratios, above and below the entry for a long, mirrored for a short.
pub open spec fn stop_target(entry: int, atr: int, leverage: int, is_buy: bool, rtr: int, rtl: int) -> (int, int) {
    let distance = atr * leverage;
    let stop = distance * rtl / (SCALE as int);
    let target = distance * rtr / (SCALE as int);
    if is_buy {
        (entry + target, entry - stop)
    } else {
        (entry - target, entry + stop)
    }
}

/// Take-profit and stop-loss `(takeprofit, stoploss)` for an entry; fails
/// unless the ATR is positive.
pub fn calculate_stoploss_takeprofit(
    entry_price: i64,
    atr_value: i64,
    leverage: u64,
    is_buy: bool,
    risk_to_reward_ratio: i64,
    risk_to_loss_ratio: i64,
) -> (r: Result<(i64, i64), SizingError>)
    requires
        valid_value(entry_price),
        atr_value <= MAX_VALUE,
        leverage <= MAX_LEVERAGE,
        0 <= risk_to_reward_ratio <= MAX_RATIO,
        0 <= risk_to_loss_ratio <= MAX_RATIO,
    ensures
        atr_value <= 0 ==> r == Err::<(i64, i64), SizingError>(SizingError::AtrRequired),
        atr_value > 0 ==> (r matches Ok(v) && (v.0 as int, v.1 as int) == stop_target(entry_price as int,
            atr_value as int, leverage as int, is_buy, risk_to_reward_ratio as int, risk_to_loss_ratio as int)),
{
    if atr_value <= 0 {
        return Err(SizingError::AtrRequired);
    }
    assert(atr_value * leverage <= MAX_VALUE * MAX_LEVERAGE) by (nonlinear_arith)
        requires 0 < atr_value <= MAX_VALUE, 0 <= leverage <= MAX_LEVERAGE;
    let distance: i128 = atr_value as i128 * leverage as i128;
    assert(0 <= distance * risk_to_loss_ratio <= MAX_VALUE * MAX_LEVERAGE * MAX_RATIO
        && 0 <= distance * risk_to_reward_ratio <= MAX_VALUE * MAX_LEVERAGE * MAX_RATIO) by (nonlinear_arith)
        requires
            distance == atr_value * leverage,
            0 < atr_value <= MAX_VALUE,
            0 <= leverage <= MAX_LEVERAGE,
            0 <= risk_to_reward_ratio <= MAX_RATIO,
            0 <= risk_to_loss_ratio <= MAX_RATIO;
    let stop: i128 = distance * risk_to_loss_ratio as i128 / SCALE as i128;
    let target: i128 = distance * risk_to_reward_ratio as i128 / SCALE as i128;
    let e = entry_price as i128;
    if is_buy {
        Ok(((e + target) as i64, (e - stop) as i64))
    } else {
        Ok(((e - target) as i64, (e + stop) as i64))
    }
}

/// Derived figures of a sized trade.
#[derive(Debug, Clone, Copy, PartialEq, Eq, Structural)]
pub struct TradeParams {
    /// Margin in base units, floored.
    pub margin_sats: u128,
    /// Liquidation price (fixed point), floored.
    pub liquidation_price: u128,
    pub trade_quantity: u64,
    /// Opening plus closing fee reserve in base units, floored.
    pub maintenance_margin: u128,
}

/// Margin in base units: `quantity / (entry * leverage)` whole units, floored
/// to the smallest base unit.
pub open spec fn margin_of(quantity: int, entry: int, leverage: int) -> int {
    quantity * (BASE_UNITS_PER_WHOLE as int) * (SCALE as int) / (entry * leverage)
}

/// Index of the highest-volume tier among the first `k` whose minimum volume
/// is at most `volume` (of equal minimums, the later one), in any list order.
pub open spec fn fee_tier(tiers: Seq<Tier>, volume: int, k: nat) -> Option<int>
    decreases k,
{
    if k == 0 {
        None
    } else {
        let best = fee_tier(tiers, volume, (k - 1) as nat);
        if tiers[k - 1].min_volume <= volume && (best matches Some(b) ==> tiers[b].min_volume <= tiers[k - 1].min_volume) {
            Some(k - 1)
        } else {
            best
        }
    }
}

/// The chosen tier applies to `volume` and no applicable tier among the first
/// `k` has a higher minimum volume; there is none exactly when no tier applies.
pub proof fn lemma_fee_tier_is_highest(tiers: Seq<Tier>, volume: int, k: nat)
    requires
        k <= tiers.len(),
    ensures
        fee_tier(tiers, volume, k) matches Some(t) ==> 0 <= t < k && tiers[t].min_volume <= volume
            && forall|j: int| 0 <= j < k && tiers[j].min_volume <= volume ==> tiers[j].min_volume <= tiers[t].min_volume,
        fee_tier(tiers, volume, k) is None <==> forall|j: int| 0 <= j < k ==> tiers[j].min_volume > volume,
    decreases k,
{
    if k > 0 {
        lemma_fee_tier_is_highest(tiers, volume, (k - 1) as nat);
    }
}

/// Liquidation price (fixed point, floored) for the floored margin:
/// `1 / (1 / entry + margin / quantity)` for a long, `1 / (1 / entry - margin / quantity)`
/// for a short; absent where that is unbounded or not positive.
pub open spec fn liquidation_of(side: Side, quantity: int, entry: int, margin: int) -> Option<int> {
    let num = (SCALE as int) * entry * (BASE_UNITS_PER_WHOLE as int) * quantity;
    let lhs = (SCALE as int) * (BASE_UNITS_PER_WHOLE as int) * quantity;
    let den = match side {
        Side::Long => lhs + entry * margin,
        Side::Short => lhs - entry * margin,
    };
    if den <= 0 || num / den == 0 {
        None
    } else {
        Some(num / den)
    }
}

/// Reserve for the opening and closing fees in base units:
/// `(quantity / entry + quantity / liquidation) * rate`, floored.
pub open spec fn maintenance_of(quantity: int, entry: int, liquidation: int, rate: int) -> int {
    let a = quantity * rate * (BASE_UNITS_PER_WHOLE as int);
    (a * liquidation + a * entry) / (entry * liquidation)
}

/// `floor(a / e + a / l)`, computed without forming `a * l`.
fn floor_quotient_sum(a: u128, e: u128, l: u128) -> (r: u128)
    requires
        1 <= e <= MAX_VALUE,
        1 <= l <= 0x0400_0000_0000_0000_0000_0000_0000_0000,
        a <= 0x1_0000_0000_0000_0000_0000,
    ensures
        r == (a * l + a * e) / (e * l),
{
    let q1 = a / e;
    let r1 = a % e;
    let q2 = a / l;
    let r2 = a % l;
    let carry: bool = if r1 == 0 {
        false
    } else {
        let d = e - r1;
        let le = l / e;
        let lm = l % e;
        proof {
            lemma_fundamental_div_mod(l as int, e as int);
            assert(d * le <= l) by (nonlinear_arith)
                requires d <= e, l == e * le + lm, lm >= 0, le >= 0;
            assert(d * lm < e * e) by (nonlinear_arith)
                requires d <= e, 0 <= lm < e;
            assert(e * e <= MAX_VALUE * MAX_VALUE) by (nonlinear_arith)
                requires 1 <= e <= MAX_VALUE;
        }
        let k = d * le;
        let m = d * lm;
        let c = (m + e - 1) / e;
        proof {
            let mm = (m + e - 1) as int;
            let ei = e as int;
            lemma_fundamental_div_mod(mm, ei);
            let rem = mm % ei;
            assert(c * e >= m && c * e < m + e) by (nonlinear_arith)
                requires mm == ei * c + rem, 0 <= rem < ei, mm == m + e - 1, ei == e;
            assert(d * l == e * k + m) by (nonlinear_arith)
                requires l == e * le + lm, k == d * le, m == d * lm;
            if r2 >= k + c {
                assert(r2 * e >= d * l) by (nonlinear_arith)
                    requires r2 >= k + c, c * e >= m, d * l == e * k + m, e >= 1;
            } else {
                assert(r2 * e < d * l) by (nonlinear_arith)
                    requires r2 + 1 <= k + c, c * e < m + e, d * l == e * k + m, e >= 1;
            }
        }
        r2 >= k + c
    };
    proof {
        let d = e - r1;
        lemma_fundamental_div_mod(a as int, e as int);
        lemma_fundamental_div_mod(a as int, l as int);
        let x = (a * l + a * e) as int;
        let dd = (e * l) as int;
        assert(x == (q1 + q2) * dd + (r1 * l + r2 * e)) by (nonlinear_arith)
            requires a == e * q1 + r1, a == l * q2 + r2, x == a * l + a * e, dd == e * l;
        assert(0 <= r1 * l + r2 * e < 2 * dd) by (nonlinear_arith)
            requires 0 <= r1 < e, 0 <= r2 < l, dd == e * l;
        if r1 == 0 {
            assert(r2 * e < dd && r1 * l == 0) by (nonlinear_arith)
                requires 0 <= r2 < l, e >= 1, dd == e * l, r1 == 0;
            lemma_fundamental_div_mod_converse(x, dd, (q1 + q2) as int, (r1 * l + r2 * e) as int);
        } else if carry {
            assert(r1 * l + r2 * e >= dd) by (nonlinear_arith)
                requires r2 * e >= d * l, d == e - r1, dd == e * l;
            assert(x == (q1 + q2 + 1) * dd + (r1 * l + r2 * e - dd)) by (nonlinear_arith)
                requires x == (q1 + q2) * dd + (r1 * l + r2 * e);
            lemma_fundamental_div_mod_converse(x, dd, (q1 + q2 + 1) as int, (r1 * l + r2 * e - dd) as int);
        } else {
            assert(r1 * l + r2 * e < dd) by (nonlinear_arith)
                requires r2 * e < d * l, d == e - r1, dd == e * l;
            lemma_fundamental_div_mod_converse(x, dd, (q1 + q2) as int, (r1 * l + r2 * e) as int);
        }
        assert(q1 <= a && q2 <= a) by (nonlinear_arith)
            requires a == e * q1 + r1, a == l * q2 + r2, e >= 1, l >= 1, r1 >= 0, r2 >= 0, q1 >= 0, q2 >= 0;
    }
    if carry { q1 + q2 + 1 } else { q1 + q2 }
}

/// Fee rates are fractions in `[0, 1]`; the tiers may come in any order.
pub open spec fn valid_tiers(tiers: Seq<Tier>) -> bool {
    forall|i: int| 0 <= i < tiers.len() ==> 0 <= #[trigger] tiers[i].fees <= SCALE
}

/// Margin, liquidation price and maintenance margin of a trade; fails on a
/// non-positive entry price.
pub fn calculate_trade_params(
    side: Side,
    entry_price: i64,
    leverage: u64,
    trade_quantity: u64,
    market_data: &FuturesMarket,
) -> (r: Result<TradeParams, SizingError>)
    requires
        entry_price <= MAX_VALUE,
        1 <= leverage <= MAX_LEVERAGE,
        trade_quantity <= MAX_QUANTITY,
        valid_tiers(market_data.fees.trading.tiers@),
    ensures
        entry_price <= 0 ==> r == Err::<TradeParams, SizingError>(SizingError::InvalidPrice),
        entry_price > 0 ==> ({
            let tiers = market_data.fees.trading.tiers@;
            let m = margin_of(trade_quantity as int, entry_price as int, leverage as int);
            match fee_tier(tiers, m, tiers.len()) {
                None => r == Err::<TradeParams, SizingError>(SizingError::NoMatchingFeeTier),
                Some(t) => match liquidation_of(side, trade_quantity as int, entry_price as int, m) {
                    None => r == Err::<TradeParams, SizingError>(SizingError::NoLiquidationPrice),
                    Some(l) => r matches Ok(p) && p.margin_sats == m && p.liquidation_price == l
                        && p.trade_quantity == trade_quantity
                        && p.maintenance_margin == maintenance_of(trade_quantity as int, entry_price as int, l, tiers[t].fees as int),
                },
            }
        }),
{
    if entry_price <= 0 {
        return Err(SizingError::InvalidPrice);
    }
    let q = trade_quantity as u128;
    let e = entry_price as u128;
    let units = BASE_UNITS_PER_WHOLE as u128;
    let s = SCALE as u128;
    assert(q * units * s <= MAX_QUANTITY * 100_000_000 * 1_000_000) by (nonlinear_arith)
        requires q <= MAX_QUANTITY, units == 100_000_000, s == 1_000_000;
    assert(1 <= e * leverage <= MAX_VALUE * MAX_LEVERAGE) by (nonlinear_arith)
        requires 1 <= e <= MAX_VALUE, 1 <= leverage <= MAX_LEVERAGE;
    assert(q * units <= MAX_QUANTITY * 100_000_000) by (nonlinear_arith)
        requires q <= MAX_QUANTITY, units == 100_000_000;
    let margin: u128 = q * units * s / (e * leverage as u128);
    proof {
        lemma_div_is_ordered_by_denominator((q * units * s) as int, 1, (e * leverage as u128) as int);
    }
    let tiers = &market_data.fees.trading.tiers;
    let mut best: Option<usize> = None;
    let mut k: usize = 0;
    while k < tiers.len()
        invariant
            k <= tiers@.len(),
            best matches Some(b) ==> b < k,
            fee_tier(tiers@, margin as int, k as nat) == match best {
                Some(b) => Some(b as int),
                None => None::<int>,
            },
        decreases tiers@.len() - k,
    {
        let v = tiers[k].min_volume;
        if margin >= v as u128 {
            match best {
                None => {
                    best = Some(k);
                },
                Some(b) => {
                    if tiers[b].min_volume <= v {
                        best = Some(k);
                    }
                },
            }
        }
        k = k + 1;
    }
    let t = match best {
        None => return Err(SizingError::NoMatchingFeeTier),
        Some(t) => t,
    };
    assert(fee_tier(tiers@, margin as int, tiers@.len()) == Some(t as int));
    proof {
        lemma_fundamental_div_mod((q * units * s) as int, (e * leverage) as int);
        assert(margin * (e * leverage) <= q * units * s) by (nonlinear_arith)
            requires
                (q * units * s) as int == (e * leverage) * (margin as int) + ((q * units * s) as int) % ((e * leverage) as int),
                ((q * units * s) as int) % ((e * leverage) as int) >= 0;
    }
    assert(s * units * q == q * units * s) by (nonlinear_arith);
    let lhs: u128 = s * units * q;
    assert(e * margin <= MAX_QUANTITY * 100_000_000 * 1_000_000) by (nonlinear_arith)
        requires
            margin * (e * leverage) <= q * units * s,
            leverage >= 1,
            q * units * s <= MAX_QUANTITY * 100_000_000 * 1_000_000;
    assert(s * e * units * q <= 1_000_000 * MAX_VALUE * 100_000_000 * MAX_QUANTITY) by (nonlinear_arith)
        requires e <= MAX_VALUE, q <= MAX_QUANTITY, units == 100_000_000, s == 1_000_000;
    let num: u128 = s * e * units * q;
    let den: u128 = match side {
        Side::Long => lhs + e * margin,
        Side::Short => {
            if lhs <= e * margin {
                return Err(SizingError::NoLiquidationPrice);
            }
            lhs - e * margin
        },
    };
    if den == 0 {
        return Err(SizingError::NoLiquidationPrice);
    }
    let liquidation = num / den;
    if liquidation == 0 {
        return Err(SizingError::NoLiquidationPrice);
    }
    let rate = tiers[t].fees as u128;
    assert(q * rate * units <= MAX_QUANTITY * 1_000_000 * 100_000_000) by (nonlinear_arith)
        requires q <= MAX_QUANTITY, rate <= 1_000_000, units == 100_000_000;
    let reserve = q * rate * units;
    assert(num / den <= num) by (nonlinear_arith)
        requires den >= 1, num >= 0;
    Ok(TradeParams {
        margin_sats: margin,
        liquidation_price: liquidation,
        trade_quantity,
        maintenance_margin: floor_quotient_sum(reserve, e, liquidation),
    })
}

} // verus!
