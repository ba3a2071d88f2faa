//! Trade admission and order preparation: a directional signal becomes an order
//! only when the open-position cap, the minimum gap between trades and the
//! balance all allow it. The guard remembers the time of the last approval.
use vstd::prelude::*;
use crate::fixed::{MAX_VALUE, SCALE};
use crate::market::{CreateTradeParams, FuturesMarket, OrderKind, Side};
use crate::risk::{
    calculate_stoploss_takeprofit, calculate_trade_params, calculate_trade_quantity, fee_tier,
    liquidation_of, maintenance_of, margin_of, stop_target, trade_quantity, valid_tiers, SizingError, TradeParams,
    MAX_LEVERAGE, MAX_QUANTITY, MAX_RATIO,
};
use crate::signals::{is_directional, Signal};

verus! {

/// Default leverage of an order.
pub const DEFAULT_LEVERAGE: u64 = 20;

/// Time of the last approved trade (milliseconds), if any.
#[derive(Debug, Clone, Copy, PartialEq, Eq, Structural)]
pub struct GateState {
    pub last_trade_time_ms: Option<i64>,
}

impl GateState {
    /// A guard that has approved nothing yet.
    pub fn new() -> (r: GateState)
        ensures
            r.last_trade_time_ms is None,
    {
        GateState { last_trade_time_ms: None }
    }
}

/// Outcome of a trade attempt once an order was or was not dispatched.
#[derive(Debug, Clone, PartialEq, Eq)]
pub enum CreateTradeResult {
    TradeCreated,
    NoTradeCreated(String),
}

/// Why the guard refused a directional signal.
#[derive(Debug, Clone, Copy, PartialEq, Eq, Structural)]
pub enum GateRejection {
    TradeLimitReached,
    TradeGapNotElapsed,
    InsufficientBalance,
}

/// Text reported for a refusal.
pub open spec fn rejection_reason(r: GateRejection) -> Seq<char> {
    match r {
        GateRejection::TradeLimitReached => "Trade limit reached"@,
        GateRejection::TradeGapNotElapsed => "Trade gap not elapsed"@,
        GateRejection::InsufficientBalance => "Insufficient balance for creating a trade"@,
    }
}

impl GateRejection {
    /// Text reported for the refusal.
    pub fn reason(&self) -> (r: String)
        ensures
            r@ == rejection_reason(*self),
    {
        match self {
            GateRejection::TradeLimitReached => String::from_str("Trade limit reached"),
            GateRejection::TradeGapNotElapsed => String::from_str("Trade gap not elapsed"),
            GateRejection::InsufficientBalance => String::from_str("Insufficient balance for creating a trade"),
        }
    }
}

/// Risk settings of the process.
#[derive(Debug, Clone, Copy, PartialEq, Eq, Structural)]
pub struct RiskConfig {
    /// Fraction of the balance risked per trade (fixed point).
    pub risk_per_trade_percent: i64,
    /// Target distance per unit of `atr * leverage` (fixed point).
    pub risk_to_reward_ratio: i64,
    /// Stop distance per unit of `atr * leverage` (fixed point).
    pub risk_to_loss_ratio: i64,
    /// Minimum time between two approved trades.
    pub trade_gap_seconds: u64,
    pub leverage: u64,
}

impl RiskConfig {
    pub open spec fn wf(&self) -> bool {
        &&& 0 <= self.risk_per_trade_percent
        &&& 0 <= self.risk_to_reward_ratio <= MAX_RATIO
        &&& 0 <= self.risk_to_loss_ratio <= MAX_RATIO
        &&& 1 <= self.leverage <= MAX_LEVERAGE
        &&& self.trade_gap_seconds <= 1_000_000_000
    }
}

/// What the decision needs to know about the account and the market now.
#[derive(Debug, Clone, Copy, PartialEq, Eq, Structural)]
pub struct TradeInputs {
    pub open_trades: u64,
    pub balance_sats: u64,
    /// Best ask (fixed point): the entry of a long.
    pub ask_price: i64,
    /// Best bid (fixed point): the entry of a short.
    pub bid_price: i64,
    pub atr: Option<i64>,
    pub now_ms: i64,
}

impl TradeInputs {
    pub open spec fn wf(&self) -> bool {
        &&& self.ask_price <= MAX_VALUE
        &&& self.bid_price <= MAX_VALUE
        &&& (self.atr matches Some(a) ==> a <= MAX_VALUE)
        &&& self.now_ms >= 0
    }
}

/// Market data the sizing can work with.
pub open spec fn valid_market(m: FuturesMarket) -> bool {
    &&& m.limits.quantity.min <= MAX_QUANTITY
    &&& m.limits.quantity.max <= MAX_QUANTITY
    &&& valid_tiers(m.fees.trading.tiers@)
}

/// Decision on a signal.
#[derive(Debug, Clone, Copy, PartialEq, Eq, Structural)]
pub enum TradeDecision {
    /// Hold or undefined: nothing to do.
    NoAction,
    Rejected(GateRejection),
    SizingFailed(SizingError),
    /// Place this order; the sizing it rests on comes along.
    Approved(CreateTradeParams, TradeParams),
}

/// At least `gap_seconds` have passed since the last approval (or there was none).
pub open spec fn gap_elapsed(last: Option<i64>, now: int, gap_seconds: int) -> bool {
    match last {
        None => true,
        Some(t) => now - t >= gap_seconds * 1000,
    }
}

/// The guard lets a signal through to sizing: it is directional, fewer than
/// `max_trades` positions are open, and the trade gap has elapsed.
pub open spec fn gate_admits(st: GateState, signal: Signal, open_trades: int, max_trades: int, now: int, gap_seconds: int) -> bool {
    &&& is_directional(signal)
    &&& open_trades < max_trades
    &&& gap_elapsed(st.last_trade_time_ms, now, gap_seconds)
}

/// Side of a directional signal.
pub open spec fn side_of(signal: Signal) -> Side {
    if signal == Signal::Buy || signal == Signal::StrongBuy { Side::Long } else { Side::Short }
}

/// A fixed-point price in whole units, floored; negative prices become zero.
pub open spec fn whole_units(v: int) -> int {
    if v <= 0 { 0 } else { v / (SCALE as int) }
}

/// Quantity the sizing gives for a signal's entry.
pub open spec fn planned_quantity(inputs: TradeInputs, m: FuturesMarket, c: RiskConfig, entry: int, atr: int) -> int {
    trade_quantity(inputs.balance_sats as int, entry, c.risk_per_trade_percent as int,
        m.limits.count.max as int, c.leverage as int, atr, m.limits.quantity.min as int, m.limits.quantity.max as int)
}

fn whole(v: i64) -> (r: u64)
    ensures
        r == whole_units(v as int),
{
    if v <= 0 { 0 } else { (v / SCALE) as u64 }
}

/// Screens a signal and, when it passes, sizes the order: the guard checks
/// (directional signal, open-position cap, trade gap) come first, then the
/// sizing, then the balance check against the margin. Only an approval
/// records its time in the guard.
pub fn create_trade_from_signal(
    gate: &mut GateState,
    signal: Signal,
    inputs: &TradeInputs,
    market_data: &FuturesMarket,
    config: &RiskConfig,
) -> (r: TradeDecision)
    requires
        inputs.wf(),
        config.wf(),
        valid_market(*market_data),
    ensures
        !is_directional(signal) ==> r == TradeDecision::NoAction,
        is_directional(signal) && inputs.open_trades >= market_data.limits.count.max ==>
            r == TradeDecision::Rejected(GateRejection::TradeLimitReached),
        is_directional(signal) && inputs.open_trades < market_data.limits.count.max
            && !gap_elapsed(old(gate).last_trade_time_ms, inputs.now_ms as int, config.trade_gap_seconds as int) ==>
            r == TradeDecision::Rejected(GateRejection::TradeGapNotElapsed),
        gate_admits(*old(gate), signal, inputs.open_trades as int, market_data.limits.count.max as int,
            inputs.now_ms as int, config.trade_gap_seconds as int) ==> ({
            let side = side_of(signal);
            let entry = if side == Side::Long { inputs.ask_price as int } else { inputs.bid_price as int };
            let tiers = market_data.fees.trading.tiers@;
            match inputs.atr {
                Some(a) if a > 0 => if entry <= 0 {
                    r == TradeDecision::SizingFailed(SizingError::InvalidPrice)
                } else {
                    let q = planned_quantity(*inputs, *market_data, *config, entry, a as int);
                    let m = margin_of(q, entry, config.leverage as int);
                    let (tp, sl) = stop_target(entry, a as int, config.leverage as int, side == Side::Long,
                        config.risk_to_reward_ratio as int, config.risk_to_loss_ratio as int);
                    match fee_tier(tiers, m, tiers.len()) {
                        None => r == TradeDecision::SizingFailed(SizingError::NoMatchingFeeTier),
                        Some(t) => match liquidation_of(side, q, entry, m) {
                            None => r == TradeDecision::SizingFailed(SizingError::NoLiquidationPrice),
                            Some(l) => if inputs.balance_sats as int <= m {
                                r == TradeDecision::Rejected(GateRejection::InsufficientBalance)
                            } else {
                                r matches TradeDecision::Approved(o, p) && p.margin_sats == m
                                    && p.trade_quantity == q
                                    && p.liquidation_price == l
                                    && p.maintenance_margin == maintenance_of(q, entry, l, tiers[t].fees as int)
                                    && o == (CreateTradeParams {
                                        kind: OrderKind::Market,
                                        side: side,
                                        margin: None,
                                        leverage: config.leverage,
                                        price: None,
                                        quantity: Some(q as u64),
                                        takeprofit: Some(whole_units(tp) as u64),
                                        stoploss: Some(whole_units(sl) as u64),
                                    })
                            },
                        },
                    }
                },
                _ => r == TradeDecision::SizingFailed(SizingError::AtrRequired),
            }
        }),
        r matches TradeDecision::Approved(_, p) ==> inputs.balance_sats > p.margin_sats,
        r is Approved ==> gate_admits(*old(gate), signal, inputs.open_trades as int,
            market_data.limits.count.max as int, inputs.now_ms as int, config.trade_gap_seconds as int),
        r is Approved ==> final(gate).last_trade_time_ms == Some(inputs.now_ms),
        !(r is Approved) ==> *final(gate) == *old(gate),
{
    if !signal.is_directional() {
        return TradeDecision::NoAction;
    }
    if inputs.open_trades >= market_data.limits.count.max {
        return TradeDecision::Rejected(GateRejection::TradeLimitReached);
    }
    if let Some(t) = gate.last_trade_time_ms {
        if (inputs.now_ms as i128) - (t as i128) < (config.trade_gap_seconds as i128) * 1000 {
            return TradeDecision::Rejected(GateRejection::TradeGapNotElapsed);
        }
    }
    let (side, entry) = match signal {
        Signal::Buy | Signal::StrongBuy => (Side::Long, inputs.ask_price),
        _ => (Side::Short, inputs.bid_price),
    };
    let quantity = match calculate_trade_quantity(
        inputs.balance_sats,
        entry,
        config.risk_per_trade_percent,
        market_data.limits.count.max,
        config.leverage,
        inputs.atr,
        market_data,
    ) {
        Ok(q) => q,
        Err(e) => return TradeDecision::SizingFailed(e),
    };
    let a = match inputs.atr {
        Some(a) => a,
        None => return TradeDecision::SizingFailed(SizingError::AtrRequired),
    };
    let (takeprofit, stoploss) = match calculate_stoploss_takeprofit(
        entry,
        a,
        config.leverage,
        side == Side::Long,
        config.risk_to_reward_ratio,
        config.risk_to_loss_ratio,
    ) {
        Ok(v) => v,
        Err(e) => return TradeDecision::SizingFailed(e),
    };
    let params = match calculate_trade_params(side, entry, config.leverage, quantity, market_data) {
        Ok(p) => p,
        Err(e) => return TradeDecision::SizingFailed(e),
    };
    if inputs.balance_sats as u128 <= params.margin_sats {
        return TradeDecision::Rejected(GateRejection::InsufficientBalance);
    }
    gate.last_trade_time_ms = Some(inputs.now_ms);
    let order = CreateTradeParams::market(side, config.leverage, Some(quantity), Some(whole(takeprofit)), Some(whole(stoploss)));
    TradeDecision::Approved(order, params)
}

/// The guard never approves two trades closer than the trade gap, nor a trade
/// while the open positions reach the cap: after an approval at `t1` (which
/// records `t1`), a later approval at `t2` has `t2 - t1 >= gap` and fewer open
/// positions than the cap.
pub proof fn lemma_gate_spacing(t1: i64, t2: i64, signal: Signal, open_trades: int, max_trades: int, gap_seconds: int)
    requires
        gate_admits(GateState { last_trade_time_ms: Some(t1) }, signal, open_trades, max_trades, t2 as int, gap_seconds),
    ensures
        t2 - t1 >= gap_seconds * 1000,
        open_trades < max_trades,
{
}

} // verus!
