//! Plain data exchanged with the exchange: bars, history points, ticks,
//! market limits and fee tiers, and order parameters. All prices and fee
//! rates are fixed point (see `fixed`).
use vstd::prelude::*;
use crate::fixed::valid_value;
use crate::timestamps::{get_current_time_ms, ms_n_days_before, DAY_MS};

verus! {

/// One bar of the primary series.
#[derive(Debug, Clone, Copy, PartialEq, Eq, Structural)]
pub struct OhlcHistoryEntry {
    pub time: i64,
    pub open: i64,
    pub high: i64,
    pub low: i64,
    pub close: i64,
    pub volume: i64,
}

impl OhlcHistoryEntry {
    /// The prices of the bar are valid series values.
    pub open spec fn wf(&self) -> bool {
        valid_value(self.high) && valid_value(self.low) && valid_value(self.close)
    }
}

/// Every bar is well formed.
pub open spec fn valid_bars(bars: Seq<OhlcHistoryEntry>) -> bool {
    forall|i: int| 0 <= i < bars.len() ==> #[trigger] bars[i].wf()
}

/// One point of the auxiliary price series.
#[derive(Debug, Clone, Copy, PartialEq, Eq, Structural)]
pub struct PriceHistoryEntry {
    pub time: i64,
    pub value: i64,
}

/// One point of the auxiliary index series.
#[derive(Debug, Clone, Copy, PartialEq, Eq, Structural)]
pub struct IndexHistoryEntry {
    pub time: i64,
    pub value: i64,
}

/// A live tick.
#[derive(Debug, Clone)]
pub struct PriceData {
    pub last_price: i64,
    pub last_tick_direction: String,
    pub time: i64,
}

/// Lower and upper bound of a quantity.
#[derive(Debug, Clone, Copy, PartialEq, Eq, Structural)]
pub struct MinMax {
    pub min: u64,
    pub max: u64,
    pub trade: Option<u64>,
}

/// Largest number of positions open at once.
#[derive(Debug, Clone, Copy, PartialEq, Eq, Structural)]
pub struct CountLimit {
    pub max: u64,
}

/// Quantity, leverage and open-position limits of the market.
#[derive(Debug, Clone, Copy, PartialEq, Eq, Structural)]
pub struct Limits {
    pub quantity: MinMax,
    pub leverage: MinMax,
    pub count: CountLimit,
}

/// A trading fee tier: `fees` (fixed point rate) applies from `min_volume`
/// (in base units) on.
#[derive(Debug, Clone, Copy, PartialEq, Eq, Structural)]
pub struct Tier {
    pub min_volume: u64,
    pub fees: i64,
}

/// Trading fee tiers; the applicable tier is the one with the highest
/// minimum volume, whatever the list order.
#[derive(Debug, Clone)]
pub struct TradingFees {
    pub tiers: Vec<Tier>,
}

/// Carry fee settings.
#[derive(Debug, Clone)]
pub struct CarryFee {
    pub min: i64,
    pub hours: Vec<u8>,
}

/// Fees of the market.
#[derive(Debug, Clone)]
pub struct Fees {
    pub carry: CarryFee,
    pub trading: TradingFees,
}

/// Market description: limits and fees.
#[derive(Debug, Clone)]
pub struct FuturesMarket {
    pub active: bool,
    pub limits: Limits,
    pub fees: Fees,
}

/// Side of an order.
#[derive(Debug, Clone, Copy, PartialEq, Eq, Structural)]
pub enum Side {
    Long,
    Short,
}

/// Kind of an order.
#[derive(Debug, Clone, Copy, PartialEq, Eq, Structural)]
pub enum OrderKind {
    Market,
    Limit,
}

/// Parameters of an order placement.
#[derive(Debug, Clone, Copy, PartialEq, Eq, Structural)]
pub struct CreateTradeParams {
    pub kind: OrderKind,
    pub side: Side,
    pub margin: Option<u64>,
    pub leverage: u64,
    pub price: Option<u64>,
    pub quantity: Option<u64>,
    pub takeprofit: Option<u64>,
    pub stoploss: Option<u64>,
}

impl CreateTradeParams {
    /// A market order sized by quantity.
    pub fn market(side: Side, leverage: u64, quantity: Option<u64>, takeprofit: Option<u64>, stoploss: Option<u64>) -> (r: CreateTradeParams)
        ensures
            r == (CreateTradeParams {
                kind: OrderKind::Market,
                side: side,
                margin: None,
                leverage: leverage,
                price: None,
                quantity: quantity,
                takeprofit: takeprofit,
                stoploss: stoploss,
            }),
    {
        CreateTradeParams { kind: OrderKind::Market, side, margin: None, leverage, price: None, quantity, takeprofit, stoploss }
    }

    /// A limit order at `price`, sized by quantity.
    pub fn limit(side: Side, leverage: u64, price: u64, quantity: Option<u64>, takeprofit: Option<u64>, stoploss: Option<u64>) -> (r: CreateTradeParams)
        ensures
            r == (CreateTradeParams {
                kind: OrderKind::Limit,
                side: side,
                margin: None,
                leverage: leverage,
                price: Some(price),
                quantity: quantity,
                takeprofit: takeprofit,
                stoploss: stoploss,
            }),
    {
        CreateTradeParams { kind: OrderKind::Limit, side, margin: None, leverage, price: Some(price), quantity, takeprofit, stoploss }
    }
}

/// Query of the bar history.
#[derive(Debug, Clone)]
pub struct GetOhlcsParams {
    pub range: String,
    pub from: i64,
    pub to: i64,
    pub limit: Option<u32>,
    pub debug: bool,
}

impl Default for GetOhlcsParams {
    /// Daily bars of the last seven days, at most one hundred, with progress output.
    fn default() -> (r: GetOhlcsParams)
        ensures
            r.range@ == "1D"@,
            r.to >= 0,
            r.from == r.to - 7 * DAY_MS,
            r.limit == Some(100u32),
            r.debug,
    {
        let now = get_current_time_ms();
        GetOhlcsParams {
            range: String::from_str("1D"),
            from: ms_n_days_before(now, 7),
            to: now,
            limit: Some(100),
            debug: true,
        }
    }
}

/// Query of the trade list.
#[derive(Debug, Clone)]
pub struct GetTradesParams {
    pub kind: String,
    pub from: Option<u64>,
    pub to: Option<u64>,
    pub limit: Option<u32>,
}

impl Default for GetTradesParams {
    /// Open trades, without bounds or limit.
    fn default() -> (r: GetTradesParams)
        ensures
            r.kind@ == "open"@,
            r.from is None,
            r.to is None,
            r.limit is None,
    {
        GetTradesParams { kind: String::from_str("open"), from: None, to: None, limit: None }
    }
}

/// Identifies the trade to close.
#[derive(Debug, Clone)]
pub struct CloseTradeParams {
    pub id: String,
}

} // verus!
