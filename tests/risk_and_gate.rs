use trading_backend::fixed::SCALE;
use trading_backend::gate::{
    create_trade_from_signal, GateRejection, GateState, RiskConfig, TradeDecision, TradeInputs,
};
use trading_backend::market::{
    CarryFee, CountLimit, Fees, FuturesMarket, Limits, MinMax, OrderKind, Side, Tier, TradingFees,
};
use trading_backend::risk::{
    calculate_stoploss_takeprofit, calculate_trade_params, calculate_trade_quantity, SizingError,
};
use trading_backend::signals::Signal;

fn fx(v: f64) -> i64 {
    (v * SCALE as f64).round() as i64
}

fn market(min_qty: u64, max_qty: u64, max_trades: u64, tiers: Vec<Tier>) -> FuturesMarket {
    FuturesMarket {
        active: true,
        limits: Limits {
            quantity: MinMax { min: min_qty, max: max_qty, trade: None },
            leverage: MinMax { min: 1, max: 100, trade: None },
            count: CountLimit { max: max_trades },
        },
        fees: Fees {
            carry: CarryFee { min: 0, hours: vec![] },
            trading: TradingFees { tiers },
        },
    }
}

fn tiers() -> Vec<Tier> {
    vec![
        Tier { min_volume: 0, fees: fx(0.001) },
        Tier { min_volume: 1_000_000, fees: fx(0.0008) },
    ]
}

fn config() -> RiskConfig {
    RiskConfig {
        risk_per_trade_percent: fx(0.01),
        risk_to_reward_ratio: fx(0.8),
        risk_to_loss_ratio: fx(0.75),
        trade_gap_seconds: 5,
        leverage: 20,
    }
}

fn inputs(open_trades: u64, balance_sats: u64, atr: Option<i64>, now_ms: i64) -> TradeInputs {
    TradeInputs {
        open_trades,
        balance_sats,
        ask_price: fx(100_000.0),
        bid_price: fx(99_990.0),
        atr,
        now_ms,
    }
}

#[test]
fn quantity_from_balance_risk_leverage_and_atr() {
    let m = market(1, 100_000, 10, tiers());
    let q = calculate_trade_quantity(1_000_000_000, fx(100_000.0), fx(0.01), 10, 20, Some(fx(500.0)), &m);
    assert_eq!(q, Ok(40));
}

#[test]
fn quantity_is_clamped() {
    let m = market(5, 1_000, 10, tiers());
    let small = calculate_trade_quantity(1_000, fx(100_000.0), fx(0.01), 10, 20, Some(fx(500.0)), &m);
    assert_eq!(small, Ok(5));
    let huge = calculate_trade_quantity(u64::MAX, fx(4_000_000.0), SCALE, 1, u64::MAX, Some(1), &m);
    assert_eq!(huge, Ok(1_000));
    let uncapped = calculate_trade_quantity(1_000_000_000, fx(100_000.0), fx(0.01), 0, 20, Some(fx(500.0)), &m);
    assert_eq!(uncapped, Ok(1_000));
}

#[test]
fn quantity_needs_atr() {
    let m = market(1, 100_000, 10, tiers());
    assert_eq!(
        calculate_trade_quantity(1_000_000_000, fx(100_000.0), fx(0.01), 10, 20, None, &m),
        Err(SizingError::AtrRequired)
    );
    assert_eq!(
        calculate_trade_quantity(1_000_000_000, fx(100_000.0), fx(0.01), 10, 20, Some(0), &m),
        Err(SizingError::AtrRequired)
    );
}

#[test]
fn stop_and_target_levels() {
    let long = calculate_stoploss_takeprofit(fx(100_000.0), fx(500.0), 20, true, fx(0.8), fx(0.75));
    assert_eq!(long, Ok((fx(108_000.0), fx(92_500.0))));
    let short = calculate_stoploss_takeprofit(fx(100_000.0), fx(500.0), 20, false, fx(0.8), fx(0.75));
    assert_eq!(short, Ok((fx(92_000.0), fx(107_500.0))));
    let bad = calculate_stoploss_takeprofit(fx(100_000.0), 0, 20, true, fx(0.8), fx(0.75));
    assert_eq!(bad, Err(SizingError::AtrRequired));
}

#[test]
fn margin_liquidation_and_maintenance() {
    let m = market(1, 100_000, 10, tiers());
    let long = calculate_trade_params(Side::Long, fx(100_000.0), 20, 40, &m).unwrap();
    assert_eq!(long.margin_sats, 2000);
    assert_eq!(long.liquidation_price, 95_238_095_238);
    assert_eq!(long.maintenance_margin, 82);
    assert_eq!(long.trade_quantity, 40);
    let short = calculate_trade_params(Side::Short, fx(100_000.0), 20, 40, &m).unwrap();
    assert_eq!(short.margin_sats, 2000);
    assert_eq!(short.liquidation_price, 105_263_157_894);
    assert_eq!(short.maintenance_margin, 78);
}

#[test]
fn missing_fee_tier_fails() {
    let m = market(1, 100_000, 10, vec![Tier { min_volume: 5_000, fees: fx(0.001) }]);
    assert_eq!(calculate_trade_params(Side::Long, fx(100_000.0), 20, 40, &m), Err(SizingError::NoMatchingFeeTier));
}

#[test]
fn unbounded_short_liquidation_fails() {
    let m = market(1, 100_000, 10, tiers());
    assert_eq!(calculate_trade_params(Side::Short, fx(100_000.0), 1, 40, &m), Err(SizingError::NoLiquidationPrice));
}

#[test]
fn gate_approves_and_spaces_trades() {
    let m = market(1, 100_000, 2, tiers());
    let c = config();
    let mut gate = GateState::new();
    let first = create_trade_from_signal(&mut gate, Signal::Buy, &inputs(0, 1_000_000_000, Some(fx(500.0)), 1_000_000), &m, &c);
    match first {
        TradeDecision::Approved(order, params) => {
            assert_eq!(order.kind, OrderKind::Market);
            assert_eq!(order.side, Side::Long);
            assert_eq!(order.leverage, 20);
            assert_eq!(order.quantity, Some(200));
            assert_eq!(order.takeprofit, Some(108_000));
            assert_eq!(order.stoploss, Some(92_500));
            assert_eq!(params.margin_sats, 10_000);
        },
        other => panic!("expected approval, got {:?}", other),
    }
    assert_eq!(gate.last_trade_time_ms, Some(1_000_000));
    let soon = create_trade_from_signal(&mut gate, Signal::Sell, &inputs(1, 1_000_000_000, Some(fx(500.0)), 1_004_999), &m, &c);
    assert_eq!(soon, TradeDecision::Rejected(GateRejection::TradeGapNotElapsed));
    assert_eq!(gate.last_trade_time_ms, Some(1_000_000));
    let later = create_trade_from_signal(&mut gate, Signal::StrongSell, &inputs(1, 1_000_000_000, Some(fx(500.0)), 1_005_000), &m, &c);
    assert!(matches!(later, TradeDecision::Approved(o, _) if o.side == Side::Short));
    assert_eq!(gate.last_trade_time_ms, Some(1_005_000));
}

#[test]
fn gate_rejections() {
    let m = market(1, 100_000, 2, tiers());
    let c = config();
    let mut gate = GateState::new();
    assert_eq!(
        create_trade_from_signal(&mut gate, Signal::Hold, &inputs(0, 1_000_000_000, Some(fx(500.0)), 0), &m, &c),
        TradeDecision::NoAction
    );
    assert_eq!(
        create_trade_from_signal(&mut gate, Signal::Undefined, &inputs(0, 1_000_000_000, Some(fx(500.0)), 0), &m, &c),
        TradeDecision::NoAction
    );
    assert_eq!(
        create_trade_from_signal(&mut gate, Signal::Buy, &inputs(2, 1_000_000_000, Some(fx(500.0)), 0), &m, &c),
        TradeDecision::Rejected(GateRejection::TradeLimitReached)
    );
    assert_eq!(
        create_trade_from_signal(&mut gate, Signal::Buy, &inputs(0, 40, Some(fx(500.0)), 0), &m, &c),
        TradeDecision::Rejected(GateRejection::InsufficientBalance)
    );
    assert_eq!(
        create_trade_from_signal(&mut gate, Signal::Buy, &inputs(0, 1_000_000_000, None, 0), &m, &c),
        TradeDecision::SizingFailed(SizingError::AtrRequired)
    );
    assert_eq!(gate.last_trade_time_ms, None);
}

#[test]
fn refusal_and_failure_texts() {
    assert_eq!(GateRejection::TradeLimitReached.reason(), "Trade limit reached");
    assert_eq!(SizingError::AtrRequired.reason(), "ATR is required for the trade.");
}

#[test]
fn maintenance_floors_the_sum_of_both_fees() {
    // 13 / 97123.456789 * 0.001 and 13 / 72845.349196 * 0.001 whole units are
    // 13.38... and 17.84... base units: 31 together, one more than 13 + 17.
    let m = market(1, 100_000, 10, tiers());
    let p = calculate_trade_params(Side::Long, 97_123_456_789, 3, 13, &m).unwrap();
    assert_eq!(p.margin_sats, 4461);
    assert_eq!(p.liquidation_price, 72_845_349_196);
    assert_eq!(p.maintenance_margin, 31);
}

#[test]
fn highest_applicable_tier_wins_in_any_order() {
    let unsorted = vec![
        Tier { min_volume: 50_000, fees: fx(0.002) },
        Tier { min_volume: 0, fees: fx(0.001) },
    ];
    let m = market(1, 100_000, 10, unsorted);
    let p = calculate_trade_params(Side::Long, fx(100_000.0), 10, 1000, &m).unwrap();
    assert_eq!(p.margin_sats, 100_000);
    assert_eq!(p.maintenance_margin, 4200);
    let sorted = market(1, 100_000, 10, vec![
        Tier { min_volume: 0, fees: fx(0.001) },
        Tier { min_volume: 50_000, fees: fx(0.002) },
    ]);
    assert_eq!(calculate_trade_params(Side::Long, fx(100_000.0), 10, 1000, &sorted).unwrap().maintenance_margin, 4200);
}

#[test]
fn non_positive_prices_fail_sizing() {
    let m = market(1, 100_000, 10, tiers());
    assert_eq!(calculate_trade_params(Side::Long, 0, 20, 40, &m), Err(SizingError::InvalidPrice));
    assert_eq!(calculate_trade_params(Side::Short, -5, 20, 40, &m), Err(SizingError::InvalidPrice));
    assert_eq!(
        calculate_trade_quantity(1_000_000_000, 0, fx(0.01), 10, 20, Some(fx(500.0)), &m),
        Err(SizingError::InvalidPrice)
    );
    let mut gate = GateState::new();
    let mut bad = inputs(0, 1_000_000_000, Some(fx(500.0)), 0);
    bad.ask_price = 0;
    assert_eq!(
        create_trade_from_signal(&mut gate, Signal::Buy, &bad, &m, &config()),
        TradeDecision::SizingFailed(SizingError::InvalidPrice)
    );
    assert_eq!(gate.last_trade_time_ms, None);
    assert_eq!(SizingError::InvalidPrice.reason(), "Entry price must be positive");
}

#[test]
fn risk_fraction_above_one_is_sized_exactly() {
    let m = market(1, 1_000_000_000, 10, tiers());
    // balance 10 BTC at 100000: 1e6 USD; risk 250 % over 10 trades: 250000 USD each;
    // times leverage 20 over ATR 500: 10000.
    let q = calculate_trade_quantity(1_000_000_000, fx(100_000.0), fx(2.5), 10, 20, Some(fx(500.0)), &m);
    assert_eq!(q, Ok(10_000));
    let huge = calculate_trade_quantity(u64::MAX, fx(4_000_000.0), i64::MAX, 1, 1, Some(fx(1.0)), &m);
    assert_eq!(huge, Ok(1_000_000_000));
}

#[test]
fn approval_carries_liquidation_and_maintenance() {
    let m = market(1, 100_000, 2, tiers());
    let mut gate = GateState::new();
    match create_trade_from_signal(&mut gate, Signal::Buy, &inputs(0, 1_000_000_000, Some(fx(500.0)), 0), &m, &config()) {
        TradeDecision::Approved(_, p) => {
            let direct = calculate_trade_params(Side::Long, fx(100_000.0), 20, 200, &m).unwrap();
            assert_eq!(p, direct);
            assert!(p.liquidation_price > 0 && p.maintenance_margin > 0);
        },
        other => panic!("expected approval, got {:?}", other),
    }
}
