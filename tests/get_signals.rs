use trading_backend::fixed::SCALE;
use trading_backend::indicators::Indicators;
use trading_backend::market::PriceData;
use trading_backend::merger::SignalData;
use trading_backend::signals::{calculate_ohlc_with_price_signal, load_signal_settings, Signal};

fn fx(v: f64) -> i64 {
    (v * SCALE as f64).round() as i64
}

fn create_mock_price_data(last_price: f64) -> PriceData {
    PriceData {
        last_price: fx(last_price),
        last_tick_direction: "UP".to_string(),
        time: 1_734_541_932,
    }
}

fn create_mock_indicators(
    ohlc_bollinger_bands: Option<(f64, f64, f64)>,
    ohlc_rsi: Option<f64>,
    ohlc_ma: Option<f64>,
    ohlc_ema: Option<f64>,
    atr: Option<f64>,
) -> Indicators {
    let mut ind = Indicators::empty();
    ind.ohlc_bollinger_bands = ohlc_bollinger_bands.map(|(l, m, u)| (fx(l), fx(m), fx(u)));
    ind.ohlc_rsi = ohlc_rsi.map(fx);
    ind.ohlc_ma = ohlc_ma.map(fx);
    ind.ohlc_ema = ohlc_ema.map(fx);
    ind.atr = atr.map(fx);
    ind
}

fn signal_of(price_data: &PriceData, indicators: &Indicators) -> Signal {
    calculate_ohlc_with_price_signal(price_data, indicators, &load_signal_settings())
}

#[test]
fn test_strong_buy() {
    let price_data = create_mock_price_data(95_000.0);
    let indicators = create_mock_indicators(
        Some((97_000.0, 98_000.0, 99_000.0)),
        Some(10.0),
        Some(98_500.0),
        Some(98_800.0),
        Some(30.0),
    );
    let signal = signal_of(&price_data, &indicators);
    assert_eq!(signal.value(), 2);
    assert_eq!(signal, Signal::StrongBuy);
}

#[test]
fn test_strong_sell() {
    let price_data = create_mock_price_data(105_000.0);
    let indicators = create_mock_indicators(
        Some((97_000.0, 98_000.0, 99_000.0)),
        Some(90.0),
        Some(98_500.0),
        Some(98_800.0),
        Some(30.0),
    );
    let signal = signal_of(&price_data, &indicators);
    assert_eq!(signal.value(), -2);
    assert_eq!(signal, Signal::StrongSell);
}

#[test]
fn test_buy() {
    let price_data = create_mock_price_data(97_500.0);
    let indicators = create_mock_indicators(
        Some((97_000.0, 98_000.0, 99_000.0)),
        Some(40.0),
        Some(98_000.0),
        Some(98_500.0),
        Some(15.0),
    );
    let signal = signal_of(&price_data, &indicators);
    assert_eq!(signal.value(), 1);
}

#[test]
fn test_sell() {
    let price_data = create_mock_price_data(99_500.0);
    let indicators = create_mock_indicators(
        Some((97_000.0, 98_000.0, 99_000.0)),
        Some(60.0),
        Some(98_000.0),
        Some(98_000.0),
        Some(20.0),
    );
    let signal = signal_of(&price_data, &indicators);
    assert_eq!(signal.value(), -1);
}

#[test]
fn test_hold() {
    let price_data = create_mock_price_data(98_000.0);
    let indicators = create_mock_indicators(
        Some((97_000.0, 98_000.0, 99_000.0)),
        Some(50.0),
        Some(98_000.0),
        Some(98_000.0),
        Some(10.0),
    );
    let signal = signal_of(&price_data, &indicators);
    assert_eq!(signal.value(), 0);
    assert_eq!(signal, Signal::Hold);
}

#[test]
fn test_invalid_data() {
    let price_data = create_mock_price_data(-1.0);
    let indicators = create_mock_indicators(
        Some((-1.0, -1.0, -1.0)),
        Some(-1.0),
        Some(-1.0),
        Some(-1.0),
        Some(-1.0),
    );
    let signal = signal_of(&price_data, &indicators);
    assert_eq!(signal.value(), 0);
    assert_eq!(signal, Signal::Undefined);
    assert!(!signal.is_directional());
}

#[test]
fn test_empty_data() {
    let price_data = create_mock_price_data(98_000.0);
    let indicators = create_mock_indicators(None, None, None, None, None);
    let signal = signal_of(&price_data, &indicators);
    assert_eq!(signal.value(), 0);
    assert_eq!(signal, Signal::Hold);
}

#[test]
fn one_invalid_indicator_makes_undefined() {
    let price_data = create_mock_price_data(98_000.0);
    let indicators = create_mock_indicators(None, Some(101.0), None, None, None);
    assert_eq!(signal_of(&price_data, &indicators), Signal::Undefined);
}

#[test]
fn absent_and_neutral_indicators_agree() {
    let price_data = create_mock_price_data(95_000.0);
    let base = create_mock_indicators(Some((97_000.0, 98_000.0, 99_000.0)), None, Some(98_500.0), Some(98_800.0), None);
    let mut neutral = base;
    neutral.ohlc_rsi = Some(fx(50.0));
    neutral.atr = Some(0);
    assert_eq!(signal_of(&price_data, &base), signal_of(&price_data, &neutral));
    assert_eq!(signal_of(&price_data, &base), signal_of(&price_data, &base));
}

#[test]
fn score_thresholds() {
    let price_data = create_mock_price_data(100_000.0);
    // RSI alone: 2 * 0.30 = 0.6 is a buy, 1 * 0.30 = 0.3 is a buy, nothing is a hold.
    let strong = create_mock_indicators(None, Some(10.0), None, None, None);
    assert_eq!(signal_of(&price_data, &strong), Signal::Buy);
    let plain = create_mock_indicators(None, Some(25.0), None, None, None);
    assert_eq!(signal_of(&price_data, &plain), Signal::Buy);
    let sell = create_mock_indicators(None, Some(75.0), None, None, None);
    assert_eq!(signal_of(&price_data, &sell), Signal::Sell);
}

#[test]
fn atr_thresholds() {
    // price 1000: hv = 5, buy threshold 7.5, sell threshold 8.75.
    let price_data = create_mock_price_data(1_000.0);
    let high = create_mock_indicators(None, None, None, None, Some(6.0));
    // atr > hv and price > atr: -0.25 is a sell.
    assert_eq!(signal_of(&price_data, &high), Signal::Sell);
    let low = create_mock_indicators(None, None, None, None, Some(5.0));
    assert_eq!(signal_of(&price_data, &low), Signal::Hold);
}

#[test]
fn merge_latest_emits_after_both_slots() {
    let settings = load_signal_settings();
    let mut ctx = SignalData::new();
    let first = ctx.merge(SignalData::tick(create_mock_price_data(95_000.0)), &settings);
    assert_eq!(first, None);
    let indicators = create_mock_indicators(
        Some((97_000.0, 98_000.0, 99_000.0)),
        Some(10.0),
        Some(98_500.0),
        Some(98_800.0),
        Some(30.0),
    );
    let second = ctx.merge(SignalData::snapshot(indicators), &settings);
    assert_eq!(second, Some(Signal::StrongBuy));
    let third = ctx.merge(SignalData::tick(create_mock_price_data(105_000.0)), &settings);
    assert_eq!(third, Some(Signal::Sell));
    assert_eq!(ctx.price_data.as_ref().map(|p| p.last_price), Some(fx(105_000.0)));
}

#[test]
fn signal_labels() {
    assert_eq!(Signal::StrongSell.to_string(), "Signal: Strong Sell \u{1F6AB}");
    assert_eq!(Signal::Buy.to_string(), "Signal: Buy \u{2705}");
    assert_eq!(Signal::Undefined.to_string(), "Signal: Undefined");
}

#[test]
fn default_weights_sum_to_one() {
    assert!(load_signal_settings().weights_sum_to_one());
}
