use trading_backend::fixed::SCALE;
use trading_backend::series::{
    calculate_atr, calculate_bollinger_bands, calculate_exponential_moving_average,
    calculate_moving_average, calculate_rsi,
};

fn fx(v: f64) -> i64 {
    (v * SCALE as f64).round() as i64
}

fn fxs(vs: &[f64]) -> Vec<i64> {
    vs.iter().map(|v| fx(*v)).collect()
}

fn as_units(v: i64) -> f64 {
    v as f64 / SCALE as f64
}

#[test]
fn test_moving_average() {
    let prices = fxs(&[1.0, 2.0, 3.0, 4.0, 5.0]);
    let period = 3;
    let result = calculate_moving_average(&prices, period);
    let expected = (3.0 + 4.0 + 5.0) / 3.0;
    assert_eq!(result, Some(fx(expected)));
}

#[test]
fn test_moving_average_short_data() {
    let prices = fxs(&[1.0, 2.0]);
    let period = 3;
    let result = calculate_moving_average(&prices, period);
    assert_eq!(result, None);
}

#[test]
fn test_ema() {
    let prices = fxs(&[1.0, 2.0, 3.0, 4.0, 5.0]);
    let period = 3;
    let result = calculate_exponential_moving_average(&prices, period);
    let expected_ema = 4.0;
    assert_eq!(result, Some(fx(expected_ema)));
}

#[test]
fn test_bollinger_bands() {
    let prices = fxs(&[1.0, 2.0, 3.0, 4.0, 5.0]);
    let period = 3;
    let std_dev_multiplier = fx(2.0);
    let result = calculate_bollinger_bands(&prices, period, std_dev_multiplier);

    let expected_middle_band = (3.0 + 4.0 + 5.0) / 3.0;
    let expected_std_dev = ((3.0_f64 - expected_middle_band).powi(2)
        + (4.0_f64 - expected_middle_band).powi(2)
        + (5.0_f64 - expected_middle_band).powi(2))
        / 3.0_f64;
    let expected_std_dev = expected_std_dev.sqrt();
    let expected_upper_band = expected_middle_band + 2.0 * expected_std_dev;
    let expected_lower_band = expected_middle_band - 2.0 * expected_std_dev;

    assert!(result.is_some());
    let (lower, middle, upper) = result.unwrap();
    assert!((as_units(middle) - expected_middle_band).abs() < 1e-4);
    assert!((as_units(upper) - expected_upper_band).abs() < 1e-4);
    assert!((as_units(lower) - expected_lower_band).abs() < 1e-4);
}

#[test]
fn test_rsi() {
    let prices = fxs(&[44.0, 44.1, 44.2, 44.3, 44.0, 43.8, 44.0]);
    let period = 3;
    let result = calculate_rsi(&prices, period);
    let expected_rsi = 52.0;
    assert!(result.is_some());
    assert!((as_units(result.unwrap()) - expected_rsi).abs() < 1e-4);
}

#[test]
fn test_atr() {
    let highs = fxs(&[1.0, 2.0, 3.0, 4.0, 5.0]);
    let lows = fxs(&[0.5, 1.5, 2.5, 3.5, 4.5]);
    let closes = fxs(&[0.75, 1.75, 2.75, 3.75, 4.75]);
    let period = 3;
    let result = calculate_atr(&highs, &lows, &closes, period);
    let expected_atr = 1.25;
    assert!(result.is_some());
    assert!((as_units(result.unwrap()) - expected_atr).abs() < 1e-4);
}

#[test]
fn short_series_give_nothing() {
    let prices = fxs(&[1.0, 2.0, 3.0]);
    assert_eq!(calculate_moving_average(&prices, 4), None);
    assert_eq!(calculate_exponential_moving_average(&prices, 4), None);
    assert_eq!(calculate_bollinger_bands(&prices, 4, fx(2.0)), None);
    assert_eq!(calculate_rsi(&prices, 4), None);
    assert_eq!(calculate_atr(&prices, &prices, &prices, 3), None);
    assert_eq!(calculate_moving_average(&[], 1), None);
    assert_eq!(calculate_rsi(&[], 1), None);
    assert_eq!(calculate_moving_average(&prices, 0), None);
}

#[test]
fn bands_are_ordered() {
    let prices = fxs(&[10.0, 12.5, 9.0, 14.0, 11.0, 13.0]);
    let (lower, middle, upper) = calculate_bollinger_bands(&prices, 4, fx(1.5)).unwrap();
    assert!(lower <= middle && middle <= upper);
    let (lower, middle, upper) = calculate_bollinger_bands(&prices, 4, 0).unwrap();
    assert_eq!((lower, middle, upper), (middle, middle, middle));
}

#[test]
fn rsi_stays_in_range() {
    let rising = fxs(&[1.0, 2.0, 3.0, 4.0, 5.0]);
    assert_eq!(calculate_rsi(&rising, 2), Some(100 * SCALE));
    let falling = fxs(&[5.0, 4.0, 3.0, 2.0, 1.0]);
    assert_eq!(calculate_rsi(&falling, 2), Some(0));
    let mixed = fxs(&[3.0, 1.0, 4.0, 1.0, 5.0, 9.0, 2.0, 6.0]);
    let v = calculate_rsi(&mixed, 3).unwrap();
    assert!(0 <= v && v <= 100 * SCALE);
}

#[test]
fn atr_uses_first_window_only() {
    let highs = fxs(&[2.0, 2.0, 2.0, 10.0]);
    let lows = fxs(&[1.0, 1.0, 1.0, 1.0]);
    let closes = fxs(&[1.5, 1.5, 1.5, 1.5]);
    assert_eq!(calculate_atr(&highs, &lows, &closes, 2), Some(fx(1.0)));
}
