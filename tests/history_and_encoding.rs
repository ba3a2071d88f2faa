use trading_backend::encoding::{encode_query_params, encode_url_component};
use trading_backend::history::merge_new_bars;
use trading_backend::indicators::{update_price_indicators, IndicatorPeriods, Indicators};
use trading_backend::market::{OhlcHistoryEntry, PriceHistoryEntry};

fn bar(time: i64, close: i64) -> OhlcHistoryEntry {
    OhlcHistoryEntry { time, open: close, high: close + 10, low: close - 10, close, volume: 1 }
}

#[test]
fn new_bars_slide_the_window() {
    let mut window = vec![bar(1, 100), bar(2, 110), bar(3, 120)];
    let fetched = vec![bar(2, 110), bar(3, 120), bar(4, 130), bar(5, 140)];
    assert!(merge_new_bars(&mut window, &fetched));
    assert_eq!(window, vec![bar(3, 120), bar(4, 130), bar(5, 140)]);
}

#[test]
fn stale_bars_leave_the_window() {
    let mut window = vec![bar(1, 100), bar(2, 110)];
    assert!(!merge_new_bars(&mut window, &[bar(1, 100), bar(2, 110)]));
    assert_eq!(window, vec![bar(1, 100), bar(2, 110)]);
}

#[test]
fn many_new_bars_keep_the_newest() {
    let mut window = vec![bar(1, 100)];
    assert!(merge_new_bars(&mut window, &[bar(2, 110), bar(3, 120)]));
    assert_eq!(window, vec![bar(3, 120)]);
}

#[test]
fn url_components_are_percent_encoded() {
    assert_eq!(encode_url_component("abcXYZ019"), "abcXYZ019");
    assert_eq!(encode_url_component("a b&c=d"), "a%20b%26c%3Dd");
    assert_eq!(encode_url_component("-_.~/"), "%2D%5F%2E%7E%2F");
    assert_eq!(encode_url_component("\u{e9}"), "%E9");
    assert_eq!(encode_url_component(""), "");
}

#[test]
fn query_strings_join_pairs() {
    let pairs = vec![
        ("from".to_string(), "1".to_string()),
        ("type".to_string(), "running now".to_string()),
    ];
    assert_eq!(encode_query_params(&pairs), Some("from=1&type=running%20now".to_string()));
    assert_eq!(encode_query_params(&[]), None);
}

fn periods() -> IndicatorPeriods {
    IndicatorPeriods {
        ma_period: 3,
        ema_period: 3,
        bb_period: 3,
        bb_std_dev_multiplier: 2_000_000,
        rsi_period: 3,
        atr_period: 3,
    }
}

#[test]
fn snapshot_is_deterministic() {
    let bars: Vec<OhlcHistoryEntry> = (0..8).map(|i| bar(i, 1_000_000 + 7_000 * (i % 3))).collect();
    let a = update_price_indicators(&bars, &periods(), None, None);
    let b = update_price_indicators(&bars, &periods(), None, None);
    assert_eq!(a, b);
    assert!(a.ohlc_ma.is_some() && a.atr.is_some() && a.ohlc_rsi.is_some());
    assert_eq!(a.ma, None);
    assert_eq!(a.i_rsi, None);
}

#[test]
fn auxiliary_series_do_not_disturb_bars() {
    let bars: Vec<OhlcHistoryEntry> = (0..8).map(|i| bar(i, 1_000_000 + 5_000 * i)).collect();
    let prices: Vec<PriceHistoryEntry> = (0..5).map(|i| PriceHistoryEntry { time: i, value: 2_000_000 + i }).collect();
    let bare = update_price_indicators(&bars, &periods(), None, None);
    let full = update_price_indicators(&bars, &periods(), Some(&prices), None);
    assert_eq!(full.ohlc_ma, bare.ohlc_ma);
    assert_eq!(full.atr, bare.atr);
    assert_eq!(full.ma, Some(2_000_003));
    assert_eq!(full.i_ma, None);
}

#[test]
fn short_bars_leave_indicators_absent() {
    let bars = vec![bar(1, 100), bar(2, 110)];
    assert_eq!(update_price_indicators(&bars, &periods(), None, None), Indicators::empty());
}

use base64::Engine;
use hmac::Mac;
use trading_backend::signing::{compact_body, generate_signature, int_to_text, prehash};

#[test]
fn decimal_text_of_integers() {
    assert_eq!(int_to_text(0), "0");
    assert_eq!(int_to_text(1627632000000), "1627632000000");
    assert_eq!(int_to_text(-42), "-42");
    assert_eq!(int_to_text(i64::MIN), "-9223372036854775808");
}

#[test]
fn signed_text_is_compacted() {
    assert_eq!(compact_body("{\"a\": 1,\n \"b\": 2}"), "{\"a\":1,\"b\":2}");
    assert_eq!(prehash(1627632000000, "GET", "/v2/user", None), "1627632000000GET/v2/user");
    assert_eq!(prehash(5, "POST", "/v2/futures", Some("{\"x\": 1}")), "5POST/v2/futures{\"x\":1}");
}

#[test]
fn signature_is_base64_hmac_of_signed_text() {
    let mut mac = hmac::Hmac::<sha2::Sha256>::new_from_slice(b"secret").unwrap();
    mac.update(b"1627632000000GET/v2/user");
    let expected = base64::engine::general_purpose::STANDARD.encode(mac.finalize().into_bytes());
    assert_eq!(generate_signature("secret", 1627632000000, "get", "/v2/user", None), expected);
    assert_eq!(generate_signature("secret", 1627632000000, "GET", "/v2/user", Some("")), expected);
    assert_ne!(generate_signature("other", 1627632000000, "GET", "/v2/user", None), expected);
}
