use trading_backend::timestamps::{
    calculate_initial_delay, format_timestamp, get_current_time_ms, get_interval_from_range,
    get_time_n_days_ago_ms, ms_n_days_before, ms_n_minutes_before,
};

#[test]
fn test_get_current_time_ms() {
    let current_time = get_current_time_ms();
    assert!(current_time > 0);
}

#[test]
fn test_get_time_n_days_ago_ms() {
    let n = 7;
    let time_n_days_ago = get_time_n_days_ago_ms(n);
    let current_time_ms = get_current_time_ms();

    assert!(time_n_days_ago < current_time_ms);

    let expected_difference = 86400 * 1000 * n;
    let actual_difference = current_time_ms - time_n_days_ago;
    assert!((actual_difference - expected_difference).abs() <= 1000);
}

#[test]
fn test_format_timestamp() {
    let timestamp = 1734541932000;
    let formatted_time = format_timestamp(timestamp);
    assert_eq!(formatted_time, "18.12.2024 - 17:12:12");
}

#[test]
fn format_rejects_negative_timestamps() {
    assert_eq!(format_timestamp(-5), "Invalid timestamp");
    assert_eq!(format_timestamp(0), "01.01.1970 - 00:00:00");
}

#[test]
fn days_before_is_exact() {
    assert_eq!(ms_n_days_before(1_000_000_000_000, 2), 1_000_000_000_000 - 2 * 86_400_000);
    assert_eq!(ms_n_days_before(5, 0), 5);
}

#[test]
fn intervals_of_ranges() {
    assert_eq!(get_interval_from_range("1"), 60);
    assert_eq!(get_interval_from_range("45"), 2700);
    assert_eq!(get_interval_from_range("1D"), 86400);
    assert_eq!(get_interval_from_range("3M"), 7776000);
    assert_eq!(get_interval_from_range("7"), 60);
}

#[test]
fn initial_delay_aligns_to_interval() {
    assert_eq!(calculate_initial_delay(125, 60), 56);
    assert_eq!(calculate_initial_delay(120, 60), 61);
    assert_eq!(calculate_initial_delay(0, 86400), 86401);
}

#[test]
fn minutes_before_is_exact() {
    assert_eq!(ms_n_minutes_before(10_000_000, 60), 10_000_000 - 3_600_000);
    assert_eq!(ms_n_minutes_before(7, 0), 7);
}
