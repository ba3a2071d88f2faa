//! Clock readings, day offsets, bar-range intervals, refresh alignment and
//! timestamp formatting.
use vstd::prelude::*;
use vstd::arithmetic::div_mod::lemma_fundamental_div_mod;

verus! {

/// Milliseconds in one day.
pub const DAY_MS: i64 = 86_400_000;

/// Largest day offset whose milliseconds fit an `i64`.
pub const MAX_DAYS: i64 = 106_751_991_167;

/// Largest minute offset whose milliseconds fit an `i64`.
pub const MAX_MINUTES: i64 = 153_722_867_280_912;

/// Relies on std's `SystemTime::elapsed` of `UNIX_EPOCH` (`Err` when the
/// clock reads before the epoch), read out with `Duration::as_millis`:
/// milliseconds since the Unix epoch, `None` for a clock before the epoch.
#[verifier::external_body]
fn unix_time_ms() -> (r: Option<u128>)
{
    match std::time::UNIX_EPOCH.elapsed() {
        Ok(d) => Some(d.as_millis()),
        Err(_) => None,
    }
}

/// Text of the UTC instant `secs` seconds plus `nanos` nanoseconds after the
/// epoch in the form `dd.mm.YYYY - HH:MM:SS`, absent when out of range.
pub uninterp spec fn utc_date_text(secs: int, nanos: int) -> Option<Seq<char>>;

/// Relies on chrono's `TimeZone::timestamp_opt` for `Utc` (a single instant,
/// or none when out of range) and on `DateTime::format` with
/// `%d.%m.%Y - %H:%M:%S`: the text depends on the instant alone.
#[verifier::external_body]
fn utc_text(secs: i64, nanos: u32) -> (r: Option<String>)
    ensures
        match r {
            Some(s) => utc_date_text(secs as int, nanos as int) == Some(s@),
            None => utc_date_text(secs as int, nanos as int) is None,
        },
{
    match chrono::TimeZone::timestamp_opt(&chrono::Utc, secs, nanos).single() {
        Some(d) => Some(d.format("%d.%m.%Y - %H:%M:%S").to_string()),
        None => None,
    }
}

/// Current time in milliseconds since the Unix epoch. A clock that reads
/// before the epoch gives `0`; one beyond the `i64` range gives `i64::MAX`.
pub fn get_current_time_ms() -> (r: i64)
    ensures
        r >= 0,
{
    match unix_time_ms() {
        None => 0,
        Some(ms) => {
            if ms > i64::MAX as u128 {
                i64::MAX
            } else {
                ms as i64
            }
        },
    }
}

/// The time `days` days before `now` (both in milliseconds).
pub fn ms_n_days_before(now: i64, days: i64) -> (r: i64)
    requires
        now >= 0,
        0 <= days <= MAX_DAYS,
    ensures
        r == now - days * DAY_MS,
{
    now - days * DAY_MS
}

/// The time `days` days ago, in milliseconds since the Unix epoch.
pub fn get_time_n_days_ago_ms(days: i64) -> (r: i64)
    requires
        0 <= days <= MAX_DAYS,
    ensures
        r + days * DAY_MS >= 0,
{
    let now = get_current_time_ms();
    ms_n_days_before(now, days)
}

/// The time `minutes` minutes before `now` (both in milliseconds).
pub fn ms_n_minutes_before(now: i64, minutes: i64) -> (r: i64)
    requires
        now >= 0,
        0 <= minutes <= MAX_MINUTES,
    ensures
        r == now - minutes * 60_000,
{
    now - minutes * 60_000
}

/// The time `minutes` minutes ago, in milliseconds since the Unix epoch.
pub fn get_time_n_minutes_ago_ms(minutes: i64) -> (r: i64)
    requires
        0 <= minutes <= MAX_MINUTES,
    ensures
        r + minutes * 60_000 >= 0,
{
    let now = get_current_time_ms();
    ms_n_minutes_before(now, minutes)
}

/// Text of a millisecond timestamp, or "Invalid timestamp".
pub open spec fn timestamp_text(timestamp: int) -> Seq<char> {
    if timestamp < 0 {
        "Invalid timestamp"@
    } else {
        match utc_date_text(timestamp / 1000, (timestamp % 1000) * 1_000_000) {
            Some(t) => t,
            None => "Invalid timestamp"@,
        }
    }
}

/// Formats a millisecond timestamp as `dd.mm.YYYY - HH:MM:SS` in UTC; times
/// before the epoch and out-of-range times read "Invalid timestamp".
pub fn format_timestamp(timestamp: i64) -> (r: String)
    ensures
        r@ == timestamp_text(timestamp as int),
{
    if timestamp < 0 {
        return String::from_str("Invalid timestamp");
    }
    let secs = timestamp / 1000;
    let nanos = ((timestamp % 1000) * 1_000_000) as u32;
    match utc_text(secs, nanos) {
        Some(s) => s,
        None => String::from_str("Invalid timestamp"),
    }
}

/// Whether two strings hold the same characters.
pub fn str_eq(a: &str, b: &str) -> (r: bool)
    ensures
        r == (a@ == b@),
{
    let n = a.unicode_len();
    if n != b.unicode_len() {
        return false;
    }
    let mut i: usize = 0;
    while i < n
        invariant
            n == a@.len() == b@.len(),
            i <= n,
            a@.subrange(0, i as int) == b@.subrange(0, i as int),
        decreases n - i,
    {
        if a.get_char(i) != b.get_char(i) {
            assert(a@[i as int] != b@[i as int]);
            return false;
        }
        assert(a@.subrange(0, i + 1) =~= a@.subrange(0, i as int).push(a@[i as int]));
        assert(b@.subrange(0, i + 1) =~= b@.subrange(0, i as int).push(b@[i as int]));
        i = i + 1;
    }
    assert(a@ =~= a@.subrange(0, n as int));
    assert(b@ =~= b@.subrange(0, n as int));
    true
}

/// Refresh interval in seconds of a bar range code; unknown codes fall back
/// to one minute.
pub open spec fn range_interval(range: Seq<char>) -> u64 {
    if range == "1"@ {
        60
    } else if range == "3"@ {
        180
    } else if range == "5"@ {
        300
    } else if range == "10"@ {
        600
    } else if range == "15"@ {
        900
    } else if range == "30"@ {
        1800
    } else if range == "45"@ {
        2700
    } else if range == "60"@ {
        3600
    } else if range == "120"@ {
        7200
    } else if range == "180"@ {
        10800
    } else if range == "240"@ {
        14400
    } else if range == "1D"@ {
        86400
    } else if range == "1W"@ {
        604800
    } else if range == "1M"@ {
        2592000
    } else if range == "3M"@ {
        7776000
    } else {
        60
    }
}

/// Refresh interval in seconds of a bar range code.
pub fn get_interval_from_range(range: &str) -> (r: u64)
    ensures
        r == range_interval(range@),
{
    if str_eq(range, "1") {
        60
    } else if str_eq(range, "3") {
        180
    } else if str_eq(range, "5") {
        300
    } else if str_eq(range, "10") {
        600
    } else if str_eq(range, "15") {
        900
    } else if str_eq(range, "30") {
        1800
    } else if str_eq(range, "45") {
        2700
    } else if str_eq(range, "60") {
        3600
    } else if str_eq(range, "120") {
        7200
    } else if str_eq(range, "180") {
        10800
    } else if str_eq(range, "240") {
        14400
    } else if str_eq(range, "1D") {
        86400
    } else if str_eq(range, "1W") {
        604800
    } else if str_eq(range, "1M") {
        2592000
    } else if str_eq(range, "3M") {
        7776000
    } else {
        60
    }
}

/// Seconds to wait from `now_secs` until one second past the next multiple
/// of the refresh interval.
pub fn calculate_initial_delay(now_secs: u64, interval_secs: u64) -> (r: u64)
    requires
        interval_secs >= 1,
        interval_secs < u64::MAX,
    ensures
        r == (now_secs / interval_secs + 1) * interval_secs - now_secs + 1,
        1 < r <= interval_secs + 1,
{
    proof {
        let q = now_secs / interval_secs;
        let m = now_secs % interval_secs;
        lemma_fundamental_div_mod(now_secs as int, interval_secs as int);
        assert((q + 1) * interval_secs == q * interval_secs + interval_secs) by (nonlinear_arith);
        assert(q * interval_secs == interval_secs * q) by (nonlinear_arith);
        assert(0 <= m < interval_secs);
    }
    interval_secs - now_secs % interval_secs + 1
}

} // verus!
