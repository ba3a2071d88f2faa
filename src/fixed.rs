//! Fixed-point representation shared by every real-valued quantity of the
//! library: an `i64` value `v` stands for the real number `v / SCALE`.
use vstd::prelude::*;

verus! {

/// Number of fixed-point units in one whole unit (six decimal places).
pub const SCALE: i64 = 1_000_000;

/// Largest price-like value the series math accepts (four million whole units).
pub const MAX_VALUE: i64 = 4_000_000_000_000;

/// Largest window length the series math accepts.
pub const MAX_PERIOD: usize = 1_000_000;

/// Largest Bollinger standard-deviation multiplier (one thousand, in fixed point).
pub const MAX_MULTIPLIER: i64 = 1_000_000_000;

/// A price-like value that the series math can process without overflow.
pub open spec fn valid_value(v: i64) -> bool {
    0 <= v <= MAX_VALUE
}

/// Every element of the series is a valid value.
pub open spec fn valid_series(s: Seq<i64>) -> bool {
    forall|i: int| 0 <= i < s.len() ==> #[trigger] valid_value(s[i])
}

} // verus!
