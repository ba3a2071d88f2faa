//! Merge-latest decision context: the latest tick and the latest indicator
//! snapshot are kept in two slots, each written by its own producer; every
//! update re-runs signal fusion once both slots have been filled.
use vstd::prelude::*;
use crate::indicators::Indicators;
use crate::market::PriceData;
use crate::signals::{calculate_ohlc_with_price_signal, fuse, Signal, SignalSettings};

verus! {

/// An update for the decision context, or the context itself: either slot
/// may be empty.
#[derive(Debug, Clone)]
pub struct SignalData {
    pub price_data: Option<PriceData>,
    pub indicators: Option<Indicators>,
}

/// The slot after an update: the new value where one is given, else the old one.
pub open spec fn merged<T>(old_slot: Option<T>, new_slot: Option<T>) -> Option<T> {
    if new_slot is Some {
        new_slot
    } else {
        old_slot
    }
}

/// The signal a context emits: fusion of both slots once both are filled.
pub open spec fn emitted(ctx: SignalData, settings: SignalSettings) -> Option<Signal> {
    match (ctx.price_data, ctx.indicators) {
        (Some(p), Some(i)) => Some(fuse(p.last_price as int, i, settings)),
        _ => None,
    }
}

impl SignalData {
    /// A context with both slots empty.
    pub fn new() -> (r: SignalData)
        ensures
            r.price_data is None,
            r.indicators is None,
    {
        SignalData { price_data: None, indicators: None }
    }

    /// A tick update.
    pub fn tick(price_data: PriceData) -> (r: SignalData)
        ensures
            r.price_data == Some(price_data),
            r.indicators is None,
    {
        SignalData { price_data: Some(price_data), indicators: None }
    }

    /// An indicator update.
    pub fn snapshot(indicators: Indicators) -> (r: SignalData)
        ensures
            r.price_data is None,
            r.indicators == Some(indicators),
    {
        SignalData { price_data: None, indicators: Some(indicators) }
    }

    /// Applies an update: each slot takes the update's value where it has
    /// one and keeps its own otherwise. Returns the fused signal of the
    /// merged context, or `None` while a slot is still empty.
    pub fn merge(&mut self, update: SignalData, settings: &SignalSettings) -> (r: Option<Signal>)
        requires
            settings.wf(),
        ensures
            final(self).price_data == merged(old(self).price_data, update.price_data),
            final(self).indicators == merged(old(self).indicators, update.indicators),
            r == emitted(*final(self), *settings),
    {
        if update.price_data.is_some() {
            self.price_data = update.price_data;
        }
        if update.indicators.is_some() {
            self.indicators = update.indicators;
        }
        match (&self.price_data, &self.indicators) {
            (Some(p), Some(i)) => Some(calculate_ohlc_with_price_signal(p, i, settings)),
            _ => None,
        }
    }
}

/// Once both slots have been filled they stay filled: after any further
/// update the context emits a signal, computed from the newest value of each
/// slot.
pub proof fn lemma_merge_latest(ctx: SignalData, update: SignalData, settings: SignalSettings)
    requires
        ctx.price_data is Some,
        ctx.indicators is Some,
    ensures
        ({
            let next = SignalData {
                price_data: merged(ctx.price_data, update.price_data),
                indicators: merged(ctx.indicators, update.indicators),
            };
            &&& emitted(next, settings) is Some
            &&& update.price_data matches Some(p) ==> next.price_data == Some(p)
            &&& update.indicators matches Some(i) ==> next.indicators == Some(i)
        }),
{
}

} // verus!
