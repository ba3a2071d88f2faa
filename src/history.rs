//! Bar-window refresh: newly fetched bars extend the window, which keeps its
//! length by dropping its oldest bars.
use vstd::prelude::*;
use crate::market::OhlcHistoryEntry;

verus! {

/// The bars of `s` later than `from`, in order.
pub open spec fn newer_than(s: Seq<OhlcHistoryEntry>, from: i64) -> Seq<OhlcHistoryEntry>
    decreases s.len(),
{
    if s.len() == 0 {
        s
    } else {
        let r = newer_than(s.drop_last(), from);
        if s.last().time > from {
            r.push(s.last())
        } else {
            r
        }
    }
}

/// Time of the newest bar of the window, `0` for an empty window.
pub open spec fn last_time(window: Seq<OhlcHistoryEntry>) -> i64 {
    if window.len() == 0 {
        0
    } else {
        window.last().time
    }
}

/// The window after a refresh: unchanged when nothing newer arrived, else
/// the newest `window.len()` bars of the window followed by the new bars.
pub open spec fn refreshed(window: Seq<OhlcHistoryEntry>, fetched: Seq<OhlcHistoryEntry>) -> Seq<OhlcHistoryEntry> {
    let fresh = newer_than(fetched, last_time(window));
    if fresh.len() == 0 {
        window
    } else {
        let all = window + fresh;
        all.subrange(all.len() - window.len(), all.len() as int)
    }
}

/// Merges freshly fetched bars into the window: bars not later than the
/// window's newest are dropped, the rest appended, and the window cut back to
/// its former length. Returns whether anything new arrived.
pub fn merge_new_bars(window: &mut Vec<OhlcHistoryEntry>, fetched: &[OhlcHistoryEntry]) -> (r: bool)
    ensures
        final(window)@ == refreshed(old(window)@, fetched@),
        r == (newer_than(fetched@, last_time(old(window)@)).len() > 0),
{
    let n = window.len();
    let from: i64 = if n == 0 { 0 } else { window[n - 1].time };
    let mut fresh: Vec<OhlcHistoryEntry> = Vec::new();
    let mut i: usize = 0;
    while i < fetched.len()
        invariant
            i <= fetched@.len(),
            fresh@ == newer_than(fetched@.subrange(0, i as int), from),
        decreases fetched@.len() - i,
    {
        assert(fetched@.subrange(0, i + 1).drop_last() =~= fetched@.subrange(0, i as int));
        let b = fetched[i];
        if b.time > from {
            fresh.push(b);
        }
        i = i + 1;
    }
    assert(fetched@.subrange(0, fetched@.len() as int) =~= fetched@);
    if fresh.len() == 0 {
        return false;
    }
    let ghost all = window@ + fresh@;
    let f = fresh.len();
    let mut kept: Vec<OhlcHistoryEntry> = Vec::new();
    if f >= n {
        let mut j: usize = f - n;
        while j < f
            invariant
                n <= f == fresh@.len(),
                f - n <= j <= f,
                n == window@.len(),
                kept@ == fresh@.subrange(f - n, j as int),
            decreases f - j,
        {
            kept.push(fresh[j]);
            assert(kept@ =~= fresh@.subrange(f - n, j + 1));
            j = j + 1;
        }
        assert(kept@ =~= all.subrange(all.len() - n, all.len() as int));
    } else {
        let mut j: usize = f;
        while j < n
            invariant
                f < n == window@.len(),
                f == fresh@.len(),
                f <= j <= n,
                kept@ == window@.subrange(f as int, j as int),
            decreases n - j,
        {
            kept.push(window[j]);
            assert(kept@ =~= window@.subrange(f as int, j + 1));
            j = j + 1;
        }
        let mut k: usize = 0;
        while k < f
            invariant
                f < n == window@.len(),
                f == fresh@.len(),
                k <= f,
                kept@ == window@.subrange(f as int, n as int) + fresh@.subrange(0, k as int),
            decreases f - k,
        {
            kept.push(fresh[k]);
            assert(kept@ =~= window@.subrange(f as int, n as int) + fresh@.subrange(0, k + 1));
            k = k + 1;
        }
        assert(kept@ =~= all.subrange(all.len() - n, all.len() as int));
    }
    *window = kept;
    true
}

} // verus!
