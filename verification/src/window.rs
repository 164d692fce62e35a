//! Bounded rolling windows and time-based pruning of timestamped samples.

use std::collections::VecDeque;
use vstd::prelude::*;

verus! {

/// The window after `push_bounded`: when the window is exactly full, its oldest
/// value leaves before `value` joins at the back.
pub open spec fn pushed_bounded<T>(values: Seq<T>, capacity: usize, value: T) -> Seq<T> {
    if values.len() == capacity && capacity > 0 {
        values.drop_first().push(value)
    } else {
        values.push(value)
    }
}

/// Appends `value`, first dropping the oldest value when the window holds exactly `capacity`.
pub fn push_bounded<T>(values: &mut VecDeque<T>, capacity: usize, value: T)
    ensures
        final(values)@ == pushed_bounded(old(values)@, capacity, value),
{
    let ghost before = values@;
    if values.len() == capacity {
        values.pop_front();
        assert(capacity > 0 ==> values@ =~= before.drop_first());
    }
    values.push_back(value);
}

/// The window after pushing every value of `xs`, in order, into `values`.
pub open spec fn pushed_all<T>(values: Seq<T>, capacity: usize, xs: Seq<T>) -> Seq<T>
    decreases xs.len(),
{
    if xs.len() == 0 {
        values
    } else {
        pushed_bounded(pushed_all(values, capacity, xs.drop_last()), capacity, xs.last())
    }
}

/// A window filled from empty by `push_bounded` holds exactly the most recent
/// `min(n, capacity)` values pushed, oldest first.
pub proof fn lemma_window_keeps_most_recent<T>(capacity: usize, xs: Seq<T>)
    requires
        capacity > 0,
    ensures
        pushed_all(Seq::<T>::empty(), capacity, xs) == (if xs.len() <= capacity {
            xs
        } else {
            xs.subrange(xs.len() - capacity, xs.len() as int)
        }),
    decreases xs.len(),
{
    if xs.len() > 0 {
        let prefix = xs.drop_last();
        lemma_window_keeps_most_recent(capacity, prefix);
        let w = pushed_all(Seq::<T>::empty(), capacity, prefix);
        if prefix.len() < capacity {
            assert(w.push(xs.last()) =~= xs);
        } else if prefix.len() == capacity {
            assert(w == prefix);
            assert(w.drop_first().push(xs.last()) =~= xs.subrange(
                xs.len() - capacity,
                xs.len() as int,
            ));
        } else {
            assert(w.len() == capacity);
            assert(w.drop_first().push(xs.last()) =~= xs.subrange(
                xs.len() - capacity,
                xs.len() as int,
            ));
        }
    }
}

/// A window that holds at most `capacity` values still does after `push_bounded`,
/// and its newest value is the one pushed.
pub proof fn lemma_push_bounded_stays_within<T>(values: Seq<T>, capacity: usize, value: T)
    requires
        capacity > 0,
        values.len() <= capacity,
    ensures
        pushed_bounded(values, capacity, value).len() <= capacity,
        pushed_bounded(values, capacity, value).last() == value,
{
}

/// Number of leading samples whose timestamp lies before `cutoff`.
pub open spec fn stale_prefix<T>(entries: Seq<(u64, T)>, cutoff: u64) -> nat
    decreases entries.len(),
{
    if entries.len() > 0 && entries[0].0 < cutoff {
        1 + stale_prefix(entries.drop_first(), cutoff)
    } else {
        0
    }
}

/// The cutoff of a lookback window ending at `now_ns`; saturates at zero.
pub open spec fn lookback_cutoff(now_ns: u64, lookback_secs: u64) -> u64 {
    if now_ns >= lookback_secs * 1_000_000_000 {
        (now_ns - lookback_secs * 1_000_000_000) as u64
    } else {
        0
    }
}

/// Drops samples from the front while they are older than `lookback_secs` before
/// `now_ns`; stops at the first sample that is recent enough.
pub fn prune_older_than<T>(entries: &mut VecDeque<(u64, T)>, now_ns: u64, lookback_secs: u64)
    requires
        lookback_secs * 1_000_000_000 <= u64::MAX,
    ensures
        final(entries)@ == old(entries)@.skip(
            stale_prefix(old(entries)@, lookback_cutoff(now_ns, lookback_secs)) as int,
        ),
{
    let cutoff = now_ns.saturating_sub(lookback_secs * 1_000_000_000);
    assert(cutoff == lookback_cutoff(now_ns, lookback_secs));
    let ghost start = old(entries)@;
    let ghost mut dropped: int = 0;
    while entries.len() > 0 && entries[0].0 < cutoff
        invariant
            0 <= dropped <= start.len(),
            entries@ == start.skip(dropped),
            stale_prefix(start, cutoff) == dropped + stale_prefix(entries@, cutoff),
        decreases entries@.len(),
    {
        let ghost before = entries@;
        entries.pop_front();
        proof {
            assert(before.drop_first() =~= entries@);
            dropped = dropped + 1;
            assert(start.skip(dropped) =~= entries@);
        }
    }
}

/// At most every sample is stale.
pub proof fn lemma_stale_prefix_bounded<T>(entries: Seq<(u64, T)>, cutoff: u64)
    ensures
        stale_prefix(entries, cutoff) <= entries.len(),
    decreases entries.len(),
{
    if entries.len() > 0 && entries[0].0 < cutoff {
        lemma_stale_prefix_bounded(entries.drop_first(), cutoff);
    }
}

/// Pruning twice with the same clock and lookback leaves what pruning once leaves.
pub proof fn lemma_prune_idempotent<T>(entries: Seq<(u64, T)>, cutoff: u64)
    ensures
        stale_prefix(entries.skip(stale_prefix(entries, cutoff) as int), cutoff) == 0,
    decreases entries.len(),
{
    if entries.len() > 0 && entries[0].0 < cutoff {
        lemma_prune_idempotent(entries.drop_first(), cutoff);
        lemma_stale_prefix_bounded(entries.drop_first(), cutoff);
        assert(entries.skip(stale_prefix(entries, cutoff) as int) =~= entries.drop_first().skip(
            stale_prefix(entries.drop_first(), cutoff) as int,
        ));
    } else {
        assert(entries.skip(0) =~= entries);
    }
}

} // verus!
