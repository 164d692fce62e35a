//! Quote bookkeeping shared by the market makers: the last quoted mid and the
//! orders the strategy cancelled itself, plus the expiry of GTD orders.

use vstd::prelude::*;

use crate::order_ids::OrderIdSet;

verus! {

/// The last quoted mid (of price type `P`) and the orders whose cancellation the
/// strategy requested itself.
pub struct QuoteTracker<P> {
    pub last_quoted_mid: Option<P>,
    pub pending_self_cancels: OrderIdSet,
}

impl<P> QuoteTracker<P> {
    /// Nothing quoted, no cancellation pending.
    pub fn new() -> (t: Self)
        ensures
            t.last_quoted_mid is None,
            t.pending_self_cancels@ == Set::<Seq<char>>::empty(),
    {
        QuoteTracker { last_quoted_mid: None, pending_self_cancels: OrderIdSet::new() }
    }

    /// A rejected order: forget it and requote on the next opportunity.
    pub fn on_order_rejected(&mut self, id: &str)
        ensures
            final(self).pending_self_cancels@ == old(self).pending_self_cancels@.remove(id@),
            final(self).last_quoted_mid is None,
    {
        self.pending_self_cancels.remove(id);
        self.last_quoted_mid = None;
    }

    /// An expired order: forget it and requote on the next opportunity.
    pub fn on_order_expired(&mut self, id: &str)
        ensures
            final(self).pending_self_cancels@ == old(self).pending_self_cancels@.remove(id@),
            final(self).last_quoted_mid is None,
    {
        self.pending_self_cancels.remove(id);
        self.last_quoted_mid = None;
    }

    /// A fill: once the order is closed it can no longer be cancelled.
    pub fn on_order_filled(&mut self, id: &str, order_closed: bool)
        ensures
            final(self).pending_self_cancels@ == (if order_closed {
                old(self).pending_self_cancels@.remove(id@)
            } else {
                old(self).pending_self_cancels@
            }),
            final(self).last_quoted_mid == old(self).last_quoted_mid,
    {
        if order_closed {
            self.pending_self_cancels.remove(id);
        }
    }

    /// A cancellation, when the strategy never resubmits on cancels: forget the order.
    pub fn on_order_canceled(&mut self, id: &str)
        ensures
            final(self).pending_self_cancels@ == old(self).pending_self_cancels@.remove(id@),
            final(self).last_quoted_mid == old(self).last_quoted_mid,
    {
        self.pending_self_cancels.remove(id);
    }

    /// A cancellation, when `on_cancel_resubmit` is configured: a cancel the strategy
    /// requested itself is only forgotten; any other cancel makes the strategy requote
    /// when `on_cancel_resubmit` is set.
    pub fn on_order_canceled_resubmitting(&mut self, id: &str, on_cancel_resubmit: bool)
        ensures
            final(self).pending_self_cancels@ == old(self).pending_self_cancels@.remove(id@),
            final(self).last_quoted_mid == (if !old(self).pending_self_cancels@.contains(id@)
                && on_cancel_resubmit {
                None
            } else {
                old(self).last_quoted_mid
            }),
    {
        if self.pending_self_cancels.remove(id) {
            return;
        }
        if on_cancel_resubmit {
            self.last_quoted_mid = None;
        }
    }

    /// Orders about to be cancelled by the strategy itself.
    pub fn expect_self_cancels(&mut self, ids: Vec<String>)
        ensures
            final(self).pending_self_cancels@ == old(self).pending_self_cancels@.union(
                crate::order_ids::ids_view(ids@),
            ),
            final(self).last_quoted_mid == old(self).last_quoted_mid,
    {
        self.pending_self_cancels.extend(ids);
    }

    /// A new quote around `mid` has been placed.
    pub fn record_quote(&mut self, mid: P)
        ensures
            final(self).last_quoted_mid == Some(mid),
            final(self).pending_self_cancels@ == old(self).pending_self_cancels@,
    {
        self.last_quoted_mid = Some(mid);
    }

    /// Forget every quote and every pending cancellation.
    pub fn reset(&mut self)
        ensures
            final(self).last_quoted_mid is None,
            final(self).pending_self_cancels@ == Set::<Seq<char>>::empty(),
    {
        self.last_quoted_mid = None;
        self.pending_self_cancels.clear();
    }
}

/// Every order announced with `expect_self_cancels` counts as a self-cancel: its
/// cancellation leaves the quote in place (see `on_order_canceled_resubmitting`).
pub proof fn lemma_announced_cancels_are_self_cancels(
    pending: Set<Seq<char>>,
    ids: Seq<String>,
    i: int,
)
    requires
        0 <= i < ids.len(),
    ensures
        pending.union(crate::order_ids::ids_view(ids)).contains(ids[i]@),
{
    assert(crate::order_ids::ids_view(ids).contains(ids[i]@));
}

/// Nanoseconds per second.
pub const NANOS_PER_SEC: u64 = 1_000_000_000;

/// The expiry of a GTD order placed at `now_ns`, when orders expire after
/// `expire_time_secs`; `None` when orders do not expire.
pub fn gtd_expire_ns(now_ns: u64, expire_time_secs: Option<u64>) -> (r: Option<u64>)
    requires
        match expire_time_secs {
            Some(secs) => now_ns + secs * 1_000_000_000 <= u64::MAX,
            None => true,
        },
    ensures
        r == match expire_time_secs {
            Some(secs) => Some((now_ns + secs * 1_000_000_000) as u64),
            None => None,
        },
{
    match expire_time_secs {
        Some(secs) => Some(now_ns + secs * NANOS_PER_SEC),
        None => None,
    }
}

} // verus!
