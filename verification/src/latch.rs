//! Order latch and timer decisions of the Hurst/VPIN directional strategy.

use vstd::prelude::*;

use crate::order_ids::OrderIdSet;
use crate::text::same_text;

verus! {

/// Name of the timer driving entry and holding-time checks.
pub const TIMER_NAME: &'static str = "HURST_VPIN_TIMER";

/// What the strategy does on a timer event.
#[derive(Clone, Copy, Debug, PartialEq, Eq, Structural)]
pub enum TimerAction {
    /// Nothing to do.
    Ignore,
    /// A position is open: close it if it has been held too long.
    CheckHoldingTimeout,
    /// Flat and idle: open a position if the signals call for one.
    TryOpen,
}

/// Which orders and positions the strategy is waiting on.
pub struct OrderLatch {
    /// When the current position was opened (ns), if one is open.
    pub position_opened_ns: Option<u64>,
    /// Set when closing orders are sent; cleared on the next bar.
    pub exit_cooldown: bool,
    /// The entry order in flight, if any.
    pub entry_order_id: Option<String>,
    /// The closing orders in flight.
    pub exit_order_ids: OrderIdSet,
}

/// Whether the latch waits on neither an entry nor an exit order.
pub open spec fn spec_idle(l: OrderLatch) -> bool {
    l.entry_order_id is None && l.exit_order_ids@ == Set::<Seq<char>>::empty()
}

/// Whether the open position has been held for at least `max_holding_secs`.
pub open spec fn spec_holding_timeout_due(l: OrderLatch, now_ns: u64, max_holding_secs: u64) -> bool {
    &&& l.exit_order_ids@ == Set::<Seq<char>>::empty()
    &&& l.position_opened_ns is Some
    &&& held_ns(now_ns, l.position_opened_ns->0) >= max_holding_secs * 1_000_000_000
}

/// Time a position opened at `opened_ns` has been held at `now_ns` (zero if the
/// clock reads earlier).
pub open spec fn held_ns(now_ns: u64, opened_ns: u64) -> int {
    if now_ns >= opened_ns {
        now_ns - opened_ns
    } else {
        0
    }
}

/// The action of a timer event named `name`.
pub open spec fn spec_timer_action(
    l: OrderLatch,
    name: Seq<char>,
    signals_ready: bool,
    has_open_position: bool,
    has_working_orders: bool,
) -> TimerAction {
    if name != "HURST_VPIN_TIMER"@ || !signals_ready {
        TimerAction::Ignore
    } else if has_open_position {
        TimerAction::CheckHoldingTimeout
    } else if l.exit_cooldown || !spec_idle(l) || has_working_orders {
        TimerAction::Ignore
    } else {
        TimerAction::TryOpen
    }
}

impl OrderLatch {
    /// Nothing open, nothing in flight.
    pub fn new() -> (l: Self)
        ensures
            l.position_opened_ns is None,
            !l.exit_cooldown,
            spec_idle(l),
    {
        OrderLatch {
            position_opened_ns: None,
            exit_cooldown: false,
            entry_order_id: None,
            exit_order_ids: OrderIdSet::new(),
        }
    }

    /// Forget everything.
    pub fn reset(&mut self)
        ensures
            final(self).position_opened_ns is None,
            !final(self).exit_cooldown,
            spec_idle(*final(self)),
    {
        self.position_opened_ns = None;
        self.exit_cooldown = false;
        self.entry_order_id = None;
        self.exit_order_ids.clear();
    }

    /// Order `id` is done (rejected, expired, denied, cancelled or filled and closed):
    /// it no longer holds the latch.
    pub fn clear_latch_for(&mut self, id: &str)
        ensures
            final(self).entry_order_id == (match old(self).entry_order_id {
                Some(e) => if e@ == id@ {
                    None
                } else {
                    Some(e)
                },
                None => None,
            }),
            final(self).exit_order_ids@ == old(self).exit_order_ids@.remove(id@),
            final(self).position_opened_ns == old(self).position_opened_ns,
            final(self).exit_cooldown == old(self).exit_cooldown,
    {
        let clear_entry = match &self.entry_order_id {
            Some(e) => same_text(e.as_str(), id),
            None => false,
        };
        if clear_entry {
            self.entry_order_id = None;
        }
        self.exit_order_ids.remove(id);
    }

    /// An entry order `id` has been submitted.
    pub fn record_entry(&mut self, id: String)
        ensures
            final(self).entry_order_id == Some(id),
            final(self).exit_order_ids@ == old(self).exit_order_ids@,
            final(self).position_opened_ns == old(self).position_opened_ns,
            final(self).exit_cooldown == old(self).exit_cooldown,
    {
        self.entry_order_id = Some(id);
    }

    /// Closing orders are about to be sent: no new entry until the next bar.
    pub fn begin_exit(&mut self)
        ensures
            final(self).exit_cooldown,
            final(self).entry_order_id == old(self).entry_order_id,
            final(self).exit_order_ids@ == old(self).exit_order_ids@,
            final(self).position_opened_ns == old(self).position_opened_ns,
    {
        self.exit_cooldown = true;
    }

    /// A closing order `id` has been submitted.
    pub fn record_exit(&mut self, id: String)
        ensures
            final(self).exit_order_ids@ == old(self).exit_order_ids@.insert(id@),
            final(self).entry_order_id == old(self).entry_order_id,
            final(self).position_opened_ns == old(self).position_opened_ns,
            final(self).exit_cooldown == old(self).exit_cooldown,
    {
        self.exit_order_ids.insert(id);
    }

    /// A position was opened at `ts_ns`.
    pub fn position_opened(&mut self, ts_ns: u64)
        ensures
            final(self).position_opened_ns == Some(ts_ns),
            final(self).entry_order_id == old(self).entry_order_id,
            final(self).exit_order_ids@ == old(self).exit_order_ids@,
            final(self).exit_cooldown == old(self).exit_cooldown,
    {
        self.position_opened_ns = Some(ts_ns);
    }

    /// The position was closed.
    pub fn position_closed(&mut self)
        ensures
            final(self).position_opened_ns is None,
            final(self).entry_order_id == old(self).entry_order_id,
            final(self).exit_order_ids@ == old(self).exit_order_ids@,
            final(self).exit_cooldown == old(self).exit_cooldown,
    {
        self.position_opened_ns = None;
    }

    /// A new bar ends the exit cooldown.
    pub fn bar_closed(&mut self)
        ensures
            !final(self).exit_cooldown,
            final(self).entry_order_id == old(self).entry_order_id,
            final(self).exit_order_ids@ == old(self).exit_order_ids@,
            final(self).position_opened_ns == old(self).position_opened_ns,
    {
        self.exit_cooldown = false;
    }

    /// Whether no exit is in flight, so that a new exit may be sent.
    pub fn exit_allowed(&self) -> (r: bool)
        ensures
            r == (self.exit_order_ids@ == Set::<Seq<char>>::empty()),
    {
        self.exit_order_ids.is_empty()
    }

    /// Whether the Hurst regime has decayed enough to close the open position:
    /// no exit in flight, the exponent has fallen below the exit level and a
    /// position is open.
    pub fn regime_exit_due(&self, hurst_below_exit: bool, has_open_position: bool) -> (r: bool)
        ensures
            r == (self.exit_order_ids@ == Set::<Seq<char>>::empty() && hurst_below_exit
                && has_open_position),
    {
        self.exit_order_ids.is_empty() && hurst_below_exit && has_open_position
    }

    /// Whether the open position has been held for at least `max_holding_secs`
    /// and no exit is in flight.
    pub fn holding_timeout_due(&self, now_ns: u64, max_holding_secs: u64) -> (r: bool)
        requires
            max_holding_secs * 1_000_000_000 <= u64::MAX,
        ensures
            r == spec_holding_timeout_due(*self, now_ns, max_holding_secs),
    {
        if !self.exit_order_ids.is_empty() {
            return false;
        }
        let opened_ns = match self.position_opened_ns {
            Some(ns) => ns,
            None => return false,
        };
        let held_ns = now_ns.saturating_sub(opened_ns);
        if held_ns < max_holding_secs * 1_000_000_000 {
            return false;
        }
        true
    }

    /// What to do on a timer event named `event_name`.
    pub fn timer_action(
        &self,
        event_name: &str,
        signals_ready: bool,
        has_open_position: bool,
        has_working_orders: bool,
    ) -> (a: TimerAction)
        ensures
            a == spec_timer_action(
                *self,
                event_name@,
                signals_ready,
                has_open_position,
                has_working_orders,
            ),
    {
        if !same_text(event_name, TIMER_NAME) {
            return TimerAction::Ignore;
        }
        if !signals_ready {
            return TimerAction::Ignore;
        }
        if has_open_position {
            return TimerAction::CheckHoldingTimeout;
        }
        if self.exit_cooldown {
            return TimerAction::Ignore;
        }
        if self.entry_order_id.is_some() || !self.exit_order_ids.is_empty() {
            return TimerAction::Ignore;
        }
        if has_working_orders {
            return TimerAction::Ignore;
        }
        TimerAction::TryOpen
    }
}

/// No entry is attempted while an entry or exit order is in flight, during the
/// exit cooldown, or while other orders are working.
pub proof fn lemma_no_entry_while_latched(
    l: OrderLatch,
    name: Seq<char>,
    signals_ready: bool,
    has_open_position: bool,
    has_working_orders: bool,
)
    requires
        !spec_idle(l) || l.exit_cooldown || has_working_orders,
    ensures
        spec_timer_action(l, name, signals_ready, has_open_position, has_working_orders)
            != TimerAction::TryOpen,
{
}

/// Timer events of other timers, and events before the signals are ready, are ignored.
pub proof fn lemma_ignored_timer_events(
    l: OrderLatch,
    name: Seq<char>,
    signals_ready: bool,
    has_open_position: bool,
    has_working_orders: bool,
)
    requires
        name != "HURST_VPIN_TIMER"@ || !signals_ready,
    ensures
        spec_timer_action(l, name, signals_ready, has_open_position, has_working_orders)
            == TimerAction::Ignore,
{
}

/// While a position is open the timer only checks the holding time; it never enters.
pub proof fn lemma_open_position_checks_holding_time(
    l: OrderLatch,
    signals_ready: bool,
    has_working_orders: bool,
)
    requires
        signals_ready,
    ensures
        spec_timer_action(l, "HURST_VPIN_TIMER"@, signals_ready, true, has_working_orders)
            == TimerAction::CheckHoldingTimeout,
{
}

/// While closing orders are in flight the holding timeout never fires again.
pub proof fn lemma_no_timeout_while_exiting(l: OrderLatch, now_ns: u64, max_holding_secs: u64)
    requires
        l.exit_order_ids@ != Set::<Seq<char>>::empty(),
    ensures
        !spec_holding_timeout_due(l, now_ns, max_holding_secs),
{
}

/// The holding timeout fires exactly when the position has been held for the
/// maximum holding time: one nanosecond earlier it does not.
pub proof fn lemma_holding_timeout_threshold(l: OrderLatch, max_holding_secs: u64)
    requires
        l.exit_order_ids@ == Set::<Seq<char>>::empty(),
        l.position_opened_ns is Some,
        max_holding_secs > 0,
        l.position_opened_ns->0 + max_holding_secs * 1_000_000_000 <= u64::MAX,
    ensures
        spec_holding_timeout_due(
            l,
            (l.position_opened_ns->0 + max_holding_secs * 1_000_000_000) as u64,
            max_holding_secs,
        ),
        !spec_holding_timeout_due(
            l,
            (l.position_opened_ns->0 + max_holding_secs * 1_000_000_000 - 1) as u64,
            max_holding_secs,
        ),
{
}


/// The holding timeout is due exactly when no exit is in flight, a position is open,
/// and at least `max_holding_secs` seconds have passed since it was opened; a clock
/// reading before the opening counts as no time held.
pub proof fn lemma_holding_timeout_exact(l: OrderLatch, now_ns: u64, max_holding_secs: u64)
    requires
        l.exit_order_ids@ == Set::<Seq<char>>::empty(),
        l.position_opened_ns is Some,
    ensures
        now_ns >= l.position_opened_ns->0 ==> (spec_holding_timeout_due(l, now_ns, max_holding_secs)
            <==> now_ns >= l.position_opened_ns->0 + max_holding_secs * 1_000_000_000),
        now_ns < l.position_opened_ns->0 ==> (spec_holding_timeout_due(l, now_ns, max_holding_secs)
            <==> max_holding_secs == 0),
{
}

/// Once due, the holding timeout stays due as time goes on.
pub proof fn lemma_holding_timeout_monotone(
    l: OrderLatch,
    now_ns: u64,
    later_ns: u64,
    max_holding_secs: u64,
)
    requires
        spec_holding_timeout_due(l, now_ns, max_holding_secs),
        now_ns <= later_ns,
    ensures
        spec_holding_timeout_due(l, later_ns, max_holding_secs),
{
}

/// No holding timeout without an open position, or while an exit is in flight.
pub proof fn lemma_no_timeout_without_position_or_during_exit(
    l: OrderLatch,
    now_ns: u64,
    max_holding_secs: u64,
)
    requires
        l.position_opened_ns is None || l.exit_order_ids@ != Set::<Seq<char>>::empty(),
    ensures
        !spec_holding_timeout_due(l, now_ns, max_holding_secs),
{
}

} // verus!
