use nautilus_bin::latch::{OrderLatch, TimerAction, TIMER_NAME};
use nautilus_bin::order_ids::OrderIdSet;
use nautilus_bin::quoting::{gtd_expire_ns, QuoteTracker};

#[test]
fn order_id_set_behaves_as_a_set() {
    let mut set = OrderIdSet::new();
    assert!(set.is_empty());
    assert!(set.insert("O-1".to_string()));
    assert!(!set.insert("O-1".to_string()));
    assert!(set.insert("O-2".to_string()));
    assert!(set.contains("O-1"));
    assert!(!set.contains("O-3"));
    assert!(set.remove("O-1"));
    assert!(!set.contains("O-1"));
    assert!(!set.remove("O-1"));
    assert!(!set.is_empty());
    set.extend(vec!["O-3".to_string(), "O-2".to_string()]);
    assert!(set.contains("O-3") && set.contains("O-2"));
    set.clear();
    assert!(set.is_empty());
}

#[test]
fn rejected_and_expired_orders_force_a_requote() {
    let mut t: QuoteTracker<u64> = QuoteTracker::new();
    t.record_quote(100);
    t.expect_self_cancels(vec!["O-1".to_string(), "O-2".to_string()]);
    t.on_order_rejected("O-1");
    assert_eq!(t.last_quoted_mid, None);
    assert!(!t.pending_self_cancels.contains("O-1"));
    t.record_quote(101);
    t.on_order_expired("O-2");
    assert_eq!(t.last_quoted_mid, None);
    assert!(t.pending_self_cancels.is_empty());
}

#[test]
fn fills_only_release_closed_orders() {
    let mut t: QuoteTracker<u64> = QuoteTracker::new();
    t.expect_self_cancels(vec!["O-1".to_string()]);
    t.record_quote(7);
    t.on_order_filled("O-1", false);
    assert!(t.pending_self_cancels.contains("O-1"));
    t.on_order_filled("O-1", true);
    assert!(!t.pending_self_cancels.contains("O-1"));
    assert_eq!(t.last_quoted_mid, Some(7));
}

#[test]
fn self_cancels_never_trigger_a_requote() {
    let mut t: QuoteTracker<u64> = QuoteTracker::new();
    t.record_quote(50);
    t.expect_self_cancels(vec!["O-1".to_string()]);
    t.on_order_canceled_resubmitting("O-1", true);
    assert_eq!(t.last_quoted_mid, Some(50));
    assert!(t.pending_self_cancels.is_empty());
    // an external cancel requotes only when resubmitting is configured
    t.on_order_canceled_resubmitting("O-9", false);
    assert_eq!(t.last_quoted_mid, Some(50));
    t.on_order_canceled_resubmitting("O-9", true);
    assert_eq!(t.last_quoted_mid, None);
}

#[test]
fn plain_cancels_keep_the_quote() {
    let mut t: QuoteTracker<u64> = QuoteTracker::new();
    t.record_quote(5);
    t.expect_self_cancels(vec!["O-1".to_string()]);
    t.on_order_canceled("O-1");
    t.on_order_canceled("O-2");
    assert_eq!(t.last_quoted_mid, Some(5));
    assert!(t.pending_self_cancels.is_empty());
    t.expect_self_cancels(vec!["O-3".to_string()]);
    t.reset();
    assert_eq!(t.last_quoted_mid, None);
    assert!(t.pending_self_cancels.is_empty());
}

#[test]
fn gtd_expiry() {
    assert_eq!(gtd_expire_ns(1_000, Some(30)), Some(30_000_001_000));
    assert_eq!(gtd_expire_ns(1_000, Some(0)), Some(1_000));
    assert_eq!(gtd_expire_ns(1_000, None), None);
}

#[test]
fn test_new_initializes_clean_state() {
    let latch = OrderLatch::new();
    assert!(!latch.exit_cooldown);
    assert!(latch.entry_order_id.is_none());
    assert!(latch.exit_order_ids.is_empty());
    assert!(latch.position_opened_ns.is_none());
}

#[test]
fn test_bar_clears_exit_cooldown() {
    let mut latch = OrderLatch::new();
    latch.exit_cooldown = true;
    latch.bar_closed();
    assert!(!latch.exit_cooldown);
}

#[test]
fn test_on_reset_clears_all_state() {
    let mut latch = OrderLatch::new();
    latch.position_opened(12_345);
    latch.begin_exit();
    latch.record_entry("O-1".to_string());
    latch.record_exit("O-2".to_string());
    latch.reset();
    assert!(latch.position_opened_ns.is_none());
    assert!(!latch.exit_cooldown);
    assert!(latch.entry_order_id.is_none());
    assert!(latch.exit_order_ids.is_empty());
}

#[test]
fn clearing_an_order_releases_the_latch() {
    let mut latch = OrderLatch::new();
    latch.record_entry("O-1".to_string());
    latch.record_exit("O-2".to_string());
    latch.clear_latch_for("O-3");
    assert_eq!(latch.entry_order_id.as_deref(), Some("O-1"));
    latch.clear_latch_for("O-1");
    assert!(latch.entry_order_id.is_none());
    assert!(latch.exit_order_ids.contains("O-2"));
    latch.clear_latch_for("O-2");
    assert!(latch.exit_order_ids.is_empty());
}

#[test]
fn timer_actions() {
    let mut latch = OrderLatch::new();
    assert_eq!(latch.timer_action(TIMER_NAME, true, false, false), TimerAction::TryOpen);
    assert_eq!(latch.timer_action("OTHER_TIMER", true, false, false), TimerAction::Ignore);
    assert_eq!(latch.timer_action(TIMER_NAME, false, false, false), TimerAction::Ignore);
    assert_eq!(
        latch.timer_action(TIMER_NAME, true, true, false),
        TimerAction::CheckHoldingTimeout
    );
    assert_eq!(latch.timer_action(TIMER_NAME, true, false, true), TimerAction::Ignore);
    latch.record_entry("O-1".to_string());
    assert_eq!(latch.timer_action(TIMER_NAME, true, false, false), TimerAction::Ignore);
    latch.clear_latch_for("O-1");
    latch.begin_exit();
    assert_eq!(latch.timer_action(TIMER_NAME, true, false, false), TimerAction::Ignore);
    latch.bar_closed();
    latch.record_exit("O-2".to_string());
    assert_eq!(latch.timer_action(TIMER_NAME, true, false, false), TimerAction::Ignore);
}

#[test]
fn holding_timeout() {
    let mut latch = OrderLatch::new();
    assert!(!latch.holding_timeout_due(10_000_000_000_000, 3600));
    latch.position_opened(1_000);
    let limit = 3600 * 1_000_000_000u64;
    assert!(!latch.holding_timeout_due(1_000 + limit - 1, 3600));
    assert!(latch.holding_timeout_due(1_000 + limit, 3600));
    // a clock reading before the open counts as no time held
    assert!(!latch.holding_timeout_due(0, 1));
    assert!(latch.holding_timeout_due(0, 0));
    latch.record_exit("O-9".to_string());
    assert!(!latch.holding_timeout_due(1_000 + limit, 3600));
    latch.position_closed();
    assert!(latch.position_opened_ns.is_none());
}

#[test]
fn regime_exit() {
    let mut latch = OrderLatch::new();
    assert!(latch.exit_allowed());
    assert!(latch.regime_exit_due(true, true));
    assert!(!latch.regime_exit_due(false, true));
    assert!(!latch.regime_exit_due(true, false));
    latch.record_exit("O-1".to_string());
    assert!(!latch.exit_allowed());
    assert!(!latch.regime_exit_due(true, true));
}
