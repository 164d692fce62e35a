use std::collections::VecDeque;

use nautilus_bin::signals::{HurstSignals, VpinWindows};
use nautilus_bin::window::{prune_older_than, push_bounded};

#[test]
fn test_push_bounded_respects_capacity() {
    let mut values: VecDeque<f64> = VecDeque::new();
    push_bounded(&mut values, 3, 1.0);
    push_bounded(&mut values, 3, 2.0);
    push_bounded(&mut values, 3, 3.0);
    push_bounded(&mut values, 3, 4.0);

    assert_eq!(values.len(), 3);
    assert_eq!(values[0], 2.0);
    assert_eq!(values[2], 4.0);
}

#[test]
fn window_keeps_most_recent_values() {
    let mut values: VecDeque<u32> = VecDeque::new();
    for x in 0..10 {
        push_bounded(&mut values, 4, x);
        assert!(values.len() <= 4);
        assert_eq!(*values.back().unwrap(), x);
    }
    assert_eq!(values, VecDeque::from(vec![6, 7, 8, 9]));
}

#[test]
fn zero_capacity_window_still_appends() {
    let mut values: VecDeque<u32> = VecDeque::new();
    push_bounded(&mut values, 0, 1);
    push_bounded(&mut values, 0, 2);
    assert_eq!(values, VecDeque::from(vec![1, 2]));
}

#[test]
fn overfull_window_is_not_trimmed() {
    let mut values: VecDeque<u32> = VecDeque::from(vec![1, 2, 3, 4]);
    push_bounded(&mut values, 2, 5);
    assert_eq!(values, VecDeque::from(vec![1, 2, 3, 4, 5]));
}

#[test]
fn prune_drops_only_leading_stale_samples() {
    let s = 1_000_000_000u64;
    let mut entries: VecDeque<(u64, f64)> =
        VecDeque::from(vec![(1 * s, 0.1), (2 * s, 0.2), (5 * s, 0.5), (3 * s, 0.3), (9 * s, 0.9)]);
    // now = 10 s, lookback 6 s: cutoff at 4 s
    prune_older_than(&mut entries, 10 * s, 6);
    assert_eq!(entries, VecDeque::from(vec![(5 * s, 0.5), (3 * s, 0.3), (9 * s, 0.9)]));
    // pruning again changes nothing
    prune_older_than(&mut entries, 10 * s, 6);
    assert_eq!(entries.len(), 3);
}

#[test]
fn prune_saturates_before_epoch() {
    let mut entries: VecDeque<(u64, u8)> = VecDeque::from(vec![(0, 1), (5, 2)]);
    prune_older_than(&mut entries, 3, 60);
    assert_eq!(entries.len(), 2);
    prune_older_than(&mut entries, 10_000_000_000, 0);
    assert!(entries.is_empty());
}

#[test]
fn test_signals_ready_false_during_warmup() {
    let signals: HurstSignals<f64> = HurstSignals::new(128, 50);
    assert!(!signals.signals_ready(128, 50));
}

#[test]
fn test_signals_ready_true_when_windows_filled() {
    let mut signals: HurstSignals<f64> = HurstSignals::new(128, 50);
    for _ in 0..128 {
        signals.returns.push_back(0.001);
    }
    for _ in 0..50 {
        signals.vpin.abs_imbalances.push_back(0.3);
        signals.vpin.signed_imbalances.push_back(0.2);
    }
    signals.hurst = Some(0.6);
    signals.vpin.vpin = Some(0.3);
    signals.vpin.signed_vpin = Some(0.2);

    assert!(signals.signals_ready(128, 50));
    signals.vpin.signed_vpin = None;
    assert!(!signals.signals_ready(128, 50));
}

#[test]
fn clearing_signals_forgets_everything() {
    let mut signals: HurstSignals<f64> = HurstSignals::new(4, 4);
    signals.returns.push_back(0.01);
    signals.last_close = Some(30000.0);
    signals.hurst = Some(0.6);
    signals.vpin.abs_imbalances.push_back(0.4);
    signals.vpin.signed_imbalances.push_back(-0.3);
    signals.vpin.vpin = Some(0.4);
    signals.vpin.signed_vpin = Some(0.4);
    signals.clear();
    assert!(signals.returns.is_empty());
    assert!(signals.last_close.is_none());
    assert!(signals.hurst.is_none());
    assert!(signals.vpin.abs_imbalances.is_empty());
    assert!(signals.vpin.signed_imbalances.is_empty());
    assert!(signals.vpin.vpin.is_none());
    assert!(signals.vpin.signed_vpin.is_none());

    let mut vpin: VpinWindows<f64> = VpinWindows::new(3);
    vpin.vpin = Some(0.9);
    vpin.clear();
    assert!(vpin.vpin.is_none());
}
