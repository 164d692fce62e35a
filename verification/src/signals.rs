//! Rolling signal windows of the VPIN and Hurst strategies, generic in the sample type.

use std::collections::VecDeque;
use vstd::prelude::*;

verus! {

/// VPIN state: the rolling windows of absolute and signed bucket imbalances and
/// their current means.
pub struct VpinWindows<F> {
    pub abs_imbalances: VecDeque<F>,
    pub signed_imbalances: VecDeque<F>,
    pub vpin: Option<F>,
    pub signed_vpin: Option<F>,
}

impl<F> VpinWindows<F> {
    /// Empty windows, no VPIN yet.
    pub fn new(vpin_window: usize) -> (w: Self)
        ensures
            w.abs_imbalances@ == Seq::<F>::empty(),
            w.signed_imbalances@ == Seq::<F>::empty(),
            w.vpin is None,
            w.signed_vpin is None,
    {
        VpinWindows {
            abs_imbalances: VecDeque::with_capacity(vpin_window),
            signed_imbalances: VecDeque::with_capacity(vpin_window),
            vpin: None,
            signed_vpin: None,
        }
    }

    /// Empties both windows and forgets the VPIN.
    pub fn clear(&mut self)
        ensures
            final(self).abs_imbalances@ == Seq::<F>::empty(),
            final(self).signed_imbalances@ == Seq::<F>::empty(),
            final(self).vpin is None,
            final(self).signed_vpin is None,
    {
        self.abs_imbalances.clear();
        self.signed_imbalances.clear();
        self.vpin = None;
        self.signed_vpin = None;
    }
}

/// Hurst/VPIN signal state: dollar-bar log returns, the last bar close and the
/// current Hurst exponent, beside the VPIN windows.
pub struct HurstSignals<F> {
    pub returns: VecDeque<F>,
    pub last_close: Option<F>,
    pub hurst: Option<F>,
    pub vpin: VpinWindows<F>,
}

/// Whether every signal is computed and both windows are full.
pub open spec fn spec_signals_ready<F>(
    s: HurstSignals<F>,
    hurst_window: usize,
    vpin_window: usize,
) -> bool {
    &&& s.hurst is Some
    &&& s.vpin.vpin is Some
    &&& s.vpin.signed_vpin is Some
    &&& s.returns@.len() == hurst_window
    &&& s.vpin.abs_imbalances@.len() == vpin_window
}

impl<F> HurstSignals<F> {
    /// Empty windows, no signal yet.
    pub fn new(hurst_window: usize, vpin_window: usize) -> (s: Self)
        ensures
            s.returns@ == Seq::<F>::empty(),
            s.last_close is None,
            s.hurst is None,
            s.vpin.abs_imbalances@ == Seq::<F>::empty(),
            s.vpin.signed_imbalances@ == Seq::<F>::empty(),
            s.vpin.vpin is None,
            s.vpin.signed_vpin is None,
    {
        HurstSignals {
            returns: VecDeque::with_capacity(hurst_window),
            last_close: None,
            hurst: None,
            vpin: VpinWindows::new(vpin_window),
        }
    }

    /// Whether the strategy may act on its signals: Hurst, VPIN and signed VPIN
    /// are all known and both windows are full.
    pub fn signals_ready(&self, hurst_window: usize, vpin_window: usize) -> (r: bool)
        ensures
            r == spec_signals_ready(*self, hurst_window, vpin_window),
    {
        self.hurst.is_some() && self.vpin.vpin.is_some() && self.vpin.signed_vpin.is_some()
            && self.returns.len() == hurst_window && self.vpin.abs_imbalances.len() == vpin_window
    }

    /// Forgets every sample and signal.
    pub fn clear(&mut self)
        ensures
            final(self).returns@ == Seq::<F>::empty(),
            final(self).last_close is None,
            final(self).hurst is None,
            final(self).vpin.abs_imbalances@ == Seq::<F>::empty(),
            final(self).vpin.signed_imbalances@ == Seq::<F>::empty(),
            final(self).vpin.vpin is None,
            final(self).vpin.signed_vpin is None,
    {
        self.returns.clear();
        self.last_close = None;
        self.hurst = None;
        self.vpin.clear();
    }
}

/// Without a Hurst estimate (as after `clear`) the signals are never ready, whatever
/// the window sizes.
pub proof fn lemma_no_hurst_not_ready<F>(s: HurstSignals<F>, hurst_window: usize, vpin_window: usize)
    requires
        s.hurst is None,
    ensures
        !spec_signals_ready(s, hurst_window, vpin_window),
{
}


/// The signals are ready exactly when Hurst, VPIN and signed VPIN are all known, the
/// returns window holds `hurst_window` returns and the VPIN window holds
/// `vpin_window` bucket imbalances; a partly filled window never makes them ready.
pub proof fn lemma_ready_iff_known_and_full<F>(
    s: HurstSignals<F>,
    hurst_window: usize,
    vpin_window: usize,
)
    ensures
        spec_signals_ready(s, hurst_window, vpin_window) ==> s.returns@.len() == hurst_window
            && s.vpin.abs_imbalances@.len() == vpin_window,
        s.returns@.len() != hurst_window || s.vpin.abs_imbalances@.len() != vpin_window
            ==> !spec_signals_ready(s, hurst_window, vpin_window),
        s.hurst is Some && s.vpin.vpin is Some && s.vpin.signed_vpin is Some && s.returns@.len()
            == hurst_window && s.vpin.abs_imbalances@.len() == vpin_window ==> spec_signals_ready(
            s,
            hurst_window,
            vpin_window,
        ),
        spec_signals_ready(s, hurst_window, vpin_window) ==> s.hurst is Some && s.vpin.vpin is Some
            && s.vpin.signed_vpin is Some,
{
}

} // verus!
