//! The fixed (non-searched) part of the strategy optimization adapters.

use vstd::prelude::*;

verus! {

/// Grid market maker optimization adapter: the settings read from `[grid_mm]`
/// that are not part of the search space.
pub struct GridMmOptimizable {
    pub expire_time_secs: Option<u64>,
    pub on_cancel_resubmit: bool,
}

impl GridMmOptimizable {
    pub fn new(expire_time_secs: Option<u64>, on_cancel_resubmit: bool) -> (r: Self)
        ensures
            r.expire_time_secs == expire_time_secs,
            r.on_cancel_resubmit == on_cancel_resubmit,
    {
        GridMmOptimizable { expire_time_secs, on_cancel_resubmit }
    }

    /// Strategy name, used for dispatch and study naming.
    pub fn strategy_name(&self) -> (s: &'static str)
        ensures
            s@ == "grid_mm"@,
    {
        "grid_mm"
    }

    /// The parameter names this strategy samples, in sampling order.
    pub fn known_params(&self) -> (names: Vec<&'static str>)
        ensures
            names@.len() == 6,
            names@[0]@ == "num_levels"@,
            names@[1]@ == "grid_step_bps"@,
            names@[2]@ == "requote_threshold_bps"@,
            names@[3]@ == "skew_factor"@,
            names@[4]@ == "max_position"@,
            names@[5]@ == "trade_size"@,
    {
        vec![
            "num_levels",
            "grid_step_bps",
            "requote_threshold_bps",
            "skew_factor",
            "max_position",
            "trade_size",
        ]
    }
}

/// Mattia's market maker optimization adapter (it has no fixed settings).
pub struct MmOptimizable;

impl MmOptimizable {
    /// Strategy name, used for dispatch and study naming.
    pub fn strategy_name(&self) -> (s: &'static str)
        ensures
            s@ == "mmm"@,
    {
        "mmm"
    }

    /// The parameter names this strategy samples, in sampling order.
    pub fn known_params(&self) -> (names: Vec<&'static str>)
        ensures
            names@.len() == 6,
            names@[0]@ == "phi_0"@,
            names@[1]@ == "phi_n"@,
            names@[2]@ == "q_max"@,
            names@[3]@ == "delta_0"@,
            names@[4]@ == "delta_mu"@,
            names@[5]@ == "beta"@,
    {
        vec!["phi_0", "phi_n", "q_max", "delta_0", "delta_mu", "beta"]
    }
}

} // verus!
