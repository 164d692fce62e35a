//! Defaults of the TOML configuration and the recorder section.

use vstd::prelude::*;
use vstd::string::StringExecFns;

verus! {

/// Interval (ms) between fine-grained portfolio equity snapshots used for the SQN objective.
pub const DEFAULT_SNAPSHOT_INTERVAL_MS: u64 = 3_600_000;

/// The `[recorder]` section: which instruments to record and where to dump them.
pub struct RecorderTomlConfig {
    pub exchange: String,
    pub trader_id: String,
    pub instrument_id: Vec<String>,
    pub catalog_path: String,
    pub book_depth: usize,
    pub interval_parquet_dump_seconds: u64,
}

/// Number of backtest trials when `[optimize]` does not name one.
pub fn default_trials() -> (n: usize)
    ensures
        n == 200,
{
    200
}

/// Search algorithm when `[optimize]` does not name one.
pub fn default_sampler() -> (s: String)
    ensures
        s@ == "tpe"@,
{
    String::from_str("tpe")
}

/// Output file of the study results.
pub fn default_json_out() -> (s: String)
    ensures
        s@ == "study.json"@,
{
    String::from_str("study.json")
}

/// Equity snapshot interval for the SQN objective.
pub fn default_snapshot_interval_ms() -> (ms: u64)
    ensures
        ms == DEFAULT_SNAPSHOT_INTERVAL_MS,
        ms == 3_600_000,
{
    DEFAULT_SNAPSHOT_INTERVAL_MS
}

/// Account used in the backtest venue.
pub fn default_account_id() -> (s: String)
    ensures
        s@ == "BYBIT-001"@,
{
    String::from_str("BYBIT-001")
}

/// Number of grid levels on each side.
pub fn default_num_levels() -> (n: usize)
    ensures
        n == 3,
{
    3
}

/// Grid spacing in basis points.
pub fn default_grid_step_bps() -> (bps: u32)
    ensures
        bps == 10,
{
    10
}

/// Minimum mid move (basis points) before re-quoting.
pub fn default_requote_threshold_bps() -> (bps: u32)
    ensures
        bps == 5,
{
    5
}

/// Catalog path used by the recorder and the strategies.
pub fn default_recorder_path() -> (s: String)
    ensures
        s@ == "data/"@,
{
    String::from_str("data/")
}

} // verus!
