//! Study settings of the optimizer: `[optimize]` values, each overridable from the command line.

use vstd::prelude::*;
use vstd::string::StringExecFns;

verus! {

/// Values given on the command line; `None` where a flag was not given.
pub struct StudyOverrides {
    pub trials: Option<usize>,
    pub seed: Option<u64>,
    pub study_name: Option<String>,
    pub json_out: Option<String>,
    pub best_params_out: Option<String>,
}

/// The `[optimize]` values that command-line flags can override.
pub struct StudyDefaults {
    pub strategy: String,
    pub sampler: String,
    pub trials: usize,
    pub seed: Option<u64>,
    pub study_name: Option<String>,
    pub json_out: String,
    pub best_params_out: Option<String>,
}

/// The settings a study runs with.
pub struct StudySettings {
    pub trials: usize,
    pub seed: Option<u64>,
    pub study_name: String,
    pub json_out: String,
    pub best_params_out: Option<String>,
}

/// `value` when given, else `fallback`.
pub open spec fn prefer<T>(value: Option<T>, fallback: T) -> T {
    match value {
        Some(v) => v,
        None => fallback,
    }
}

/// The view of an optional text.
pub open spec fn opt_text(s: Option<String>) -> Option<Seq<char>> {
    match s {
        Some(t) => Some(t@),
        None => None,
    }
}

/// Study name when neither the flag nor `[optimize]` names one: `<strategy>-<sampler>`.
pub fn fallback_study_name(strategy: &str, sampler: &str) -> (name: String)
    ensures
        name@ == strategy@ + "-"@ + sampler@,
{
    String::from_str(strategy).concat("-").concat(sampler)
}

/// Resolves the study settings: a command-line value, when given, wins over the
/// `[optimize]` value.
pub fn resolve_study_settings(cli: StudyOverrides, cfg: StudyDefaults) -> (s: StudySettings)
    ensures
        s.trials == prefer(cli.trials, cfg.trials),
        s.seed == (match cli.seed {
            Some(v) => Some(v),
            None => cfg.seed,
        }),
        s.study_name@ == (match (cli.study_name, cfg.study_name) {
            (Some(n), _) => n@,
            (None, Some(n)) => n@,
            (None, None) => cfg.strategy@ + "-"@ + cfg.sampler@,
        }),
        s.json_out@ == (match cli.json_out {
            Some(j) => j@,
            None => cfg.json_out@,
        }),
        opt_text(s.best_params_out) == (match cli.best_params_out {
            Some(b) => Some(b@),
            None => opt_text(cfg.best_params_out),
        }),
{
    let trials = match cli.trials {
        Some(t) => t,
        None => cfg.trials,
    };
    let seed = match cli.seed {
        Some(v) => Some(v),
        None => cfg.seed,
    };
    let study_name = match cli.study_name {
        Some(n) => n,
        None => match cfg.study_name {
            Some(n) => n,
            None => fallback_study_name(cfg.strategy.as_str(), cfg.sampler.as_str()),
        },
    };
    let json_out = match cli.json_out {
        Some(j) => j,
        None => cfg.json_out,
    };
    let best_params_out = match cli.best_params_out {
        Some(b) => Some(b),
        None => cfg.best_params_out,
    };
    StudySettings { trials, seed, study_name, json_out, best_params_out }
}

/// The search algorithm name: the command-line value when given, else the
/// `[optimize]` value.
pub fn resolve_sampler(cli: Option<String>, cfg: String) -> (s: String)
    ensures
        s@ == prefer(opt_text(cli), cfg@),
{
    match cli {
        Some(name) => name,
        None => cfg,
    }
}

/// Whether the out-of-sample window reaches past the end of the training window,
/// so that re-scoring on it tells something new (timestamps in any one unit).
pub fn oos_extends_beyond_train(oos_start: i64, oos_end: i64, train_end: i64) -> (r: bool)
    ensures
        r == (oos_end > train_end || oos_start > train_end),
{
    oos_end > train_end || oos_start > train_end
}

} // verus!
