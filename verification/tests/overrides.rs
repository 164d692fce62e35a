use nautilus_bin::overrides::{
    fallback_study_name, oos_extends_beyond_train, resolve_sampler, resolve_study_settings,
    StudyDefaults, StudyOverrides,
};

fn cfg(study_name: Option<&str>) -> StudyDefaults {
    StudyDefaults {
        strategy: "grid_mm".to_string(),
        sampler: "tpe".to_string(),
        trials: 200,
        seed: Some(1),
        study_name: study_name.map(str::to_string),
        json_out: "study.json".to_string(),
        best_params_out: None,
    }
}

fn no_flags() -> StudyOverrides {
    StudyOverrides { trials: None, seed: None, study_name: None, json_out: None, best_params_out: None }
}

#[test]
fn config_values_apply_without_flags() {
    let s = resolve_study_settings(no_flags(), cfg(Some("grid")));
    assert_eq!(s.trials, 200);
    assert_eq!(s.seed, Some(1));
    assert_eq!(s.study_name, "grid");
    assert_eq!(s.json_out, "study.json");
    assert_eq!(s.best_params_out, None);
}

#[test]
fn flags_override_config_values() {
    let flags = StudyOverrides {
        trials: Some(5),
        seed: Some(9),
        study_name: Some("cli".to_string()),
        json_out: Some("out.json".to_string()),
        best_params_out: Some("best.toml".to_string()),
    };
    let s = resolve_study_settings(flags, cfg(Some("grid")));
    assert_eq!(s.trials, 5);
    assert_eq!(s.seed, Some(9));
    assert_eq!(s.study_name, "cli");
    assert_eq!(s.json_out, "out.json");
    assert_eq!(s.best_params_out.as_deref(), Some("best.toml"));
}

#[test]
fn study_name_falls_back_to_strategy_and_sampler() {
    let s = resolve_study_settings(no_flags(), cfg(None));
    assert_eq!(s.study_name, "grid_mm-tpe");
    assert_eq!(fallback_study_name("mmm", "nsgaii"), "mmm-nsgaii");
}

#[test]
fn sampler_flag_overrides_config() {
    let s = resolve_sampler(Some("random".to_string()), "tpe".to_string());
    assert_eq!(s, "random");
}

#[test]
fn sampler_comes_from_config_without_flag() {
    let s = resolve_sampler(None, "nsgaii".to_string());
    assert_eq!(s, "nsgaii");
}

#[test]
fn oos_window_after_train_end_is_scored() {
    assert!(oos_extends_beyond_train(200, 300, 100));
}

#[test]
fn oos_window_ending_past_train_end_is_scored() {
    assert!(oos_extends_beyond_train(50, 150, 100));
}

#[test]
fn oos_window_inside_train_window_is_skipped() {
    assert!(!oos_extends_beyond_train(20, 100, 100));
    assert!(!oos_extends_beyond_train(20, 80, 100));
}
