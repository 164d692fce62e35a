use nautilus_bin::param::{
    float_bounds, int_bounds, is_known, FloatFault, ParamKind, ParamSpec, RangeFault, SearchSpace,
    SpaceError, SuggestError,
};

fn check_f64(min: f64, max: f64) -> Option<FloatFault> {
    if !min.is_finite() || !max.is_finite() {
        Some(FloatFault::NotFinite)
    } else if min > max {
        Some(FloatFault::MinExceedsMax)
    } else {
        None
    }
}

fn spec(name: &str, kind: ParamKind<f64>) -> ParamSpec<f64> {
    ParamSpec { name: name.to_string(), kind }
}

fn grid_space() -> SearchSpace<f64> {
    SearchSpace {
        params: vec![
            spec("num_levels", ParamKind::Int { min: 1, max: 5 }),
            spec("skew_factor", ParamKind::Float { min: 0.0, max: 1.0 }),
            spec("num_levels", ParamKind::Int { min: 7, max: 9 }),
        ],
    }
}

const KNOWN: [&str; 2] = ["num_levels", "skew_factor"];

#[test]
fn get_returns_first_spec_with_the_name() {
    let space = grid_space();
    let found = space.get("num_levels").expect("present");
    assert_eq!(found.kind, ParamKind::Int { min: 1, max: 5 });
    assert!(space.get("trade_size").is_none());
    assert!(space.get("").is_none());
}

#[test]
fn int_range_validation() {
    assert_eq!(ParamKind::<f64>::Int { min: 3, max: 3 }.validate(check_f64), Ok(()));
    assert_eq!(
        ParamKind::<f64>::Int { min: 4, max: 3 }.validate(check_f64),
        Err(RangeFault::IntMinExceedsMax)
    );
}

#[test]
fn float_range_validation_uses_the_check() {
    assert_eq!(ParamKind::Float { min: 0.1, max: 0.2 }.validate(check_f64), Ok(()));
    assert_eq!(
        ParamKind::Float { min: 0.3, max: 0.2 }.validate(check_f64),
        Err(RangeFault::Float(FloatFault::MinExceedsMax))
    );
    assert_eq!(
        ParamKind::Float { min: f64::NAN, max: 0.2 }.validate(check_f64),
        Err(RangeFault::Float(FloatFault::NotFinite))
    );
}

#[test]
fn space_validation_reports_first_problem() {
    assert_eq!(grid_space().validate(&KNOWN, &check_f64), Ok(()));

    let unknown = SearchSpace {
        params: vec![
            spec("num_levels", ParamKind::Int { min: 1, max: 5 }),
            spec("bogus", ParamKind::Int { min: 1, max: 5 }),
            spec("skew_factor", ParamKind::Float { min: 2.0, max: 1.0 }),
        ],
    };
    assert_eq!(
        unknown.validate(&KNOWN, &check_f64),
        Err(SpaceError::UnknownParam { index: 1 })
    );

    let bad_range_first = SearchSpace {
        params: vec![
            spec("skew_factor", ParamKind::Float { min: 2.0, max: 1.0 }),
            spec("bogus", ParamKind::Int { min: 1, max: 5 }),
        ],
    };
    assert_eq!(
        bad_range_first.validate(&KNOWN, &check_f64),
        Err(SpaceError::InvalidRange { index: 0, fault: RangeFault::Float(FloatFault::MinExceedsMax) })
    );

    let bad_int = SearchSpace { params: vec![spec("num_levels", ParamKind::Int { min: 9, max: 1 })] };
    assert_eq!(
        bad_int.validate(&KNOWN, &check_f64),
        Err(SpaceError::InvalidRange { index: 0, fault: RangeFault::IntMinExceedsMax })
    );

    let empty: SearchSpace<f64> = SearchSpace { params: vec![] };
    assert_eq!(empty.validate(&[], &check_f64), Ok(()));
}

#[test]
fn known_names() {
    assert!(is_known(&KNOWN, "skew_factor"));
    assert!(!is_known(&KNOWN, "Skew_factor"));
    assert!(!is_known(&[], "skew_factor"));
}

#[test]
fn bounds_for_sampling() {
    let space = grid_space();
    assert_eq!(int_bounds(&space, "num_levels"), Ok((1, 5)));
    assert_eq!(int_bounds(&space, "skew_factor"), Err(SuggestError::NotInt));
    assert_eq!(int_bounds(&space, "trade_size"), Err(SuggestError::Missing));
    assert_eq!(float_bounds(&space, "skew_factor"), Ok((0.0, 1.0)));
    assert_eq!(float_bounds(&space, "num_levels"), Err(SuggestError::NotFloat));
    assert_eq!(float_bounds(&space, "max_position"), Err(SuggestError::Missing));
}

#[test]
fn suggest_error_messages() {
    assert_eq!(
        SuggestError::Missing.message("trade_size"),
        "missing param `trade_size` in [optimize.params]"
    );
    assert_eq!(
        SuggestError::NotInt.message("skew_factor"),
        "param `skew_factor` must be declared as `type = \"int\"`"
    );
    assert_eq!(
        SuggestError::NotFloat.message("num_levels"),
        "param `num_levels` must be declared as `type = \"float\"`"
    );
}
