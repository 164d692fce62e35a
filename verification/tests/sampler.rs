use std::str::FromStr;

use nautilus_bin::sampler::{
    trial_order, RustunaOptimizer, SamplerKind, SamplerSetup, NSGA_POPULATION_SIZE,
    TPE_STARTUP_TRIALS,
};

#[test]
fn sampler_names_parse_case_insensitively() {
    assert!(matches!(SamplerKind::parse("tpe"), Ok(SamplerKind::Tpe)));
    assert!(matches!(SamplerKind::parse("TPE"), Ok(SamplerKind::Tpe)));
    assert!(matches!(SamplerKind::parse("Random"), Ok(SamplerKind::Random)));
    assert!(matches!(SamplerKind::parse("NsGaIi"), Ok(SamplerKind::NsgaIi)));
    assert!(matches!(SamplerKind::from_str("nsgaii"), Ok(SamplerKind::NsgaIi)));
}

#[test]
fn unknown_sampler_reports_lowercased_name() {
    let err = SamplerKind::parse("CMA-ES").err().expect("unknown sampler");
    assert_eq!(err.name, "cma-es");
    assert_eq!(err.message(), "unknown sampler `cma-es` (expected tpe|random|nsgaii)");
    assert!(SamplerKind::from_str("").is_err());
    assert!(SamplerKind::parse(" tpe").is_err());
}

#[test]
fn lowercase_names_select_directly() {
    assert!(matches!(SamplerKind::from_lowercase("random".to_string()), Ok(SamplerKind::Random)));
    let err = SamplerKind::from_lowercase("TPE".to_string()).err().unwrap();
    assert_eq!(err.name, "TPE");
}

#[test]
fn sampler_setup_follows_kind_and_seed() {
    assert_eq!(
        RustunaOptimizer::new(SamplerKind::Tpe, Some(7)).sampler_setup(),
        SamplerSetup::TpeSeeded { n_startup_trials: 10, seed: 7 }
    );
    assert_eq!(RustunaOptimizer::new(SamplerKind::Tpe, None).sampler_setup(), SamplerSetup::Tpe);
    assert_eq!(
        RustunaOptimizer::new(SamplerKind::Random, Some(42)).sampler_setup(),
        SamplerSetup::RandomSeeded { seed: 42 }
    );
    assert_eq!(
        RustunaOptimizer::new(SamplerKind::Random, None).sampler_setup(),
        SamplerSetup::Random
    );
    assert_eq!(
        RustunaOptimizer::new(SamplerKind::NsgaIi, Some(1)).sampler_setup(),
        SamplerSetup::NsgaIiSeeded { population_size: 50, seed: 1 }
    );
    assert_eq!(
        RustunaOptimizer::new(SamplerKind::NsgaIi, None).sampler_setup(),
        SamplerSetup::NsgaIi { population_size: 50 }
    );
    assert_eq!(TPE_STARTUP_TRIALS, 10);
    assert_eq!(NSGA_POPULATION_SIZE, 50);
}

#[test]
fn trial_order_sorts_by_number_stably() {
    assert_eq!(trial_order(&vec![3, 1, 2, 1]), vec![1, 3, 2, 0]);
    assert_eq!(trial_order(&vec![]), Vec::<usize>::new());
    assert_eq!(trial_order(&vec![5, 5, 5]), vec![0, 1, 2]);
    assert_eq!(trial_order(&vec![4, 3, 2, 1, 0]), vec![4, 3, 2, 1, 0]);
}

#[test]
fn trial_order_is_a_permutation() {
    let numbers: Vec<u32> = vec![9, 2, 7, 2, 0, 7, 1];
    let order = trial_order(&numbers);
    let mut seen = vec![false; numbers.len()];
    for &i in &order {
        assert!(!seen[i]);
        seen[i] = true;
    }
    assert!(seen.iter().all(|&s| s));
    for w in order.windows(2) {
        assert!(numbers[w[0]] < numbers[w[1]] || (numbers[w[0]] == numbers[w[1]] && w[0] < w[1]));
    }
}
