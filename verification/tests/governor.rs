use rapl_lib::governor::{max_iterations_for, IterationGovernor, DEFAULT_MAX_ITERATIONS};

#[test]
fn governor_lets_exactly_max_calls_sample() {
    let mut governor = IterationGovernor::new(3);
    assert!(governor.next_iteration());
    assert!(governor.next_iteration());
    assert!(governor.next_iteration());
    assert!(!governor.next_iteration());
    assert!(!governor.next_iteration());
    assert_eq!(governor.sampled(), 3);
    assert_eq!(governor.max_iterations(), 3);
}

#[test]
fn governor_with_bound_zero_never_samples() {
    let mut governor = IterationGovernor::new(0);
    assert!(!governor.next_iteration());
    assert!(!governor.next_iteration());
    assert_eq!(governor.sampled(), 0);
}

#[test]
fn governor_with_bound_one_samples_once() {
    let mut governor = IterationGovernor::new(1);
    assert_eq!(governor.sampled(), 0);
    assert!(governor.next_iteration());
    assert_eq!(governor.sampled(), 1);
    assert!(!governor.next_iteration());
    assert_eq!(governor.sampled(), 1);
}

#[test]
fn governor_with_largest_bound_keeps_sampling() {
    let mut governor = IterationGovernor::new(usize::MAX);
    for _ in 0..1000 {
        assert!(governor.next_iteration());
    }
    assert_eq!(governor.sampled(), 1000);
}

#[test]
fn bound_for_configured_iterations() {
    assert_eq!(DEFAULT_MAX_ITERATIONS, 2);
    assert_eq!(max_iterations_for(None), 2);
    assert_eq!(max_iterations_for(Some(0)), 1);
    assert_eq!(max_iterations_for(Some(1)), 2);
    assert_eq!(max_iterations_for(Some(10)), 11);
    assert_eq!(max_iterations_for(Some(usize::MAX - 1)), usize::MAX);
    assert_eq!(max_iterations_for(Some(usize::MAX)), usize::MAX);
}
