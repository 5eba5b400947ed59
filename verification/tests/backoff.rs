use axon_core::backoff::BackoffPolicy;

#[test]
fn next_backoff_multiplies_up_to_the_cap() {
    let policy = BackoffPolicy::new(1000, 60_000, 2);
    assert!(policy.is_well_formed());
    assert_eq!(policy.initial(), 1000);
    assert_eq!(policy.next_backoff(1000), 2000);
    assert_eq!(policy.next_backoff(2000), 4000);
    assert_eq!(policy.next_backoff(32_000), 60_000);
    assert_eq!(policy.next_backoff(60_000), 60_000);
}

#[test]
fn a_streak_never_shrinks_and_stays_below_the_cap() {
    let policy = BackoffPolicy::new(1000, 60_000, 2);
    let mut wait = policy.initial();
    let mut seen = vec![wait];
    for _ in 0..10 {
        let next = policy.next_backoff(wait);
        assert!(next >= wait);
        assert!(next <= 60_000);
        wait = next;
        seen.push(wait);
    }
    assert_eq!(
        seen,
        vec![1000, 2000, 4000, 8000, 16_000, 32_000, 60_000, 60_000, 60_000, 60_000, 60_000]
    );
}

#[test]
fn a_product_beyond_the_machine_word_is_capped() {
    let policy = BackoffPolicy::new(1, u64::MAX, u64::MAX);
    assert_eq!(policy.next_backoff(2), u64::MAX);
    let policy = BackoffPolicy::new(1, 500, u64::MAX);
    assert_eq!(policy.next_backoff(u64::MAX), 500);
}

#[test]
fn a_fixed_policy_repeats_its_interval() {
    let policy = BackoffPolicy::fixed(1000);
    assert_eq!(policy, BackoffPolicy::new(1000, 1000, 1));
    assert!(policy.is_well_formed());
    assert_eq!(policy.initial(), 1000);
    assert_eq!(policy.next_backoff(1000), 1000);
}

#[test]
fn ill_formed_policies_are_told() {
    assert!(!BackoffPolicy::new(10, 5, 2).is_well_formed());
    assert!(!BackoffPolicy::new(10, 50, 0).is_well_formed());
    assert_eq!(BackoffPolicy::new(10, 50, 0).next_backoff(10), 0);
}
