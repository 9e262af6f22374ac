use tracing_allocator::threshold::{
    check_threshold, Threshold, ThresholdError, ThresholdFor,
};

#[test]
fn limit_cap() {
    let l = Threshold::cap(10);
    let r = 100_u64;
    assert!(l.check(&0, &r).is_ok());
    assert!(l.check(&100, &r).is_ok());
    assert!(l.check(&110, &r).is_ok());
    assert!(l.check(&111, &r).is_err());

    println!("{:?}", l.check(&111, &r).unwrap_err());
}

#[test]
fn limit_ratio() {
    let l = Threshold::ratio(1, 10);
    let r = 100_u64;
    assert!(l.check(&0, &r).is_ok());
    assert!(l.check(&100, &r).is_ok());
    assert!(l.check(&110, &r).is_ok());
    assert!(l.check(&111, &r).is_err());

    println!("{:?}", l.check(&111, &r).unwrap_err());
}

#[test]
fn cap_boundary_is_exact() {
    let l = Threshold::cap(0);
    assert!(l.check(&7, &7).is_ok());
    assert!(l.check(&8, &7).is_err());
    let l = Threshold::cap(u64::MAX);
    assert!(l.check(&u64::MAX, &0).is_ok());
}

#[test]
fn ratio_boundary_is_exact() {
    // (value - 100) * 3 <= 1 * 100 passes up to value = 133.
    let l = Threshold::ratio(1, 3);
    assert!(l.check(&133, &100).is_ok());
    assert!(l.check(&134, &100).is_err());
    // Values at or below the baseline always pass.
    assert!(l.check(&100, &100).is_ok());
    assert!(l.check(&0, &100).is_ok());
    // No float drift on large operands: boundary at 11/10 of a huge baseline.
    let big = 3_000_000_000_000_000_000_u64;
    let l = Threshold::ratio(1, 10);
    assert!(l.check(&(big + big / 10), &big).is_ok());
    assert!(l.check(&(big + big / 10 + 1), &big).is_err());
}

#[test]
fn ratio_zero_baseline_always_fails() {
    let l = Threshold::ratio(1_000_000, 1);
    assert!(l.check(&1, &0).is_err());
    assert!(l.check(&u64::MAX, &0).is_err());
    // No growth over a zero baseline still passes.
    assert!(l.check(&0, &0).is_ok());
}

#[test]
fn unlimited_passes_everything() {
    let l = Threshold::default();
    assert_eq!(l, Threshold::Unlimited);
    assert!(l.check(&u64::MAX, &0).is_ok());
    assert!(l.check(&0, &u64::MAX).is_ok());
}

#[test]
fn violation_carries_both_values() {
    let l = Threshold::cap(1);
    let e = l.check(&9, &3).unwrap_err();
    assert_eq!(
        e,
        ThresholdError {
            limit: Threshold::Cap(1),
            value: 9,
            ref_value: 3,
        }
    );
}

#[test]
fn check_threshold_hands_the_value_back() {
    let r = check_threshold(|| 42_u64, &40, Threshold::cap(5));
    assert_eq!(r.unwrap(), 42);
    let r = check_threshold(|| 42_u64, &40, Threshold::cap(1));
    let e = r.unwrap_err();
    assert_eq!(e.value, 42);
    assert_eq!(e.ref_value, 40);
}

#[test]
fn trait_check_threshold_matches_check() {
    let l = Threshold::ratio(1, 10);
    assert!(ThresholdFor::<u64>::check_threshold(&l, &110, &100).is_ok());
    assert!(ThresholdFor::<u64>::check_threshold(&l, &111, &100).is_err());
}
