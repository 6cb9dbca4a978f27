use task_timer::{classify, UrgencyTier};

#[test]
fn tier_boundaries() {
    assert_eq!(classify(69_999, 100_000), UrgencyTier::Normal);
    assert_eq!(classify(70_000, 100_000), UrgencyTier::Warning);
    assert_eq!(classify(89_999, 100_000), UrgencyTier::Warning);
    assert_eq!(classify(90_000, 100_000), UrgencyTier::Critical);
}

#[test]
fn tier_at_the_ends_of_the_range() {
    assert_eq!(classify(0, 1), UrgencyTier::Normal);
    assert_eq!(classify(0, 100), UrgencyTier::Normal);
    assert_eq!(classify(100, 100), UrgencyTier::Critical);
    assert_eq!(classify(250, 100), UrgencyTier::Critical);
}

#[test]
fn tier_is_exact_at_the_thresholds() {
    assert_eq!(classify(7, 10), UrgencyTier::Warning);
    assert_eq!(classify(9, 10), UrgencyTier::Critical);
    assert_eq!(classify(6_999_999_999, 10_000_000_000), UrgencyTier::Normal);
    assert_eq!(classify(7_000_000_000, 10_000_000_000), UrgencyTier::Warning);
    assert_eq!(classify(8_999_999_999, 10_000_000_000), UrgencyTier::Warning);
    assert_eq!(classify(9_000_000_000, 10_000_000_000), UrgencyTier::Critical);
    assert_eq!(classify(2, 3), UrgencyTier::Normal);
    assert_eq!(classify(5, 6), UrgencyTier::Warning);
}

#[test]
fn tier_of_large_quantities() {
    let second: u128 = 1_000_000_000;
    let target: u128 = (i64::MAX as u128) * second;
    assert_eq!(classify(u64::MAX as u128, target), UrgencyTier::Normal);
    assert_eq!(classify(u64::MAX as u128, u64::MAX as u128), UrgencyTier::Critical);
}
