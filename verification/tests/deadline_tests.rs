use nevo_contract::deadline::{
    current_timestamp, is_within_grace_period, set_deadline, validate_deadline, NOW,
};

#[test]
fn current_timestamp_is_fixed() {
    assert_eq!(current_timestamp(), 100_000);
    assert_eq!(NOW, 100_000);
}

#[test]
fn grace_period_edges() {
    // deadline in the future: not within the grace period
    assert!(!is_within_grace_period(100_001, 86_400));
    // deadline exactly now
    assert!(is_within_grace_period(100_000, 0));
    // exactly at the end of the grace period
    assert!(is_within_grace_period(100_000 - 86_400, 86_400));
    // one second past the end
    assert!(!is_within_grace_period(100_000 - 86_401, 86_400));
    // deadline at time zero, huge grace
    assert!(is_within_grace_period(0, u64::MAX));
}

#[test]
fn validate_deadline_bounds() {
    assert_eq!(validate_deadline(100_000), Err("Deadline in past or now"));
    assert_eq!(validate_deadline(0), Err("Deadline in past or now"));
    assert_eq!(validate_deadline(100_001), Ok(()));
    // exactly ten years ahead is accepted
    assert_eq!(validate_deadline(100_000 + 315_360_000), Ok(()));
    assert_eq!(validate_deadline(100_000 + 315_360_001), Err("Deadline too far in future"));
    assert_eq!(validate_deadline(u64::MAX), Err("Deadline too far in future"));
}

#[test]
fn set_deadline_requires_future() {
    assert_eq!(set_deadline(100_000), Err("Deadline must be in future"));
    assert_eq!(set_deadline(99_999), Err("Deadline must be in future"));
    assert_eq!(set_deadline(100_001), Ok(()));
    // far-future deadlines are accepted by the setter though not by validation
    assert_eq!(set_deadline(u64::MAX), Ok(()));
}
