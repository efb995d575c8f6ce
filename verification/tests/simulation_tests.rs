use jugar_web::simulation::{
    check_counter_invariants, chrono_lite_timestamp, timestamp_text, InvariantViolation, TestTier,
};

#[test]
fn test_test_tier_default() {
    assert_eq!(TestTier::default(), TestTier::Smoke);
}

#[test]
fn tier_names() {
    assert_eq!(TestTier::from_tier_name(Some("smoke")), TestTier::Smoke);
    assert_eq!(TestTier::from_tier_name(Some("regression")), TestTier::Regression);
    assert_eq!(TestTier::from_tier_name(Some("full")), TestTier::Full);
    assert_eq!(TestTier::from_tier_name(Some("FULL")), TestTier::Smoke);
    assert_eq!(TestTier::from_tier_name(Some("")), TestTier::Smoke);
    assert_eq!(TestTier::from_tier_name(None), TestTier::Smoke);
}

#[test]
fn test_invariant_violation_display() {
    assert_eq!(InvariantViolation::BallPositionNaN.message(), "Ball position is NaN");
    assert_eq!(InvariantViolation::BallPositionInfinite.message(), "Ball position is infinite");
    assert_eq!(InvariantViolation::PaddleOutOfBounds.message(), "Paddle is out of bounds");
    assert_eq!(InvariantViolation::ScoreOverflow.message(), "Score overflow");
    assert_eq!(InvariantViolation::RallyOverflow.message(), "Rally overflow");
    assert_eq!(InvariantViolation::VelocityNaN.message(), "Velocity is NaN");
    assert_eq!(InvariantViolation::VelocityInfinite.message(), "Velocity is infinite");
}

#[test]
fn counter_invariants() {
    assert_eq!(check_counter_invariants(5, 3, 10), Ok(()));
    assert_eq!(check_counter_invariants(1000, 1000, 100_000), Ok(()));
    assert_eq!(check_counter_invariants(1001, 0, 0), Err(InvariantViolation::ScoreOverflow));
    assert_eq!(check_counter_invariants(0, 1001, 0), Err(InvariantViolation::ScoreOverflow));
    assert_eq!(check_counter_invariants(0, 0, 100_001), Err(InvariantViolation::RallyOverflow));
    assert_eq!(check_counter_invariants(2000, 0, 200_000), Err(InvariantViolation::ScoreOverflow));
}

#[test]
fn test_chrono_lite_timestamp() {
    let ts1 = chrono_lite_timestamp();
    let ts2 = chrono_lite_timestamp();
    let n1: u64 = ts1.parse().unwrap();
    let n2: u64 = ts2.parse().unwrap();
    assert!(n2 >= n1);
    assert!(n2 - n1 <= 1);
}

#[test]
fn timestamp_is_plain_decimal_after_2020() {
    let ts = chrono_lite_timestamp();
    assert!(ts.chars().all(|c| c.is_ascii_digit()));
    assert!(!ts.starts_with('0'));
    let n: u64 = ts.parse().unwrap();
    assert!(n > 1_577_836_800);
}

#[test]
fn timestamp_text_of_clock_readings() {
    assert_eq!(timestamp_text(Some(1_700_000_000)), "1700000000");
    assert_eq!(timestamp_text(Some(0)), "0");
    assert_eq!(timestamp_text(None), "0");
}
