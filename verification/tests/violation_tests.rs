use commitment_core::commitment::{Commitment, CommitmentStatus};
use commitment_core::errors::CommitmentError;
use commitment_core::rules::{CommitmentKind, CommitmentRules};
use commitment_core::store::CommitmentCore;
use commitment_core::violation::{commitment_violations, violation_details};

// Helper mirroring a stored test commitment: the given principal amounts and
// rule bounds, expiring `duration_days` days after `created_at`.
fn create_test_commitment(
    commitment_id: u64,
    owner: u64,
    amount: i128,
    current_value: i128,
    max_loss_percent: u32,
    duration_days: u32,
    created_at: u64,
) -> Commitment {
    let expires_at = created_at + (duration_days as u64 * 86400); // days to seconds

    Commitment {
        commitment_id,
        owner,
        nft_token_id: 1,
        rules: CommitmentRules {
            duration_days,
            max_loss_percent,
            commitment_type: CommitmentKind::Balanced,
            early_exit_penalty: 10,
            min_fee_threshold: 1000,
        },
        amount,
        asset_address: 42,
        created_at,
        expires_at,
        current_value,
        status: CommitmentStatus::Active,
    }
}

#[test]
fn test_check_violations_no_violations() {
    // Initial: 1000, Current: 950 (5% loss), Max loss: 10%, Duration: 30 days
    let created_at = 1000u64;
    let commitment = create_test_commitment(
        1, 7, 1000, 950, // 5% loss
        10, // max 10% loss allowed
        30, // 30 days duration
        created_at,
    );

    // 15 days later (halfway through)
    let now = created_at + (15 * 86400);
    let has_violations = commitment_violations(&commitment, now);

    assert!(!has_violations, "Should not have violations");
}

#[test]
fn test_check_violations_loss_limit_exceeded() {
    // Initial: 1000, Current: 850 (15% loss), Max loss: 10%
    let created_at = 1000u64;
    let commitment = create_test_commitment(
        2, 7, 1000, 850, // 15% loss - exceeds 10% limit
        10, // max 10% loss allowed
        30, created_at,
    );

    // 5 days later (still within duration)
    let now = created_at + (5 * 86400);
    let has_violations = commitment_violations(&commitment, now);

    assert!(has_violations, "Should have loss limit violation");
}

#[test]
fn test_check_violations_duration_expired() {
    let created_at = 1000u64;
    let commitment = create_test_commitment(
        3, 7, 1000, 980, // 2% loss - within limit
        10, // max 10% loss allowed
        30, // 30 days duration
        created_at,
    );

    // 31 days later (expired)
    let now = created_at + (31 * 86400);
    let has_violations = commitment_violations(&commitment, now);

    assert!(has_violations, "Should have duration violation");
}

#[test]
fn test_check_violations_both_violations() {
    let created_at = 1000u64;
    let commitment = create_test_commitment(
        4, 7, 1000, 800, // 20% loss - exceeds limit
        10, // max 10% loss allowed
        30, created_at,
    );

    // 31 days later (expired)
    let now = created_at + (31 * 86400);
    let has_violations = commitment_violations(&commitment, now);

    assert!(has_violations, "Should have both violations");
}

#[test]
fn test_get_violation_details_no_violations() {
    let created_at = 1000u64;
    let commitment = create_test_commitment(
        5, 7, 1000, 950, // 5% loss
        10, // max 10% loss
        30, created_at,
    );

    let now = created_at + (15 * 86400);
    let (has_violations, loss_violated, duration_violated, loss_percent, time_remaining) =
        violation_details(&commitment, now);

    assert!(!has_violations, "Should not have violations");
    assert!(!loss_violated, "Loss should not be violated");
    assert!(!duration_violated, "Duration should not be violated");
    assert_eq!(loss_percent, 5, "Loss percent should be 5%");
    assert!(time_remaining > 0, "Time should remain");
}

#[test]
fn test_get_violation_details_loss_violation() {
    let created_at = 1000u64;
    let commitment = create_test_commitment(
        6, 7, 1000, 850, // 15% loss - exceeds 10%
        10, 30, created_at,
    );

    let now = created_at + (10 * 86400);
    let (has_violations, loss_violated, duration_violated, loss_percent, _time_remaining) =
        violation_details(&commitment, now);

    assert!(has_violations, "Should have violations");
    assert!(loss_violated, "Loss should be violated");
    assert!(!duration_violated, "Duration should not be violated");
    assert_eq!(loss_percent, 15, "Loss percent should be 15%");
}

#[test]
fn test_get_violation_details_duration_violation() {
    let created_at = 1000u64;
    let commitment = create_test_commitment(
        7, 7, 1000, 980, // 2% loss - within limit
        10, 30, created_at,
    );

    // 31 days later (expired)
    let now = created_at + (31 * 86400);
    let (has_violations, loss_violated, duration_violated, _loss_percent, time_remaining) =
        violation_details(&commitment, now);

    assert!(has_violations, "Should have violations");
    assert!(!loss_violated, "Loss should not be violated");
    assert!(duration_violated, "Duration should be violated");
    assert_eq!(time_remaining, 0, "Time remaining should be 0");
}

#[test]
fn test_check_violations_not_found() {
    let core = CommitmentCore::new();
    let r = core.check_violations(1, 1000);
    assert_eq!(r, Err(CommitmentError::NotFound));
}

#[test]
fn test_check_violations_edge_case_exact_loss_limit() {
    // Test exactly at the loss limit (should not violate)
    let created_at = 1000u64;
    let commitment = create_test_commitment(
        8, 7, 1000, 900, // Exactly 10% loss
        10, // max 10% loss
        30, created_at,
    );

    let now = created_at + (15 * 86400);
    let has_violations = commitment_violations(&commitment, now);

    // Exactly at limit should not violate (uses > not >=)
    assert!(!has_violations, "Exactly at limit should not violate");
}

#[test]
fn test_check_violations_edge_case_exact_expiry() {
    let created_at = 1000u64;
    let commitment = create_test_commitment(9, 7, 1000, 950, 10, 30, created_at);

    // Exactly at expires_at
    let now = commitment.expires_at;
    let has_violations = commitment_violations(&commitment, now);

    // At expiry time, should be violated (uses >=)
    assert!(has_violations, "At expiry time should violate");
}

#[test]
fn test_check_violations_zero_amount() {
    // Edge case: zero amount (should not cause division by zero)
    let created_at = 1000u64;
    let commitment = create_test_commitment(
        10, 7, 0, // zero amount
        0, // zero value
        10, 30, created_at,
    );

    let now = created_at + (15 * 86400);
    let has_violations = commitment_violations(&commitment, now);

    // Should not panic and should only check duration
    assert!(!has_violations, "Zero amount should not cause issues");
}

#[test]
fn loss_boundary_one_below_threshold_value() {
    // 1000 locked with max loss 10%: value 900 is exactly at the limit and
    // does not violate; 899 pushes the truncated percentage to 10 as well...
    // (1000-899)*100/1000 = 10 truncated, still not a violation; 889 gives 11.
    let created_at = 1000u64;
    let now = created_at + 86400;

    let at_limit = create_test_commitment(11, 7, 1000, 900, 10, 30, created_at);
    assert!(!commitment_violations(&at_limit, now));

    let (_, loss_violated_899, _, loss_percent_899, _) =
        violation_details(&create_test_commitment(12, 7, 1000, 899, 10, 30, created_at), now);
    assert_eq!(loss_percent_899, 10);
    assert!(!loss_violated_899);

    let (_, loss_violated_889, _, loss_percent_889, _) =
        violation_details(&create_test_commitment(13, 7, 1000, 889, 10, 30, created_at), now);
    assert_eq!(loss_percent_889, 11);
    assert!(loss_violated_889);
}

#[test]
fn duration_boundary_one_second_before_expiry() {
    let created_at = 1000u64;
    let commitment = create_test_commitment(14, 7, 1000, 950, 10, 30, created_at);

    let just_before = commitment.expires_at - 1;
    assert!(!commitment_violations(&commitment, just_before));
    assert!(commitment_violations(&commitment, commitment.expires_at));
}

#[test]
fn resolved_commitment_reports_no_violations() {
    let created_at = 1000u64;
    let mut commitment = create_test_commitment(15, 7, 1000, 500, 10, 30, created_at);
    commitment.status = CommitmentStatus::Settled;

    // Deep in loss and past expiry, but already resolved.
    let now = created_at + (60 * 86400);
    assert!(!commitment_violations(&commitment, now));

    // The detailed report still evaluates the rules themselves.
    let (has, loss, duration, percent, remaining) = violation_details(&commitment, now);
    assert!(has && loss && duration);
    assert_eq!(percent, 50);
    assert_eq!(remaining, 0);
}

#[test]
fn gain_reports_negative_truncated_percentage() {
    let created_at = 1000u64;
    let now = created_at + 86400;

    // 10% gain: (1000 - 1100) * 100 / 1000 truncates to -10.
    let gained = create_test_commitment(16, 7, 1000, 1100, 10, 30, created_at);
    let (_, loss_violated, _, loss_percent, _) = violation_details(&gained, now);
    assert_eq!(loss_percent, -10);
    assert!(!loss_violated);

    // A small gain truncates toward zero.
    let slight = create_test_commitment(17, 7, 1000, 1005, 10, 30, created_at);
    let (_, _, _, slight_percent, _) = violation_details(&slight, now);
    assert_eq!(slight_percent, 0);
}
