use nevo_contract::contract::Contract;
use nevo_contract::types::{Authorization, ContractError, PoolState, Transfer};

const CREATOR: u64 = 1;
const DONOR: u64 = 2;
const STUDENT: u64 = 3;
const ADMIN: u64 = 10;
const TOKEN: u64 = 100;

fn everyone() -> Authorization {
    Authorization::everyone()
}

fn pool(c: &mut Contract, title: &str, description: &str, goal: u128) -> u32 {
    c.create_pool(CREATOR, title.to_string(), description.to_string(), goal, 100_000u64)
        .unwrap()
        .0
}

// ============= BASIC POOL TESTS =============

#[test]
fn test_create_pool() {
    let mut c = Contract::new();
    let pool_id = pool(&mut c, "Emergency Relief Fund", "Helping those in need", 1_000_000_000u128);

    assert_eq!(pool_id, 1);
    let p = c.get_pool(pool_id).unwrap();
    assert_eq!(p.0, 1);
    assert_eq!(p.1, CREATOR);
    assert_eq!(p.2, 1_000_000_000u128);
    assert_eq!(p.3, 0u128);
    assert_eq!(p.4, false);
}

#[test]
fn test_donate() {
    let mut c = Contract::new();
    let pool_id = pool(&mut c, "Educational Scholarship", "Support for students", 10_000_000_000u128);

    c.donate(pool_id, DONOR, 100_000_000u128).unwrap();
    let p = c.get_pool(pool_id).unwrap();
    assert_eq!(p.3, 100_000_000u128);
}

#[test]
fn test_multiple_donations() {
    let mut c = Contract::new();
    let pool_id = pool(&mut c, "Community Project", "Building together", 5_000_000_000u128);

    c.donate(pool_id, 21, 100_000_000u128).unwrap();
    c.donate(pool_id, 22, 200_000_000u128).unwrap();
    let p = c.get_pool(pool_id).unwrap();
    assert_eq!(p.3, 300_000_000u128);
}

#[test]
fn test_close_pool() {
    let mut c = Contract::new();
    let pool_id = pool(&mut c, "Closed Pool", "Test pool", 1_000_000_000u128);
    c.set_pool_state(pool_id, PoolState::Disbursed).unwrap();
    c.close_pool(&everyone(), pool_id).unwrap();
    let p = c.get_pool(pool_id).unwrap();
    assert_eq!(p.4, true);
}

#[test]
fn test_donate_to_closed_pool() {
    let mut c = Contract::new();
    let pool_id = pool(&mut c, "Test Pool", "Test", 1_000_000_000u128);
    c.set_pool_state(pool_id, PoolState::Disbursed).unwrap();
    c.close_pool(&everyone(), pool_id).unwrap();
    let err = c.donate(pool_id, DONOR, 100_000_000u128).unwrap_err();
    assert_eq!(err, ContractError::PoolClosed);
    assert_eq!(err.message(), "Pool is closed");
}

#[test]
fn test_close_pool_unauthorized() {
    let mut c = Contract::new();
    let unauthorized: u64 = 99;
    let pool_id = pool(&mut c, "Test Pool", "Test", 1_000_000_000u128);
    let err = c.close_pool(&Authorization::signed_by(vec![unauthorized]), pool_id).unwrap_err();
    assert_eq!(err, ContractError::Unauthorized);
    assert!(err.message().contains("Error(Auth, InvalidAction)"));
}

#[test]
fn test_multiple_pools() {
    let mut c = Contract::new();
    let pool_id_1 = c
        .create_pool(31, "Pool 1".to_string(), "First pool".to_string(), 1_000_000_000u128, 100_000u64)
        .unwrap()
        .0;
    let pool_id_2 = c
        .create_pool(32, "Pool 2".to_string(), "Second pool".to_string(), 2_000_000_000u128, 100_000u64)
        .unwrap()
        .0;

    assert_eq!(pool_id_1, 1);
    assert_eq!(pool_id_2, 2);
    assert_eq!(c.get_pool_count(), 2);
}

#[test]
fn test_try_get_pool_returns_none_for_missing_pool() {
    let c = Contract::new();
    let missing = c.get_pool(999);
    assert_eq!(missing, Err(ContractError::PoolNotFound));
}

#[test]
fn test_get_total_raised_starts_at_zero() {
    let mut c = Contract::new();
    let pool_id = pool(&mut c, "Fresh Pool", "No donations yet", 1_000_000_000u128);
    assert_eq!(c.get_total_raised(pool_id), Ok(0));
}

#[test]
fn test_get_total_raised_rejects_missing_pool() {
    let c = Contract::new();
    let err = c.get_total_raised(999).unwrap_err();
    assert_eq!(err, ContractError::PoolNotFound);
    assert_eq!(err.message(), "Pool not found");
}

#[test]
fn test_pool_description_exceeds_max_length() {
    let mut c = Contract::new();
    let long_desc = "x".repeat(501);
    let err = c
        .create_pool(CREATOR, "Title".to_string(), long_desc, 1_000_000_000u128, 100_000u64)
        .unwrap_err();
    assert_eq!(err, ContractError::DescriptionTooLong);
    assert_eq!(err.message(), "Description exceeds maximum length");
    assert_eq!(c.get_pool_count(), 0);
}

// ============= CLAIM FUNDS TESTS =============

#[test]
fn test_claim_funds_no_status() {
    let mut c = Contract::new();
    let pool_id = pool(&mut c, "Test Pool", "Test", 1_000_000_000u128);
    c.donate(pool_id, CREATOR, 500_000_000u128).unwrap();
    let err = c.claim_funds(&everyone(), STUDENT, pool_id, 100_000_000i128, TOKEN).unwrap_err();
    assert_eq!(err, ContractError::StatusNotFound);
    assert_eq!(err.message(), "Application status not found");
}

#[test]
fn test_claim_funds_rejected_application() {
    let mut c = Contract::new();
    let pool_id = pool(&mut c, "Test Pool", "Test", 1_000_000_000u128);
    c.donate(pool_id, CREATOR, 500_000_000u128).unwrap();
    c.set_application_status(pool_id, STUDENT, "Rejected".to_string());
    let err = c.claim_funds(&everyone(), STUDENT, pool_id, 100_000_000i128, TOKEN).unwrap_err();
    assert_eq!(err, ContractError::NotApproved);
    assert_eq!(err.message(), "Application is not approved");
}

#[test]
fn test_claim_funds_overdraw() {
    let mut c = Contract::new();
    let pool_id = pool(&mut c, "Test Pool", "Test", 1_000_000_000u128);
    c.donate(pool_id, CREATOR, 100_000_000u128).unwrap();
    c.set_application_status(pool_id, STUDENT, "Approved".to_string());
    let err = c.claim_funds(&everyone(), STUDENT, pool_id, 500_000_000i128, TOKEN).unwrap_err();
    assert_eq!(err, ContractError::Overdraw);
    assert_eq!(err.message(), "Overdraw attempt");
}

#[test]
fn test_claim_funds_negative_amount() {
    let mut c = Contract::new();
    let pool_id = pool(&mut c, "Test Pool", "Test", 1_000_000_000u128);
    c.donate(pool_id, CREATOR, 500_000_000u128).unwrap();
    c.set_application_status(pool_id, STUDENT, "Approved".to_string());
    let err = c.claim_funds(&everyone(), STUDENT, pool_id, -100_000_000i128, TOKEN).unwrap_err();
    assert_eq!(err, ContractError::ClaimAmountNotPositive);
    assert_eq!(err.message(), "Claim amount must be positive");
}

#[test]
fn test_get_claimed_amount_initial_zero() {
    let mut c = Contract::new();
    let pool_id = pool(&mut c, "Test Pool", "Test", 1_000_000_000u128);
    assert_eq!(c.get_claimed_amount(pool_id, STUDENT), 0);
}

#[test]
fn test_get_application_status() {
    let mut c = Contract::new();
    let pool_id = pool(&mut c, "Test Pool", "Test", 1_000_000_000u128);

    assert_eq!(c.get_application_status(pool_id, STUDENT), "".to_string());

    let approved = "Approved".to_string();
    c.set_application_status(pool_id, STUDENT, approved.clone());
    assert_eq!(c.get_application_status(pool_id, STUDENT), approved);
}

// ============= PROTOCOL FEES TESTS =============

#[test]
fn test_protocol_fees_accumulation_on_claim() {
    let mut c = Contract::new();
    let claim_amount: i128 = 100_000_000;
    c.set_admin(&everyone(), ADMIN).unwrap();
    let pool_id = pool(&mut c, "Test Pool", "Test", 1_000_000_000u128);
    c.donate(pool_id, CREATOR, 500_000_000u128).unwrap();
    c.set_application_status(pool_id, STUDENT, "Approved".to_string());
    let transfer = c.claim_funds(&everyone(), STUDENT, pool_id, claim_amount, TOKEN).unwrap();
    assert_eq!(transfer, Transfer::FromContract { token: TOKEN, to: STUDENT, amount: 99_000_000 });

    let app = c.get_application(pool_id, STUDENT);
    assert!(app.is_some());
}

#[test]
fn test_claim_protocol_fees_requires_admin_authorization() {
    let mut c = Contract::new();
    let non_admin: u64 = 11;
    c.set_admin(&everyone(), ADMIN).unwrap();
    let err = c.claim_protocol_fees(&everyone(), non_admin, TOKEN).unwrap_err();
    assert_eq!(err, ContractError::UnauthorizedAdmin);
    assert_eq!(err.message(), "Unauthorized admin");
}

#[test]
fn test_claim_protocol_fees_no_fees() {
    let mut c = Contract::new();
    c.set_admin(&everyone(), ADMIN).unwrap();
    let err = c.claim_protocol_fees(&everyone(), ADMIN, TOKEN).unwrap_err();
    assert_eq!(err, ContractError::NoUnclaimedFees);
    assert_eq!(err.message(), "No unclaimed fees");
}

#[test]
fn test_claim_protocol_fees_multiple_claims_accumulate() {
    let mut c = Contract::new();
    let student1: u64 = 41;
    let student2: u64 = 42;
    let claim1: i128 = 100_000_000;
    let claim2: i128 = 50_000_000;

    c.set_admin(&everyone(), ADMIN).unwrap();
    let pool_id = pool(&mut c, "Test Pool", "Test", 1_000_000_000u128);
    c.donate(pool_id, CREATOR, 500_000_000u128).unwrap();
    c.set_application_status(pool_id, student1, "Approved".to_string());
    c.set_application_status(pool_id, student2, "Approved".to_string());
    c.claim_funds(&everyone(), student1, pool_id, claim1, TOKEN).unwrap();
    c.claim_funds(&everyone(), student2, pool_id, claim2, TOKEN).unwrap();

    let (fees, transfer) = c.claim_protocol_fees(&everyone(), ADMIN, TOKEN).unwrap();
    assert_eq!(fees, 1_500_000); // 1% of 100M + 1% of 50M
    assert_eq!(transfer, Transfer::FromContract { token: TOKEN, to: ADMIN, amount: 1_500_000 });
}

#[test]
fn test_protocol_fees_reset_after_claim() {
    let mut c = Contract::new();
    let claim_amount: i128 = 100_000_000;
    c.set_admin(&everyone(), ADMIN).unwrap();
    let pool_id = pool(&mut c, "Test Pool", "Test", 1_000_000_000u128);
    c.donate(pool_id, CREATOR, 500_000_000u128).unwrap();
    c.set_application_status(pool_id, STUDENT, "Approved".to_string());
    c.claim_funds(&everyone(), STUDENT, pool_id, claim_amount, TOKEN).unwrap();
    c.claim_protocol_fees(&everyone(), ADMIN, TOKEN).unwrap();
    // A second claim is refused.
    let err = c.claim_protocol_fees(&everyone(), ADMIN, TOKEN).unwrap_err();
    assert_eq!(err, ContractError::NoUnclaimedFees);
    assert_eq!(err.message(), "No unclaimed fees");
}

// ============= DONOR COUNT TRACKING TESTS =============

#[test]
fn test_new_campaign_has_zero_donors() {
    let mut c = Contract::new();
    let pool_id = pool(&mut c, "Test Pool", "Description", 1_000_000_000u128);
    assert_eq!(c.get_donor_count(pool_id), Ok(0));
}
