use nevo_contract::contract::{to_signed, Contract};
use nevo_contract::types::{
    Application, Authorization, ContractError, Event, Milestone, PoolState, Transfer,
};

const SPONSOR: u64 = 1;
const DONOR_A: u64 = 2;
const DONOR_B: u64 = 3;
const STUDENT: u64 = 4;
const SCHOOL: u64 = 5;
const ADMIN: u64 = 10;
const TOKEN: u64 = 100;

fn all() -> Authorization {
    Authorization::everyone()
}

fn only(who: u64) -> Authorization {
    Authorization::signed_by(vec![who])
}

fn new_pool(c: &mut Contract, goal: u128) -> u32 {
    c.create_pool(SPONSOR, "Title".to_string(), "Description".to_string(), goal, 7)
        .unwrap()
        .0
}

#[test]
fn authorization_permits_only_signers() {
    let a = Authorization::signed_by(vec![1, 2]);
    assert!(a.permits(1));
    assert!(a.permits(2));
    assert!(!a.permits(3));
    assert!(Authorization::everyone().permits(12345));
}

#[test]
fn create_pool_event_and_metadata() {
    let mut c = Contract::new();
    let (id, ev) = c
        .create_pool(SPONSOR, "Fund".to_string(), "For books".to_string(), 500, 42)
        .unwrap();
    assert_eq!(id, 1);
    assert_eq!(
        ev,
        Event::PoolCreated {
            pool_id: 1,
            sponsor: SPONSOR,
            goal: 500,
            title: "Fund".to_string(),
            description: "For books".to_string(),
        }
    );
    assert_eq!(c.get_pool(1), Ok((1, SPONSOR, 500, 0, false, 42)));
    assert_eq!(c.get_pool_metadata(1), ("Fund".to_string(), "For books".to_string()));
    assert_eq!(c.get_pool_metadata(2), (String::new(), String::new()));
}

#[test]
fn description_of_exactly_max_length_is_accepted() {
    let mut c = Contract::new();
    let desc = "y".repeat(500);
    assert!(c.create_pool(SPONSOR, "T".to_string(), desc, 1, 1).is_ok());
    // the limit counts bytes: 250 two-byte characters are 500 bytes
    let two_byte = "é".repeat(250);
    assert!(c.create_pool(SPONSOR, "T".to_string(), two_byte, 1, 1).is_ok());
    let too_long = "é".repeat(251);
    assert_eq!(
        c.create_pool(SPONSOR, "T".to_string(), too_long, 1, 1),
        Err(ContractError::DescriptionTooLong)
    );
}

#[test]
fn schools_and_school_pools() {
    let mut c = Contract::new();
    assert_eq!(c.register_school(&all(), ADMIN, SCHOOL), Err(ContractError::AdminNotSet));
    c.set_admin(&only(ADMIN), ADMIN).unwrap();
    assert_eq!(c.set_admin(&only(ADMIN), 77), Err(ContractError::Unauthorized));
    assert_eq!(c.register_school(&all(), 77, SCHOOL), Err(ContractError::UnauthorizedAdmin));
    assert_eq!(c.register_school(&only(77), ADMIN, SCHOOL), Err(ContractError::Unauthorized));
    assert!(!c.is_school_registered(SCHOOL));
    c.register_school(&only(ADMIN), ADMIN, SCHOOL).unwrap();
    assert!(c.is_school_registered(SCHOOL));

    assert_eq!(
        c.create_pool_for_school(&all(), SPONSOR, "T".to_string(), "D".to_string(), 10, 99, 0),
        Err(ContractError::SchoolNotRegistered)
    );
    assert_eq!(
        c.create_pool_for_school(&only(DONOR_A), SPONSOR, "T".to_string(), "D".to_string(), 10, SCHOOL, 0),
        Err(ContractError::Unauthorized)
    );
    let (id, _) = c
        .create_pool_for_school(&only(SPONSOR), SPONSOR, "T".to_string(), "D".to_string(), 10, SCHOOL, 0)
        .unwrap();
    assert_eq!(c.get_pool_school(id), Ok(SCHOOL));
    let plain = new_pool(&mut c, 10);
    assert_eq!(c.get_pool_school(plain), Err(ContractError::PoolSchoolNotSet));
}

#[test]
fn donor_count_counts_distinct_donors() {
    let mut c = Contract::new();
    let id = new_pool(&mut c, 1_000);
    c.donate(id, DONOR_A, 10).unwrap();
    c.donate(id, DONOR_A, 20).unwrap();
    assert_eq!(c.get_donor_count(id), Ok(1));
    c.donate(id, DONOR_B, 5).unwrap();
    assert_eq!(c.get_donor_count(id), Ok(2));
    assert_eq!(c.get_contribution(id, DONOR_A), Ok(30));
    assert_eq!(c.get_contribution(id, DONOR_B), Ok(5));
    assert_eq!(c.get_total_raised(id), Ok(35));
    assert_eq!(c.get_donor_count(99), Err(ContractError::PoolNotFound));
    assert_eq!(c.get_contribution(99, DONOR_A), Err(ContractError::PoolNotFound));
}

#[test]
fn donation_event_reports_new_total() {
    let mut c = Contract::new();
    let id = new_pool(&mut c, 1_000);
    c.donate(id, DONOR_A, 10).unwrap();
    let ev = c.donate(id, DONOR_B, 15).unwrap();
    assert_eq!(ev, Event::Donation { pool_id: id, donor: DONOR_B, amount: 15, collected: 25 });
}

#[test]
fn donation_refused_unless_active_and_open() {
    let mut c = Contract::new();
    assert_eq!(c.donate(1, DONOR_A, 1), Err(ContractError::PoolNotFound));
    let id = new_pool(&mut c, 1_000);
    c.set_pool_state(id, PoolState::Paused).unwrap();
    assert_eq!(c.donate(id, DONOR_A, 1), Err(ContractError::InvalidPoolState));
    assert_eq!(c.set_pool_state(9, PoolState::Active), Err(ContractError::PoolNotFound));
}

#[test]
fn donation_overflow_is_refused_and_changes_nothing() {
    let mut c = Contract::new();
    let id = new_pool(&mut c, 1_000);
    c.donate(id, DONOR_A, u128::MAX - 5).unwrap();
    assert_eq!(c.donate(id, DONOR_B, 10), Err(ContractError::ArithmeticOverflow));
    assert_eq!(c.get_total_raised(id), Ok(u128::MAX - 5));
    assert_eq!(c.get_donor_count(id), Ok(1));
    assert_eq!(c.get_contribution(id, DONOR_B), Ok(0));
}

#[test]
fn token_donation_moves_tokens_in() {
    let mut c = Contract::new();
    let id = new_pool(&mut c, 1_000);
    assert_eq!(c.donate_with_token(&only(DONOR_B), id, DONOR_A, TOKEN, 5), Err(ContractError::Unauthorized));
    assert_eq!(c.donate_with_token(&all(), id, DONOR_A, TOKEN, 0), Err(ContractError::InvalidAmount));
    assert_eq!(c.donate_with_token(&all(), id, DONOR_A, TOKEN, -3), Err(ContractError::InvalidAmount));
    let (t, ev) = c.donate_with_token(&only(DONOR_A), id, DONOR_A, TOKEN, 40).unwrap();
    assert_eq!(t, Transfer::ToContract { token: TOKEN, from: DONOR_A, amount: 40 });
    assert_eq!(
        ev,
        Event::Contribution { pool_id: id, donor: DONOR_A, amount: 40, collected: 40, private: true }
    );
    assert_eq!(c.get_contribution(id, DONOR_A), Ok(40));
    assert_eq!(c.get_donor_count(id), Ok(1));
}

#[test]
fn token_donation_collected_overflow() {
    let mut c = Contract::new();
    let id = new_pool(&mut c, 1_000);
    c.donate(id, DONOR_A, u128::MAX).unwrap();
    assert_eq!(c.donate_with_token(&all(), id, DONOR_B, TOKEN, 1), Err(ContractError::CollectedOverflow));
    assert_eq!(ContractError::CollectedOverflow.message(), "Collected amount overflow");
}

#[test]
fn close_pool_requires_settled_state() {
    let mut c = Contract::new();
    let id = new_pool(&mut c, 1_000);
    assert_eq!(c.close_pool(&all(), id), Err(ContractError::PoolNotDisbursedOrRefunded));
    c.set_pool_state(id, PoolState::Cancelled).unwrap();
    c.donate(id, DONOR_A, 1).unwrap_err();
    let ev = c.close_pool(&only(SPONSOR), id).unwrap();
    assert_eq!(ev, Event::PoolClosed { pool_id: id, sponsor: SPONSOR, collected: 0 });
    assert_eq!(c.close_pool(&all(), 77), Err(ContractError::PoolNotFound));
}

#[test]
fn refund_waits_for_deadline_and_grace() {
    let mut c = Contract::new();
    let id = new_pool(&mut c, 1_000);
    c.donate(id, DONOR_A, 300).unwrap();
    c.donate(id, DONOR_B, 200).unwrap();
    // no deadline yet
    assert_eq!(c.refund_donation(&all(), id, DONOR_A, TOKEN, 1_000_000), Err(ContractError::PoolNotExpired));
    assert_eq!(c.set_pool_deadline(&all(), id, 50, 50), Err(ContractError::DeadlineNotInFuture));
    assert_eq!(c.set_pool_deadline(&only(DONOR_A), id, 100, 50), Err(ContractError::Unauthorized));
    c.set_pool_deadline(&only(SPONSOR), id, 100, 50).unwrap();
    assert_eq!(c.get_pool_deadline(id), 100);
    assert_eq!(c.get_pool_deadline(42), 0);
    // at the deadline, inside the grace period, one ledger short of its end
    assert_eq!(c.refund_donation(&all(), id, DONOR_A, TOKEN, 100), Err(ContractError::PoolNotExpired));
    assert_eq!(c.refund_donation(&all(), id, DONOR_A, TOKEN, 101), Err(ContractError::PoolNotExpired));
    assert_eq!(c.refund_donation(&all(), id, DONOR_A, TOKEN, 17_379), Err(ContractError::PoolNotExpired));
    // exactly at the end of the grace period
    let t = c.refund_donation(&only(DONOR_A), id, DONOR_A, TOKEN, 17_380).unwrap();
    assert_eq!(t, Transfer::FromContract { token: TOKEN, to: DONOR_A, amount: 300 });
    assert_eq!(c.get_contribution(id, DONOR_A), Ok(0));
    assert_eq!(c.get_total_raised(id), Ok(200));
    assert_eq!(
        c.refund_donation(&all(), id, DONOR_A, TOKEN, 17_380),
        Err(ContractError::NoContribution)
    );
    assert_eq!(c.refund_donation(&only(DONOR_B), id, DONOR_A, TOKEN, 17_380), Err(ContractError::Unauthorized));
}

#[test]
fn refund_deadline_near_top_of_range_is_inside_grace() {
    let mut c = Contract::new();
    let id = new_pool(&mut c, 1_000);
    c.donate(id, DONOR_A, 10).unwrap();
    c.set_pool_deadline(&all(), id, u32::MAX - 5, 100).unwrap();
    assert_eq!(
        c.refund_donation(&all(), id, DONOR_A, TOKEN, u32::MAX),
        Err(ContractError::PoolNotExpired)
    );
    assert_eq!(c.get_contribution(id, DONOR_A), Ok(10));
}

#[test]
fn refund_at_last_ledger_after_grace() {
    let mut c = Contract::new();
    let id = new_pool(&mut c, 1_000);
    c.donate(id, DONOR_A, 10).unwrap();
    c.set_pool_deadline(&all(), id, u32::MAX - 17_280, 100).unwrap();
    assert_eq!(
        c.refund_donation(&all(), id, DONOR_A, TOKEN, u32::MAX - 1),
        Err(ContractError::PoolNotExpired)
    );
    let t = c.refund_donation(&all(), id, DONOR_A, TOKEN, u32::MAX).unwrap();
    assert_eq!(t, Transfer::FromContract { token: TOKEN, to: DONOR_A, amount: 10 });
}

#[test]
fn claims_never_exceed_approved_amount() {
    let mut c = Contract::new();
    let id = new_pool(&mut c, 1_000);
    c.donate(id, DONOR_A, 100).unwrap();
    c.set_application_status(id, STUDENT, "Approved".to_string());
    c.claim_funds(&all(), STUDENT, id, 50, TOKEN).unwrap();
    assert_eq!(
        c.get_application(id, STUDENT),
        Some(Application { approved_amount: 100, amount_claimed: 50 })
    );
    c.donate(id, DONOR_B, 100).unwrap();
    // the pool now holds 200, but the student was approved for 100
    assert_eq!(c.claim_funds(&all(), STUDENT, id, 100, TOKEN), Err(ContractError::Overdraw));
    assert_eq!(c.get_claimed_amount(id, STUDENT), 50);
    c.claim_funds(&all(), STUDENT, id, 50, TOKEN).unwrap();
    assert_eq!(
        c.get_application(id, STUDENT),
        Some(Application { approved_amount: 100, amount_claimed: 100 })
    );
    assert_eq!(c.claim_funds(&all(), STUDENT, id, 1, TOKEN), Err(ContractError::Overdraw));
}

#[test]
fn applications_and_decisions() {
    let mut c = Contract::new();
    c.set_admin(&all(), ADMIN).unwrap();
    c.register_school(&all(), ADMIN, SCHOOL).unwrap();
    let (id, _) = c
        .create_pool_for_school(&all(), SPONSOR, "T".to_string(), "D".to_string(), 100, SCHOOL, 0)
        .unwrap();
    assert_eq!(
        c.apply_to_pool(&all(), 99, STUDENT, "essay".to_string()),
        Err(ContractError::PoolNotFound)
    );
    let ev = c.apply_to_pool(&only(STUDENT), id, STUDENT, "essay".to_string()).unwrap();
    assert_eq!(ev, Event::ApplicationSubmitted { pool_id: id, student: STUDENT, index: 1, private: false });
    assert_eq!(c.get_application_status(id, STUDENT), "Pending".to_string());
    assert_eq!(
        c.apply_to_pool(&all(), id, STUDENT, "again".to_string()),
        Err(ContractError::DuplicateApplication)
    );
    let ev2 = c.apply_to_pool(&all(), id, 8, "other".to_string()).unwrap();
    assert_eq!(ev2, Event::ApplicationSubmitted { pool_id: id, student: 8, index: 2, private: false });

    assert_eq!(
        c.approve_application(&all(), id, 77, STUDENT, true),
        Err(ContractError::OnlyLinkedSchool)
    );
    assert_eq!(
        c.approve_application(&all(), id, SCHOOL, 9, true),
        Err(ContractError::StudentNotApplied)
    );
    assert_eq!(
        c.approve_application(&all(), 55, SCHOOL, STUDENT, true),
        Err(ContractError::PoolSchoolNotSet)
    );
    c.approve_application(&only(SCHOOL), id, SCHOOL, STUDENT, true).unwrap();
    assert_eq!(c.get_application_status(id, STUDENT), "Approved".to_string());
    c.approve_application(&all(), id, SCHOOL, 8, false).unwrap();
    assert_eq!(c.get_application_status(id, 8), "Rejected".to_string());
}

#[test]
fn milestones_must_match_goal() {
    let mut c = Contract::new();
    let id = new_pool(&mut c, 100);
    let ms = |amounts: &[u128]| amounts.iter().map(|a| Milestone { amount: *a }).collect::<Vec<_>>();
    assert_eq!(
        c.setup_application_milestones(&all(), id, STUDENT, Vec::new()),
        Err(ContractError::MilestonesRequired)
    );
    assert_eq!(
        c.setup_application_milestones(&all(), id, STUDENT, ms(&[40, 50])),
        Err(ContractError::MilestoneTotalMismatch)
    );
    assert_eq!(
        c.setup_application_milestones(&all(), id, STUDENT, ms(&[u128::MAX, 1])),
        Err(ContractError::MilestoneOverflow)
    );
    assert_eq!(
        c.setup_application_milestones(&all(), 9, STUDENT, ms(&[100])),
        Err(ContractError::PoolNotFound)
    );
    assert_eq!(c.get_milestones(id, STUDENT), Vec::new());
    c.setup_application_milestones(&only(STUDENT), id, STUDENT, ms(&[40, 60])).unwrap();
    assert_eq!(c.get_milestones(id, STUDENT), ms(&[40, 60]));
}

#[test]
fn claims_stream_until_collected_is_reached() {
    let mut c = Contract::new();
    let id = new_pool(&mut c, 1_000);
    c.donate(id, DONOR_A, 1_000).unwrap();
    c.set_application_status(id, STUDENT, "Approved".to_string());
    let t = c.claim_funds(&all(), STUDENT, id, 250, TOKEN).unwrap();
    assert_eq!(t, Transfer::FromContract { token: TOKEN, to: STUDENT, amount: 248 });
    assert_eq!(c.get_claimed_amount(id, STUDENT), 250);
    assert_eq!(
        c.get_application(id, STUDENT),
        Some(Application { approved_amount: 1_000, amount_claimed: 250 })
    );
    // a claim below one hundred carries no fee
    let t2 = c.claim_funds(&all(), STUDENT, id, 50, TOKEN).unwrap();
    assert_eq!(t2, Transfer::FromContract { token: TOKEN, to: STUDENT, amount: 50 });
    assert_eq!(c.claim_funds(&all(), STUDENT, id, 701, TOKEN), Err(ContractError::Overdraw));
    c.claim_funds(&all(), STUDENT, id, 700, TOKEN).unwrap();
    assert_eq!(c.get_claimed_amount(id, STUDENT), 1_000);
    assert_eq!(c.claim_funds(&only(DONOR_A), STUDENT, id, 1, TOKEN), Err(ContractError::Unauthorized));
    c.set_admin(&all(), ADMIN).unwrap();
    let (fees, _) = c.claim_protocol_fees(&all(), ADMIN, TOKEN).unwrap();
    assert_eq!(fees, 2 + 0 + 7);
}

#[test]
fn claim_for_missing_pool() {
    let mut c = Contract::new();
    c.set_application_status(3, STUDENT, "Approved".to_string());
    assert_eq!(c.claim_funds(&all(), STUDENT, 3, 5, TOKEN), Err(ContractError::PoolNotFound));
}

#[test]
fn withdraw_keeps_locked_funds() {
    let mut c = Contract::new();
    let id = new_pool(&mut c, 1_000);
    c.donate(id, DONOR_A, 1_000).unwrap();
    c.apply_to_pool(&all(), id, STUDENT, "a".to_string()).unwrap();
    c.set_application_status(id, STUDENT, "Approved".to_string());
    c.claim_funds(&all(), STUDENT, id, 400, TOKEN).unwrap();
    // the student's application locks 1000 - 400 = 600 of the 1000 collected
    assert_eq!(c.withdraw_unallocated_funds(&only(DONOR_A), id, TOKEN), Err(ContractError::Unauthorized));
    let t = c.withdraw_unallocated_funds(&only(SPONSOR), id, TOKEN).unwrap();
    assert_eq!(t, Transfer::FromContract { token: TOKEN, to: SPONSOR, amount: 400 });
    assert_eq!(c.get_total_raised(id), Ok(600));
    assert_eq!(c.withdraw_unallocated_funds(&all(), id, TOKEN), Err(ContractError::NoSurplus));
    assert_eq!(c.withdraw_unallocated_funds(&all(), 8, TOKEN), Err(ContractError::PoolNotFound));
}

#[test]
fn withdraw_ignores_rejected_applications() {
    let mut c = Contract::new();
    let id = new_pool(&mut c, 1_000);
    c.donate(id, DONOR_A, 1_000).unwrap();
    c.apply_to_pool(&all(), id, STUDENT, "a".to_string()).unwrap();
    c.set_application_status(id, STUDENT, "Approved".to_string());
    c.claim_funds(&all(), STUDENT, id, 100, TOKEN).unwrap();
    c.set_application_status(id, STUDENT, "Rejected".to_string());
    let t = c.withdraw_unallocated_funds(&all(), id, TOKEN).unwrap();
    assert_eq!(t, Transfer::FromContract { token: TOKEN, to: SPONSOR, amount: 1_000 });
    assert_eq!(c.get_total_raised(id), Ok(0));
}

#[test]
fn withdraw_reports_insolvency() {
    let mut c = Contract::new();
    let id = new_pool(&mut c, 1_000);
    c.donate(id, DONOR_A, 1_000).unwrap();
    c.apply_to_pool(&all(), id, STUDENT, "a".to_string()).unwrap();
    c.set_application_status(id, STUDENT, "Approved".to_string());
    c.claim_funds(&all(), STUDENT, id, 10, TOKEN).unwrap();
    // the donor takes money back after the deadline: collected drops below what is locked
    c.set_pool_deadline(&all(), id, 10, 0).unwrap();
    c.refund_donation(&all(), id, DONOR_A, TOKEN, 20_000).unwrap();
    assert_eq!(c.withdraw_unallocated_funds(&all(), id, TOKEN), Err(ContractError::Insolvency));
    assert_eq!(ContractError::Insolvency.message(), "Insolvency: locked funds exceed collected");
}

#[test]
fn creation_fee_admin_only_and_non_negative() {
    let mut c = Contract::new();
    assert_eq!(c.get_creation_fee(), 0);
    assert_eq!(c.set_creation_fee(&all(), ADMIN, 5), Err(ContractError::AdminNotSet));
    c.set_admin(&all(), ADMIN).unwrap();
    assert_eq!(c.set_creation_fee(&all(), ADMIN, -1), Err(ContractError::InvalidFee));
    assert_eq!(c.set_creation_fee(&all(), 3, 5), Err(ContractError::UnauthorizedAdmin));
    assert_eq!(c.set_creation_fee(&only(ADMIN), ADMIN, 0), Ok(Event::CreationFeeUpdated { fee: 0 }));
    assert_eq!(c.set_creation_fee(&only(ADMIN), ADMIN, 25), Ok(Event::CreationFeeUpdated { fee: 25 }));
    assert_eq!(c.get_creation_fee(), 25);
}

#[test]
fn emergency_withdrawal_after_grace_period() {
    let mut c = Contract::new();
    assert_eq!(
        c.request_emergency_withdraw(&all(), ADMIN, 1, TOKEN, 50, 1_000),
        Err(ContractError::AdminNotSet)
    );
    c.set_admin(&all(), ADMIN).unwrap();
    assert_eq!(
        c.request_emergency_withdraw(&all(), 3, 1, TOKEN, 50, 1_000),
        Err(ContractError::Unauthorized)
    );
    c.request_emergency_withdraw(&only(ADMIN), ADMIN, 1, TOKEN, 50, 1_000).unwrap();
    assert_eq!(
        c.request_emergency_withdraw(&all(), ADMIN, 1, TOKEN, 60, 2_000),
        Err(ContractError::WithdrawalAlreadyRequested)
    );
    assert_eq!(c.execute_emergency_withdraw(1, 1_000 + 86_399), Err(ContractError::GracePeriodNotElapsed));
    assert_eq!(c.execute_emergency_withdraw(1, 500), Err(ContractError::GracePeriodNotElapsed));
    let t = c.execute_emergency_withdraw(1, 1_000 + 86_400).unwrap();
    assert_eq!(t, Transfer::FromContract { token: TOKEN, to: ADMIN, amount: 50 });
    assert_eq!(c.execute_emergency_withdraw(1, 1_000_000), Err(ContractError::WithdrawalNotRequested));
}

#[test]
fn signed_reading_of_large_amounts() {
    assert_eq!(to_signed(5), 5);
    assert_eq!(to_signed(i128::MAX as u128), i128::MAX);
    assert_eq!(to_signed(u128::MAX), -1);
    assert_eq!(to_signed(1u128 << 127), i128::MIN);
}

#[test]
fn error_messages() {
    assert_eq!(ContractError::PoolNotExpired.message(), "PoolNotExpired");
    assert_eq!(ContractError::Unauthorized.message(), "Error(Auth, InvalidAction)");
    assert_eq!(ContractError::MilestoneTotalMismatch.message(), "Milestone total must equal pool goal");
}

#[test]
fn application_refused_again_after_other_operations() {
    let mut c = Contract::new();
    let id = new_pool(&mut c, 1_000);
    c.apply_to_pool(&all(), id, STUDENT, "first".to_string()).unwrap();
    c.set_application_status(id, STUDENT, "Approved".to_string());
    c.donate(id, DONOR_A, 500).unwrap();
    c.claim_funds(&all(), STUDENT, id, 100, TOKEN).unwrap();
    new_pool(&mut c, 5);
    assert_eq!(
        c.apply_to_pool(&all(), id, STUDENT, "second".to_string()),
        Err(ContractError::DuplicateApplication)
    );
    assert_eq!(c.get_application_status(id, STUDENT), "Approved".to_string());
    // the student's next application to another pool is numbered there from one
    let other = new_pool(&mut c, 5);
    let ev = c.apply_to_pool(&all(), other, STUDENT, "x".to_string()).unwrap();
    assert_eq!(ev, Event::ApplicationSubmitted { pool_id: other, student: STUDENT, index: 1, private: false });
}

#[test]
fn refund_without_contribution_is_refused() {
    let mut c = Contract::new();
    let id = new_pool(&mut c, 1_000);
    c.set_pool_deadline(&all(), id, 10, 0).unwrap();
    assert_eq!(
        c.refund_donation(&only(DONOR_A), id, DONOR_A, TOKEN, 20_000),
        Err(ContractError::NoContribution)
    );
}
