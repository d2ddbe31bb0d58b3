//! Properties of the ledger that hold across operations: what every operation
//! keeps, what a read gives back of a write, and what a refused request leaves.

use vstd::prelude::*;
use crate::model::{
    approved_status, as_signed, count_in, donor_counts_match, donors_of, milestone_total,
    claims_within_approved, MAX_DESCRIPTION_LENGTH,
    pending_status, rejected_status, LedgerModel,
    GRACE_PERIOD_SECS, PROTOCOL_FEE_DIVISOR, REFUND_GRACE_PERIOD_LEDGERS,
};
use crate::types::{
    Application, Authorization, ContractError, Event, Milestone, Pool, PoolState, Transfer,
};

verus! {

// ----- the well-formedness invariant -----

/// A freshly deployed contract's ledger is well formed.
pub proof fn law_initial_ledger_is_well_formed()
    ensures
        LedgerModel::initial().wf(),
{
    let m = LedgerModel::initial();
    assert forall|p: u32| #[trigger] count_in(m.donor_counts, p) == donors_of(m.donors, p).len() by {
        assert(donors_of(m.donors, p) =~= Set::empty());
    }
}

/// Recording a donation keeps the donor count of every pool equal to its
/// number of distinct donors.
proof fn lemma_donor_counts_after_donation(
    m: LedgerModel,
    pool_id: u32,
    donor: u64,
    amount: u128,
    collected: u128,
)
    requires
        m.wf(),
        m.pools.contains_key(pool_id),
        !m.donor_tally_overflows(pool_id, donor, amount),
    ensures
        ({
            let n = m.record_donation(pool_id, donor, amount, collected);
            donor_counts_match(n.donors, n.donor_counts)
        }),
{
    let n = m.record_donation(pool_id, donor, amount, collected);
    assert forall|p: u32| #[trigger] count_in(n.donor_counts, p) == donors_of(n.donors, p).len() by {
        if m.donors.contains((pool_id, donor)) {
            assert(n.donors =~= m.donors);
        } else if p == pool_id {
            assert(donors_of(n.donors, p) =~= donors_of(m.donors, p).insert((pool_id, donor)));
            assert(count_in(m.donor_counts, p) == donors_of(m.donors, p).len());
        } else {
            assert(donors_of(n.donors, p) =~= donors_of(m.donors, p));
            assert(count_in(m.donor_counts, p) == donors_of(m.donors, p).len());
        }
    }
}

/// Changing only the pools, without touching any goal or adding or removing a
/// pool, keeps the ledger well formed.
proof fn lemma_pool_update_keeps_wf(m: LedgerModel, pool_id: u32, pool: Pool)
    requires
        m.wf(),
        m.pools.contains_key(pool_id),
        pool.goal == m.pools[pool_id].goal,
    ensures
        (LedgerModel { pools: m.pools.insert(pool_id, pool), ..m }).wf(),
{
}

pub proof fn law_set_admin_keeps_wf(m: LedgerModel, auth: Authorization, admin: u64)
    requires
        m.wf(),
    ensures
        m.set_admin(auth, admin) matches Ok((n, _)) ==> n.wf(),
{
}

pub proof fn law_register_school_keeps_wf(
    m: LedgerModel,
    auth: Authorization,
    admin: u64,
    school: u64,
)
    requires
        m.wf(),
    ensures
        m.register_school(auth, admin, school) matches Ok((n, _)) ==> n.wf(),
{
}

pub proof fn law_set_creation_fee_keeps_wf(m: LedgerModel, auth: Authorization, admin: u64, fee: i128)
    requires
        m.wf(),
    ensures
        m.set_creation_fee(auth, admin, fee) matches Ok((n, _)) ==> n.wf(),
{
}

pub proof fn law_create_pool_keeps_wf(
    m: LedgerModel,
    creator: u64,
    title: String,
    description: String,
    goal: u128,
    application_deadline: u64,
)
    requires
        m.wf(),
    ensures
        m.create_pool(creator, title, description, goal, application_deadline) matches Ok((n, _))
            ==> n.wf(),
{
    if let Ok((n, (id, _))) = m.create_pool(creator, title, description, goal, application_deadline) {
        assert(!m.pools.contains_key(id));
        assert forall|k: (u32, u64)| #[trigger] n.milestones.contains_key(k) implies n.pools.contains_key(k.0)
            && milestone_total(n.milestones[k]) == n.pools[k.0].goal by {
            assert(m.pools.contains_key(k.0));
        }
    }
}

pub proof fn law_create_pool_for_school_keeps_wf(
    m: LedgerModel,
    auth: Authorization,
    creator: u64,
    title: String,
    description: String,
    goal: u128,
    school: u64,
    application_deadline: u64,
)
    requires
        m.wf(),
    ensures
        m.create_pool_for_school(
            auth,
            creator,
            title,
            description,
            goal,
            school,
            application_deadline,
        ) matches Ok((n, _)) ==> n.wf(),
{
    law_create_pool_keeps_wf(m, creator, title, description, goal, application_deadline);
}

pub proof fn law_close_pool_keeps_wf(m: LedgerModel, auth: Authorization, pool_id: u32)
    requires
        m.wf(),
    ensures
        m.close_pool(auth, pool_id) matches Ok((n, _)) ==> n.wf(),
{
    if m.pools.contains_key(pool_id) {
        lemma_pool_update_keeps_wf(m, pool_id, Pool { is_closed: true, ..m.pools[pool_id] });
    }
}

pub proof fn law_set_pool_state_keeps_wf(m: LedgerModel, pool_id: u32, state: PoolState)
    requires
        m.wf(),
    ensures
        m.set_pool_state(pool_id, state) matches Ok((n, _)) ==> n.wf(),
{
    if m.pools.contains_key(pool_id) {
        lemma_pool_update_keeps_wf(m, pool_id, Pool { state, ..m.pools[pool_id] });
    }
}

pub proof fn law_set_pool_deadline_keeps_wf(
    m: LedgerModel,
    auth: Authorization,
    pool_id: u32,
    deadline: u32,
    ledger: u32,
)
    requires
        m.wf(),
    ensures
        m.set_pool_deadline(auth, pool_id, deadline, ledger) matches Ok((n, _)) ==> n.wf(),
{
}

pub proof fn law_donate_keeps_wf(m: LedgerModel, pool_id: u32, donor: u64, amount: u128)
    requires
        m.wf(),
    ensures
        m.donate(pool_id, donor, amount) matches Ok((n, _)) ==> n.wf(),
{
    if let Ok((n, _)) = m.donate(pool_id, donor, amount) {
        let collected = (m.pools[pool_id].collected + amount) as u128;
        lemma_donor_counts_after_donation(m, pool_id, donor, amount, collected);
        lemma_pool_update_keeps_wf(m, pool_id, Pool { collected, ..m.pools[pool_id] });
    }
}

pub proof fn law_donate_with_token_keeps_wf(
    m: LedgerModel,
    auth: Authorization,
    pool_id: u32,
    donor: u64,
    token: u64,
    amount: i128,
)
    requires
        m.wf(),
    ensures
        m.donate_with_token(auth, pool_id, donor, token, amount) matches Ok((n, _)) ==> n.wf(),
{
    if let Ok((n, _)) = m.donate_with_token(auth, pool_id, donor, token, amount) {
        let collected = (m.pools[pool_id].collected + amount) as u128;
        lemma_donor_counts_after_donation(m, pool_id, donor, amount as u128, collected);
        lemma_pool_update_keeps_wf(m, pool_id, Pool { collected, ..m.pools[pool_id] });
    }
}

pub proof fn law_refund_donation_keeps_wf(
    m: LedgerModel,
    auth: Authorization,
    pool_id: u32,
    donor: u64,
    token: u64,
    ledger: u32,
)
    requires
        m.wf(),
    ensures
        m.refund_donation(auth, pool_id, donor, token, ledger) matches Ok((n, _)) ==> n.wf(),
{
}

pub proof fn law_apply_to_pool_keeps_wf(
    m: LedgerModel,
    auth: Authorization,
    pool_id: u32,
    student: u64,
    data: Seq<char>,
)
    requires
        m.wf(),
    ensures
        m.apply_to_pool(auth, pool_id, student, data) matches Ok((n, _)) ==> n.wf(),
{
    if let Ok((n, _)) = m.apply_to_pool(auth, pool_id, student, data) {
        let index = (m.application_count(pool_id) + 1) as u32;
        assert(!m.submissions.contains_key((pool_id, index)));
        assert forall|k: (u32, u32)| #[trigger] n.submissions.contains_key(k) implies n.submissions[k].0
            == k.1 && n.applicants.contains((k.0, n.submissions[k].1)) by {
            if k != (pool_id, index) {
                assert(m.submissions.contains_key(k));
            }
        }
    }
}

pub proof fn law_approve_application_keeps_wf(
    m: LedgerModel,
    auth: Authorization,
    pool_id: u32,
    school: u64,
    student: u64,
    approved: bool,
)
    requires
        m.wf(),
    ensures
        m.approve_application(auth, pool_id, school, student, approved) matches Ok((n, _))
            ==> n.wf(),
{
}

pub proof fn law_set_application_status_keeps_wf(
    m: LedgerModel,
    pool_id: u32,
    student: u64,
    status: Seq<char>,
)
    requires
        m.wf(),
    ensures
        m.set_application_status(pool_id, student, status).wf(),
{
}

pub proof fn law_setup_application_milestones_keeps_wf(
    m: LedgerModel,
    auth: Authorization,
    pool_id: u32,
    student: u64,
    milestones: Seq<Milestone>,
)
    requires
        m.wf(),
    ensures
        m.setup_application_milestones(auth, pool_id, student, milestones) matches Ok((n, _))
            ==> n.wf(),
{
}

pub proof fn law_claim_funds_keeps_wf(
    m: LedgerModel,
    auth: Authorization,
    student: u64,
    pool_id: u32,
    claim_amount: i128,
    token: u64,
)
    requires
        m.wf(),
    ensures
        m.claim_funds(auth, student, pool_id, claim_amount, token) matches Ok((n, _)) ==> n.wf(),
{
}

pub proof fn law_claim_protocol_fees_keeps_wf(
    m: LedgerModel,
    auth: Authorization,
    admin: u64,
    token: u64,
)
    requires
        m.wf(),
    ensures
        m.claim_protocol_fees(auth, admin, token) matches Ok((n, _)) ==> n.wf(),
{
}

pub proof fn law_withdraw_unallocated_funds_keeps_wf(
    m: LedgerModel,
    auth: Authorization,
    pool_id: u32,
    token: u64,
)
    requires
        m.wf(),
    ensures
        m.withdraw_unallocated_funds(auth, pool_id, token) matches Ok((n, _)) ==> n.wf(),
{
    if let Ok((n, _)) = m.withdraw_unallocated_funds(auth, pool_id, token) {
        let locked = m.locked_funds(pool_id)->Ok_0;
        lemma_pool_update_keeps_wf(m, pool_id, Pool { collected: locked, ..m.pools[pool_id] });
    }
}

pub proof fn law_request_emergency_withdraw_keeps_wf(
    m: LedgerModel,
    auth: Authorization,
    admin: u64,
    pool_id: u32,
    token: u64,
    amount: i128,
    now: u64,
)
    requires
        m.wf(),
    ensures
        m.request_emergency_withdraw(auth, admin, pool_id, token, amount, now) matches Ok((n, _))
            ==> n.wf(),
{
}

pub proof fn law_execute_emergency_withdraw_keeps_wf(m: LedgerModel, pool_id: u32, now: u64)
    requires
        m.wf(),
    ensures
        m.execute_emergency_withdraw(pool_id, now) matches Ok((n, _)) ==> n.wf(),
{
}

// ----- pools -----

/// Pools are numbered one after another: a created pool gets the next number,
/// starts with nothing collected, open and active, and reads back with the
/// sponsor, goal, deadline, title and description it was created with.
/// Creation succeeds exactly when the description is short enough and the
/// numbering has room.
pub proof fn law_create_pool_numbers_sequentially(
    m: LedgerModel,
    creator: u64,
    title: String,
    description: String,
    goal: u128,
    application_deadline: u64,
)
    requires
        m.wf(),
    ensures
        m.create_pool(creator, title, description, goal, application_deadline) is Ok <==> (
        vstd::utf8::encode_utf8(description@).len() as usize <= crate::model::MAX_DESCRIPTION_LENGTH
            && m.pool_count < u32::MAX),
        m.create_pool(creator, title, description, goal, application_deadline) matches Ok(
            (n, (id, _)),
        ) ==> {
            &&& id == m.pool_count + 1
            &&& !m.pools.contains_key(id)
            &&& n.pool_count == id
            &&& n.pools[id] == Pool {
                sponsor: creator,
                goal,
                collected: 0,
                is_closed: false,
                state: PoolState::Active,
                application_deadline,
            }
            &&& n.metadata[id] == (title@, description@)
            &&& forall|q: u32| q != id ==> n.pools.contains_key(q) == m.pools.contains_key(q)
        },
{
}

/// Only a disbursed or cancelled pool can be closed, only by its sponsor, and
/// closing keeps what it collected.
pub proof fn law_close_pool_requires_settled_pool(m: LedgerModel, auth: Authorization, pool_id: u32)
    ensures
        m.close_pool(auth, pool_id) matches Ok((n, _)) ==> {
            let pool = m.pools[pool_id];
            &&& pool.state == PoolState::Disbursed || pool.state == PoolState::Cancelled
            &&& auth.allows(pool.sponsor)
            &&& n.pools[pool_id].is_closed
            &&& n.pools[pool_id].collected == pool.collected
        },
{
}

/// A closed pool refuses every donation.
pub proof fn law_closed_pool_refuses_donations(
    m: LedgerModel,
    auth: Authorization,
    pool_id: u32,
    donor: u64,
    token: u64,
    amount: u128,
    token_amount: i128,
)
    requires
        m.pools.contains_key(pool_id),
        m.pools[pool_id].is_closed,
    ensures
        m.donate(pool_id, donor, amount) == Err::<(LedgerModel, Event), ContractError>(
            ContractError::PoolClosed,
        ),
        m.donate_with_token(auth, pool_id, donor, token, token_amount) is Err,
{
}

/// A pool that is not active refuses every donation.
pub proof fn law_inactive_pool_refuses_donations(
    m: LedgerModel,
    auth: Authorization,
    pool_id: u32,
    donor: u64,
    token: u64,
    amount: u128,
    token_amount: i128,
)
    requires
        m.pools.contains_key(pool_id),
        m.pools[pool_id].state != PoolState::Active,
    ensures
        m.donate(pool_id, donor, amount) is Err,
        m.donate_with_token(auth, pool_id, donor, token, token_amount) is Err,
{
}

/// The state a pool is set to is the state it reads back with.
pub proof fn law_set_pool_state_reads_back(m: LedgerModel, pool_id: u32, state: PoolState)
    ensures
        m.set_pool_state(pool_id, state) is Ok <==> m.pools.contains_key(pool_id),
        m.set_pool_state(pool_id, state) matches Ok((n, _)) ==> n.pools[pool_id].state == state
            && n.pools[pool_id].collected == m.pools[pool_id].collected,
{
}

// ----- donations -----

/// A donation raises its pool's collected total and the donor's contribution
/// by exactly the amount given, and the pool's donor count by one only for a
/// first-time donor.
pub proof fn law_donation_accounting(m: LedgerModel, pool_id: u32, donor: u64, amount: u128)
    ensures
        m.donate(pool_id, donor, amount) matches Ok((n, ev)) ==> {
            &&& n.pools[pool_id].collected == m.pools[pool_id].collected + amount
            &&& n.contribution(pool_id, donor) == m.contribution(pool_id, donor) + amount
            &&& n.donor_count(pool_id) == m.donor_count(pool_id) + (if m.donors.contains(
                (pool_id, donor),
            ) {
                0int
            } else {
                1int
            })
            &&& ev == Event::Donation {
                pool_id,
                donor,
                amount,
                collected: n.pools[pool_id].collected,
            }
        },
{
}

/// A token donation moves exactly the amount from the donor into the contract
/// and is accounted as a donation of that amount.
pub proof fn law_token_donation_accounting(
    m: LedgerModel,
    auth: Authorization,
    pool_id: u32,
    donor: u64,
    token: u64,
    amount: i128,
)
    ensures
        m.donate_with_token(auth, pool_id, donor, token, amount) matches Ok((n, (t, _))) ==> {
            &&& auth.allows(donor)
            &&& amount > 0
            &&& t == Transfer::ToContract { token, from: donor, amount }
            &&& n.pools[pool_id].collected == m.pools[pool_id].collected + amount
            &&& n.contribution(pool_id, donor) == m.contribution(pool_id, donor) + amount
        },
{
}

/// A refund happens only once the pool's refund deadline and the grace period
/// after it have passed; it pays the donor's whole contribution back, lowers
/// the pool's total by as much (down to zero at most), and cannot be repeated.
pub proof fn law_refund_after_grace_only(
    m: LedgerModel,
    auth: Authorization,
    pool_id: u32,
    donor: u64,
    token: u64,
    ledger: u32,
)
    ensures
        ledger < m.refund_deadline(pool_id) + REFUND_GRACE_PERIOD_LEDGERS ==> m.refund_donation(
            auth,
            pool_id,
            donor,
            token,
            ledger,
        ) is Err,
        auth.allows(donor) && m.pools.contains_key(pool_id) && (m.refund_deadline(pool_id) == 0
            || ledger < m.refund_deadline(pool_id) + REFUND_GRACE_PERIOD_LEDGERS)
            ==> m.refund_donation(auth, pool_id, donor, token, ledger) == Err::<
            (LedgerModel, Transfer),
            ContractError,
        >(ContractError::PoolNotExpired),
        m.refund_donation(auth, pool_id, donor, token, ledger) matches Ok((n, t)) ==> {
            let given = m.contribution(pool_id, donor);
            &&& m.refund_deadline(pool_id) != 0
            &&& ledger >= m.refund_deadline(pool_id) + REFUND_GRACE_PERIOD_LEDGERS
            &&& given > 0
            &&& t == Transfer::FromContract { token, to: donor, amount: as_signed(given) }
            &&& n.contribution(pool_id, donor) == 0
            &&& n.pools[pool_id].collected == (if m.pools[pool_id].collected >= given {
                m.pools[pool_id].collected - given
            } else {
                0
            })
            &&& n.refund_donation(auth, pool_id, donor, token, ledger)
                == Err::<(LedgerModel, Transfer), ContractError>(ContractError::NoContribution)
        },
{
}

// ----- applications -----

/// An application is filed under the next number with status "Pending", and
/// the same student cannot apply to the same pool again.
pub proof fn law_application_filed_once(
    m: LedgerModel,
    auth: Authorization,
    pool_id: u32,
    student: u64,
    data: Seq<char>,
    again: Seq<char>,
)
    ensures
        m.apply_to_pool(auth, pool_id, student, data) matches Ok((n, _)) ==> {
            let index = n.application_count(pool_id);
            &&& index == m.application_count(pool_id) + 1
            &&& n.submissions[(pool_id, index)] == (index, student, data)
            &&& n.status(pool_id, student) == pending_status()
            &&& n.apply_to_pool(auth, pool_id, student, again)
                == Err::<(LedgerModel, Event), ContractError>(ContractError::DuplicateApplication)
        },
{
}

/// Only the pool's linked school decides an application, and its decision is
/// the status the application then reads back with.
pub proof fn law_school_decision_reads_back(
    m: LedgerModel,
    auth: Authorization,
    pool_id: u32,
    school: u64,
    student: u64,
    approved: bool,
)
    ensures
        m.approve_application(auth, pool_id, school, student, approved) matches Ok((n, _)) ==> {
            &&& auth.allows(school)
            &&& m.pool_schools.contains_key(pool_id) && m.pool_schools[pool_id] == school
            &&& m.applicants.contains((pool_id, student))
            &&& n.status(pool_id, student) == (if approved {
                approved_status()
            } else {
                rejected_status()
            })
        },
{
}

/// The status written for a student is the status read back for that student,
/// and no other student's status changes.
pub proof fn law_status_reads_back(
    m: LedgerModel,
    pool_id: u32,
    student: u64,
    status: Seq<char>,
    other_pool: u32,
    other: u64,
)
    ensures
        m.set_application_status(pool_id, student, status).status(pool_id, student) == status,
        (other_pool, other) != (pool_id, student) ==> m.set_application_status(
            pool_id,
            student,
            status,
        ).status(other_pool, other) == m.status(other_pool, other),
{
}

/// Milestones are accepted only when they add up to the pool's goal, and then
/// read back as given.
pub proof fn law_milestones_add_up_to_goal(
    m: LedgerModel,
    auth: Authorization,
    pool_id: u32,
    student: u64,
    milestones: Seq<Milestone>,
)
    ensures
        m.setup_application_milestones(auth, pool_id, student, milestones) matches Ok((n, _)) ==> {
            &&& milestones.len() > 0
            &&& milestone_total(milestones) == m.pools[pool_id].goal
            &&& n.milestones[(pool_id, student)] == milestones
        },
        auth.allows(student) && m.pools.contains_key(pool_id) && milestones.len() > 0
            && milestone_total(milestones) != m.pools[pool_id].goal ==> m.setup_application_milestones(
            auth,
            pool_id,
            student,
            milestones,
        ) is Err,
{
}

// ----- disbursement -----

/// A claim is paid only to an approved student, never takes the student's
/// claimed total past what the pool has collected or past the approved amount
/// of the student's record, and splits into the
/// protocol's one-in-a-hundred fee and the payout to the student.
pub proof fn law_claim_splits_into_fee_and_payout(
    m: LedgerModel,
    auth: Authorization,
    student: u64,
    pool_id: u32,
    claim_amount: i128,
    token: u64,
)
    ensures
        m.claim_funds(auth, student, pool_id, claim_amount, token) matches Ok((n, t)) ==> {
            let fee = claim_amount / PROTOCOL_FEE_DIVISOR;
            &&& auth.allows(student)
            &&& claim_amount > 0
            &&& m.status(pool_id, student) == approved_status()
            &&& t == Transfer::FromContract { token, to: student, amount: (claim_amount - fee) as i128 }
            &&& n.unclaimed_fees == m.unclaimed_fees + fee
            &&& n.claimed(pool_id, student) == m.claimed(pool_id, student) + claim_amount
            &&& n.claimed(pool_id, student) <= as_signed(m.pools[pool_id].collected)
            &&& n.claimed(pool_id, student) <= n.claims[(pool_id, student)].approved_amount
            &&& n.pools == m.pools
        },
{
}

/// A student's claims never add up to more than the amount approved in the
/// student's claim record: a claim that would go past it is refused as an
/// overdraw, and the record keeps its approved amount.
pub proof fn law_claims_stay_within_approved_amount(
    m: LedgerModel,
    auth: Authorization,
    student: u64,
    pool_id: u32,
    claim_amount: i128,
    token: u64,
)
    requires
        m.wf(),
    ensures
        m.claim_funds(auth, student, pool_id, claim_amount, token) matches Ok((n, _)) ==> {
            &&& forall|k: (u32, u64)| #[trigger]
                n.claims.contains_key(k) ==> n.claims[k].amount_claimed
                    <= n.claims[k].approved_amount
            &&& m.claims.contains_key((pool_id, student)) ==> n.claims[(pool_id, student)].approved_amount
                == m.claims[(pool_id, student)].approved_amount
        },
        m.claims.contains_key((pool_id, student)) && m.claims[(pool_id, student)].amount_claimed
            + claim_amount > m.claims[(pool_id, student)].approved_amount
            ==> m.claim_funds(auth, student, pool_id, claim_amount, token) is Err,
{
}

/// The admin collects exactly the fees gathered so far, after which there are
/// none left to collect.
pub proof fn law_protocol_fees_paid_once(
    m: LedgerModel,
    auth: Authorization,
    admin: u64,
    token: u64,
    later_token: u64,
)
    ensures
        m.claim_protocol_fees(auth, admin, token) matches Ok((n, (fees, t))) ==> {
            &&& m.admin == Some(admin) && auth.allows(admin)
            &&& fees == m.unclaimed_fees
            &&& t == Transfer::FromContract { token, to: admin, amount: fees }
            &&& n.unclaimed_fees == 0
            &&& n.claim_protocol_fees(auth, admin, later_token) == Err::<
                (LedgerModel, (i128, Transfer)),
                ContractError,
            >(ContractError::NoUnclaimedFees)
        },
{
}

/// Only the admin administers: registering schools, setting the creation fee
/// and collecting fees succeed only for the stored admin, who authorized.
pub proof fn law_admin_operations_need_admin(
    m: LedgerModel,
    auth: Authorization,
    admin: u64,
    school: u64,
    fee: i128,
    token: u64,
)
    ensures
        m.register_school(auth, admin, school) is Ok ==> m.admin == Some(admin) && auth.allows(admin),
        m.set_creation_fee(auth, admin, fee) is Ok ==> m.admin == Some(admin) && auth.allows(admin),
        m.claim_protocol_fees(auth, admin, token) is Ok ==> m.admin == Some(admin) && auth.allows(
            admin,
        ),
        m.register_school(auth, admin, school) matches Ok((n, _)) ==> n.schools.contains(school),
        m.set_creation_fee(auth, admin, fee) matches Ok((n, _)) ==> n.creation_fee == fee && fee >= 0,
{
}

/// The locked funds of a pool depend only on its applications, statuses and
/// claim records.
proof fn lemma_locked_funds_frame(m: LedgerModel, n: LedgerModel, pool_id: u32, k: nat)
    requires
        n.submissions == m.submissions,
        n.statuses == m.statuses,
        n.claims == m.claims,
    ensures
        n.locked_funds_upto(pool_id, k) == m.locked_funds_upto(pool_id, k),
    decreases k,
{
    if k > 0 {
        lemma_locked_funds_frame(m, n, pool_id, (k - 1) as nat);
    }
}

/// Withdrawing unallocated funds pays the sponsor everything above the funds
/// locked for the pool's approved and pending applications, leaves exactly
/// the locked funds, and cannot be repeated until more is collected.
pub proof fn law_withdraw_leaves_locked_funds(
    m: LedgerModel,
    auth: Authorization,
    pool_id: u32,
    token: u64,
)
    ensures
        m.withdraw_unallocated_funds(auth, pool_id, token) matches Ok((n, t)) ==> {
            let pool = m.pools[pool_id];
            &&& auth.allows(pool.sponsor)
            &&& m.locked_funds(pool_id) matches Ok(locked) && {
                &&& locked < pool.collected
                &&& n.pools[pool_id].collected == locked
                &&& t == Transfer::FromContract {
                    token,
                    to: pool.sponsor,
                    amount: as_signed((pool.collected - locked) as u128),
                }
            }
            &&& n.withdraw_unallocated_funds(auth, pool_id, token) == Err::<
                (LedgerModel, Transfer),
                ContractError,
            >(ContractError::NoSurplus)
        },
{
    if let Ok((n, _)) = m.withdraw_unallocated_funds(auth, pool_id, token) {
        lemma_locked_funds_frame(m, n, pool_id, m.application_count(pool_id) as nat);
    }
}

/// An emergency withdrawal is carried out only once the grace period has
/// passed since it was requested, pays what was requested to the requester,
/// and is then gone; at most one request per pool is pending.
pub proof fn law_emergency_withdrawal_waits_grace(
    m: LedgerModel,
    auth: Authorization,
    admin: u64,
    pool_id: u32,
    token: u64,
    amount: i128,
    requested_at: u64,
    now: u64,
)
    ensures
        m.request_emergency_withdraw(auth, admin, pool_id, token, amount, requested_at) matches Ok(
            (n, _),
        ) ==> {
            &&& n.request_emergency_withdraw(auth, admin, pool_id, token, amount, requested_at)
                == Err::<(LedgerModel, ()), ContractError>(
                ContractError::WithdrawalAlreadyRequested,
            )
            &&& (now < requested_at + GRACE_PERIOD_SECS ==> n.execute_emergency_withdraw(
                pool_id,
                now,
            ) == Err::<(LedgerModel, Transfer), ContractError>(
                ContractError::GracePeriodNotElapsed,
            ))
            &&& (now >= requested_at + GRACE_PERIOD_SECS ==> n.execute_emergency_withdraw(
                pool_id,
                now,
            ) == Ok::<(LedgerModel, Transfer), ContractError>(
                (m, Transfer::FromContract { token, to: admin, amount }),
            ))
        },
        m.execute_emergency_withdraw(pool_id, now) matches Ok((n, t)) ==> {
            let request = m.emergency_requests[pool_id];
            &&& now >= request.request_timestamp + GRACE_PERIOD_SECS
            &&& t == Transfer::FromContract {
                token: request.token_address,
                to: request.requested_by,
                amount: request.amount,
            }
            &&& n.execute_emergency_withdraw(pool_id, now) == Err::<
                (LedgerModel, Transfer),
                ContractError,
            >(ContractError::WithdrawalNotRequested)
        },
{
    if let Ok((n, _)) = m.request_emergency_withdraw(auth, admin, pool_id, token, amount, requested_at) {
        if now >= requested_at + GRACE_PERIOD_SECS {
            assert(n.emergency_requests.remove(pool_id) =~= m.emergency_requests);
            assert(n.execute_emergency_withdraw(pool_id, now)->Ok_0.0 =~= m);
        }
    }
}

/// A refund deadline must lie after the current ledger, and reads back as set.
pub proof fn law_refund_deadline_reads_back(
    m: LedgerModel,
    auth: Authorization,
    pool_id: u32,
    deadline: u32,
    ledger: u32,
)
    ensures
        m.set_pool_deadline(auth, pool_id, deadline, ledger) matches Ok((n, _)) ==> deadline > ledger
            && n.refund_deadline(pool_id) == deadline,
{
}

// ----- histories of operations -----

/// One invocation of a ledger-changing operation, with its arguments.
pub enum Operation {
    SetAdmin { auth: Authorization, admin: u64 },
    RegisterSchool { auth: Authorization, admin: u64, school: u64 },
    SetCreationFee { auth: Authorization, admin: u64, fee: i128 },
    CreatePool {
        creator: u64,
        title: String,
        description: String,
        goal: u128,
        application_deadline: u64,
    },
    CreatePoolForSchool {
        auth: Authorization,
        creator: u64,
        title: String,
        description: String,
        goal: u128,
        school: u64,
        application_deadline: u64,
    },
    ClosePool { auth: Authorization, pool_id: u32 },
    SetPoolState { pool_id: u32, state: PoolState },
    SetPoolDeadline { auth: Authorization, pool_id: u32, deadline: u32, ledger: u32 },
    Donate { pool_id: u32, donor: u64, amount: u128 },
    DonateWithToken { auth: Authorization, pool_id: u32, donor: u64, token: u64, amount: i128 },
    RefundDonation { auth: Authorization, pool_id: u32, donor: u64, token: u64, ledger: u32 },
    ApplyToPool { auth: Authorization, pool_id: u32, student: u64, data: Seq<char> },
    ApproveApplication {
        auth: Authorization,
        pool_id: u32,
        school: u64,
        student: u64,
        approved: bool,
    },
    SetApplicationStatus { pool_id: u32, student: u64, status: Seq<char> },
    SetupApplicationMilestones {
        auth: Authorization,
        pool_id: u32,
        student: u64,
        milestones: Seq<Milestone>,
    },
    ClaimFunds { auth: Authorization, student: u64, pool_id: u32, claim_amount: i128, token: u64 },
    ClaimProtocolFees { auth: Authorization, admin: u64, token: u64 },
    WithdrawUnallocatedFunds { auth: Authorization, pool_id: u32, token: u64 },
    RequestEmergencyWithdraw {
        auth: Authorization,
        admin: u64,
        pool_id: u32,
        token: u64,
        amount: i128,
        now: u64,
    },
    ExecuteEmergencyWithdraw { pool_id: u32, now: u64 },
}

/// The ledger after `op`: its next ledger when it succeeds, the same ledger
/// when it is refused.
pub open spec fn after(m: LedgerModel, op: Operation) -> LedgerModel {
    match op {
        Operation::SetAdmin { auth, admin } => match m.set_admin(auth, admin) {
            Ok((n, _)) => n,
            Err(_) => m,
        },
        Operation::RegisterSchool { auth, admin, school } => match m.register_school(
            auth,
            admin,
            school,
        ) {
            Ok((n, _)) => n,
            Err(_) => m,
        },
        Operation::SetCreationFee { auth, admin, fee } => match m.set_creation_fee(auth, admin, fee) {
            Ok((n, _)) => n,
            Err(_) => m,
        },
        Operation::CreatePool { creator, title, description, goal, application_deadline } => match m.create_pool(
            creator,
            title,
            description,
            goal,
            application_deadline,
        ) {
            Ok((n, _)) => n,
            Err(_) => m,
        },
        Operation::CreatePoolForSchool {
            auth,
            creator,
            title,
            description,
            goal,
            school,
            application_deadline,
        } => match m.create_pool_for_school(
            auth,
            creator,
            title,
            description,
            goal,
            school,
            application_deadline,
        ) {
            Ok((n, _)) => n,
            Err(_) => m,
        },
        Operation::ClosePool { auth, pool_id } => match m.close_pool(auth, pool_id) {
            Ok((n, _)) => n,
            Err(_) => m,
        },
        Operation::SetPoolState { pool_id, state } => match m.set_pool_state(pool_id, state) {
            Ok((n, _)) => n,
            Err(_) => m,
        },
        Operation::SetPoolDeadline { auth, pool_id, deadline, ledger } => match m.set_pool_deadline(
            auth,
            pool_id,
            deadline,
            ledger,
        ) {
            Ok((n, _)) => n,
            Err(_) => m,
        },
        Operation::Donate { pool_id, donor, amount } => match m.donate(pool_id, donor, amount) {
            Ok((n, _)) => n,
            Err(_) => m,
        },
        Operation::DonateWithToken { auth, pool_id, donor, token, amount } => match m.donate_with_token(
            auth,
            pool_id,
            donor,
            token,
            amount,
        ) {
            Ok((n, _)) => n,
            Err(_) => m,
        },
        Operation::RefundDonation { auth, pool_id, donor, token, ledger } => match m.refund_donation(
            auth,
            pool_id,
            donor,
            token,
            ledger,
        ) {
            Ok((n, _)) => n,
            Err(_) => m,
        },
        Operation::ApplyToPool { auth, pool_id, student, data } => match m.apply_to_pool(
            auth,
            pool_id,
            student,
            data,
        ) {
            Ok((n, _)) => n,
            Err(_) => m,
        },
        Operation::ApproveApplication { auth, pool_id, school, student, approved } => match m.approve_application(
            auth,
            pool_id,
            school,
            student,
            approved,
        ) {
            Ok((n, _)) => n,
            Err(_) => m,
        },
        Operation::SetApplicationStatus { pool_id, student, status } => m.set_application_status(
            pool_id,
            student,
            status,
        ),
        Operation::SetupApplicationMilestones { auth, pool_id, student, milestones } => match m.setup_application_milestones(
            auth,
            pool_id,
            student,
            milestones,
        ) {
            Ok((n, _)) => n,
            Err(_) => m,
        },
        Operation::ClaimFunds { auth, student, pool_id, claim_amount, token } => match m.claim_funds(
            auth,
            student,
            pool_id,
            claim_amount,
            token,
        ) {
            Ok((n, _)) => n,
            Err(_) => m,
        },
        Operation::ClaimProtocolFees { auth, admin, token } => match m.claim_protocol_fees(
            auth,
            admin,
            token,
        ) {
            Ok((n, _)) => n,
            Err(_) => m,
        },
        Operation::WithdrawUnallocatedFunds { auth, pool_id, token } => match m.withdraw_unallocated_funds(
            auth,
            pool_id,
            token,
        ) {
            Ok((n, _)) => n,
            Err(_) => m,
        },
        Operation::RequestEmergencyWithdraw { auth, admin, pool_id, token, amount, now } => match m.request_emergency_withdraw(
            auth,
            admin,
            pool_id,
            token,
            amount,
            now,
        ) {
            Ok((n, _)) => n,
            Err(_) => m,
        },
        Operation::ExecuteEmergencyWithdraw { pool_id, now } => match m.execute_emergency_withdraw(
            pool_id,
            now,
        ) {
            Ok((n, _)) => n,
            Err(_) => m,
        },
    }
}

/// The ledger after the operations in `ops`, in order.
pub open spec fn after_all(m: LedgerModel, ops: Seq<Operation>) -> LedgerModel
    decreases ops.len(),
{
    if ops.len() == 0 {
        m
    } else {
        after_all(after(m, ops[0]), ops.drop_first())
    }
}

/// Every pool and every applicant of `m` is still there in `n`.
pub open spec fn keeps_pools_and_applicants(m: LedgerModel, n: LedgerModel) -> bool {
    &&& forall|id: u32| m.pools.contains_key(id) ==> #[trigger] n.pools.contains_key(id)
    &&& forall|k: (u32, u64)| m.applicants.contains(k) ==> #[trigger] n.applicants.contains(k)
}

/// No operation removes a pool or an applicant.
pub proof fn law_operation_keeps_pools_and_applicants(m: LedgerModel, op: Operation)
    ensures
        keeps_pools_and_applicants(m, after(m, op)),
{
}

/// No sequence of operations removes a pool or an applicant.
pub proof fn law_history_keeps_pools_and_applicants(m: LedgerModel, ops: Seq<Operation>)
    ensures
        keeps_pools_and_applicants(m, after_all(m, ops)),
    decreases ops.len(),
{
    if ops.len() > 0 {
        let next = after(m, ops[0]);
        law_operation_keeps_pools_and_applicants(m, ops[0]);
        law_history_keeps_pools_and_applicants(next, ops.drop_first());
    }
}

/// Once a student's application to a pool has been filed, every later
/// application by that student to that pool, whatever happened in between
/// (its status changed, funds claimed, other pools created), is refused as a
/// duplicate, and so leaves the ledger as it was.
pub proof fn law_application_refused_after_filing(
    m: LedgerModel,
    auth: Authorization,
    pool_id: u32,
    student: u64,
    data: Seq<char>,
    ops: Seq<Operation>,
    later_auth: Authorization,
    later_data: Seq<char>,
)
    ensures
        m.apply_to_pool(auth, pool_id, student, data) matches Ok((n, _)) ==> (
        later_auth.allows(student) ==> after_all(n, ops).apply_to_pool(
            later_auth,
            pool_id,
            student,
            later_data,
        ) == Err::<(LedgerModel, Event), ContractError>(ContractError::DuplicateApplication)),
{
    if let Ok((n, _)) = m.apply_to_pool(auth, pool_id, student, data) {
        law_history_keeps_pools_and_applicants(n, ops);
        assert(n.pools.contains_key(pool_id));
        assert(n.applicants.contains((pool_id, student)));
    }
}

/// A donor who signed, once the grace period has passed, with nothing given
/// to the pool, is refused with "No contribution to refund" (and so the
/// ledger stays as it was).
pub proof fn law_refund_without_contribution_refused(
    m: LedgerModel,
    auth: Authorization,
    pool_id: u32,
    donor: u64,
    token: u64,
    ledger: u32,
)
    requires
        auth.allows(donor),
        m.pools.contains_key(pool_id),
        m.refund_deadline(pool_id) != 0,
        ledger >= m.refund_deadline(pool_id) + REFUND_GRACE_PERIOD_LEDGERS,
        m.contribution(pool_id, donor) == 0,
    ensures
        m.refund_donation(auth, pool_id, donor, token, ledger) == Err::<
            (LedgerModel, Transfer),
            ContractError,
        >(ContractError::NoContribution),
{
}

// ----- what the operations owe -----

/// What the application filed under `index` keeps locked in its pool: for an
/// application whose status is "Approved" or "Pending" and whose student has a
/// claim record, the approved amount less the amount claimed, when positive;
/// nothing otherwise.
pub open spec fn remaining_for(m: LedgerModel, pool_id: u32, index: u32) -> nat {
    if m.submissions.contains_key((pool_id, index)) {
        let student = m.submissions[(pool_id, index)].1;
        let status = m.status(pool_id, student);
        if (status == approved_status() || status == pending_status()) && m.claims.contains_key(
            (pool_id, student),
        ) {
            let record = m.claims[(pool_id, student)];
            if record.approved_amount - record.amount_claimed > 0 {
                (record.approved_amount - record.amount_claimed) as nat
            } else {
                0
            }
        } else {
            0
        }
    } else {
        0
    }
}

/// The amounts kept locked by the applications filed under `1..=k`, added up.
pub open spec fn total_remaining(m: LedgerModel, pool_id: u32, k: nat) -> nat
    decreases k,
{
    if k == 0 {
        0
    } else {
        total_remaining(m, pool_id, (k - 1) as nat) + remaining_for(m, pool_id, k as u32)
    }
}

/// Each application's part of the total is at most the total.
proof fn lemma_total_remaining_covers(m: LedgerModel, pool_id: u32, k: nat, i: nat)
    requires
        1 <= i <= k,
    ensures
        remaining_for(m, pool_id, i as u32) <= total_remaining(m, pool_id, k),
        i < k ==> total_remaining(m, pool_id, i) <= total_remaining(m, pool_id, k),
    decreases k,
{
    if i < k {
        lemma_total_remaining_covers(m, pool_id, (k - 1) as nat, i);
        if i == k - 1 {
        }
    }
}

/// When the locked funds of a pool's applications `1..=k` come out, they are
/// the sum of what each of those applications keeps locked.
pub proof fn law_locked_funds_are_the_sum_of_remaining_amounts(m: LedgerModel, pool_id: u32, k: nat)
    requires
        claims_within_approved(m.claims),
    ensures
        m.locked_funds_upto(pool_id, k) matches Ok(l) ==> l == total_remaining(m, pool_id, k),
        total_remaining(m, pool_id, k) <= u128::MAX ==> m.locked_funds_upto(pool_id, k) == Ok::<
            u128,
            ContractError,
        >(total_remaining(m, pool_id, k) as u128),
    decreases k,
{
    if k > 0 {
        law_locked_funds_are_the_sum_of_remaining_amounts(m, pool_id, (k - 1) as nat);
        let i = k as u32;
        if m.submissions.contains_key((pool_id, i)) {
            let student = m.submissions[(pool_id, i)].1;
            if m.claims.contains_key((pool_id, student)) {
                assert(0 <= m.claims[(pool_id, student)].amount_claimed);
            }
        }
    }
}

/// Filing one more application never lowers the locked funds: the locked
/// funds of applications `1..=k+1` are those of `1..=k` plus what application
/// `k+1` keeps locked.
pub proof fn law_locked_funds_grow_with_each_application(m: LedgerModel, pool_id: u32, k: nat)
    requires
        claims_within_approved(m.claims),
    ensures
        m.locked_funds_upto(pool_id, k) matches Ok(a) ==> (m.locked_funds_upto(pool_id, k + 1) matches Ok(b)
            ==> a <= b && b == a + remaining_for(m, pool_id, (k + 1) as u32)),
{
    law_locked_funds_are_the_sum_of_remaining_amounts(m, pool_id, k);
    law_locked_funds_are_the_sum_of_remaining_amounts(m, pool_id, k + 1);
}

/// A withdrawal of unallocated funds leaves in the pool exactly the sum of
/// what its approved and pending applications keep locked, and so at least
/// the remaining amount of every one of them; it pays out the rest.
pub proof fn law_withdraw_keeps_every_remaining_amount(
    m: LedgerModel,
    auth: Authorization,
    pool_id: u32,
    token: u64,
)
    requires
        m.wf(),
    ensures
        m.withdraw_unallocated_funds(auth, pool_id, token) matches Ok((n, t)) ==> {
            let count = m.application_count(pool_id);
            &&& n.pools[pool_id].collected == total_remaining(m, pool_id, count as nat)
            &&& forall|i: u32|
                1 <= i <= count ==> #[trigger] remaining_for(m, pool_id, i)
                    <= n.pools[pool_id].collected
            &&& t == Transfer::FromContract {
                token,
                to: m.pools[pool_id].sponsor,
                amount: as_signed(
                    (m.pools[pool_id].collected - total_remaining(m, pool_id, count as nat)) as u128,
                ),
            }
        },
{
    let count = m.application_count(pool_id);
    law_locked_funds_are_the_sum_of_remaining_amounts(m, pool_id, count as nat);
    assert forall|i: u32| 1 <= i <= count implies #[trigger] remaining_for(m, pool_id, i)
        <= total_remaining(m, pool_id, count as nat) by {
        lemma_total_remaining_covers(m, pool_id, count as nat, i as nat);
    }
}

/// An approved student's first claim succeeds for any amount from one up to
/// what the pool has collected (while the fees do not overflow), and creates
/// the student's record approved for the pool's collected total at that moment.
pub proof fn law_first_claim_is_approved_for_collected(
    m: LedgerModel,
    auth: Authorization,
    student: u64,
    pool_id: u32,
    claim_amount: i128,
    token: u64,
)
    requires
        auth.allows(student),
        m.pools.contains_key(pool_id),
        m.status(pool_id, student) == approved_status(),
        !m.claims.contains_key((pool_id, student)),
        0 < claim_amount,
        claim_amount <= m.pools[pool_id].collected,
        m.pools[pool_id].collected <= i128::MAX,
        m.unclaimed_fees + claim_amount / PROTOCOL_FEE_DIVISOR <= i128::MAX,
    ensures
        m.claim_funds(auth, student, pool_id, claim_amount, token) matches Ok((n, t)) && {
            &&& n.claims[(pool_id, student)] == Application {
                approved_amount: m.pools[pool_id].collected as i128,
                amount_claimed: claim_amount,
            }
            &&& t == Transfer::FromContract {
                token,
                to: student,
                amount: (claim_amount - claim_amount / PROTOCOL_FEE_DIVISOR) as i128,
            }
        },
{
    assert(m.statuses.contains_key((pool_id, student))) by {
        if !m.statuses.contains_key((pool_id, student)) {
            reveal_strlit("Approved");
            assert(approved_status().len() == 8);
        }
    }
}

/// A refund succeeds whenever the donor signed, the pool exists, its refund
/// deadline is set, the grace period after it has passed and the donor has
/// given something, whatever the pool's state or closed flag.
pub proof fn law_refund_owed_after_grace(
    m: LedgerModel,
    auth: Authorization,
    pool_id: u32,
    donor: u64,
    token: u64,
    ledger: u32,
)
    requires
        auth.allows(donor),
        m.pools.contains_key(pool_id),
        m.refund_deadline(pool_id) != 0,
        ledger >= m.refund_deadline(pool_id) + REFUND_GRACE_PERIOD_LEDGERS,
        m.contribution(pool_id, donor) > 0,
    ensures
        m.refund_donation(auth, pool_id, donor, token, ledger) matches Ok((n, t)) && {
            &&& t == Transfer::FromContract {
                token,
                to: donor,
                amount: as_signed(m.contribution(pool_id, donor)),
            }
            &&& n.contribution(pool_id, donor) == 0
            &&& n.pools[pool_id].is_closed == m.pools[pool_id].is_closed
            &&& n.pools[pool_id].state == m.pools[pool_id].state
        },
{
}

/// Milestone setup succeeds whenever the student signed, the pool exists and
/// the list is non-empty with amounts adding up to the pool's goal, however
/// many milestones it has.
pub proof fn law_milestones_owed_when_they_meet_the_goal(
    m: LedgerModel,
    auth: Authorization,
    pool_id: u32,
    student: u64,
    milestones: Seq<Milestone>,
)
    requires
        auth.allows(student),
        m.pools.contains_key(pool_id),
        milestones.len() > 0,
        milestone_total(milestones) == m.pools[pool_id].goal,
    ensures
        m.setup_application_milestones(auth, pool_id, student, milestones) matches Ok((n, _))
            && n.milestones[(pool_id, student)] == milestones,
{
}

/// Closing succeeds whenever the pool exists, its sponsor signed and it is
/// disbursed or cancelled, whatever it has collected; the pool then reads
/// back closed with its collected total unchanged.
pub proof fn law_close_owed_when_settled(m: LedgerModel, auth: Authorization, pool_id: u32)
    requires
        m.pools.contains_key(pool_id),
        auth.allows(m.pools[pool_id].sponsor),
        m.pools[pool_id].state == PoolState::Disbursed || m.pools[pool_id].state
            == PoolState::Cancelled,
    ensures
        m.close_pool(auth, pool_id) matches Ok((n, ev)) && {
            &&& ev == Event::PoolClosed {
                pool_id,
                sponsor: m.pools[pool_id].sponsor,
                collected: m.pools[pool_id].collected,
            }
            &&& n.pools[pool_id].is_closed
            &&& n.pools[pool_id].collected == m.pools[pool_id].collected
        },
{
}

/// Setting the admin succeeds whenever the new admin signed.
pub proof fn law_set_admin_owed(m: LedgerModel, auth: Authorization, admin: u64)
    requires
        auth.allows(admin),
    ensures
        m.set_admin(auth, admin) matches Ok((n, _)) && n.admin == Some(admin),
{
}

/// The stored admin, having signed, can always register a school, set a
/// non-negative creation fee, and collect fees when there are any.
pub proof fn law_admin_operations_owed(
    m: LedgerModel,
    auth: Authorization,
    admin: u64,
    school: u64,
    fee: i128,
    token: u64,
)
    requires
        auth.allows(admin),
        m.admin == Some(admin),
    ensures
        m.register_school(auth, admin, school) matches Ok((n, _)) && n.schools.contains(school),
        fee >= 0 ==> (m.set_creation_fee(auth, admin, fee) matches Ok((n, ev)) && n.creation_fee
            == fee && ev == (Event::CreationFeeUpdated { fee })),
        m.unclaimed_fees != 0 ==> (m.claim_protocol_fees(auth, admin, token) matches Ok(
            (n, (fees, _)),
        ) && fees == m.unclaimed_fees && n.unclaimed_fees == 0),
{
}

/// Creating a pool for a registered school succeeds whenever the creator
/// signed, the description fits and the numbering has room, and links the new
/// pool to the school.
pub proof fn law_school_pool_owed(
    m: LedgerModel,
    auth: Authorization,
    creator: u64,
    title: String,
    description: String,
    goal: u128,
    school: u64,
    application_deadline: u64,
)
    requires
        auth.allows(creator),
        m.schools.contains(school),
        vstd::utf8::encode_utf8(description@).len() as usize <= MAX_DESCRIPTION_LENGTH,
        m.pool_count < u32::MAX,
    ensures
        m.create_pool_for_school(
            auth,
            creator,
            title,
            description,
            goal,
            school,
            application_deadline,
        ) matches Ok((n, (id, _))) && id == m.pool_count + 1 && n.pool_schools[id] == school
            && n.pools[id].sponsor == creator && n.pools[id].goal == goal,
{
}

/// A donation to an open, active pool succeeds whenever no total overflows.
pub proof fn law_donation_owed(m: LedgerModel, pool_id: u32, donor: u64, amount: u128)
    requires
        m.pools.contains_key(pool_id),
        !m.pools[pool_id].is_closed,
        m.pools[pool_id].state == PoolState::Active,
        m.pools[pool_id].collected + amount <= u128::MAX,
        m.contribution(pool_id, donor) + amount <= u128::MAX,
        m.donor_count(pool_id) < u32::MAX,
    ensures
        m.donate(pool_id, donor, amount) matches Ok((n, _)) && n.pools[pool_id].collected
            == m.pools[pool_id].collected + amount && n.contribution(pool_id, donor)
            == m.contribution(pool_id, donor) + amount,
{
}

/// A positive token donation by a donor who signed, to an open, active pool,
/// succeeds whenever no total overflows, and moves the amount from the donor
/// into the contract.
pub proof fn law_token_donation_owed(
    m: LedgerModel,
    auth: Authorization,
    pool_id: u32,
    donor: u64,
    token: u64,
    amount: i128,
)
    requires
        auth.allows(donor),
        m.pools.contains_key(pool_id),
        !m.pools[pool_id].is_closed,
        m.pools[pool_id].state == PoolState::Active,
        amount > 0,
        m.pools[pool_id].collected + amount <= u128::MAX,
        m.contribution(pool_id, donor) + amount <= u128::MAX,
        m.donor_count(pool_id) < u32::MAX,
    ensures
        m.donate_with_token(auth, pool_id, donor, token, amount) matches Ok((n, (t, _))) && t
            == (Transfer::ToContract { token, from: donor, amount }) && n.pools[pool_id].collected
            == m.pools[pool_id].collected + amount,
{
}

/// The sponsor, having signed, can always set a refund deadline that lies
/// after the current ledger.
pub proof fn law_refund_deadline_owed(
    m: LedgerModel,
    auth: Authorization,
    pool_id: u32,
    deadline: u32,
    ledger: u32,
)
    requires
        m.pools.contains_key(pool_id),
        auth.allows(m.pools[pool_id].sponsor),
        deadline > ledger,
    ensures
        m.set_pool_deadline(auth, pool_id, deadline, ledger) matches Ok((n, _)) && n.refund_deadline(
            pool_id,
        ) == deadline,
{
}

/// A student who signed and has not yet applied to an existing pool can
/// always apply (while the numbering has room); the application is filed as
/// "Pending" under the next number.
pub proof fn law_application_owed(
    m: LedgerModel,
    auth: Authorization,
    pool_id: u32,
    student: u64,
    data: Seq<char>,
)
    requires
        auth.allows(student),
        m.pools.contains_key(pool_id),
        !m.applicants.contains((pool_id, student)),
        m.application_count(pool_id) < u32::MAX,
    ensures
        m.apply_to_pool(auth, pool_id, student, data) matches Ok((n, ev)) && ev
            == (Event::ApplicationSubmitted {
            pool_id,
            student,
            index: (m.application_count(pool_id) + 1) as u32,
            private: false,
        }) && n.status(pool_id, student) == pending_status(),
{
}

/// The pool's linked school, having signed, can always decide the application
/// of a student who applied.
pub proof fn law_school_decision_owed(
    m: LedgerModel,
    auth: Authorization,
    pool_id: u32,
    school: u64,
    student: u64,
    approved: bool,
)
    requires
        auth.allows(school),
        m.pool_schools.contains_key(pool_id),
        m.pool_schools[pool_id] == school,
        m.applicants.contains((pool_id, student)),
    ensures
        m.approve_application(auth, pool_id, school, student, approved) matches Ok((n, _))
            && n.status(pool_id, student) == (if approved {
            approved_status()
        } else {
            rejected_status()
        }),
{
}

/// A later claim by an approved student succeeds whenever the new claimed
/// total stays within both the record's approved amount and the pool's
/// collected total (and the fees do not overflow).
pub proof fn law_later_claim_owed(
    m: LedgerModel,
    auth: Authorization,
    student: u64,
    pool_id: u32,
    claim_amount: i128,
    token: u64,
)
    requires
        auth.allows(student),
        m.pools.contains_key(pool_id),
        m.status(pool_id, student) == approved_status(),
        m.claims.contains_key((pool_id, student)),
        0 < claim_amount,
        m.claims[(pool_id, student)].amount_claimed + claim_amount
            <= m.claims[(pool_id, student)].approved_amount,
        m.claims[(pool_id, student)].amount_claimed + claim_amount <= as_signed(
            m.pools[pool_id].collected,
        ),
        m.unclaimed_fees + claim_amount / PROTOCOL_FEE_DIVISOR <= i128::MAX,
    ensures
        m.claim_funds(auth, student, pool_id, claim_amount, token) matches Ok((n, _)) && n.claimed(
            pool_id,
            student,
        ) == m.claimed(pool_id, student) + claim_amount,
{
    assert(m.statuses.contains_key((pool_id, student))) by {
        if !m.statuses.contains_key((pool_id, student)) {
            reveal_strlit("Approved");
            assert(approved_status().len() == 8);
        }
    }
}

/// The sponsor, having signed, can always withdraw when the pool has
/// collected more than its applications keep locked.
pub proof fn law_withdraw_owed(m: LedgerModel, auth: Authorization, pool_id: u32, token: u64)
    requires
        m.wf(),
        m.pools.contains_key(pool_id),
        auth.allows(m.pools[pool_id].sponsor),
        total_remaining(m, pool_id, m.application_count(pool_id) as nat)
            < m.pools[pool_id].collected,
    ensures
        m.withdraw_unallocated_funds(auth, pool_id, token) matches Ok((n, _))
            && n.pools[pool_id].collected == total_remaining(
            m,
            pool_id,
            m.application_count(pool_id) as nat,
        ),
{
    law_locked_funds_are_the_sum_of_remaining_amounts(
        m,
        pool_id,
        m.application_count(pool_id) as nat,
    );
}

/// The stored admin, having signed, can always request an emergency
/// withdrawal for a pool with none pending; it can be carried out once the
/// grace period has passed.
pub proof fn law_emergency_withdrawal_owed(
    m: LedgerModel,
    auth: Authorization,
    admin: u64,
    pool_id: u32,
    token: u64,
    amount: i128,
    now: u64,
    later: u64,
)
    requires
        auth.allows(admin),
        m.admin == Some(admin),
        !m.emergency_requests.contains_key(pool_id),
    ensures
        m.request_emergency_withdraw(auth, admin, pool_id, token, amount, now) matches Ok((n, _))
            && (later >= now + GRACE_PERIOD_SECS ==> (n.execute_emergency_withdraw(pool_id, later) matches Ok(
            (_, t),
        ) && t == (Transfer::FromContract { token, to: admin, amount }))),
{
}

} // verus!
