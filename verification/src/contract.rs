//! The contract: the ledger held in memory, and one method per entry point.
//!
//! Each method that changes the ledger states, through `carries_out`, that it
//! performs exactly the transition of the same name in `model`.

use std::collections::{HashMap, HashSet};
use vstd::prelude::*;
use crate::keys::{
    by_member, by_slot, lemma_by_member_insert, lemma_by_slot_insert, lemma_members_insert,
    lemma_read_values_insert, members, pack_member, pack_slot, read_values,
};
use crate::model::{
    approved_status, as_signed, carries_out, lemma_milestone_prefix_step,
    lemma_locked_funds_error_persists, lemma_milestone_prefix_total, milestone_total, pending_status,
    LedgerModel, GRACE_PERIOD_SECS, MAX_DESCRIPTION_LENGTH, PROTOCOL_FEE_DIVISOR,
    REFUND_GRACE_PERIOD_LEDGERS,
};
use crate::types::{
    Application, ApplicationEntry, Authorization, ContractError, EmergencyWithdrawalRequest, Event,
    Milestone, Pool, PoolState, Transfer,
};

verus! {

/// Amounts are read as they are stored.
spec fn same_u128() -> spec_fn(u128) -> u128 {
    |v: u128| v
}

/// Claim records are read as they are stored.
spec fn same_application() -> spec_fn(Application) -> Application {
    |a: Application| a
}

/// A stored string is read as its characters.
spec fn string_text() -> spec_fn(String) -> Seq<char> {
    |s: String| s@
}

/// A stored title and description are read as their characters.
spec fn metadata_text() -> spec_fn((String, String)) -> (Seq<char>, Seq<char>) {
    |p: (String, String)| (p.0@, p.1@)
}

/// A filed application is read as (sequence number, student, data).
spec fn entry_fields() -> spec_fn(ApplicationEntry) -> (u32, u64, Seq<char>) {
    |e: ApplicationEntry| (e.index, e.student, e.data@)
}

/// A stored milestone list is read as its sequence of milestones.
spec fn milestone_list() -> spec_fn(Vec<Milestone>) -> Seq<Milestone> {
    |v: Vec<Milestone>| v@
}

/// The scholarship pool contract and everything it keeps on the ledger.
pub struct Contract {
    admin: Option<u64>,
    schools: HashSet<u64>,
    pool_count: u32,
    pools: HashMap<u32, Pool>,
    metadata: HashMap<u32, (String, String)>,
    pool_schools: HashMap<u32, u64>,
    donor_counts: HashMap<u32, u32>,
    contributions: HashMap<u128, u128>,
    donors: HashSet<u128>,
    application_counts: HashMap<u32, u32>,
    submissions: HashMap<u64, ApplicationEntry>,
    applicants: HashSet<u128>,
    statuses: HashMap<u128, String>,
    milestones: HashMap<u128, Vec<Milestone>>,
    claims: HashMap<u128, Application>,
    unclaimed_fees: i128,
    creation_fee: i128,
    refund_deadlines: HashMap<u32, u32>,
    emergency_requests: HashMap<u32, EmergencyWithdrawalRequest>,
}

impl View for Contract {
    type V = LedgerModel;

    closed spec fn view(&self) -> LedgerModel {
        LedgerModel {
            admin: self.admin,
            schools: self.schools@,
            pool_count: self.pool_count,
            pools: self.pools@,
            metadata: read_values(self.metadata@, metadata_text()),
            pool_schools: self.pool_schools@,
            donor_counts: self.donor_counts@,
            contributions: by_member(self.contributions@, same_u128()),
            donors: members(self.donors@),
            application_counts: self.application_counts@,
            submissions: by_slot(self.submissions@, entry_fields()),
            applicants: members(self.applicants@),
            statuses: by_member(self.statuses@, string_text()),
            milestones: by_member(self.milestones@, milestone_list()),
            claims: by_member(self.claims@, same_application()),
            unclaimed_fees: self.unclaimed_fees,
            creation_fee: self.creation_fee,
            refund_deadlines: self.refund_deadlines@,
            emergency_requests: self.emergency_requests@,
        }
    }
}

impl Contract {
    /// A freshly deployed contract.
    pub fn new() -> (c: Contract)
        ensures
            c@ == LedgerModel::initial(),
    {
        let c = Contract {
            admin: None,
            schools: HashSet::new(),
            pool_count: 0,
            pools: HashMap::new(),
            metadata: HashMap::new(),
            pool_schools: HashMap::new(),
            donor_counts: HashMap::new(),
            contributions: HashMap::new(),
            donors: HashSet::new(),
            application_counts: HashMap::new(),
            submissions: HashMap::new(),
            applicants: HashSet::new(),
            statuses: HashMap::new(),
            milestones: HashMap::new(),
            claims: HashMap::new(),
            unclaimed_fees: 0,
            creation_fee: 0,
            refund_deadlines: HashMap::new(),
            emergency_requests: HashMap::new(),
        };
        assert(c@ =~= LedgerModel::initial());
        c
    }

    /// Sets the platform admin.
    pub fn set_admin(&mut self, auth: &Authorization, admin: u64) -> (r: Result<(), ContractError>)
        ensures
            carries_out(old(self)@.set_admin(*auth, admin), r, old(self)@, final(self)@),
    {
        if !auth.permits(admin) {
            return Err(ContractError::Unauthorized);
        }
        self.admin = Some(admin);
        Ok(())
    }

    fn admin_check(&self, auth: &Authorization, admin: u64) -> (r: Option<ContractError>)
        ensures
            r == self@.admin_refusal(*auth, admin),
    {
        if !auth.permits(admin) {
            return Some(ContractError::Unauthorized);
        }
        match self.admin {
            None => Some(ContractError::AdminNotSet),
            Some(stored) => if stored != admin {
                Some(ContractError::UnauthorizedAdmin)
            } else {
                None
            },
        }
    }

    /// Registers a school; only the admin may.
    pub fn register_school(&mut self, auth: &Authorization, admin: u64, school: u64) -> (r: Result<
        (),
        ContractError,
    >)
        ensures
            carries_out(old(self)@.register_school(*auth, admin, school), r, old(self)@, final(self)@),
    {
        if let Some(e) = self.admin_check(auth, admin) {
            return Err(e);
        }
        self.schools.insert(school);
        Ok(())
    }

    /// Whether a school has been registered.
    pub fn is_school_registered(&self, school: u64) -> (r: bool)
        ensures
            r == self@.schools.contains(school),
    {
        self.schools.contains(&school)
    }

    /// Creates a new donation / sponsorship pool and returns its number.
    pub fn create_pool(
        &mut self,
        creator: u64,
        title: String,
        description: String,
        goal: u128,
        application_deadline: u64,
    ) -> (r: Result<(u32, Event), ContractError>)
        ensures
            carries_out(
                old(self)@.create_pool(creator, title, description, goal, application_deadline),
                r,
                old(self)@,
                final(self)@,
            ),
    {
        if description.as_str().len() > MAX_DESCRIPTION_LENGTH {
            return Err(ContractError::DescriptionTooLong);
        }
        if self.pool_count == u32::MAX {
            return Err(ContractError::ArithmeticOverflow);
        }
        let id = self.pool_count + 1;
        let pool = Pool {
            sponsor: creator,
            goal,
            collected: 0,
            is_closed: false,
            state: PoolState::Active,
            application_deadline,
        };
        let ghost old_metadata = self.metadata@;
        self.metadata.insert(id, (title.clone(), description.clone()));
        proof {
            lemma_read_values_insert(old_metadata, metadata_text(), id, (title, description));
        }
        self.pools.insert(id, pool);
        self.pool_count = id;
        Ok((id, Event::PoolCreated { pool_id: id, sponsor: creator, goal, title, description }))
    }

    /// Creates a pool linked to a registered school; the creator must authorize.
    pub fn create_pool_for_school(
        &mut self,
        auth: &Authorization,
        creator: u64,
        title: String,
        description: String,
        goal: u128,
        school: u64,
        application_deadline: u64,
    ) -> (r: Result<(u32, Event), ContractError>)
        ensures
            carries_out(
                old(self)@.create_pool_for_school(
                    *auth,
                    creator,
                    title,
                    description,
                    goal,
                    school,
                    application_deadline,
                ),
                r,
                old(self)@,
                final(self)@,
            ),
    {
        if !auth.permits(creator) {
            return Err(ContractError::Unauthorized);
        }
        if !self.is_school_registered(school) {
            return Err(ContractError::SchoolNotRegistered);
        }
        let created = self.create_pool(creator, title, description, goal, application_deadline);
        match created {
            Err(e) => Err(e),
            Ok((id, ev)) => {
                self.pool_schools.insert(id, school);
                Ok((id, ev))
            },
        }
    }

    /// The school linked to a pool.
    pub fn get_pool_school(&self, pool_id: u32) -> (r: Result<u64, ContractError>)
        ensures
            r == (if self@.pool_schools.contains_key(pool_id) {
                Ok::<u64, ContractError>(self@.pool_schools[pool_id])
            } else {
                Err::<u64, ContractError>(ContractError::PoolSchoolNotSet)
            }),
    {
        match self.pool_schools.get(&pool_id) {
            Some(school) => Ok(*school),
            None => Err(ContractError::PoolSchoolNotSet),
        }
    }

    fn find_pool(&self, pool_id: u32) -> (r: Option<Pool>)
        ensures
            r == (if self@.pools.contains_key(pool_id) {
                Some(self@.pools[pool_id])
            } else {
                None::<Pool>
            }),
    {
        match self.pools.get(&pool_id) {
            Some(p) => Some(*p),
            None => None,
        }
    }

    /// A pool as (number, sponsor, goal, collected, closed, application deadline).
    pub fn get_pool(&self, pool_id: u32) -> (r: Result<(u32, u64, u128, u128, bool, u64), ContractError>)
        ensures
            r == (if self@.pools.contains_key(pool_id) {
                let p = self@.pools[pool_id];
                Ok::<(u32, u64, u128, u128, bool, u64), ContractError>(
                    (pool_id, p.sponsor, p.goal, p.collected, p.is_closed, p.application_deadline),
                )
            } else {
                Err::<(u32, u64, u128, u128, bool, u64), ContractError>(ContractError::PoolNotFound)
            }),
    {
        match self.find_pool(pool_id) {
            Some(p) => Ok(
                (pool_id, p.sponsor, p.goal, p.collected, p.is_closed, p.application_deadline),
            ),
            None => Err(ContractError::PoolNotFound),
        }
    }

    /// A pool's title and description; two empty strings for an unknown pool.
    pub fn get_pool_metadata(&self, pool_id: u32) -> (r: (String, String))
        ensures
            self@.metadata.contains_key(pool_id) ==> (r.0@, r.1@) == self@.metadata[pool_id],
            !self@.metadata.contains_key(pool_id) ==> r.0@ == Seq::<char>::empty() && r.1@
                == Seq::<char>::empty(),
    {
        match self.metadata.get(&pool_id) {
            Some(m) => (m.0.clone(), m.1.clone()),
            None => (String::new(), String::new()),
        }
    }

    /// The total amount raised by a pool.
    pub fn get_total_raised(&self, pool_id: u32) -> (r: Result<u128, ContractError>)
        ensures
            r == (if self@.pools.contains_key(pool_id) {
                Ok::<u128, ContractError>(self@.pools[pool_id].collected)
            } else {
                Err::<u128, ContractError>(ContractError::PoolNotFound)
            }),
    {
        match self.find_pool(pool_id) {
            Some(p) => Ok(p.collected),
            None => Err(ContractError::PoolNotFound),
        }
    }

    /// Closes a disbursed or cancelled pool; its sponsor must authorize.
    pub fn close_pool(&mut self, auth: &Authorization, pool_id: u32) -> (r: Result<
        Event,
        ContractError,
    >)
        ensures
            carries_out(old(self)@.close_pool(*auth, pool_id), r, old(self)@, final(self)@),
    {
        let pool = match self.find_pool(pool_id) {
            Some(p) => p,
            None => return Err(ContractError::PoolNotFound),
        };
        if !auth.permits(pool.sponsor) {
            return Err(ContractError::Unauthorized);
        }
        if pool.state != PoolState::Disbursed && pool.state != PoolState::Cancelled {
            return Err(ContractError::PoolNotDisbursedOrRefunded);
        }
        self.pools.insert(pool_id, Pool { is_closed: true, ..pool });
        Ok(Event::PoolClosed { pool_id, sponsor: pool.sponsor, collected: pool.collected })
    }

    /// Number of pools created.
    pub fn get_pool_count(&self) -> (r: u32)
        ensures
            r == self@.pool_count,
    {
        self.pool_count
    }

    /// Sets a pool's lifecycle state.
    pub fn set_pool_state(&mut self, pool_id: u32, state: PoolState) -> (r: Result<(), ContractError>)
        ensures
            carries_out(old(self)@.set_pool_state(pool_id, state), r, old(self)@, final(self)@),
    {
        let pool = match self.find_pool(pool_id) {
            Some(p) => p,
            None => return Err(ContractError::PoolNotFound),
        };
        self.pools.insert(pool_id, Pool { state, ..pool });
        Ok(())
    }

    /// Sets a pool's refund deadline (a ledger sequence number after `ledger`,
    /// the current one); the sponsor must authorize.
    pub fn set_pool_deadline(
        &mut self,
        auth: &Authorization,
        pool_id: u32,
        deadline: u32,
        ledger: u32,
    ) -> (r: Result<(), ContractError>)
        ensures
            carries_out(
                old(self)@.set_pool_deadline(*auth, pool_id, deadline, ledger),
                r,
                old(self)@,
                final(self)@,
            ),
    {
        let pool = match self.find_pool(pool_id) {
            Some(p) => p,
            None => return Err(ContractError::PoolNotFound),
        };
        if !auth.permits(pool.sponsor) {
            return Err(ContractError::Unauthorized);
        }
        if deadline <= ledger {
            return Err(ContractError::DeadlineNotInFuture);
        }
        self.refund_deadlines.insert(pool_id, deadline);
        Ok(())
    }

    /// A pool's refund deadline; zero when none is set.
    pub fn get_pool_deadline(&self, pool_id: u32) -> (r: u32)
        ensures
            r == self@.refund_deadline(pool_id),
    {
        match self.refund_deadlines.get(&pool_id) {
            Some(d) => *d,
            None => 0,
        }
    }

    /// Sets the pool creation fee; only the admin may, and the fee may not be negative.
    pub fn set_creation_fee(&mut self, auth: &Authorization, admin: u64, fee: i128) -> (r: Result<
        Event,
        ContractError,
    >)
        ensures
            carries_out(old(self)@.set_creation_fee(*auth, admin, fee), r, old(self)@, final(self)@),
    {
        if let Some(e) = self.admin_check(auth, admin) {
            return Err(e);
        }
        if fee < 0 {
            return Err(ContractError::InvalidFee);
        }
        self.creation_fee = fee;
        Ok(Event::CreationFeeUpdated { fee })
    }

    /// The pool creation fee; zero until set.
    pub fn get_creation_fee(&self) -> (r: i128)
        ensures
            r == self@.creation_fee,
    {
        self.creation_fee
    }
}

/// Reads an unsigned amount as the signed amount with the same bits.
pub fn to_signed(x: u128) -> (r: i128)
    ensures
        r == as_signed(x),
{
    if x <= 0x7fff_ffff_ffff_ffff_ffff_ffff_ffff_ffffu128 {
        x as i128
    } else {
        ((x - 0x8000_0000_0000_0000_0000_0000_0000_0000u128) as i128) + i128::MIN
    }
}

impl Contract {
    fn donatable_pool(&self, pool_id: u32) -> (r: Result<Pool, ContractError>)
        ensures
            match self@.donation_refusal(pool_id) {
                Some(e) => r == Err::<Pool, ContractError>(e),
                None => r == Ok::<Pool, ContractError>(self@.pools[pool_id]),
            },
    {
        let pool = match self.find_pool(pool_id) {
            Some(p) => p,
            None => return Err(ContractError::PoolNotFound),
        };
        if pool.is_closed {
            return Err(ContractError::PoolClosed);
        }
        if pool.state != PoolState::Active {
            return Err(ContractError::InvalidPoolState);
        }
        Ok(pool)
    }

    fn donor_count_of(&self, pool_id: u32) -> (r: u32)
        ensures
            r == self@.donor_count(pool_id),
    {
        match self.donor_counts.get(&pool_id) {
            Some(c) => *c,
            None => 0,
        }
    }

    fn contribution_of(&self, pool_id: u32, donor: u64) -> (r: u128)
        ensures
            r == self@.contribution(pool_id, donor),
    {
        let key = pack_member(pool_id, donor);
        match self.contributions.get(&key) {
            Some(c) => *c,
            None => 0,
        }
    }

    /// Records a donation of `amount` from `donor` that raised the pool's
    /// collected total to `collected`; returns false, changing nothing, when the
    /// donor tallies would overflow.
    fn record_donation(
        &mut self,
        pool_id: u32,
        pool: Pool,
        donor: u64,
        amount: u128,
        collected: u128,
    ) -> (recorded: bool)
        requires
            old(self)@.pools.contains_key(pool_id),
            old(self)@.pools[pool_id] == pool,
        ensures
            recorded == !old(self)@.donor_tally_overflows(pool_id, donor, amount),
            recorded ==> final(self)@ == old(self)@.record_donation(
                pool_id,
                donor,
                amount,
                collected,
            ),
            !recorded ==> final(self)@ == old(self)@,
    {
        let key = pack_member(pool_id, donor);
        let first = !self.donors.contains(&key);
        let count = self.donor_count_of(pool_id);
        let given = self.contribution_of(pool_id, donor);
        if first && count == u32::MAX {
            return false;
        }
        let total = match given.checked_add(amount) {
            Some(t) => t,
            None => return false,
        };
        let ghost old_donors = self.donors@;
        let ghost old_contributions = self.contributions@;
        self.pools.insert(pool_id, Pool { collected, ..pool });
        if first {
            self.donor_counts.insert(pool_id, count + 1);
        }
        self.donors.insert(key);
        self.contributions.insert(key, total);
        proof {
            lemma_members_insert(old_donors, pool_id, donor);
            lemma_by_member_insert(old_contributions, same_u128(), pool_id, donor, total);
        }
        true
    }

    /// Donates `amount` to an active, open pool.
    pub fn donate(&mut self, pool_id: u32, donor: u64, amount: u128) -> (r: Result<
        Event,
        ContractError,
    >)
        ensures
            carries_out(old(self)@.donate(pool_id, donor, amount), r, old(self)@, final(self)@),
    {
        let pool = match self.donatable_pool(pool_id) {
            Ok(p) => p,
            Err(e) => return Err(e),
        };
        let collected = match pool.collected.checked_add(amount) {
            Some(c) => c,
            None => return Err(ContractError::ArithmeticOverflow),
        };
        if !self.record_donation(pool_id, pool, donor, amount, collected) {
            return Err(ContractError::ArithmeticOverflow);
        }
        Ok(Event::Donation { pool_id, donor, amount, collected })
    }

    /// Donates `amount` of `token` to an active, open pool; the donor must
    /// authorize, and the tokens move from the donor into the contract.
    pub fn donate_with_token(
        &mut self,
        auth: &Authorization,
        pool_id: u32,
        donor: u64,
        token: u64,
        amount: i128,
    ) -> (r: Result<(Transfer, Event), ContractError>)
        ensures
            carries_out(
                old(self)@.donate_with_token(*auth, pool_id, donor, token, amount),
                r,
                old(self)@,
                final(self)@,
            ),
    {
        if !auth.permits(donor) {
            return Err(ContractError::Unauthorized);
        }
        let pool = match self.donatable_pool(pool_id) {
            Ok(p) => p,
            Err(e) => return Err(e),
        };
        if amount <= 0 {
            return Err(ContractError::InvalidAmount);
        }
        let collected = match pool.collected.checked_add(amount as u128) {
            Some(c) => c,
            None => return Err(ContractError::CollectedOverflow),
        };
        if !self.record_donation(pool_id, pool, donor, amount as u128, collected) {
            return Err(ContractError::ArithmeticOverflow);
        }
        Ok(
            (
                Transfer::ToContract { token, from: donor, amount },
                Event::Contribution { pool_id, donor, amount, collected, private: true },
            ),
        )
    }

    /// Number of distinct donors of a pool.
    pub fn get_donor_count(&self, pool_id: u32) -> (r: Result<u32, ContractError>)
        ensures
            r == (if self@.pools.contains_key(pool_id) {
                Ok::<u32, ContractError>(self@.donor_count(pool_id))
            } else {
                Err::<u32, ContractError>(ContractError::PoolNotFound)
            }),
    {
        if self.find_pool(pool_id).is_none() {
            return Err(ContractError::PoolNotFound);
        }
        Ok(self.donor_count_of(pool_id))
    }

    /// Total given by a donor to a pool.
    pub fn get_contribution(&self, pool_id: u32, donor: u64) -> (r: Result<u128, ContractError>)
        ensures
            r == (if self@.pools.contains_key(pool_id) {
                Ok::<u128, ContractError>(self@.contribution(pool_id, donor))
            } else {
                Err::<u128, ContractError>(ContractError::PoolNotFound)
            }),
    {
        if self.find_pool(pool_id).is_none() {
            return Err(ContractError::PoolNotFound);
        }
        Ok(self.contribution_of(pool_id, donor))
    }

    /// Gives a donor back their whole contribution to a pool whose refund
    /// deadline and grace period have passed (`ledger` is the current ledger
    /// sequence number); the donor must authorize.
    pub fn refund_donation(
        &mut self,
        auth: &Authorization,
        pool_id: u32,
        donor: u64,
        token: u64,
        ledger: u32,
    ) -> (r: Result<Transfer, ContractError>)
        ensures
            carries_out(
                old(self)@.refund_donation(*auth, pool_id, donor, token, ledger),
                r,
                old(self)@,
                final(self)@,
            ),
    {
        if !auth.permits(donor) {
            return Err(ContractError::Unauthorized);
        }
        let pool = match self.find_pool(pool_id) {
            Some(p) => p,
            None => return Err(ContractError::PoolNotFound),
        };
        let deadline = self.get_pool_deadline(pool_id);
        if deadline == 0 || ledger <= deadline || ledger - deadline < REFUND_GRACE_PERIOD_LEDGERS {
            return Err(ContractError::PoolNotExpired);
        }
        let given = self.contribution_of(pool_id, donor);
        if given == 0 {
            return Err(ContractError::NoContribution);
        }
        let key = pack_member(pool_id, donor);
        let ghost old_contributions = self.contributions@;
        self.contributions.insert(key, 0);
        proof {
            lemma_by_member_insert(old_contributions, same_u128(), pool_id, donor, 0);
        }
        let collected = if pool.collected >= given {
            pool.collected - given
        } else {
            0
        };
        self.pools.insert(pool_id, Pool { collected, ..pool });
        Ok(Transfer::FromContract { token, to: donor, amount: to_signed(given) })
    }
}

/// The sum of the milestone amounts, or `None` when it exceeds `u128::MAX`.
fn milestone_sum(milestones: &Vec<Milestone>) -> (r: Option<u128>)
    ensures
        r == (if milestone_total(milestones@) > u128::MAX {
            None::<u128>
        } else {
            Some(milestone_total(milestones@) as u128)
        }),
{
    let mut sum: u128 = 0;
    let mut i: usize = 0;
    while i < milestones.len()
        invariant
            i <= milestones@.len(),
            sum == milestone_total(milestones@.take(i as int)),
        decreases milestones@.len() - i,
    {
        proof {
            lemma_milestone_prefix_step(milestones@, i as int);
        }
        match sum.checked_add(milestones[i].amount) {
            Some(t) => sum = t,
            None => {
                proof {
                    lemma_milestone_prefix_total(milestones@, i + 1);
                }
                return None;
            },
        }
        i = i + 1;
    }
    assert(milestones@.take(milestones@.len() as int) =~= milestones@);
    Some(sum)
}

impl Contract {
    fn application_count_of(&self, pool_id: u32) -> (r: u32)
        ensures
            r == self@.application_count(pool_id),
    {
        match self.application_counts.get(&pool_id) {
            Some(c) => *c,
            None => 0,
        }
    }

    /// A student applies to a pool; the student must authorize, and may apply
    /// only once. The application is filed under the next sequence number with
    /// status "Pending".
    pub fn apply_to_pool(
        &mut self,
        auth: &Authorization,
        pool_id: u32,
        student: u64,
        application_data: String,
    ) -> (r: Result<Event, ContractError>)
        ensures
            carries_out(
                old(self)@.apply_to_pool(*auth, pool_id, student, application_data@),
                r,
                old(self)@,
                final(self)@,
            ),
    {
        if !auth.permits(student) {
            return Err(ContractError::Unauthorized);
        }
        if self.find_pool(pool_id).is_none() {
            return Err(ContractError::PoolNotFound);
        }
        let key = pack_member(pool_id, student);
        if self.applicants.contains(&key) {
            return Err(ContractError::DuplicateApplication);
        }
        let count = self.application_count_of(pool_id);
        if count == u32::MAX {
            return Err(ContractError::ArithmeticOverflow);
        }
        let index = count + 1;
        let slot = pack_slot(pool_id, index);
        let ghost data = application_data@;
        let ghost old_submissions = self.submissions@;
        let ghost old_applicants = self.applicants@;
        let ghost old_statuses = self.statuses@;
        let entry = ApplicationEntry { index, student, data: application_data };
        let ghost entry_view = entry;
        self.submissions.insert(slot, entry);
        self.applicants.insert(key);
        self.application_counts.insert(pool_id, index);
        let pending = "Pending".to_owned();
        let ghost pending_view = pending;
        self.statuses.insert(key, pending);
        proof {
            lemma_by_slot_insert(old_submissions, entry_fields(), pool_id, index, entry_view);
            lemma_members_insert(old_applicants, pool_id, student);
            lemma_by_member_insert(old_statuses, string_text(), pool_id, student, pending_view);
        }
        Ok(Event::ApplicationSubmitted { pool_id, student, index, private: false })
    }

    /// The pool's linked school approves or rejects a student's application;
    /// the school must authorize.
    pub fn approve_application(
        &mut self,
        auth: &Authorization,
        pool_id: u32,
        school: u64,
        student: u64,
        approved: bool,
    ) -> (r: Result<(), ContractError>)
        ensures
            carries_out(
                old(self)@.approve_application(*auth, pool_id, school, student, approved),
                r,
                old(self)@,
                final(self)@,
            ),
    {
        if !auth.permits(school) {
            return Err(ContractError::Unauthorized);
        }
        let linked = match self.get_pool_school(pool_id) {
            Ok(s) => s,
            Err(e) => return Err(e),
        };
        if linked != school {
            return Err(ContractError::OnlyLinkedSchool);
        }
        let key = pack_member(pool_id, student);
        if !self.applicants.contains(&key) {
            return Err(ContractError::StudentNotApplied);
        }
        let status = if approved {
            "Approved".to_owned()
        } else {
            "Rejected".to_owned()
        };
        let ghost status_view = status;
        let ghost old_statuses = self.statuses@;
        self.statuses.insert(key, status);
        proof {
            lemma_by_member_insert(old_statuses, string_text(), pool_id, student, status_view);
        }
        Ok(())
    }

    /// Sets a student's application status with a pool.
    pub fn set_application_status(&mut self, pool_id: u32, student: u64, status: String)
        ensures
            final(self)@ == old(self)@.set_application_status(pool_id, student, status@),
    {
        let key = pack_member(pool_id, student);
        let ghost status_view = status;
        let ghost old_statuses = self.statuses@;
        self.statuses.insert(key, status);
        proof {
            lemma_by_member_insert(old_statuses, string_text(), pool_id, student, status_view);
        }
    }

    /// A student's application status with a pool; empty when none is set.
    pub fn get_application_status(&self, pool_id: u32, student: u64) -> (r: String)
        ensures
            r@ == self@.status(pool_id, student),
    {
        let key = pack_member(pool_id, student);
        match self.statuses.get(&key) {
            Some(s) => s.clone(),
            None => String::new(),
        }
    }

    /// Sets a student's disbursement milestones for a pool; the student must
    /// authorize, and the amounts must add up to the pool's goal.
    pub fn setup_application_milestones(
        &mut self,
        auth: &Authorization,
        pool_id: u32,
        student: u64,
        milestones: Vec<Milestone>,
    ) -> (r: Result<(), ContractError>)
        ensures
            carries_out(
                old(self)@.setup_application_milestones(*auth, pool_id, student, milestones@),
                r,
                old(self)@,
                final(self)@,
            ),
    {
        if !auth.permits(student) {
            return Err(ContractError::Unauthorized);
        }
        let pool = match self.find_pool(pool_id) {
            Some(p) => p,
            None => return Err(ContractError::PoolNotFound),
        };
        if milestones.len() == 0 {
            return Err(ContractError::MilestonesRequired);
        }
        let sum = match milestone_sum(&milestones) {
            Some(t) => t,
            None => return Err(ContractError::MilestoneOverflow),
        };
        if sum != pool.goal {
            return Err(ContractError::MilestoneTotalMismatch);
        }
        let key = pack_member(pool_id, student);
        let ghost stored = milestones;
        let ghost old_milestones = self.milestones@;
        self.milestones.insert(key, milestones);
        proof {
            lemma_by_member_insert(old_milestones, milestone_list(), pool_id, student, stored);
        }
        Ok(())
    }

    /// A student's milestones for a pool; empty when none are set.
    pub fn get_milestones(&self, pool_id: u32, student: u64) -> (r: Vec<Milestone>)
        ensures
            r@ == (if self@.milestones.contains_key((pool_id, student)) {
                self@.milestones[(pool_id, student)]
            } else {
                Seq::<Milestone>::empty()
            }),
    {
        let key = pack_member(pool_id, student);
        let mut out: Vec<Milestone> = Vec::new();
        match self.milestones.get(&key) {
            Some(list) => {
                let mut i: usize = 0;
                while i < list.len()
                    invariant
                        i <= list@.len(),
                        out@ =~= list@.take(i as int),
                    decreases list@.len() - i,
                {
                    out.push(list[i]);
                    i = i + 1;
                }
                assert(list@.take(list@.len() as int) =~= list@);
            },
            None => {},
        }
        out
    }

    /// Amount a student has claimed from a pool; zero before any claim.
    pub fn get_claimed_amount(&self, pool_id: u32, student: u64) -> (r: i128)
        ensures
            r == self@.claimed(pool_id, student),
    {
        let key = pack_member(pool_id, student);
        match self.claims.get(&key) {
            Some(a) => a.amount_claimed,
            None => 0,
        }
    }

    /// A student's claim record with a pool, once the student has claimed.
    pub fn get_application(&self, pool_id: u32, student: u64) -> (r: Option<Application>)
        ensures
            r == (if self@.claims.contains_key((pool_id, student)) {
                Some(self@.claims[(pool_id, student)])
            } else {
                None::<Application>
            }),
    {
        let key = pack_member(pool_id, student);
        match self.claims.get(&key) {
            Some(a) => Some(*a),
            None => None,
        }
    }
}

impl Contract {
    /// Whether the stored status is "Approved".
    fn is_approved(status: &String) -> (r: bool)
        ensures
            r == (status@ == approved_status()),
    {
        let approved = "Approved".to_owned();
        *status == approved
    }

    /// Whether the stored status is "Pending".
    fn is_pending(status: &String) -> (r: bool)
        ensures
            r == (status@ == pending_status()),
    {
        let pending = "Pending".to_owned();
        *status == pending
    }

    /// An approved student claims part or all of the funds available to them,
    /// never going past the pool's collected total nor the amount approved in
    /// the student's claim record; the student must authorize. One part in a hundred of the claim goes to
    /// the protocol's fees, the rest moves from the contract to the student.
    pub fn claim_funds(
        &mut self,
        auth: &Authorization,
        student: u64,
        pool_id: u32,
        claim_amount: i128,
        token: u64,
    ) -> (r: Result<Transfer, ContractError>)
        ensures
            carries_out(
                old(self)@.claim_funds(*auth, student, pool_id, claim_amount, token),
                r,
                old(self)@,
                final(self)@,
            ),
    {
        if !auth.permits(student) {
            return Err(ContractError::Unauthorized);
        }
        if claim_amount <= 0 {
            return Err(ContractError::ClaimAmountNotPositive);
        }
        let key = pack_member(pool_id, student);
        let approved = match self.statuses.get(&key) {
            Some(status) => Self::is_approved(status),
            None => return Err(ContractError::StatusNotFound),
        };
        if !approved {
            return Err(ContractError::NotApproved);
        }
        let pool = match self.find_pool(pool_id) {
            Some(p) => p,
            None => return Err(ContractError::PoolNotFound),
        };
        let collected = to_signed(pool.collected);
        let record = match self.claims.get(&key) {
            Some(a) => *a,
            None => Application { approved_amount: collected, amount_claimed: 0 },
        };
        let claimed = match record.amount_claimed.checked_add(claim_amount) {
            Some(c) => c,
            None => return Err(ContractError::ArithmeticOverflow),
        };
        if claimed > collected || claimed > record.approved_amount {
            return Err(ContractError::Overdraw);
        }
        let fee = ((claim_amount as u128) / (PROTOCOL_FEE_DIVISOR as u128)) as i128;
        let fees = match self.unclaimed_fees.checked_add(fee) {
            Some(f) => f,
            None => return Err(ContractError::ArithmeticOverflow),
        };
        let net = claim_amount - fee;
        let updated = Application { amount_claimed: claimed, ..record };
        let ghost old_claims = self.claims@;
        self.claims.insert(key, updated);
        proof {
            lemma_by_member_insert(old_claims, same_application(), pool_id, student, updated);
        }
        self.unclaimed_fees = fees;
        Ok(Transfer::FromContract { token, to: student, amount: net })
    }

    /// The admin claims all protocol fees collected so far, which then start
    /// again from zero; returns the amount claimed.
    pub fn claim_protocol_fees(&mut self, auth: &Authorization, admin: u64, token: u64) -> (r: Result<
        (i128, Transfer),
        ContractError,
    >)
        ensures
            carries_out(
                old(self)@.claim_protocol_fees(*auth, admin, token),
                r,
                old(self)@,
                final(self)@,
            ),
    {
        if let Some(e) = self.admin_check(auth, admin) {
            return Err(e);
        }
        let fees = self.unclaimed_fees;
        if fees == 0 {
            return Err(ContractError::NoUnclaimedFees);
        }
        self.unclaimed_fees = 0;
        Ok((fees, Transfer::FromContract { token, to: admin, amount: fees }))
    }

    fn locked_share_of(&self, pool_id: u32, index: u32) -> (r: Result<u128, ContractError>)
        ensures
            r == self@.locked_share(pool_id, index),
    {
        let slot = pack_slot(pool_id, index);
        let student = match self.submissions.get(&slot) {
            Some(entry) => entry.student,
            None => return Ok(0),
        };
        let key = pack_member(pool_id, student);
        let active = match self.statuses.get(&key) {
            Some(status) => Self::is_approved(status) || Self::is_pending(status),
            None => {
                assert(Seq::<char>::empty() != approved_status()) by {
                    reveal_strlit("Approved");
                    assert(approved_status().len() == 8);
                }
                assert(Seq::<char>::empty() != pending_status()) by {
                    reveal_strlit("Pending");
                    assert(pending_status().len() == 7);
                }
                false
            },
        };
        if !active {
            return Ok(0);
        }
        let record = match self.claims.get(&key) {
            Some(a) => *a,
            None => Application { approved_amount: 0, amount_claimed: 0 },
        };
        let remaining = match record.approved_amount.checked_sub(record.amount_claimed) {
            Some(x) => x,
            None => return Err(ContractError::ArithmeticOverflow),
        };
        if remaining <= 0 {
            Ok(0)
        } else {
            Ok(remaining as u128)
        }
    }

    fn locked_funds_of(&self, pool_id: u32) -> (r: Result<u128, ContractError>)
        ensures
            r == self@.locked_funds(pool_id),
    {
        let count = self.application_count_of(pool_id);
        let mut acc: u128 = 0;
        let mut n: u32 = 0;
        while n < count
            invariant
                n <= count,
                count == self@.application_count(pool_id),
                self@.locked_funds_upto(pool_id, n as nat) == Ok::<u128, ContractError>(acc),
            decreases count - n,
        {
            n = n + 1;
            let share = match self.locked_share_of(pool_id, n) {
                Ok(x) => x,
                Err(e) => {
                    proof {
                        lemma_locked_funds_error_persists(self@, pool_id, n as nat, count as nat);
                    }
                    return Err(e);
                },
            };
            acc = match acc.checked_add(share) {
                Some(a) => a,
                None => {
                    proof {
                        lemma_locked_funds_error_persists(self@, pool_id, n as nat, count as nat);
                    }
                    return Err(ContractError::LockedFundsOverflow);
                },
            };
        }
        Ok(acc)
    }

    /// The sponsor withdraws the pool's funds beyond those held back for its
    /// approved and pending applications; the sponsor must authorize.
    pub fn withdraw_unallocated_funds(&mut self, auth: &Authorization, pool_id: u32, token: u64) -> (r:
        Result<Transfer, ContractError>)
        ensures
            carries_out(
                old(self)@.withdraw_unallocated_funds(*auth, pool_id, token),
                r,
                old(self)@,
                final(self)@,
            ),
    {
        let pool = match self.find_pool(pool_id) {
            Some(p) => p,
            None => return Err(ContractError::PoolNotFound),
        };
        if !auth.permits(pool.sponsor) {
            return Err(ContractError::Unauthorized);
        }
        let locked = match self.locked_funds_of(pool_id) {
            Ok(l) => l,
            Err(e) => return Err(e),
        };
        if pool.collected < locked {
            return Err(ContractError::Insolvency);
        }
        if pool.collected == locked {
            return Err(ContractError::NoSurplus);
        }
        let surplus = pool.collected - locked;
        self.pools.insert(pool_id, Pool { collected: locked, ..pool });
        Ok(Transfer::FromContract { token, to: pool.sponsor, amount: to_signed(surplus) })
    }

    /// The admin requests an emergency withdrawal of `amount` of `token` from a
    /// pool, at time `now`; at most one request per pool may be pending.
    pub fn request_emergency_withdraw(
        &mut self,
        auth: &Authorization,
        admin: u64,
        pool_id: u32,
        token: u64,
        amount: i128,
        now: u64,
    ) -> (r: Result<(), ContractError>)
        ensures
            carries_out(
                old(self)@.request_emergency_withdraw(*auth, admin, pool_id, token, amount, now),
                r,
                old(self)@,
                final(self)@,
            ),
    {
        if !auth.permits(admin) {
            return Err(ContractError::Unauthorized);
        }
        match self.admin {
            None => return Err(ContractError::AdminNotSet),
            Some(stored) => if stored != admin {
                return Err(ContractError::Unauthorized);
            },
        }
        if self.emergency_requests.contains_key(&pool_id) {
            return Err(ContractError::WithdrawalAlreadyRequested);
        }
        let request = EmergencyWithdrawalRequest {
            pool_id,
            token_address: token,
            amount,
            request_timestamp: now,
            requested_by: admin,
        };
        self.emergency_requests.insert(pool_id, request);
        Ok(())
    }

    /// Carries out a pool's pending emergency withdrawal once the grace period
    /// has passed since the request (`now` is the current time).
    pub fn execute_emergency_withdraw(&mut self, pool_id: u32, now: u64) -> (r: Result<
        Transfer,
        ContractError,
    >)
        ensures
            carries_out(
                old(self)@.execute_emergency_withdraw(pool_id, now),
                r,
                old(self)@,
                final(self)@,
            ),
    {
        let request = match self.emergency_requests.get(&pool_id) {
            Some(q) => *q,
            None => return Err(ContractError::WithdrawalNotRequested),
        };
        if now < request.request_timestamp || now - request.request_timestamp < GRACE_PERIOD_SECS {
            return Err(ContractError::GracePeriodNotElapsed);
        }
        self.emergency_requests.remove(&pool_id);
        Ok(
            Transfer::FromContract {
                token: request.token_address,
                to: request.requested_by,
                amount: request.amount,
            },
        )
    }
}

} // verus!
