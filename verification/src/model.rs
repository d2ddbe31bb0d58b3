//! The ledger as a mathematical value, and each operation as a transition
//! from one ledger to the next.
//!
//! A transition yields `Err(e)` when the operation is refused (the ledger then
//! stays as it was), or `Ok((next, out))` with the next ledger and what the
//! operation hands back: its result, the events it publishes and the token
//! movement it asks for.

use vstd::prelude::*;
use vstd::utf8::encode_utf8;
use crate::types::{
    Application, Authorization, ContractError, EmergencyWithdrawalRequest, Event, Milestone, Pool,
    PoolState, Transfer,
};

verus! {

/// Longest pool description accepted, in bytes.
pub const MAX_DESCRIPTION_LENGTH: usize = 500;

/// Ledgers that must pass after a pool's refund deadline before donors may
/// take their contribution back (about a day at five seconds per ledger).
pub const REFUND_GRACE_PERIOD_LEDGERS: u32 = 17_280;

/// Seconds between an emergency withdrawal request and its execution.
pub const GRACE_PERIOD_SECS: u64 = 86_400;

/// The protocol keeps one part in this many of every claim.
pub const PROTOCOL_FEE_DIVISOR: i128 = 100;

/// Status of an application that waits for its school's decision.
pub open spec fn pending_status() -> Seq<char> {
    "Pending"@
}

/// Status of an application that its school approved.
pub open spec fn approved_status() -> Seq<char> {
    "Approved"@
}

/// Status of an application that its school rejected.
pub open spec fn rejected_status() -> Seq<char> {
    "Rejected"@
}

/// The two's complement reading of a `u128` as an `i128`.
pub open spec fn as_signed(x: u128) -> i128 {
    if x <= i128::MAX {
        x as i128
    } else {
        (x - 0x1_0000_0000_0000_0000_0000_0000_0000_0000) as i128
    }
}

/// The sum of the amounts of a list of milestones.
pub open spec fn milestone_total(s: Seq<Milestone>) -> nat
    decreases s.len(),
{
    if s.len() == 0 {
        0
    } else {
        milestone_total(s.drop_last()) + s.last().amount as nat
    }
}

/// What a contract ledger holds.
#[verifier::ext_equal]
pub struct LedgerModel {
    /// The platform admin, once set.
    pub admin: Option<u64>,
    /// Schools registered by the admin.
    pub schools: Set<u64>,
    /// Number of pools created; pools are numbered from 1.
    pub pool_count: u32,
    pub pools: Map<u32, Pool>,
    /// Title and description of each pool.
    pub metadata: Map<u32, (Seq<char>, Seq<char>)>,
    /// The school a pool is linked to.
    pub pool_schools: Map<u32, u64>,
    /// Number of distinct donors of each pool.
    pub donor_counts: Map<u32, u32>,
    /// Total given by each donor to each pool.
    pub contributions: Map<(u32, u64), u128>,
    /// The `(pool, donor)` pairs that have donated.
    pub donors: Set<(u32, u64)>,
    /// Number of applications filed with each pool.
    pub application_counts: Map<u32, u32>,
    /// Applications, by pool and sequence number: (sequence number, student, data).
    pub submissions: Map<(u32, u32), (u32, u64, Seq<char>)>,
    /// The `(pool, student)` pairs that have applied.
    pub applicants: Set<(u32, u64)>,
    /// Application status of each student with each pool.
    pub statuses: Map<(u32, u64), Seq<char>>,
    /// Disbursement milestones of each student with each pool.
    pub milestones: Map<(u32, u64), Seq<Milestone>>,
    /// Claim record of each student with each pool.
    pub claims: Map<(u32, u64), Application>,
    /// Protocol fees collected and not yet claimed.
    pub unclaimed_fees: i128,
    /// Fee charged for creating a pool.
    pub creation_fee: i128,
    /// Refund deadline of each pool, as a ledger sequence number.
    pub refund_deadlines: Map<u32, u32>,
    /// Pending emergency withdrawals, by pool.
    pub emergency_requests: Map<u32, EmergencyWithdrawalRequest>,
}

impl LedgerModel {
    /// The ledger of a freshly deployed contract.
    pub open spec fn initial() -> LedgerModel {
        LedgerModel {
            admin: None,
            schools: Set::empty(),
            pool_count: 0,
            pools: Map::empty(),
            metadata: Map::empty(),
            pool_schools: Map::empty(),
            donor_counts: Map::empty(),
            contributions: Map::empty(),
            donors: Set::empty(),
            application_counts: Map::empty(),
            submissions: Map::empty(),
            applicants: Set::empty(),
            statuses: Map::empty(),
            milestones: Map::empty(),
            claims: Map::empty(),
            unclaimed_fees: 0,
            creation_fee: 0,
            refund_deadlines: Map::empty(),
            emergency_requests: Map::empty(),
        }
    }

    // ----- reads with their defaults -----

    pub open spec fn donor_count(self, pool_id: u32) -> u32 {
        count_in(self.donor_counts, pool_id)
    }

    pub open spec fn contribution(self, pool_id: u32, donor: u64) -> u128 {
        if self.contributions.contains_key((pool_id, donor)) {
            self.contributions[(pool_id, donor)]
        } else {
            0
        }
    }

    pub open spec fn application_count(self, pool_id: u32) -> u32 {
        count_in(self.application_counts, pool_id)
    }

    /// The student's application status with the pool; empty when none is set.
    pub open spec fn status(self, pool_id: u32, student: u64) -> Seq<char> {
        if self.statuses.contains_key((pool_id, student)) {
            self.statuses[(pool_id, student)]
        } else {
            Seq::empty()
        }
    }

    /// Amount already claimed by the student from the pool; zero before any claim.
    pub open spec fn claimed(self, pool_id: u32, student: u64) -> i128 {
        if self.claims.contains_key((pool_id, student)) {
            self.claims[(pool_id, student)].amount_claimed
        } else {
            0
        }
    }

    pub open spec fn refund_deadline(self, pool_id: u32) -> u32 {
        if self.refund_deadlines.contains_key(pool_id) {
            self.refund_deadlines[pool_id]
        } else {
            0
        }
    }

    /// The refusal, if any, of an admin-only operation invoked as `admin`.
    pub open spec fn admin_refusal(self, auth: Authorization, admin: u64) -> Option<ContractError> {
        if !auth.allows(admin) {
            Some(ContractError::Unauthorized)
        } else if self.admin is None {
            Some(ContractError::AdminNotSet)
        } else if self.admin->0 != admin {
            Some(ContractError::UnauthorizedAdmin)
        } else {
            None
        }
    }

    // ----- administration -----

    pub open spec fn set_admin(self, auth: Authorization, admin: u64) -> Result<
        (LedgerModel, ()),
        ContractError,
    > {
        if !auth.allows(admin) {
            Err(ContractError::Unauthorized)
        } else {
            Ok((LedgerModel { admin: Some(admin), ..self }, ()))
        }
    }

    pub open spec fn register_school(self, auth: Authorization, admin: u64, school: u64) -> Result<
        (LedgerModel, ()),
        ContractError,
    > {
        match self.admin_refusal(auth, admin) {
            Some(e) => Err(e),
            None => Ok((LedgerModel { schools: self.schools.insert(school), ..self }, ())),
        }
    }

    pub open spec fn set_creation_fee(self, auth: Authorization, admin: u64, fee: i128) -> Result<
        (LedgerModel, Event),
        ContractError,
    > {
        match self.admin_refusal(auth, admin) {
            Some(e) => Err(e),
            None => if fee < 0 {
                Err(ContractError::InvalidFee)
            } else {
                Ok((LedgerModel { creation_fee: fee, ..self }, Event::CreationFeeUpdated { fee }))
            },
        }
    }

    // ----- pools -----

    pub open spec fn create_pool(
        self,
        creator: u64,
        title: String,
        description: String,
        goal: u128,
        application_deadline: u64,
    ) -> Result<(LedgerModel, (u32, Event)), ContractError> {
        if encode_utf8(description@).len() as usize > MAX_DESCRIPTION_LENGTH {
            Err(ContractError::DescriptionTooLong)
        } else if self.pool_count == u32::MAX {
            Err(ContractError::ArithmeticOverflow)
        } else {
            let id = (self.pool_count + 1) as u32;
            let pool = Pool {
                sponsor: creator,
                goal,
                collected: 0,
                is_closed: false,
                state: PoolState::Active,
                application_deadline,
            };
            Ok(
                (
                    LedgerModel {
                        pool_count: id,
                        pools: self.pools.insert(id, pool),
                        metadata: self.metadata.insert(id, (title@, description@)),
                        ..self
                    },
                    (
                        id,
                        Event::PoolCreated {
                            pool_id: id,
                            sponsor: creator,
                            goal,
                            title,
                            description,
                        },
                    ),
                ),
            )
        }
    }

    pub open spec fn create_pool_for_school(
        self,
        auth: Authorization,
        creator: u64,
        title: String,
        description: String,
        goal: u128,
        school: u64,
        application_deadline: u64,
    ) -> Result<(LedgerModel, (u32, Event)), ContractError> {
        if !auth.allows(creator) {
            Err(ContractError::Unauthorized)
        } else if !self.schools.contains(school) {
            Err(ContractError::SchoolNotRegistered)
        } else {
            match self.create_pool(creator, title, description, goal, application_deadline) {
                Err(e) => Err(e),
                Ok((next, (id, ev))) => Ok(
                    (
                        LedgerModel { pool_schools: next.pool_schools.insert(id, school), ..next },
                        (id, ev),
                    ),
                ),
            }
        }
    }

    pub open spec fn close_pool(self, auth: Authorization, pool_id: u32) -> Result<
        (LedgerModel, Event),
        ContractError,
    > {
        if !self.pools.contains_key(pool_id) {
            Err(ContractError::PoolNotFound)
        } else {
            let pool = self.pools[pool_id];
            if !auth.allows(pool.sponsor) {
                Err(ContractError::Unauthorized)
            } else if pool.state != PoolState::Disbursed && pool.state != PoolState::Cancelled {
                Err(ContractError::PoolNotDisbursedOrRefunded)
            } else {
                Ok(
                    (
                        LedgerModel {
                            pools: self.pools.insert(pool_id, Pool { is_closed: true, ..pool }),
                            ..self
                        },
                        Event::PoolClosed {
                            pool_id,
                            sponsor: pool.sponsor,
                            collected: pool.collected,
                        },
                    ),
                )
            }
        }
    }

    pub open spec fn set_pool_state(self, pool_id: u32, state: PoolState) -> Result<
        (LedgerModel, ()),
        ContractError,
    > {
        if !self.pools.contains_key(pool_id) {
            Err(ContractError::PoolNotFound)
        } else {
            let pool = self.pools[pool_id];
            Ok((LedgerModel { pools: self.pools.insert(pool_id, Pool { state, ..pool }), ..self }, ()))
        }
    }

    pub open spec fn set_pool_deadline(
        self,
        auth: Authorization,
        pool_id: u32,
        deadline: u32,
        ledger: u32,
    ) -> Result<(LedgerModel, ()), ContractError> {
        if !self.pools.contains_key(pool_id) {
            Err(ContractError::PoolNotFound)
        } else if !auth.allows(self.pools[pool_id].sponsor) {
            Err(ContractError::Unauthorized)
        } else if deadline <= ledger {
            Err(ContractError::DeadlineNotInFuture)
        } else {
            Ok(
                (
                    LedgerModel {
                        refund_deadlines: self.refund_deadlines.insert(pool_id, deadline),
                        ..self
                    },
                    (),
                ),
            )
        }
    }

    // ----- donations -----

    /// The refusal, if any, of a donation to `pool_id`.
    pub open spec fn donation_refusal(self, pool_id: u32) -> Option<ContractError> {
        if !self.pools.contains_key(pool_id) {
            Some(ContractError::PoolNotFound)
        } else if self.pools[pool_id].is_closed {
            Some(ContractError::PoolClosed)
        } else if self.pools[pool_id].state != PoolState::Active {
            Some(ContractError::InvalidPoolState)
        } else {
            None
        }
    }

    /// Whether recording `amount` more from `donor` would overflow the donor
    /// count or the donor's total.
    pub open spec fn donor_tally_overflows(self, pool_id: u32, donor: u64, amount: u128) -> bool {
        ||| (!self.donors.contains((pool_id, donor)) && self.donor_count(pool_id) == u32::MAX)
        ||| self.contribution(pool_id, donor) + amount > u128::MAX
    }

    /// The ledger after `donor` gave `amount` to `pool_id`, raising its
    /// collected total to `collected`.
    pub open spec fn record_donation(
        self,
        pool_id: u32,
        donor: u64,
        amount: u128,
        collected: u128,
    ) -> LedgerModel {
        let pool = self.pools[pool_id];
        let first = !self.donors.contains((pool_id, donor));
        LedgerModel {
            pools: self.pools.insert(pool_id, Pool { collected, ..pool }),
            donors: self.donors.insert((pool_id, donor)),
            donor_counts: if first {
                self.donor_counts.insert(pool_id, (self.donor_count(pool_id) + 1) as u32)
            } else {
                self.donor_counts
            },
            contributions: self.contributions.insert(
                (pool_id, donor),
                (self.contribution(pool_id, donor) + amount) as u128,
            ),
            ..self
        }
    }

    pub open spec fn donate(self, pool_id: u32, donor: u64, amount: u128) -> Result<
        (LedgerModel, Event),
        ContractError,
    > {
        match self.donation_refusal(pool_id) {
            Some(e) => Err(e),
            None => {
                let collected = self.pools[pool_id].collected + amount;
                if collected > u128::MAX || self.donor_tally_overflows(pool_id, donor, amount) {
                    Err(ContractError::ArithmeticOverflow)
                } else {
                    Ok(
                        (
                            self.record_donation(pool_id, donor, amount, collected as u128),
                            Event::Donation { pool_id, donor, amount, collected: collected as u128 },
                        ),
                    )
                }
            },
        }
    }

    pub open spec fn donate_with_token(
        self,
        auth: Authorization,
        pool_id: u32,
        donor: u64,
        token: u64,
        amount: i128,
    ) -> Result<(LedgerModel, (Transfer, Event)), ContractError> {
        if !auth.allows(donor) {
            Err(ContractError::Unauthorized)
        } else {
            match self.donation_refusal(pool_id) {
                Some(e) => Err(e),
                None => if amount <= 0 {
                    Err(ContractError::InvalidAmount)
                } else {
                    let collected = self.pools[pool_id].collected + amount;
                    if collected > u128::MAX {
                        Err(ContractError::CollectedOverflow)
                    } else if self.donor_tally_overflows(pool_id, donor, amount as u128) {
                        Err(ContractError::ArithmeticOverflow)
                    } else {
                        Ok(
                            (
                                self.record_donation(
                                    pool_id,
                                    donor,
                                    amount as u128,
                                    collected as u128,
                                ),
                                (
                                    Transfer::ToContract { token, from: donor, amount },
                                    Event::Contribution {
                                        pool_id,
                                        donor,
                                        amount,
                                        collected: collected as u128,
                                        private: true,
                                    },
                                ),
                            ),
                        )
                    }
                },
            }
        }
    }

    pub open spec fn refund_donation(
        self,
        auth: Authorization,
        pool_id: u32,
        donor: u64,
        token: u64,
        ledger: u32,
    ) -> Result<(LedgerModel, Transfer), ContractError> {
        if !auth.allows(donor) {
            Err(ContractError::Unauthorized)
        } else if !self.pools.contains_key(pool_id) {
            Err(ContractError::PoolNotFound)
        } else {
            let deadline = self.refund_deadline(pool_id);
            if deadline == 0 || ledger < deadline + REFUND_GRACE_PERIOD_LEDGERS {
                Err(ContractError::PoolNotExpired)
            } else {
                let given = self.contribution(pool_id, donor);
                let pool = self.pools[pool_id];
                if given == 0 {
                    Err(ContractError::NoContribution)
                } else {
                    let collected = if pool.collected >= given {
                        (pool.collected - given) as u128
                    } else {
                        0u128
                    };
                    Ok(
                        (
                            LedgerModel {
                                contributions: self.contributions.insert((pool_id, donor), 0),
                                pools: self.pools.insert(pool_id, Pool { collected, ..pool }),
                                ..self
                            },
                            Transfer::FromContract { token, to: donor, amount: as_signed(given) },
                        ),
                    )
                }
            }
        }
    }

    // ----- applications -----

    pub open spec fn apply_to_pool(
        self,
        auth: Authorization,
        pool_id: u32,
        student: u64,
        data: Seq<char>,
    ) -> Result<(LedgerModel, Event), ContractError> {
        if !auth.allows(student) {
            Err(ContractError::Unauthorized)
        } else if !self.pools.contains_key(pool_id) {
            Err(ContractError::PoolNotFound)
        } else if self.applicants.contains((pool_id, student)) {
            Err(ContractError::DuplicateApplication)
        } else if self.application_count(pool_id) == u32::MAX {
            Err(ContractError::ArithmeticOverflow)
        } else {
            let index = (self.application_count(pool_id) + 1) as u32;
            Ok(
                (
                    LedgerModel {
                        submissions: self.submissions.insert((pool_id, index), (index, student, data)),
                        applicants: self.applicants.insert((pool_id, student)),
                        application_counts: self.application_counts.insert(pool_id, index),
                        statuses: self.statuses.insert((pool_id, student), pending_status()),
                        ..self
                    },
                    Event::ApplicationSubmitted { pool_id, student, index, private: false },
                ),
            )
        }
    }

    pub open spec fn approve_application(
        self,
        auth: Authorization,
        pool_id: u32,
        school: u64,
        student: u64,
        approved: bool,
    ) -> Result<(LedgerModel, ()), ContractError> {
        if !auth.allows(school) {
            Err(ContractError::Unauthorized)
        } else if !self.pool_schools.contains_key(pool_id) {
            Err(ContractError::PoolSchoolNotSet)
        } else if self.pool_schools[pool_id] != school {
            Err(ContractError::OnlyLinkedSchool)
        } else if !self.applicants.contains((pool_id, student)) {
            Err(ContractError::StudentNotApplied)
        } else {
            let status = if approved {
                approved_status()
            } else {
                rejected_status()
            };
            Ok((LedgerModel { statuses: self.statuses.insert((pool_id, student), status), ..self }, ()))
        }
    }

    pub open spec fn set_application_status(
        self,
        pool_id: u32,
        student: u64,
        status: Seq<char>,
    ) -> LedgerModel {
        LedgerModel { statuses: self.statuses.insert((pool_id, student), status), ..self }
    }

    pub open spec fn setup_application_milestones(
        self,
        auth: Authorization,
        pool_id: u32,
        student: u64,
        milestones: Seq<Milestone>,
    ) -> Result<(LedgerModel, ()), ContractError> {
        if !auth.allows(student) {
            Err(ContractError::Unauthorized)
        } else if !self.pools.contains_key(pool_id) {
            Err(ContractError::PoolNotFound)
        } else if milestones.len() == 0 {
            Err(ContractError::MilestonesRequired)
        } else if milestone_total(milestones) > u128::MAX {
            Err(ContractError::MilestoneOverflow)
        } else if milestone_total(milestones) != self.pools[pool_id].goal {
            Err(ContractError::MilestoneTotalMismatch)
        } else {
            Ok(
                (
                    LedgerModel {
                        milestones: self.milestones.insert((pool_id, student), milestones),
                        ..self
                    },
                    (),
                ),
            )
        }
    }

    // ----- disbursement -----

    pub open spec fn claim_funds(
        self,
        auth: Authorization,
        student: u64,
        pool_id: u32,
        claim_amount: i128,
        token: u64,
    ) -> Result<(LedgerModel, Transfer), ContractError> {
        if !auth.allows(student) {
            Err(ContractError::Unauthorized)
        } else if claim_amount <= 0 {
            Err(ContractError::ClaimAmountNotPositive)
        } else if !self.statuses.contains_key((pool_id, student)) {
            Err(ContractError::StatusNotFound)
        } else if self.statuses[(pool_id, student)] != approved_status() {
            Err(ContractError::NotApproved)
        } else if !self.pools.contains_key(pool_id) {
            Err(ContractError::PoolNotFound)
        } else {
            let collected = as_signed(self.pools[pool_id].collected);
            let record = if self.claims.contains_key((pool_id, student)) {
                self.claims[(pool_id, student)]
            } else {
                Application { approved_amount: collected, amount_claimed: 0 }
            };
            let claimed = record.amount_claimed + claim_amount;
            let fee = claim_amount / PROTOCOL_FEE_DIVISOR;
            let fees = self.unclaimed_fees + fee;
            if claimed > i128::MAX || claimed < i128::MIN {
                Err(ContractError::ArithmeticOverflow)
            } else if claimed > collected || claimed > record.approved_amount {
                Err(ContractError::Overdraw)
            } else if fees > i128::MAX {
                Err(ContractError::ArithmeticOverflow)
            } else {
                Ok(
                    (
                        LedgerModel {
                            claims: self.claims.insert(
                                (pool_id, student),
                                Application { amount_claimed: claimed as i128, ..record },
                            ),
                            unclaimed_fees: fees as i128,
                            ..self
                        },
                        Transfer::FromContract {
                            token,
                            to: student,
                            amount: (claim_amount - fee) as i128,
                        },
                    ),
                )
            }
        }
    }

    pub open spec fn claim_protocol_fees(self, auth: Authorization, admin: u64, token: u64) -> Result<
        (LedgerModel, (i128, Transfer)),
        ContractError,
    > {
        match self.admin_refusal(auth, admin) {
            Some(e) => Err(e),
            None => if self.unclaimed_fees == 0 {
                Err(ContractError::NoUnclaimedFees)
            } else {
                Ok(
                    (
                        LedgerModel { unclaimed_fees: 0, ..self },
                        (
                            self.unclaimed_fees,
                            Transfer::FromContract { token, to: admin, amount: self.unclaimed_fees },
                        ),
                    ),
                )
            },
        }
    }

    /// The part of a pool's funds held back for the application filed under
    /// `index`: what remains of an approved or pending application's approved
    /// amount after its claims, never below zero.
    pub open spec fn locked_share(self, pool_id: u32, index: u32) -> Result<u128, ContractError> {
        if !self.submissions.contains_key((pool_id, index)) {
            Ok(0)
        } else {
            let student = self.submissions[(pool_id, index)].1;
            let status = self.status(pool_id, student);
            if status == approved_status() || status == pending_status() {
                let record = if self.claims.contains_key((pool_id, student)) {
                    self.claims[(pool_id, student)]
                } else {
                    Application { approved_amount: 0, amount_claimed: 0 }
                };
                let remaining = record.approved_amount - record.amount_claimed;
                if remaining < i128::MIN || remaining > i128::MAX {
                    Err(ContractError::ArithmeticOverflow)
                } else if remaining <= 0 {
                    Ok(0)
                } else {
                    Ok(remaining as u128)
                }
            } else {
                Ok(0)
            }
        }
    }

    /// The funds of a pool held back for its applications with sequence
    /// numbers `1..=n`, summed in order.
    pub open spec fn locked_funds_upto(self, pool_id: u32, n: nat) -> Result<u128, ContractError>
        decreases n,
    {
        if n == 0 {
            Ok(0)
        } else {
            match self.locked_funds_upto(pool_id, (n - 1) as nat) {
                Err(e) => Err(e),
                Ok(acc) => match self.locked_share(pool_id, n as u32) {
                    Err(e) => Err(e),
                    Ok(share) => if acc + share > u128::MAX {
                        Err(ContractError::LockedFundsOverflow)
                    } else {
                        Ok((acc + share) as u128)
                    },
                },
            }
        }
    }

    /// The funds of a pool held back for all its applications.
    pub open spec fn locked_funds(self, pool_id: u32) -> Result<u128, ContractError> {
        self.locked_funds_upto(pool_id, self.application_count(pool_id) as nat)
    }

    pub open spec fn withdraw_unallocated_funds(
        self,
        auth: Authorization,
        pool_id: u32,
        token: u64,
    ) -> Result<(LedgerModel, Transfer), ContractError> {
        if !self.pools.contains_key(pool_id) {
            Err(ContractError::PoolNotFound)
        } else {
            let pool = self.pools[pool_id];
            if !auth.allows(pool.sponsor) {
                Err(ContractError::Unauthorized)
            } else {
                match self.locked_funds(pool_id) {
                    Err(e) => Err(e),
                    Ok(locked) => if pool.collected < locked {
                        Err(ContractError::Insolvency)
                    } else if pool.collected == locked {
                        Err(ContractError::NoSurplus)
                    } else {
                        Ok(
                            (
                                LedgerModel {
                                    pools: self.pools.insert(
                                        pool_id,
                                        Pool { collected: locked, ..pool },
                                    ),
                                    ..self
                                },
                                Transfer::FromContract {
                                    token,
                                    to: pool.sponsor,
                                    amount: as_signed((pool.collected - locked) as u128),
                                },
                            ),
                        )
                    },
                }
            }
        }
    }

    // ----- emergency withdrawal -----

    pub open spec fn request_emergency_withdraw(
        self,
        auth: Authorization,
        admin: u64,
        pool_id: u32,
        token: u64,
        amount: i128,
        now: u64,
    ) -> Result<(LedgerModel, ()), ContractError> {
        if !auth.allows(admin) {
            Err(ContractError::Unauthorized)
        } else if self.admin is None {
            Err(ContractError::AdminNotSet)
        } else if self.admin->0 != admin {
            Err(ContractError::Unauthorized)
        } else if self.emergency_requests.contains_key(pool_id) {
            Err(ContractError::WithdrawalAlreadyRequested)
        } else {
            let request = EmergencyWithdrawalRequest {
                pool_id,
                token_address: token,
                amount,
                request_timestamp: now,
                requested_by: admin,
            };
            Ok(
                (
                    LedgerModel {
                        emergency_requests: self.emergency_requests.insert(pool_id, request),
                        ..self
                    },
                    (),
                ),
            )
        }
    }

    pub open spec fn execute_emergency_withdraw(self, pool_id: u32, now: u64) -> Result<
        (LedgerModel, Transfer),
        ContractError,
    > {
        if !self.emergency_requests.contains_key(pool_id) {
            Err(ContractError::WithdrawalNotRequested)
        } else {
            let request = self.emergency_requests[pool_id];
            if now < request.request_timestamp || now - request.request_timestamp
                < GRACE_PERIOD_SECS {
                Err(ContractError::GracePeriodNotElapsed)
            } else {
                Ok(
                    (
                        LedgerModel {
                            emergency_requests: self.emergency_requests.remove(pool_id),
                            ..self
                        },
                        Transfer::FromContract {
                            token: request.token_address,
                            to: request.requested_by,
                            amount: request.amount,
                        },
                    ),
                )
            }
        }
    }
}


/// Pools are numbered `1..=count`.
pub open spec fn pools_numbered(pools: Map<u32, Pool>, count: u32) -> bool {
    forall|id: u32| #[trigger] pools.contains_key(id) <==> (1 <= id && id <= count)
}

/// Every pool, and only a pool, has a title and description.
pub open spec fn metadata_for_pools(metadata: Map<u32, (Seq<char>, Seq<char>)>, pools: Map<u32, Pool>) -> bool {
    forall|id: u32| #[trigger] metadata.contains_key(id) <==> pools.contains_key(id)
}

/// Every milestone list belongs to a pool and adds up to its goal.
pub open spec fn milestones_meet_goals(
    milestones: Map<(u32, u64), Seq<Milestone>>,
    pools: Map<u32, Pool>,
) -> bool {
    forall|k: (u32, u64)| #[trigger]
        milestones.contains_key(k) ==> pools.contains_key(k.0) && milestone_total(milestones[k])
            == pools[k.0].goal
}

/// Every claim record shows a claimed amount between zero and its approved amount.
pub open spec fn claims_within_approved(claims: Map<(u32, u64), Application>) -> bool {
    forall|k: (u32, u64)| #[trigger]
        claims.contains_key(k) ==> 0 <= claims[k].amount_claimed <= claims[k].approved_amount
}

/// The count kept for a pool (of its applications, or of its distinct donors);
/// zero when none is kept.
pub open spec fn count_in(counts: Map<u32, u32>, pool_id: u32) -> u32 {
    if counts.contains_key(pool_id) {
        counts[pool_id]
    } else {
        0
    }
}

/// A pool's applications are numbered `1..=count`, each under its own number
/// and by an applicant of the pool.
pub open spec fn submissions_numbered(
    submissions: Map<(u32, u32), (u32, u64, Seq<char>)>,
    counts: Map<u32, u32>,
    applicants: Set<(u32, u64)>,
) -> bool {
    &&& forall|k: (u32, u32)| #[trigger]
        submissions.contains_key(k) <==> (1 <= k.1 && k.1 <= count_in(counts, k.0))
    &&& forall|k: (u32, u32)| #[trigger]
        submissions.contains_key(k) ==> submissions[k].0 == k.1 && applicants.contains(
            (k.0, submissions[k].1),
        )
}

/// The donors of one pool.
pub open spec fn donors_of(donors: Set<(u32, u64)>, pool_id: u32) -> Set<(u32, u64)> {
    donors.filter(|k: (u32, u64)| k.0 == pool_id)
}

/// The donor count of every pool is its number of distinct donors.
pub open spec fn donor_counts_match(donors: Set<(u32, u64)>, counts: Map<u32, u32>) -> bool {
    &&& donors.finite()
    &&& forall|p: u32| #[trigger] count_in(counts, p) == donors_of(donors, p).len()
}

impl LedgerModel {
    /// What every reachable ledger satisfies.
    pub open spec fn wf(self) -> bool {
        &&& pools_numbered(self.pools, self.pool_count)
        &&& metadata_for_pools(self.metadata, self.pools)
        &&& self.unclaimed_fees >= 0
        &&& self.creation_fee >= 0
        &&& milestones_meet_goals(self.milestones, self.pools)
        &&& claims_within_approved(self.claims)
        &&& submissions_numbered(self.submissions, self.application_counts, self.applicants)
        &&& donor_counts_match(self.donors, self.donor_counts)
    }
}

} // verus!

verus! {

/// Whether an operation ended as its transition says: on `Err(e)` it returned
/// `e` and left the ledger as it was; on `Ok((next, out))` it returned `out`
/// and the ledger became `next`.
pub open spec fn carries_out<T>(
    transition: Result<(LedgerModel, T), ContractError>,
    r: Result<T, ContractError>,
    before: LedgerModel,
    after: LedgerModel,
) -> bool {
    match transition {
        Ok((next, out)) => r == Ok::<T, ContractError>(out) && after == next,
        Err(e) => r == Err::<T, ContractError>(e) && after == before,
    }
}

} // verus!

verus! {

/// The total of a prefix of a milestone list never exceeds the total of the list.
pub proof fn lemma_milestone_prefix_total(s: Seq<Milestone>, i: int)
    requires
        0 <= i <= s.len(),
    ensures
        milestone_total(s.take(i)) <= milestone_total(s),
    decreases s.len(),
{
    if i == s.len() {
        assert(s.take(i) =~= s);
    } else {
        assert(s.drop_last().take(i) =~= s.take(i));
        lemma_milestone_prefix_total(s.drop_last(), i);
    }
}

/// Extending a prefix of a milestone list by one adds that milestone's amount.
pub proof fn lemma_milestone_prefix_step(s: Seq<Milestone>, i: int)
    requires
        0 <= i < s.len(),
    ensures
        milestone_total(s.take(i + 1)) == milestone_total(s.take(i)) + s[i].amount,
{
    assert(s.take(i + 1).drop_last() =~= s.take(i));
}

} // verus!

verus! {

/// Once the running sum of locked funds has failed, every longer sum fails the same way.
pub proof fn lemma_locked_funds_error_persists(m: LedgerModel, pool_id: u32, n: nat, k: nat)
    requires
        n <= k,
        m.locked_funds_upto(pool_id, n) is Err,
    ensures
        m.locked_funds_upto(pool_id, k) == m.locked_funds_upto(pool_id, n),
    decreases k,
{
    if k > n {
        lemma_locked_funds_error_persists(m, pool_id, n, (k - 1) as nat);
    }
}

} // verus!
