//! The lease record: contractual terms, the rent payment ledger position,
//! and the Active -> Completed | Terminated state machine.

use vstd::prelude::*;

use crate::calendar::{TimeUtils, ts_in_range, due_in_range, next_due_s, lemma_next_due_date};
use crate::config::Config;
use crate::error::ErrorCode;
use crate::escrow::{Escrow, EscrowStatus};
use crate::ledger::{AccountId, Transfer, platform_fee_s, spend_seq, split_rent, push_transfer,
    plan_total, lemma_spend_pair_total};

verus! {

/// Payment day of month must lie in 1..=28 so it exists in every month.
pub const MAX_PAYMENT_DAY: u8 = 28;

/// Longest allowed grace period after a due date, in days.
pub const MAX_GRACE_DAYS: u8 = 7;

/// Overdue payments tolerated before rent is refused pending termination.
pub const MAX_OVERDUE_COUNT: u8 = 3;

/// A lease may start at most this far in the future (30 days in seconds).
pub const MAX_ADVANCE_SECONDS: i64 = 30 * 86400;

/// Where a tenancy stands.
#[derive(Clone, Copy, Debug, PartialEq, Eq, Structural)]
pub enum LeaseStatus {
    /// The tenancy runs and accepts rent payments.
    Active,
    /// Terminal: every contracted instalment was paid.
    Completed,
    /// Terminal: a party ended the tenancy early.
    Terminated,
}

/// Why a lease was terminated.
#[derive(Clone, Copy, Debug, PartialEq, Eq, Structural)]
pub enum TerminationReason {
    /// Both parties agreed to end the tenancy.
    Mutual,
    /// The landlord broke the agreement.
    LandlordBreach,
    /// The tenant broke the agreement.
    TenantBreach,
    /// The overdue limit was exceeded.
    OverdueExceeded,
}

/// The terms a lease is created from, with the stable identifiers of the
/// records and accounts involved.
#[derive(Clone, Copy, Debug, PartialEq, Eq, Structural)]
pub struct LeaseTerms {
    /// Identifier the new lease record will carry.
    pub lease_account: AccountId,
    /// The listing the tenancy is for.
    pub listing: AccountId,
    /// The landlord of record.
    pub landlord: AccountId,
    /// The tenant of record; rent and deposit are drawn from this account.
    pub tenant: AccountId,
    /// Externally verified identity reference of the tenant.
    pub tenant_attest: AccountId,
    /// The custody account the deposit is held at.
    pub escrow_account: AccountId,
    /// Monthly rent.
    pub rent: u64,
    /// Deposit to hold in escrow.
    pub deposit: u64,
    /// When the tenancy begins.
    pub start_date: i64,
    /// When the tenancy ends; must lie after the start.
    pub end_date: i64,
    /// Contractual day of month rent falls due (1..=28).
    pub payment_day: u8,
    /// Days of tolerance after a due date (0..=7).
    pub grace_days: u8,
    /// Total number of contracted instalments, the one paid at signing
    /// included.
    pub total_payments: u32,
}

/// One tenancy's record.
#[derive(Clone, Copy, Debug, PartialEq, Eq, Structural)]
pub struct Lease {
    /// Stable identifier of this record; escrow and disputes refer to it.
    pub id: AccountId,
    /// The listing the tenancy is for.
    pub listing: AccountId,
    /// The landlord of record.
    pub landlord: AccountId,
    /// The tenant of record.
    pub tenant: AccountId,
    /// Externally verified identity reference of the tenant.
    pub tenant_attest: AccountId,
    /// Monthly rent.
    pub rent: u64,
    /// Deposit held in escrow.
    pub deposit: u64,
    /// When the tenancy begins.
    pub start_date: i64,
    /// When the tenancy ends.
    pub end_date: i64,
    /// Contractual day of month rent falls due (1..=28).
    pub payment_day: u8,
    /// Days of tolerance after a due date (0..=7).
    pub grace_days: u8,
    /// Total number of contracted instalments.
    pub total_payments: u32,
    /// Instalments paid so far, the one paid at signing included.
    pub paid_payments: u32,
    /// When the last instalment was paid.
    pub last_payment_date: i64,
    /// Index of the last paid instalment; the signing payment is index 0.
    pub last_payment_index: u32,
    /// When the next instalment falls due.
    pub next_due_date: i64,
    /// Overdue payments recorded so far; never decreases.
    pub overdue_count: u8,
    /// Disputes raised against this lease over its lifetime.
    pub dispute_count: u32,
    /// Position in the state machine.
    pub status: LeaseStatus,
    /// Why the lease was terminated; present exactly when it was.
    pub termination_reason: Option<TerminationReason>,
}

impl Lease {
    /// The invariant every operation preserves: terms in range, the payment
    /// ledger position consistent, the due date the calendar's, and the
    /// termination reason present exactly on terminated leases.
    pub open spec fn wf(self) -> bool {
        &&& 1 <= self.payment_day <= MAX_PAYMENT_DAY
        &&& self.grace_days <= MAX_GRACE_DAYS
        &&& self.start_date < self.end_date
        &&& ts_in_range(self.start_date as int)
        &&& 1 <= self.total_payments
        &&& 1 <= self.paid_payments <= self.total_payments
        &&& self.last_payment_index < self.total_payments
        &&& self.paid_payments == self.last_payment_index + 1
        &&& self.overdue_count <= MAX_OVERDUE_COUNT
        &&& due_in_range(self.start_date as int, self.total_payments as int)
        &&& self.next_due_date == next_due_s(
            self.start_date as int,
            self.payment_day as int,
            self.last_payment_index as int,
        )
        &&& (self.status is Terminated <==> self.termination_reason is Some)
    }

    /// The lease record as created from `terms` at time `now`: the first
    /// instalment counts as paid, and the next due date comes from the
    /// calendar.
    pub open spec fn created(terms: LeaseTerms, now: int) -> Lease {
        Lease {
            id: terms.lease_account,
            listing: terms.listing,
            landlord: terms.landlord,
            tenant: terms.tenant,
            tenant_attest: terms.tenant_attest,
            rent: terms.rent,
            deposit: terms.deposit,
            start_date: terms.start_date,
            end_date: terms.end_date,
            payment_day: terms.payment_day,
            grace_days: terms.grace_days,
            total_payments: terms.total_payments,
            paid_payments: 1,
            last_payment_date: now as i64,
            last_payment_index: 0,
            next_due_date: next_due_s(terms.start_date as int, terms.payment_day as int, 0) as i64,
            overdue_count: 0,
            dispute_count: 0,
            status: LeaseStatus::Active,
            termination_reason: None,
        }
    }

    /// The escrow record created together with the lease, holding the
    /// deposit.
    pub open spec fn created_escrow(terms: LeaseTerms) -> Escrow {
        Escrow {
            lease: terms.lease_account,
            custody: terms.escrow_account,
            amount: terms.deposit,
            deducted: 0,
            status: EscrowStatus::Holding,
            has_dispute: false,
            release_to_landlord: 0,
            release_to_tenant: 0,
            landlord_signed: false,
            tenant_signed: false,
            settle_request: None,
        }
    }

    /// The transfers collected atomically at signing: the deposit into
    /// custody, the first rent instalment to the landlord, and the platform
    /// fee; zero amounts skipped.
    pub open spec fn signing_transfers(terms: LeaseTerms, config: Config) -> Seq<Transfer> {
        let fee = platform_fee_s(terms.rent as int, config.fee_rate as int) as u64;
        spend_seq(terms.tenant, terms.escrow_account, terms.deposit)
            + spend_seq(terms.tenant, terms.landlord, (terms.rent - fee) as u64)
            + spend_seq(terms.tenant, config.fee_receiver, fee)
    }

    /// Outcome of creating a lease: either the lease/escrow pair with the
    /// signing transfers, or the validation error, checked in this order.
    pub open spec fn create_s(terms: LeaseTerms, config: Config, now: int) -> Result<
        (Lease, Escrow, Seq<Transfer>),
        ErrorCode,
    > {
        if !(1 <= terms.payment_day <= MAX_PAYMENT_DAY) {
            Err(ErrorCode::InvalidPaymentDay)
        } else if terms.grace_days > MAX_GRACE_DAYS {
            Err(ErrorCode::InvalidGraceDays)
        } else if terms.start_date <= now {
            Err(ErrorCode::InvalidStartDate)
        } else if terms.start_date >= now + MAX_ADVANCE_SECONDS {
            Err(ErrorCode::InvalidStartDate)
        } else if terms.end_date <= terms.start_date {
            Err(ErrorCode::InvalidStartDate)
        } else if terms.total_payments == 0 {
            Err(ErrorCode::InvalidStartDate)
        } else if !ts_in_range(terms.start_date as int) {
            Err(ErrorCode::InvalidStartDate)
        } else if !due_in_range(terms.start_date as int, terms.total_payments as int) {
            Err(ErrorCode::InvalidStartDate)
        } else {
            Ok((Self::created(terms, now), Self::created_escrow(terms),
                Self::signing_transfers(terms, config)))
        }
    }

    /// Outcome of a rent payment: the lease afterwards and either the rent
    /// transfers or the rejection. This is the one operation that mutates
    /// state while rejecting: an overdue payment that reaches the overdue
    /// limit is refused, yet the overdue event stays recorded.
    pub open spec fn pay_rent_s(self, caller: AccountId, payment_index: u32, now: int,
        config: Config) -> (Lease, Result<Seq<Transfer>, ErrorCode>) {
        if !(self.status is Active) {
            (self, Err(ErrorCode::LeaseAlreadyTerminated))
        } else if caller != self.tenant {
            (self, Err(ErrorCode::Unauthorized))
        } else if payment_index != self.last_payment_index + 1 {
            (self, Err(ErrorCode::PaymentAlreadyExists))
        } else if payment_index >= self.total_payments {
            (self, Err(ErrorCode::PaymentNotFound))
        } else if self.overdue_count >= MAX_OVERDUE_COUNT {
            (self, Err(ErrorCode::ExceedOverdueLimit))
        } else {
            let overdue = now > self.next_due_date + self.grace_days as int * 86400;
            let count = if overdue { (self.overdue_count + 1) as u8 } else { self.overdue_count };
            if count >= MAX_OVERDUE_COUNT {
                (Lease { overdue_count: count, ..self }, Err(ErrorCode::ExceedOverdueLimit))
            } else {
                let fee = platform_fee_s(self.rent as int, config.fee_rate as int) as u64;
                (
                    Lease {
                        paid_payments: (self.paid_payments + 1) as u32,
                        last_payment_date: now as i64,
                        last_payment_index: payment_index,
                        next_due_date: next_due_s(
                            self.start_date as int,
                            self.payment_day as int,
                            payment_index as int,
                        ) as i64,
                        overdue_count: count,
                        status: if payment_index + 1 == self.total_payments {
                            LeaseStatus::Completed
                        } else {
                            LeaseStatus::Active
                        },
                        ..self
                    },
                    Ok(
                        spend_seq(self.tenant, self.landlord, (self.rent - fee) as u64)
                            + spend_seq(self.tenant, config.fee_receiver, fee),
                    ),
                )
            }
        }
    }

    /// Outcome of terminating the lease.
    pub open spec fn terminate_s(self, caller: AccountId, reason: TerminationReason) -> (
        Lease,
        Result<(), ErrorCode>,
    ) {
        if !(self.status is Active) {
            (self, Err(ErrorCode::LeaseAlreadyTerminated))
        } else if caller != self.landlord && caller != self.tenant {
            (self, Err(ErrorCode::Unauthorized))
        } else {
            (
                Lease {
                    status: LeaseStatus::Terminated,
                    termination_reason: Some(reason),
                    ..self
                },
                Ok(()),
            )
        }
    }

    /// Accepts rent instalment `payment_index` from the tenant at time
    /// `now` and returns the transfers that pay it out: the landlord's
    /// share and the platform fee, zero amounts skipped.
    ///
    /// An overdue payment is recorded; once the overdue count reaches
    /// `MAX_OVERDUE_COUNT` the payment itself is refused and only
    /// termination remains.
    pub fn pay_rent(&mut self, caller: AccountId, payment_index: u32, now: i64, config: &Config)
        -> (r: Result<Vec<Transfer>, ErrorCode>)
        requires
            old(self).wf(),
            config.wf(),
        ensures
            final(self).wf(),
            ({
                let (l2, res) = old(self).pay_rent_s(caller, payment_index, now as int, *config);
                &&& *final(self) == l2
                &&& match (r, res) {
                    (Ok(v), Ok(s)) => v@ == s,
                    (Err(e), Err(e_s)) => e == e_s,
                    _ => false,
                }
            }),
            r matches Ok(v) ==> plan_total(v@) == old(self).rent,
    {
        if !matches!(self.status, LeaseStatus::Active) {
            return Err(ErrorCode::LeaseAlreadyTerminated);
        }
        if caller != self.tenant {
            return Err(ErrorCode::Unauthorized);
        }
        if payment_index != self.last_payment_index + 1 {
            return Err(ErrorCode::PaymentAlreadyExists);
        }
        if payment_index >= self.total_payments {
            return Err(ErrorCode::PaymentNotFound);
        }
        if self.overdue_count >= MAX_OVERDUE_COUNT {
            return Err(ErrorCode::ExceedOverdueLimit);
        }
        proof {
            crate::calendar::lemma_due_in_range_monotone(
                self.start_date as int,
                self.last_payment_index as int,
                self.total_payments as int,
            );
            lemma_next_due_date(
                self.start_date as int,
                self.payment_day as int,
                self.last_payment_index as int,
            );
        }
        let is_overdue = now > self.next_due_date + self.grace_days as i64 * 86400;
        if is_overdue {
            self.overdue_count += 1;
            if self.overdue_count >= MAX_OVERDUE_COUNT {
                return Err(ErrorCode::ExceedOverdueLimit);
            }
        }
        proof {
            crate::calendar::lemma_due_in_range_monotone(
                self.start_date as int,
                payment_index as int,
                self.total_payments as int,
            );
        }
        let (landlord_share, fee) = split_rent(self.rent, config.fee_rate);
        let mut plan: Vec<Transfer> = Vec::new();
        push_transfer(&mut plan, self.tenant, self.landlord, landlord_share);
        push_transfer(&mut plan, self.tenant, config.fee_receiver, fee);
        proof {
            assert(plan@ =~= spend_seq(self.tenant, self.landlord, landlord_share)
                + spend_seq(self.tenant, config.fee_receiver, fee));
            lemma_spend_pair_total(
                self.tenant, self.landlord, landlord_share, config.fee_receiver, fee,
            );
        }

        self.paid_payments += 1;
        self.last_payment_date = now;
        self.last_payment_index = payment_index;
        self.next_due_date = TimeUtils::calculate_next_payment_due(
            self.start_date,
            self.payment_day,
            payment_index,
        );
        if payment_index + 1 == self.total_payments {
            self.status = LeaseStatus::Completed;
        }
        Ok(plan)
    }

    /// Creates the lease together with its escrow, validating the terms
    /// against the clock `now`. The deposit and the first rent instalment
    /// are collected atomically at signing: the returned transfers draw
    /// them from the tenant's account.
    pub fn create(terms: &LeaseTerms, config: &Config, now: i64) -> (r: Result<
        (Lease, Escrow, Vec<Transfer>),
        ErrorCode,
    >)
        requires
            config.wf(),
            ts_in_range(now as int),
        ensures
            match (r, Self::create_s(*terms, *config, now as int)) {
                (Ok(v), Ok(s)) => v.0 == s.0 && v.1 == s.1 && v.2@ == s.2 && v.0.wf() && v.1.wf()
                    && v.1.lease == v.0.id,
                (Err(e), Err(e_s)) => e == e_s,
                _ => false,
            },
            r matches Ok(v) ==> plan_total(v.2@) == terms.deposit + terms.rent,
    {
        if terms.payment_day < 1 || terms.payment_day > MAX_PAYMENT_DAY {
            return Err(ErrorCode::InvalidPaymentDay);
        }
        if terms.grace_days > MAX_GRACE_DAYS {
            return Err(ErrorCode::InvalidGraceDays);
        }
        if terms.start_date <= now {
            return Err(ErrorCode::InvalidStartDate);
        }
        if terms.start_date >= now + MAX_ADVANCE_SECONDS {
            return Err(ErrorCode::InvalidStartDate);
        }
        if terms.end_date <= terms.start_date {
            return Err(ErrorCode::InvalidStartDate);
        }
        if terms.total_payments == 0 {
            return Err(ErrorCode::InvalidStartDate);
        }
        if !TimeUtils::timestamp_in_range(terms.start_date) {
            return Err(ErrorCode::InvalidStartDate);
        }
        let (start_year, start_month, _) = TimeUtils::timestamp_to_date(terms.start_date);
        let schedule_months: u64 = (start_month as u64 - 1) + terms.total_payments as u64 + 1;
        if start_year as i64 + (schedule_months / 12) as i64 > 9999 {
            return Err(ErrorCode::InvalidStartDate);
        }
        proof {
            crate::calendar::lemma_due_in_range_monotone(
                terms.start_date as int,
                0,
                terms.total_payments as int,
            );
        }
        let next_due_date = TimeUtils::calculate_next_payment_due(
            terms.start_date,
            terms.payment_day,
            0,
        );
        let lease = Lease {
            id: terms.lease_account,
            listing: terms.listing,
            landlord: terms.landlord,
            tenant: terms.tenant,
            tenant_attest: terms.tenant_attest,
            rent: terms.rent,
            deposit: terms.deposit,
            start_date: terms.start_date,
            end_date: terms.end_date,
            payment_day: terms.payment_day,
            grace_days: terms.grace_days,
            total_payments: terms.total_payments,
            paid_payments: 1,
            last_payment_date: now,
            last_payment_index: 0,
            next_due_date,
            overdue_count: 0,
            dispute_count: 0,
            status: LeaseStatus::Active,
            termination_reason: None,
        };
        let escrow = Escrow {
            lease: terms.lease_account,
            custody: terms.escrow_account,
            amount: terms.deposit,
            deducted: 0,
            status: EscrowStatus::Holding,
            has_dispute: false,
            release_to_landlord: 0,
            release_to_tenant: 0,
            landlord_signed: false,
            tenant_signed: false,
            settle_request: None,
        };
        let (landlord_share, fee) = split_rent(terms.rent, config.fee_rate);
        let mut plan: Vec<Transfer> = Vec::new();
        push_transfer(&mut plan, terms.tenant, terms.escrow_account, terms.deposit);
        push_transfer(&mut plan, terms.tenant, terms.landlord, landlord_share);
        push_transfer(&mut plan, terms.tenant, config.fee_receiver, fee);
        proof {
            assert(plan@ =~= Self::signing_transfers(*terms, *config));
            let deposit_leg = spend_seq(terms.tenant, terms.escrow_account, terms.deposit);
            let rent_leg = spend_seq(terms.tenant, terms.landlord, landlord_share);
            let fee_leg = spend_seq(terms.tenant, config.fee_receiver, fee);
            lemma_spend_pair_total(
                terms.tenant, terms.landlord, landlord_share, config.fee_receiver, fee,
            );
            if terms.deposit == 0 {
                assert(deposit_leg + rent_leg + fee_leg =~= rent_leg + fee_leg);
            } else {
                assert((deposit_leg + rent_leg + fee_leg).drop_first() =~= rent_leg + fee_leg);
            }
        }
        Ok((lease, escrow, plan))
    }

    /// Ends the tenancy early on behalf of a lease party and records the
    /// reason. Termination moves no escrow funds; it only unblocks the
    /// escrow's settlement path.
    pub fn terminate(&mut self, caller: AccountId, reason: TerminationReason) -> (r: Result<
        (),
        ErrorCode,
    >)
        requires
            old(self).wf(),
        ensures
            final(self).wf(),
            (*final(self), r) == old(self).terminate_s(caller, reason),
            final(self).overdue_count == old(self).overdue_count,
    {
        if !matches!(self.status, LeaseStatus::Active) {
            return Err(ErrorCode::LeaseAlreadyTerminated);
        }
        if caller != self.landlord && caller != self.tenant {
            return Err(ErrorCode::Unauthorized);
        }
        self.status = LeaseStatus::Terminated;
        self.termination_reason = Some(reason);
        Ok(())
    }
}

/// Status only moves forward: a completed or terminated lease rejects
/// every further payment and termination unchanged.
pub proof fn lemma_lease_terminal_is_final(lease: Lease, caller: AccountId, payment_index: u32,
    now: int, config: Config, reason: TerminationReason)
    requires
        !(lease.status is Active),
    ensures
        lease.pay_rent_s(caller, payment_index, now, config) == (
            lease,
            Err::<Seq<Transfer>, ErrorCode>(ErrorCode::LeaseAlreadyTerminated),
        ),
        lease.terminate_s(caller, reason) == (
            lease,
            Err::<(), ErrorCode>(ErrorCode::LeaseAlreadyTerminated),
        ),
{
}

/// Overdue monotonicity: neither paying rent nor terminating ever lowers
/// the overdue counter, whatever the arguments and whoever calls.
pub proof fn lemma_overdue_monotone(lease: Lease, caller: AccountId, payment_index: u32, now: int,
    config: Config, reason: TerminationReason)
    ensures
        lease.pay_rent_s(caller, payment_index, now, config).0.overdue_count
            >= lease.overdue_count,
        lease.terminate_s(caller, reason).0.overdue_count == lease.overdue_count,
{
}

/// Overdue limit: once the counter has reached `MAX_OVERDUE_COUNT`, every
/// further rent payment is refused and leaves the lease unchanged; only
/// termination remains.
pub proof fn lemma_overdue_limit_blocks(lease: Lease, caller: AccountId, payment_index: u32,
    now: int, config: Config)
    requires
        lease.overdue_count >= MAX_OVERDUE_COUNT,
    ensures
        lease.pay_rent_s(caller, payment_index, now, config).0 == lease,
        lease.pay_rent_s(caller, payment_index, now, config).1 is Err,
{
}

} // verus!
