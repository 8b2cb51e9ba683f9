//! Escrow custody of one lease's deposit: the hold / dual-confirmation
//! release / negotiated settlement state machine.
//!
//! Two paths leave `Holding`: `Releasing -> Released` by a proposed split
//! both parties confirm, and `Settling -> Settled` by a landlord deduction
//! request the tenant confirms (or the arbitrator forces). An open dispute
//! freezes both paths until arbitration clears it.

use vstd::prelude::*;

use crate::config::Config;
use crate::error::ErrorCode;
use crate::ledger::{AccountId, Transfer, spend_seq, push_transfer, plan_total,
    lemma_spend_pair_total};
use crate::lease::Lease;

verus! {

/// Where the escrowed deposit stands.
#[derive(Clone, Copy, Debug, PartialEq, Eq, Structural)]
pub enum EscrowStatus {
    /// The deposit is held; no release or settlement is underway.
    Holding,
    /// A release split was proposed and awaits the counter-party.
    Releasing,
    /// A deduction request was filed and awaits the tenant (or arbitrator).
    Settling,
    /// Terminal: the deposit left custody along a release or arbitration.
    Released,
    /// Terminal: the deposit left custody along the settlement path.
    Settled,
}

/// The landlord's proposed deduction from the deposit.
#[derive(Clone, Copy, Debug, PartialEq, Eq, Structural)]
pub struct SettleRequest {
    /// Who filed the request (the landlord of record).
    pub initiator: AccountId,
    /// Total amount to withhold for the landlord.
    pub total_deductions: u64,
    /// How many deduction items the request bundles.
    pub deduction_count: u8,
    /// When the request was filed.
    pub created_at: i64,
    /// Whether the tenant confirmed the request.
    pub tenant_confirmed: bool,
}

/// Custody record for exactly one lease's deposit.
#[derive(Clone, Copy, Debug, PartialEq, Eq, Structural)]
pub struct Escrow {
    /// The lease this deposit belongs to, by stable identifier.
    pub lease: AccountId,
    /// The custody account actually holding the funds; every outgoing
    /// transfer is drawn from it under the escrow's own authority.
    pub custody: AccountId,
    /// Total amount held.
    pub amount: u64,
    /// Amount withheld for the landlord so far.
    pub deducted: u64,
    /// Position in the state machine.
    pub status: EscrowStatus,
    /// Whether an open dispute freezes releases and settlements.
    pub has_dispute: bool,
    /// Proposed release share of the landlord.
    pub release_to_landlord: u64,
    /// Proposed release share of the tenant.
    pub release_to_tenant: u64,
    /// Whether the landlord confirmed the pending release proposal.
    pub landlord_signed: bool,
    /// Whether the tenant confirmed the pending release proposal.
    pub tenant_signed: bool,
    /// The pending settlement request, if any.
    pub settle_request: Option<SettleRequest>,
}

impl Escrow {
    /// The invariant every operation preserves. In particular: a finalized
    /// escrow always carries a split that sums to the held amount, and a
    /// terminal escrow carries no open dispute.
    pub open spec fn wf(self) -> bool {
        &&& self.deducted <= self.amount
        &&& (self.settle_request matches Some(req) ==> req.total_deductions <= self.amount)
        &&& (self.status is Holding ==> !self.landlord_signed && !self.tenant_signed
            && self.settle_request is None && self.release_to_landlord == 0
            && self.release_to_tenant == 0 && self.deducted == 0)
        &&& (self.status is Releasing ==> self.release_to_landlord + self.release_to_tenant
            == self.amount && (self.landlord_signed != self.tenant_signed))
        &&& (self.status is Released ==> self.release_to_landlord + self.release_to_tenant
            == self.amount)
        &&& (self.status is Settling ==> (self.settle_request matches Some(req)
            && !req.tenant_confirmed))
        &&& (self.status is Settled ==> (self.settle_request matches Some(req)
            && self.deducted == req.total_deductions))
        &&& (self.is_terminal() ==> !self.has_dispute)
    }

    /// Whether the deposit has left custody for good.
    pub open spec fn is_terminal(self) -> bool {
        self.status is Released || self.status is Settled
    }

    /// What the landlord ends up with once the escrow is terminal.
    pub open spec fn final_landlord_amount(self) -> int {
        if self.status is Released {
            self.release_to_landlord as int
        } else {
            self.deducted as int
        }
    }

    /// What the tenant ends up with once the escrow is terminal.
    pub open spec fn final_tenant_amount(self) -> int {
        if self.status is Released {
            self.release_to_tenant as int
        } else {
            self.amount - self.deducted
        }
    }

    /// The two custody payouts of a finalized split, zero amounts skipped.
    pub open spec fn payout_seq(self, lease: Lease, landlord_amount: u64, tenant_amount: u64)
        -> Seq<Transfer> {
        spend_seq(self.custody, lease.landlord, landlord_amount)
            + spend_seq(self.custody, lease.tenant, tenant_amount)
    }

    /// Outcome of proposing a release split: the escrow afterwards, and
    /// the result handed back to the caller.
    pub open spec fn initiate_release_s(self, lease: Lease, caller: AccountId, landlord_amount: u64,
        tenant_amount: u64) -> (Escrow, Result<(), ErrorCode>) {
        if self.has_dispute {
            (self, Err(ErrorCode::DisputeInProgress))
        } else if !(self.status is Holding) {
            (self, Err(ErrorCode::EscrowAlreadySettled))
        } else if caller != lease.landlord && caller != lease.tenant {
            (self, Err(ErrorCode::Unauthorized))
        } else if landlord_amount + tenant_amount != self.amount {
            (self, Err(ErrorCode::InvalidDistribution))
        } else {
            (
                Escrow {
                    status: EscrowStatus::Releasing,
                    release_to_landlord: landlord_amount,
                    release_to_tenant: tenant_amount,
                    landlord_signed: caller == lease.landlord,
                    tenant_signed: caller != lease.landlord,
                    ..self
                },
                Ok(()),
            )
        }
    }

    /// Outcome of confirming a pending release: the escrow afterwards and,
    /// on the confirmation that completes the pair, the custody payouts.
    pub open spec fn confirm_release_s(self, lease: Lease, caller: AccountId) -> (
        Escrow,
        Result<Seq<Transfer>, ErrorCode>,
    ) {
        if self.has_dispute {
            (self, Err(ErrorCode::DisputeInProgress))
        } else if !(self.status is Releasing) {
            (self, Err(ErrorCode::ReleaseNotPending))
        } else if caller != lease.landlord && caller != lease.tenant {
            (self, Err(ErrorCode::Unauthorized))
        } else if (if caller == lease.landlord { self.landlord_signed } else { self.tenant_signed }) {
            (self, Err(ErrorCode::AlreadySigned))
        } else {
            let signed = Escrow {
                landlord_signed: self.landlord_signed || caller == lease.landlord,
                tenant_signed: self.tenant_signed || caller != lease.landlord,
                ..self
            };
            if signed.landlord_signed && signed.tenant_signed {
                (
                    Escrow { status: EscrowStatus::Released, ..signed },
                    Ok(self.payout_seq(lease, self.release_to_landlord, self.release_to_tenant)),
                )
            } else {
                (signed, Ok(Seq::empty()))
            }
        }
    }

    /// Outcome of the landlord's deduction request.
    pub open spec fn request_settle_s(self, lease: Lease, caller: AccountId, total_deductions: u64,
        deduction_count: u8, now: int) -> (Escrow, Result<(), ErrorCode>) {
        if self.has_dispute {
            (self, Err(ErrorCode::DisputeInProgress))
        } else if !(self.status is Holding) {
            (self, Err(ErrorCode::EscrowAlreadySettled))
        } else if caller != lease.landlord {
            (self, Err(ErrorCode::Unauthorized))
        } else if total_deductions > self.amount {
            (self, Err(ErrorCode::DeductionExceedsDeposit))
        } else {
            (
                Escrow {
                    status: EscrowStatus::Settling,
                    settle_request: Some(
                        SettleRequest {
                            initiator: caller,
                            total_deductions,
                            deduction_count,
                            created_at: now as i64,
                            tenant_confirmed: false,
                        },
                    ),
                    ..self
                },
                Ok(()),
            )
        }
    }

    /// The escrow once a pending settlement is carried out: the landlord
    /// keeps the requested deductions, the tenant the remainder.
    pub open spec fn settled(self, tenant_confirmed: bool) -> Escrow {
        Escrow {
            status: EscrowStatus::Settled,
            deducted: self.settle_request->Some_0.total_deductions,
            settle_request: Some(
                SettleRequest { tenant_confirmed, ..self.settle_request->Some_0 },
            ),
            ..self
        }
    }

    /// Outcome of the tenant confirming the pending settlement request.
    pub open spec fn confirm_settle_s(self, lease: Lease, caller: AccountId) -> (
        Escrow,
        Result<Seq<Transfer>, ErrorCode>,
    ) {
        if self.has_dispute {
            (self, Err(ErrorCode::DisputeInProgress))
        } else if !(self.status is Settling) || self.settle_request is None {
            (self, Err(ErrorCode::SettleRequestNotFound))
        } else if caller != lease.tenant {
            (self, Err(ErrorCode::Unauthorized))
        } else if self.settle_request->Some_0.tenant_confirmed {
            (self, Err(ErrorCode::SettleAlreadyConfirmed))
        } else {
            let deductions = self.settle_request->Some_0.total_deductions;
            (
                self.settled(true),
                Ok(self.payout_seq(lease, deductions, (self.amount - deductions) as u64)),
            )
        }
    }

    /// Outcome of the arbitrator forcing the pending settlement through
    /// without the tenant's confirmation.
    pub open spec fn force_settle_s(self, lease: Lease, config: Config, caller: AccountId) -> (
        Escrow,
        Result<Seq<Transfer>, ErrorCode>,
    ) {
        if self.has_dispute {
            (self, Err(ErrorCode::DisputeInProgress))
        } else if !(self.status is Settling) {
            (self, Err(ErrorCode::EscrowAlreadySettled))
        } else if self.settle_request is None {
            (self, Err(ErrorCode::SettleRequestNotFound))
        } else if caller != config.arbitrator {
            (self, Err(ErrorCode::Unauthorized))
        } else {
            let deductions = self.settle_request->Some_0.total_deductions;
            (
                self.settled(false),
                Ok(self.payout_seq(lease, deductions, (self.amount - deductions) as u64)),
            )
        }
    }

    /// Whether the record may be reclaimed: only once the deposit has left
    /// custody for good. The caller must additionally check that the
    /// custody account holds no residual balance.
    pub fn can_close(&self) -> (r: bool)
        ensures
            r == self.is_terminal(),
    {
        matches!(self.status, EscrowStatus::Released) || matches!(
            self.status,
            EscrowStatus::Settled,
        )
    }

    /// Proposes how to split the deposit and opens the dual-confirmation
    /// release. The proposer's confirmation is recorded; the counter-party's
    /// prior confirmation, if any, is reset.
    pub fn initiate_release(&mut self, lease: &Lease, caller: AccountId, landlord_amount: u64,
        tenant_amount: u64) -> (r: Result<(), ErrorCode>)
        requires
            old(self).wf(),
            old(self).lease == lease.id,
        ensures
            final(self).wf(),
            (*final(self), r) == old(self).initiate_release_s(
                *lease, caller, landlord_amount, tenant_amount,
            ),
    {
        if self.has_dispute {
            return Err(ErrorCode::DisputeInProgress);
        }
        if !matches!(self.status, EscrowStatus::Holding) {
            return Err(ErrorCode::EscrowAlreadySettled);
        }
        if caller != lease.landlord && caller != lease.tenant {
            return Err(ErrorCode::Unauthorized);
        }
        if landlord_amount > self.amount || tenant_amount != self.amount - landlord_amount {
            return Err(ErrorCode::InvalidDistribution);
        }
        self.status = EscrowStatus::Releasing;
        self.release_to_landlord = landlord_amount;
        self.release_to_tenant = tenant_amount;
        self.landlord_signed = caller == lease.landlord;
        self.tenant_signed = caller != lease.landlord;
        Ok(())
    }

    /// Confirms the pending release proposal for the calling party. When
    /// both parties have confirmed, returns the two custody payouts and the
    /// escrow becomes `Released`; with one confirmation outstanding the call
    /// succeeds with no transfers and the protocol waits.
    pub fn confirm_release(&mut self, lease: &Lease, caller: AccountId) -> (r: Result<
        Vec<Transfer>,
        ErrorCode,
    >)
        requires
            old(self).wf(),
            old(self).lease == lease.id,
        ensures
            final(self).wf(),
            ({
                let (e2, res) = old(self).confirm_release_s(*lease, caller);
                &&& *final(self) == e2
                &&& match (r, res) {
                    (Ok(v), Ok(s)) => v@ == s,
                    (Err(e), Err(e_s)) => e == e_s,
                    _ => false,
                }
            }),
            r is Ok && final(self).is_terminal() ==> final(self).final_landlord_amount()
                + final(self).final_tenant_amount() == final(self).amount,
            match r {
                Ok(v) => final(self).is_terminal() ==> plan_total(v@) == old(self).amount,
                Err(_) => true,
            },
    {
        if self.has_dispute {
            return Err(ErrorCode::DisputeInProgress);
        }
        if !matches!(self.status, EscrowStatus::Releasing) {
            return Err(ErrorCode::ReleaseNotPending);
        }
        if caller != lease.landlord && caller != lease.tenant {
            return Err(ErrorCode::Unauthorized);
        }
        if caller == lease.landlord {
            if self.landlord_signed {
                return Err(ErrorCode::AlreadySigned);
            }
            self.landlord_signed = true;
        } else {
            if self.tenant_signed {
                return Err(ErrorCode::AlreadySigned);
            }
            self.tenant_signed = true;
        }
        if self.landlord_signed && self.tenant_signed {
            let mut plan: Vec<Transfer> = Vec::new();
            push_transfer(&mut plan, self.custody, lease.landlord, self.release_to_landlord);
            push_transfer(&mut plan, self.custody, lease.tenant, self.release_to_tenant);
            self.status = EscrowStatus::Released;
            proof {
                assert(plan@ =~= old(self).payout_seq(
                    *lease, old(self).release_to_landlord, old(self).release_to_tenant,
                ));
                lemma_spend_pair_total(
                    old(self).custody,
                    lease.landlord,
                    old(self).release_to_landlord,
                    lease.tenant,
                    old(self).release_to_tenant,
                );
            }
            Ok(plan)
        } else {
            Ok(Vec::new())
        }
    }

    /// Files the landlord's deduction request against the held deposit and
    /// moves the escrow into settlement negotiation.
    pub fn request_settle(&mut self, lease: &Lease, caller: AccountId, total_deductions: u64,
        deduction_count: u8, now: i64) -> (r: Result<(), ErrorCode>)
        requires
            old(self).wf(),
            old(self).lease == lease.id,
        ensures
            final(self).wf(),
            (*final(self), r) == old(self).request_settle_s(
                *lease, caller, total_deductions, deduction_count, now as int,
            ),
    {
        if self.has_dispute {
            return Err(ErrorCode::DisputeInProgress);
        }
        if !matches!(self.status, EscrowStatus::Holding) {
            return Err(ErrorCode::EscrowAlreadySettled);
        }
        if caller != lease.landlord {
            return Err(ErrorCode::Unauthorized);
        }
        if total_deductions > self.amount {
            return Err(ErrorCode::DeductionExceedsDeposit);
        }
        self.status = EscrowStatus::Settling;
        self.settle_request = Some(
            SettleRequest {
                initiator: caller,
                total_deductions,
                deduction_count,
                created_at: now,
                tenant_confirmed: false,
            },
        );
        Ok(())
    }

    /// The tenant accepts the pending deduction request: the landlord is
    /// paid the deductions, the tenant the remainder, and the escrow is
    /// `Settled` with the request marked confirmed.
    pub fn confirm_settle(&mut self, lease: &Lease, caller: AccountId) -> (r: Result<
        Vec<Transfer>,
        ErrorCode,
    >)
        requires
            old(self).wf(),
            old(self).lease == lease.id,
        ensures
            final(self).wf(),
            ({
                let (e2, res) = old(self).confirm_settle_s(*lease, caller);
                &&& *final(self) == e2
                &&& match (r, res) {
                    (Ok(v), Ok(s)) => v@ == s,
                    (Err(e), Err(e_s)) => e == e_s,
                    _ => false,
                }
            }),
            r is Ok ==> final(self).final_landlord_amount() + final(self).final_tenant_amount()
                == final(self).amount,
            r matches Ok(v) ==> plan_total(v@) == old(self).amount,
    {
        if self.has_dispute {
            return Err(ErrorCode::DisputeInProgress);
        }
        if !matches!(self.status, EscrowStatus::Settling) {
            return Err(ErrorCode::SettleRequestNotFound);
        }
        let request = match &self.settle_request {
            Some(request) => *request,
            None => { return Err(ErrorCode::SettleRequestNotFound) },
        };
        if caller != lease.tenant {
            return Err(ErrorCode::Unauthorized);
        }
        if request.tenant_confirmed {
            return Err(ErrorCode::SettleAlreadyConfirmed);
        }
        let landlord_amount = request.total_deductions;
        let tenant_amount = self.amount - landlord_amount;
        let mut plan: Vec<Transfer> = Vec::new();
        push_transfer(&mut plan, self.custody, lease.landlord, landlord_amount);
        push_transfer(&mut plan, self.custody, lease.tenant, tenant_amount);
        self.status = EscrowStatus::Settled;
        self.deducted = landlord_amount;
        self.settle_request = Some(SettleRequest { tenant_confirmed: true, ..request });
        proof {
            assert(plan@ =~= old(self).payout_seq(*lease, landlord_amount, tenant_amount));
            lemma_spend_pair_total(
                old(self).custody, lease.landlord, landlord_amount, lease.tenant, tenant_amount,
            );
        }
        Ok(plan)
    }

    /// The arbitrator carries the pending deduction request out without the
    /// tenant's confirmation: the designed escape hatch for an unresponsive
    /// tenant. The request stays marked unconfirmed, which distinguishes a
    /// forced settlement from a mutual one on the record.
    pub fn force_settle(&mut self, lease: &Lease, config: &Config, caller: AccountId) -> (r: Result<
        Vec<Transfer>,
        ErrorCode,
    >)
        requires
            old(self).wf(),
            old(self).lease == lease.id,
        ensures
            final(self).wf(),
            ({
                let (e2, res) = old(self).force_settle_s(*lease, *config, caller);
                &&& *final(self) == e2
                &&& match (r, res) {
                    (Ok(v), Ok(s)) => v@ == s,
                    (Err(e), Err(e_s)) => e == e_s,
                    _ => false,
                }
            }),
            r is Ok ==> final(self).final_landlord_amount() + final(self).final_tenant_amount()
                == final(self).amount,
            r matches Ok(v) ==> plan_total(v@) == old(self).amount,
    {
        if self.has_dispute {
            return Err(ErrorCode::DisputeInProgress);
        }
        if !matches!(self.status, EscrowStatus::Settling) {
            return Err(ErrorCode::EscrowAlreadySettled);
        }
        let request = match &self.settle_request {
            Some(request) => *request,
            None => { return Err(ErrorCode::SettleRequestNotFound) },
        };
        if caller != config.arbitrator {
            return Err(ErrorCode::Unauthorized);
        }
        let landlord_amount = request.total_deductions;
        let tenant_amount = self.amount - landlord_amount;
        let mut plan: Vec<Transfer> = Vec::new();
        push_transfer(&mut plan, self.custody, lease.landlord, landlord_amount);
        push_transfer(&mut plan, self.custody, lease.tenant, tenant_amount);
        self.status = EscrowStatus::Settled;
        self.deducted = landlord_amount;
        proof {
            assert(plan@ =~= old(self).payout_seq(*lease, landlord_amount, tenant_amount));
            lemma_spend_pair_total(
                old(self).custody, lease.landlord, landlord_amount, lease.tenant, tenant_amount,
            );
        }
        Ok(plan)
    }
}

/// Conservation: however an escrow reaches a terminal state — mutual
/// release, settlement, forced settlement or arbitration — the landlord's
/// and the tenant's final amounts sum to the escrowed amount exactly.
pub proof fn lemma_finalized_conservation(escrow: Escrow)
    requires
        escrow.wf(),
        escrow.is_terminal(),
    ensures
        escrow.final_landlord_amount() + escrow.final_tenant_amount() == escrow.amount,
{
}

/// No double confirmation: once a party's release confirmation succeeds,
/// the same party confirming again is rejected with a state error, and the
/// escrow is left exactly as the repeated call found it.
pub proof fn lemma_no_double_confirm(escrow: Escrow, lease: Lease, caller: AccountId)
    requires
        escrow.wf(),
        escrow.confirm_release_s(lease, caller).1 is Ok,
    ensures
        ({
            let (after_first, _) = escrow.confirm_release_s(lease, caller);
            let (after_second, second) = after_first.confirm_release_s(lease, caller);
            &&& second is Err
            &&& second == Err::<Seq<Transfer>, ErrorCode>(
                if after_first.status is Released {
                    ErrorCode::ReleaseNotPending
                } else {
                    ErrorCode::AlreadySigned
                },
            )
            &&& after_second == after_first
        }),
{
}

/// Once terminal, an escrow is immutable: every release or settlement
/// operation is rejected with a state error and leaves the record — its
/// balances included — unchanged, whoever calls and whatever they ask.
pub proof fn lemma_terminal_escrow_frozen(escrow: Escrow, lease: Lease, config: Config,
    caller: AccountId, landlord_amount: u64, tenant_amount: u64, deduction_count: u8, now: int)
    requires
        escrow.wf(),
        escrow.is_terminal(),
    ensures
        escrow.initiate_release_s(lease, caller, landlord_amount, tenant_amount) == (
            escrow,
            Err::<(), ErrorCode>(ErrorCode::EscrowAlreadySettled),
        ),
        escrow.confirm_release_s(lease, caller) == (
            escrow,
            Err::<Seq<Transfer>, ErrorCode>(ErrorCode::ReleaseNotPending),
        ),
        escrow.request_settle_s(lease, caller, landlord_amount, deduction_count, now) == (
            escrow,
            Err::<(), ErrorCode>(ErrorCode::EscrowAlreadySettled),
        ),
        escrow.confirm_settle_s(lease, caller).0 == escrow,
        escrow.confirm_settle_s(lease, caller).1 is Err,
        escrow.force_settle_s(lease, config, caller) == (
            escrow,
            Err::<Seq<Transfer>, ErrorCode>(ErrorCode::EscrowAlreadySettled),
        ),
{
}

/// Dispute freeze: while a dispute is open, every release and settlement
/// operation is rejected with the dispute state error and changes nothing,
/// for any caller and any arguments.
pub proof fn lemma_dispute_freeze(escrow: Escrow, lease: Lease, config: Config, caller: AccountId,
    landlord_amount: u64, tenant_amount: u64, deduction_count: u8, now: int)
    requires
        escrow.has_dispute,
    ensures
        escrow.initiate_release_s(lease, caller, landlord_amount, tenant_amount) == (
            escrow,
            Err::<(), ErrorCode>(ErrorCode::DisputeInProgress),
        ),
        escrow.confirm_release_s(lease, caller) == (
            escrow,
            Err::<Seq<Transfer>, ErrorCode>(ErrorCode::DisputeInProgress),
        ),
        escrow.request_settle_s(lease, caller, landlord_amount, deduction_count, now) == (
            escrow,
            Err::<(), ErrorCode>(ErrorCode::DisputeInProgress),
        ),
        escrow.confirm_settle_s(lease, caller) == (
            escrow,
            Err::<Seq<Transfer>, ErrorCode>(ErrorCode::DisputeInProgress),
        ),
        escrow.force_settle_s(lease, config, caller) == (
            escrow,
            Err::<Seq<Transfer>, ErrorCode>(ErrorCode::DisputeInProgress),
        ),
{
}

} // verus!
