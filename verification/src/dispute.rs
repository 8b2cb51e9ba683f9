//! Disputes: the freeze-and-arbitrate overlay on a lease/escrow pair.
//!
//! Raising a dispute sets the escrow's freeze flag, which blocks every
//! release and settlement step. Only the configured arbitrator resolves a
//! dispute, with a binding split of the full deposit; resolution moves the
//! escrow straight to its terminal state and clears the freeze.

use vstd::prelude::*;

use crate::config::Config;
use crate::error::ErrorCode;
use crate::escrow::{Escrow, EscrowStatus};
use crate::lease::Lease;
use crate::ledger::{AccountId, Transfer, push_transfer, plan_total, lemma_spend_pair_total};

verus! {

/// Where a dispute stands.
#[derive(Clone, Copy, Debug, PartialEq, Eq, Structural)]
pub enum DisputeStatus {
    /// Raised and awaiting arbitration; the escrow is frozen meanwhile.
    Open,
    /// Terminal: the arbitrator ruled and the escrow was paid out.
    Resolved,
}

/// What a dispute is about.
#[derive(Clone, Copy, Debug, PartialEq, Eq, Structural)]
pub enum DisputeReason {
    /// The deposit itself is contested.
    Deposit,
    /// Damage to the property is claimed.
    Damage,
    /// Anything else.
    Other,
}

/// A claim one lease party raises against the other over the escrowed
/// deposit.
#[derive(Clone, Debug, PartialEq, Eq)]
pub struct Dispute {
    /// The lease the claim is raised against, by stable identifier.
    pub lease: AccountId,
    /// The party that raised the claim.
    pub initiator: AccountId,
    /// What the claim is about.
    pub reason: DisputeReason,
    /// Position in the state machine.
    pub status: DisputeStatus,
    /// The arbitrator's note, recorded at resolution.
    pub resolution: Option<String>,
    /// The binding (landlord, tenant) split, recorded at resolution.
    pub distribution: Option<(u64, u64)>,
    /// When the claim was raised.
    pub created_at: i64,
    /// When the claim was resolved.
    pub resolved_at: Option<i64>,
}

impl Dispute {
    /// The invariant: resolution data is present exactly on resolved
    /// disputes.
    pub open spec fn wf(self) -> bool {
        &&& (self.status is Open ==> self.resolution is None && self.distribution is None
            && self.resolved_at is None)
        &&& (self.status is Resolved ==> self.distribution is Some && self.resolved_at is Some)
    }

    /// Outcome of raising a dispute: the lease and escrow afterwards, and
    /// the new dispute record or the rejection.
    pub open spec fn raise_s(lease: Lease, escrow: Escrow, initiator: AccountId,
        reason: DisputeReason, now: int) -> (Lease, Escrow, Result<Dispute, ErrorCode>) {
        if initiator != lease.landlord && initiator != lease.tenant {
            (lease, escrow, Err(ErrorCode::Unauthorized))
        } else if escrow.is_terminal() {
            (lease, escrow, Err(ErrorCode::DepositAlreadyReleased))
        } else if escrow.has_dispute {
            (lease, escrow, Err(ErrorCode::DisputeInProgress))
        } else {
            (
                Lease { dispute_count: (lease.dispute_count + 1) as u32, ..lease },
                Escrow { has_dispute: true, ..escrow },
                Ok(
                    Dispute {
                        lease: lease.id,
                        initiator,
                        reason,
                        status: DisputeStatus::Open,
                        resolution: None,
                        distribution: None,
                        created_at: now as i64,
                        resolved_at: None,
                    },
                ),
            )
        }
    }

    /// Outcome of the arbitrator resolving a dispute: the dispute and
    /// escrow afterwards, and the custody payouts or the rejection.
    pub open spec fn resolve_s(self, escrow: Escrow, lease: Lease, config: Config,
        caller: AccountId, landlord_amount: u64, tenant_amount: u64, resolution: String, now: int)
        -> (Dispute, Escrow, Result<Seq<Transfer>, ErrorCode>) {
        if caller != config.arbitrator {
            (self, escrow, Err(ErrorCode::Unauthorized))
        } else if !(self.status is Open) {
            (self, escrow, Err(ErrorCode::DisputeAlreadyResolved))
        } else if !escrow.has_dispute {
            (self, escrow, Err(ErrorCode::DisputeNotFound))
        } else if landlord_amount + tenant_amount != escrow.amount {
            (self, escrow, Err(ErrorCode::InvalidDistribution))
        } else {
            (
                Dispute {
                    status: DisputeStatus::Resolved,
                    resolution: Some(resolution),
                    distribution: Some((landlord_amount, tenant_amount)),
                    resolved_at: Some(now as i64),
                    ..self
                },
                Escrow {
                    status: EscrowStatus::Released,
                    release_to_landlord: landlord_amount,
                    release_to_tenant: tenant_amount,
                    has_dispute: false,
                    deducted: landlord_amount,
                    ..escrow
                },
                Ok(escrow.payout_seq(lease, landlord_amount, tenant_amount)),
            )
        }
    }
}

/// Raises a dispute against the lease/escrow pair on behalf of a lease
/// party: the escrow freezes until arbitration, and the lease's dispute
/// counter provides the claim's disambiguating number.
pub fn raise_dispute(lease: &mut Lease, escrow: &mut Escrow, initiator: AccountId,
    reason: DisputeReason, now: i64) -> (r: Result<Dispute, ErrorCode>)
    requires
        old(lease).wf(),
        old(escrow).wf(),
        old(escrow).lease == old(lease).id,
        old(lease).dispute_count < u32::MAX,
    ensures
        final(lease).wf(),
        final(escrow).wf(),
        final(escrow).lease == final(lease).id,
        ({
            let (l2, e2, res) = Dispute::raise_s(*old(lease), *old(escrow), initiator, reason,
                now as int);
            &&& *final(lease) == l2
            &&& *final(escrow) == e2
            &&& r == res
        }),
        r matches Ok(d) ==> d.wf(),
{
    if initiator != lease.landlord && initiator != lease.tenant {
        return Err(ErrorCode::Unauthorized);
    }
    if matches!(escrow.status, EscrowStatus::Released) || matches!(
        escrow.status,
        EscrowStatus::Settled,
    ) {
        return Err(ErrorCode::DepositAlreadyReleased);
    }
    if escrow.has_dispute {
        return Err(ErrorCode::DisputeInProgress);
    }
    lease.dispute_count += 1;
    escrow.has_dispute = true;
    Ok(
        Dispute {
            lease: lease.id,
            initiator,
            reason,
            status: DisputeStatus::Open,
            resolution: None,
            distribution: None,
            created_at: now,
            resolved_at: None,
        },
    )
}

/// Resolves an open dispute with the arbitrator's binding split of the
/// full deposit: the custody payouts are returned, the escrow reaches its
/// terminal state, and the freeze is cleared. Arbitration is authoritative
/// and bypasses the dual-confirmation and negotiation paths.
pub fn resolve_dispute(dispute: &mut Dispute, escrow: &mut Escrow, lease: &Lease, config: &Config,
    caller: AccountId, landlord_amount: u64, tenant_amount: u64, resolution: String, now: i64)
    -> (r: Result<Vec<Transfer>, ErrorCode>)
    requires
        old(dispute).wf(),
        old(escrow).wf(),
        old(escrow).lease == lease.id,
        old(dispute).lease == lease.id,
    ensures
        final(dispute).wf(),
        final(escrow).wf(),
        ({
            let (d2, e2, res) = old(dispute).resolve_s(*old(escrow), *lease, *config, caller,
                landlord_amount, tenant_amount, resolution, now as int);
            &&& *final(dispute) == d2
            &&& *final(escrow) == e2
            &&& match (r, res) {
                (Ok(v), Ok(s)) => v@ == s,
                (Err(e), Err(e_s)) => e == e_s,
                _ => false,
            }
        }),
        r is Ok ==> final(escrow).final_landlord_amount() + final(escrow).final_tenant_amount()
            == final(escrow).amount && !final(escrow).has_dispute,
        r matches Ok(v) ==> plan_total(v@) == old(escrow).amount,
{
    if caller != config.arbitrator {
        return Err(ErrorCode::Unauthorized);
    }
    if !matches!(dispute.status, DisputeStatus::Open) {
        return Err(ErrorCode::DisputeAlreadyResolved);
    }
    if !escrow.has_dispute {
        return Err(ErrorCode::DisputeNotFound);
    }
    if landlord_amount > escrow.amount || tenant_amount != escrow.amount - landlord_amount {
        return Err(ErrorCode::InvalidDistribution);
    }
    let mut plan: Vec<Transfer> = Vec::new();
    push_transfer(&mut plan, escrow.custody, lease.landlord, landlord_amount);
    push_transfer(&mut plan, escrow.custody, lease.tenant, tenant_amount);
    escrow.status = EscrowStatus::Released;
    escrow.release_to_landlord = landlord_amount;
    escrow.release_to_tenant = tenant_amount;
    escrow.has_dispute = false;
    escrow.deducted = landlord_amount;
    dispute.status = DisputeStatus::Resolved;
    dispute.resolution = Some(resolution);
    dispute.distribution = Some((landlord_amount, tenant_amount));
    dispute.resolved_at = Some(now);
    proof {
        assert(plan@ =~= old(escrow).payout_seq(*lease, landlord_amount, tenant_amount));
        lemma_spend_pair_total(
            old(escrow).custody, lease.landlord, landlord_amount, lease.tenant, tenant_amount,
        );
    }
    Ok(plan)
}

} // verus!
