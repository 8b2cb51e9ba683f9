//! Error kinds returned by the lease, escrow and dispute operations.

use vstd::prelude::*;

verus! {

/// Why an operation was rejected. Every rejection carries a specific kind:
/// authorization, state, validation or policy-limit failures are never
/// collapsed into one another.
#[derive(Clone, Copy, Debug, PartialEq, Eq, Structural)]
pub enum ErrorCode {
    /// The caller is not a recognized party or arbitrator for the record.
    Unauthorized,
    /// The platform fee rate exceeds the allowed maximum.
    InvalidFeeRate,
    /// The payment day is outside 1..=28.
    InvalidPaymentDay,
    /// The grace period exceeds the allowed maximum.
    InvalidGraceDays,
    /// The lease dates are out of order, out of the allowed window, or the
    /// schedule is empty or runs past the supported calendar span.
    InvalidStartDate,
    /// The lease is no longer active.
    LeaseAlreadyTerminated,
    /// The payment index does not follow the last recorded payment.
    PaymentAlreadyExists,
    /// The payment index lies past the contracted schedule.
    PaymentNotFound,
    /// The overdue limit was reached; payment is refused until termination.
    ExceedOverdueLimit,
    /// The escrow is not holding the deposit, so the operation is invalid.
    EscrowAlreadySettled,
    /// No release proposal is pending confirmation.
    ReleaseNotPending,
    /// This party already confirmed the pending proposal.
    AlreadySigned,
    /// The proposed split does not sum to the escrowed amount.
    InvalidDistribution,
    /// The requested deductions exceed the escrowed amount.
    DeductionExceedsDeposit,
    /// No settlement request is pending.
    SettleRequestNotFound,
    /// The pending settlement request was already confirmed.
    SettleAlreadyConfirmed,
    /// An open dispute freezes releases and settlements.
    DisputeInProgress,
    /// No open dispute is registered against the escrow.
    DisputeNotFound,
    /// The dispute was already resolved.
    DisputeAlreadyResolved,
    /// The deposit already left custody; no dispute can be raised.
    DepositAlreadyReleased,
}

} // verus!
