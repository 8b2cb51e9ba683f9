//! Platform configuration handed explicitly into the operations that need
//! it: the arbitrator's identity, the fee receiver, and the fee rate.

use vstd::prelude::*;

use crate::error::ErrorCode;
use crate::ledger::AccountId;

verus! {

/// Highest allowed platform fee rate: 10%, in basis points.
pub const MAX_FEE_RATE: u16 = 1000;

/// Read-only platform parameters. Kept as an explicit value object so the
/// state machines stay testable in isolation.
#[derive(Clone, Copy, Debug, PartialEq, Eq, Structural)]
pub struct Config {
    /// The identity entitled to arbitrate disputes and force settlements.
    pub arbitrator: AccountId,
    /// The account that receives platform fees.
    pub fee_receiver: AccountId,
    /// Platform fee in basis points of each rent instalment (100 = 1%).
    pub fee_rate: u16,
}

impl Config {
    /// The configuration the operations rely on: a fee rate within bounds.
    pub open spec fn wf(self) -> bool {
        self.fee_rate <= MAX_FEE_RATE
    }

    /// Builds a configuration, rejecting an excessive fee rate.
    pub fn new(arbitrator: AccountId, fee_receiver: AccountId, fee_rate: u16) -> (r: Result<
        Config,
        ErrorCode,
    >)
        ensures
            fee_rate <= MAX_FEE_RATE ==> r == Ok::<Config, ErrorCode>(
                Config { arbitrator, fee_receiver, fee_rate },
            ),
            fee_rate > MAX_FEE_RATE ==> r == Err::<Config, ErrorCode>(ErrorCode::InvalidFeeRate),
            r is Ok ==> r->Ok_0.wf(),
    {
        if fee_rate > MAX_FEE_RATE {
            Err(ErrorCode::InvalidFeeRate)
        } else {
            Ok(Config { arbitrator, fee_receiver, fee_rate })
        }
    }
}

} // verus!
