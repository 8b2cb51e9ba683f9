//! The abstract ledger interface: account identifiers, transfer
//! instructions, and the rent fee split.
//!
//! The core never moves value itself. Each operation returns the exact
//! transfer instructions the caller must hand to an atomic external ledger;
//! a failed transfer obliges the caller to discard the record mutation
//! made by the same call.

use vstd::prelude::*;

verus! {

/// Opaque identifier of a balance-holding account, as attested by the
/// environment. The core only ever compares identifiers for equality.
pub type AccountId = u64;

/// One instruction for the external ledger: move `amount` from the balance
/// of `from` to the balance of `to`.
#[derive(Clone, Copy, Debug, PartialEq, Eq, Structural)]
pub struct Transfer {
    pub from: AccountId,
    pub to: AccountId,
    pub amount: u64,
}

/// The platform's cut of one rent instalment, in basis points of the rent.
pub open spec fn platform_fee_s(rent: int, fee_rate: int) -> int {
    rent * fee_rate / 10000
}

/// Splits one rent instalment into the landlord's share and the platform
/// fee. The two shares always rebuild the rent exactly.
pub fn split_rent(rent: u64, fee_rate: u16) -> (r: (u64, u64))
    requires
        fee_rate <= 1000,
    ensures
        r.1 == platform_fee_s(rent as int, fee_rate as int),
        r.0 + r.1 == rent,
{
    proof {
        assert(rent as int * fee_rate as int <= 10000 * rent as int) by (nonlinear_arith)
            requires fee_rate <= 1000;
        vstd::arithmetic::div_mod::lemma_multiply_divide_le(
            rent as int * fee_rate as int, 10000, rent as int,
        );
        vstd::arithmetic::div_mod::lemma_div_pos_is_pos(rent as int * fee_rate as int, 10000);
        assert(0 <= rent as int * fee_rate as int) by (nonlinear_arith);
    }
    let fee: u64 = ((rent as u128 * fee_rate as u128) / 10000) as u64;
    (rent - fee, fee)
}

/// Appends a transfer to a plan unless its amount is zero; zero-amount
/// transfers are never issued.
pub fn push_transfer(plan: &mut Vec<Transfer>, from: AccountId, to: AccountId, amount: u64)
    ensures
        final(plan)@ == old(plan)@ + spend_seq(from, to, amount),
{
    if amount > 0 {
        plan.push(Transfer { from, to, amount });
    }
    assert(plan@ =~= old(plan)@ + spend_seq(from, to, amount));
}

/// The sequence a single transfer contributes to a plan: empty when the
/// amount is zero.
pub open spec fn spend_seq(from: AccountId, to: AccountId, amount: u64) -> Seq<Transfer> {
    if amount == 0 {
        Seq::empty()
    } else {
        seq![Transfer { from, to, amount }]
    }
}

/// Total value a transfer plan moves.
pub open spec fn plan_total(plan: Seq<Transfer>) -> int
    decreases plan.len(),
{
    if plan.len() == 0 {
        0
    } else {
        plan[0].amount + plan_total(plan.drop_first())
    }
}

/// A plan of two possibly-skipped transfers moves exactly the two amounts.
pub proof fn lemma_spend_pair_total(from: AccountId, to1: AccountId, amount1: u64, to2: AccountId,
    amount2: u64)
    ensures
        plan_total(spend_seq(from, to1, amount1) + spend_seq(from, to2, amount2)) == amount1
            + amount2,
{
    reveal_with_fuel(plan_total, 4);
    let pair = spend_seq(from, to1, amount1) + spend_seq(from, to2, amount2);
    if amount1 == 0 {
        assert(pair =~= spend_seq(from, to2, amount2));
        if amount2 != 0 {
            assert(pair.drop_first() =~= Seq::empty());
        }
    } else {
        assert(pair.drop_first() =~= spend_seq(from, to2, amount2));
        if amount2 != 0 {
            assert(pair.drop_first().drop_first() =~= Seq::empty());
        }
    }
}

} // verus!
