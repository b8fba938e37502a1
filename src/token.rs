use vstd::prelude::*;

use crate::key::Pubkey;

verus! {

/// What the state machines read of a token account: its address, the identity that
/// controls it, and the denomination it holds.
#[derive(Clone, Copy, Debug, PartialEq, Eq, Structural)]
pub struct TokenAccount {
    pub key: Pubkey,
    pub owner: Pubkey,
    pub mint: Pubkey,
}

/// The accounts of one token transfer: the debited account, the credited account, and
/// the identity that authorizes the debit.
#[derive(Clone, Copy, Debug, PartialEq, Eq, Structural)]
pub struct TokenTransfer {
    pub from: Pubkey,
    pub to: Pubkey,
    pub authority: Pubkey,
}

/// A transfer of `amount` units that a transition requires. The transition's new state
/// may be committed only together with every payment it returned; if one of them fails,
/// the whole transition is abandoned and the record keeps its prior state.
#[derive(Clone, Copy, Debug, PartialEq, Eq, Structural)]
pub struct Payment {
    pub transfer: TokenTransfer,
    pub amount: u64,
}

impl TokenTransfer {
    pub fn new(from: &TokenAccount, to: &TokenAccount, authority: Pubkey) -> (r: TokenTransfer)
        ensures
            r == (TokenTransfer { from: from.key, to: to.key, authority }),
    {
        TokenTransfer { from: from.key, to: to.key, authority }
    }
}

/// The payment of `amount` from `from` to `to`, authorized by `authority`.
pub open spec fn payment_of(from: TokenAccount, to: TokenAccount, authority: Pubkey, amount: u64) -> Payment {
    Payment { transfer: TokenTransfer { from: from.key, to: to.key, authority }, amount }
}

/// The net amount that a sequence of payments moves into the account at `key`
/// (credits minus debits).
pub open spec fn net_flow(payments: Seq<Payment>, key: Pubkey) -> int
    decreases payments.len(),
{
    if payments.len() == 0 {
        0
    } else {
        let p = payments.last();
        let credit: int = if p.transfer.to == key { p.amount as int } else { 0 };
        let debit: int = if p.transfer.from == key { p.amount as int } else { 0 };
        net_flow(payments.drop_last(), key) + credit - debit
    }
}

} // verus!
