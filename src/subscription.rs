use vstd::prelude::*;

use crate::key::Pubkey;
use crate::token::{payment_of, Payment, TokenAccount, TokenTransfer};

verus! {

/// Price of one month in the smallest unit of the denomination (14.99 at nine decimals).
pub const PRICE_PER_MONTH: u64 = 14_990_000_000;

/// One month of entitlement: thirty days, in seconds.
pub const SECONDS_PER_MONTH: i64 = 2_592_000;

#[derive(Clone, Copy, Debug, PartialEq, Eq, Structural)]
pub struct SubscriptionAccount {
    pub owner: Pubkey,
    /// Unix timestamp, in seconds, at which the entitlement ends.
    pub expiry: i64,
}

#[derive(Clone, Copy, Debug, PartialEq, Eq, Structural)]
pub enum SubErr {
    ZeroMonths,
    MathOverflow,
    /// The paying token account is not controlled by the payer.
    Unauthorized,
    /// A token account holds another denomination than the one subscribed with.
    WrongMint,
}

/// Accounts of `subscribe`. `subscription` is the record slot derived from the payer and
/// the denomination: empty before the first subscription, then reused by every renewal.
#[derive(Clone, Copy, Debug, PartialEq, Eq)]
pub struct Subscribe {
    pub payer: Pubkey,
    pub subscription: Option<SubscriptionAccount>,
    pub payer_token: TokenAccount,
    pub vault_token: TokenAccount,
    pub mint: Pubkey,
}

/// The expiry of a record slot; a record that does not exist yet starts at zero.
pub open spec fn current_expiry(slot: Option<SubscriptionAccount>) -> int {
    match slot {
        Some(s) => s.expiry as int,
        None => 0,
    }
}

/// The expiry after paying for `months` more at time `now`: the months stack on whatever
/// time is still unused.
pub open spec fn renewed_expiry(expiry: int, now: int, months: int) -> int {
    let base = if expiry > now { expiry } else { now };
    base + months * SECONDS_PER_MONTH
}

pub open spec fn subscribe_error(ctx: Subscribe, months: u8, now: i64) -> Option<SubErr> {
    if months == 0 {
        Some(SubErr::ZeroMonths)
    } else if ctx.payer_token.owner != ctx.payer {
        Some(SubErr::Unauthorized)
    } else if ctx.payer_token.mint != ctx.mint || ctx.vault_token.mint != ctx.mint {
        Some(SubErr::WrongMint)
    } else if PRICE_PER_MONTH * months > u64::MAX
        || renewed_expiry(current_expiry(ctx.subscription), now as int, months as int) > i64::MAX {
        Some(SubErr::MathOverflow)
    } else {
        None
    }
}

impl Subscribe {
    pub fn transfer_to_vault_ctx(&self) -> (r: TokenTransfer)
        ensures
            r == (TokenTransfer { from: self.payer_token.key, to: self.vault_token.key, authority: self.payer }),
    {
        TokenTransfer::new(&self.payer_token, &self.vault_token, self.payer)
    }
}

/// Pays for `months` months and extends the payer's subscription, creating the record on
/// the first call. `now` is the current Unix time in seconds.
pub fn subscribe(ctx: &mut Subscribe, months: u8, now: i64) -> (r: Result<Vec<Payment>, SubErr>)
    ensures
        match subscribe_error(*old(ctx), months, now) {
            Some(e) => r == Err::<Vec<Payment>, SubErr>(e) && *final(ctx) == *old(ctx),
            None => r is Ok
                && r->Ok_0@ == seq![payment_of(old(ctx).payer_token, old(ctx).vault_token, old(ctx).payer,
                    (PRICE_PER_MONTH * months) as u64)]
                && *final(ctx) == (Subscribe {
                    subscription: Some(SubscriptionAccount {
                        owner: old(ctx).payer,
                        expiry: renewed_expiry(current_expiry(old(ctx).subscription), now as int, months as int) as i64,
                    }),
                    ..*old(ctx)
                }),
        },
{
    if months == 0 {
        return Err(SubErr::ZeroMonths);
    }
    if ctx.payer_token.owner != ctx.payer {
        return Err(SubErr::Unauthorized);
    }
    if ctx.payer_token.mint != ctx.mint || ctx.vault_token.mint != ctx.mint {
        return Err(SubErr::WrongMint);
    }
    let total_price = match PRICE_PER_MONTH.checked_mul(months as u64) {
        Some(p) => p,
        None => return Err(SubErr::MathOverflow),
    };
    let duration = match (months as i64).checked_mul(SECONDS_PER_MONTH) {
        Some(d) => d,
        None => return Err(SubErr::MathOverflow),
    };
    let current: i64 = match ctx.subscription {
        Some(s) => s.expiry,
        None => 0,
    };
    let base = if current > now { current } else { now };
    let expiry = match base.checked_add(duration) {
        Some(e) => e,
        None => return Err(SubErr::MathOverflow),
    };
    let payment = Payment { transfer: ctx.transfer_to_vault_ctx(), amount: total_price };
    ctx.subscription = Some(SubscriptionAccount { owner: ctx.payer, expiry });
    Ok(vec![payment])
}

/// Renewals stack: paying for `m1` months and then `m2` months at the same time gives the
/// same expiry as paying for `m1 + m2` months at once.
pub proof fn lemma_renewals_stack(expiry: int, now: int, m1: int, m2: int)
    requires
        m1 > 0,
        m2 > 0,
    ensures
        renewed_expiry(renewed_expiry(expiry, now, m1), now, m2) == renewed_expiry(expiry, now, m1 + m2),
{
    assert(m1 * SECONDS_PER_MONTH + m2 * SECONDS_PER_MONTH == (m1 + m2) * SECONDS_PER_MONTH) by (nonlinear_arith);
}

/// A renewal never loses paid time: it extends by exactly `months` months from the later
/// of the old expiry and `now`, so the expiry never decreases.
pub proof fn lemma_renewal_extends(expiry: int, now: int, months: int)
    requires
        months > 0,
    ensures
        renewed_expiry(expiry, now, months) - months * SECONDS_PER_MONTH == if expiry > now { expiry } else { now },
        renewed_expiry(expiry, now, months) > expiry,
        renewed_expiry(expiry, now, months) > now,
{
}

} // verus!
