use vstd::prelude::*;

use crate::key::Pubkey;
use crate::token::{net_flow, payment_of, Payment, TokenAccount, TokenTransfer};

verus! {

/// Basis points in a whole: a fee of 10000 bps takes everything.
pub const BPS_DENOMINATOR: u64 = 10000;

/// Lifecycle of a two-party wager. It only ever advances, and `Resolved` is terminal.
#[derive(Clone, Copy, Debug, PartialEq, Eq, Structural)]
pub enum MatchStage {
    AwaitingOpponent,
    ReadyToResolve,
    Resolved,
}

/// The record of one wager. `amount` is what each player deposits; it is fixed when the
/// match is created.
#[derive(Clone, Copy, Debug, PartialEq, Eq)]
pub struct MatchState {
    pub player1: Pubkey,
    pub player2: Option<Pubkey>,
    pub amount: u64,
    pub state: MatchStage,
}

#[derive(Clone, Copy, Debug, PartialEq, Eq, Structural)]
pub enum CustomError {
    /// A match record already exists under this key.
    DuplicateMatch,
    /// The match is not in the stage that the operation needs.
    InvalidState,
    /// The caller does not control the account the operation needs.
    Unauthorized,
    /// The fee exceeds 10000 basis points.
    InvalidFee,
    /// The winner is neither player, or the payout account is not the winner's.
    InvalidWinner,
    /// An amount does not fit in 64 bits.
    MathOverflow,
}

/// Accounts of `create_match`. `match_state` is the record slot derived from the first
/// player and the denomination; it is empty until the match exists.
#[derive(Clone, Copy, Debug, PartialEq, Eq)]
pub struct CreateMatch {
    pub player1: Pubkey,
    pub mint: Pubkey,
    pub match_state: Option<MatchState>,
    pub player1_token: TokenAccount,
    pub escrow_token: TokenAccount,
}

#[derive(Clone, Copy, Debug, PartialEq, Eq)]
pub struct JoinMatch {
    pub player2: Pubkey,
    pub mint: Pubkey,
    pub match_state: MatchState,
    pub player2_token: TokenAccount,
    pub escrow_token: TokenAccount,
}

/// Accounts of `resolve_match`. The escrow account is controlled by `admin`, the
/// authority that settles matches; `fee_wallet` collects the fee.
#[derive(Clone, Copy, Debug, PartialEq, Eq)]
pub struct ResolveMatch {
    pub admin: Pubkey,
    pub match_state: MatchState,
    pub player1_token: TokenAccount,
    pub player2_token: TokenAccount,
    pub escrow_token: TokenAccount,
    pub fee_wallet: TokenAccount,
}

/// The fee on a pot of `total` at `fee_bps` basis points, rounded down.
pub open spec fn fee_amount(total: int, fee_bps: int) -> int {
    total * fee_bps / 10000
}

/// What the winner receives from a pot of `total`.
pub open spec fn payout_amount(total: int, fee_bps: int) -> int {
    total - fee_amount(total, fee_bps)
}

/// The two payments of a settlement: the payout to the winner's account, then the fee.
pub open spec fn resolve_payments(ctx: ResolveMatch, winner: Pubkey, fee_bps: u16) -> Seq<Payment> {
    let total = 2 * ctx.match_state.amount;
    seq![
        payment_of(ctx.escrow_token, winner_account(ctx, winner).unwrap(), ctx.admin,
            payout_amount(total, fee_bps as int) as u64),
        payment_of(ctx.escrow_token, ctx.fee_wallet, ctx.admin, fee_amount(total, fee_bps as int) as u64),
    ]
}

pub open spec fn create_error(ctx: CreateMatch) -> Option<CustomError> {
    if ctx.match_state is Some {
        Some(CustomError::DuplicateMatch)
    } else if ctx.player1_token.owner != ctx.player1 {
        Some(CustomError::Unauthorized)
    } else {
        None
    }
}

pub open spec fn join_error(ctx: JoinMatch) -> Option<CustomError> {
    if ctx.match_state.state != MatchStage::AwaitingOpponent {
        Some(CustomError::InvalidState)
    } else if ctx.player2_token.owner != ctx.player2 {
        Some(CustomError::Unauthorized)
    } else {
        None
    }
}

/// The token account that receives the payout when `winner` wins, if `winner` is a player.
pub open spec fn winner_account(ctx: ResolveMatch, winner: Pubkey) -> Option<TokenAccount> {
    if winner == ctx.match_state.player1 {
        Some(ctx.player1_token)
    } else if ctx.match_state.player2 == Some(winner) {
        Some(ctx.player2_token)
    } else {
        None
    }
}

pub open spec fn resolve_error(ctx: ResolveMatch, winner: Pubkey, fee_bps: u16) -> Option<CustomError> {
    let total = 2 * ctx.match_state.amount;
    if ctx.match_state.state != MatchStage::ReadyToResolve {
        Some(CustomError::InvalidState)
    } else if ctx.escrow_token.owner != ctx.admin {
        Some(CustomError::Unauthorized)
    } else if fee_bps > 10000 {
        Some(CustomError::InvalidFee)
    } else if total > u64::MAX || total * fee_bps > u64::MAX {
        Some(CustomError::MathOverflow)
    } else if winner_account(ctx, winner) is None || winner_account(ctx, winner).unwrap().owner != winner {
        Some(CustomError::InvalidWinner)
    } else {
        None
    }
}

impl CreateMatch {
    pub fn into_transfer_to_escrow_ctx_player1(&self) -> (r: TokenTransfer)
        ensures
            r == (TokenTransfer { from: self.player1_token.key, to: self.escrow_token.key, authority: self.player1 }),
    {
        TokenTransfer::new(&self.player1_token, &self.escrow_token, self.player1)
    }
}

impl JoinMatch {
    pub fn into_transfer_to_escrow_ctx_player2(&self) -> (r: TokenTransfer)
        ensures
            r == (TokenTransfer { from: self.player2_token.key, to: self.escrow_token.key, authority: self.player2 }),
    {
        TokenTransfer::new(&self.player2_token, &self.escrow_token, self.player2)
    }
}

impl ResolveMatch {
    pub fn into_transfer_to_winner_ctx(&self, winner_token: &TokenAccount) -> (r: TokenTransfer)
        ensures
            r == (TokenTransfer { from: self.escrow_token.key, to: winner_token.key, authority: self.admin }),
    {
        TokenTransfer::new(&self.escrow_token, winner_token, self.admin)
    }

    pub fn into_transfer_to_fee_ctx(&self) -> (r: TokenTransfer)
        ensures
            r == (TokenTransfer { from: self.escrow_token.key, to: self.fee_wallet.key, authority: self.admin }),
    {
        TokenTransfer::new(&self.escrow_token, &self.fee_wallet, self.admin)
    }
}

/// Opens a match: the first player deposits `amount` into escrow and the record is
/// created, awaiting an opponent.
pub fn create_match(ctx: &mut CreateMatch, amount: u64) -> (r: Result<Vec<Payment>, CustomError>)
    ensures
        match create_error(*old(ctx)) {
            Some(e) => r == Err::<Vec<Payment>, CustomError>(e) && *final(ctx) == *old(ctx),
            None => r is Ok && r->Ok_0@ == seq![payment_of(old(ctx).player1_token, old(ctx).escrow_token, old(ctx).player1, amount)]
                && *final(ctx) == (CreateMatch {
                    match_state: Some(MatchState {
                        player1: old(ctx).player1,
                        player2: None,
                        amount,
                        state: MatchStage::AwaitingOpponent,
                    }),
                    ..*old(ctx)
                }),
        },
{
    if ctx.match_state.is_some() {
        return Err(CustomError::DuplicateMatch);
    }
    if ctx.player1_token.owner != ctx.player1 {
        return Err(CustomError::Unauthorized);
    }
    let deposit = Payment { transfer: ctx.into_transfer_to_escrow_ctx_player1(), amount };
    ctx.match_state = Some(MatchState {
        player1: ctx.player1,
        player2: None,
        amount,
        state: MatchStage::AwaitingOpponent,
    });
    Ok(vec![deposit])
}

/// The second player deposits the same amount as the first; the match becomes ready.
pub fn join_match(ctx: &mut JoinMatch) -> (r: Result<Vec<Payment>, CustomError>)
    ensures
        match join_error(*old(ctx)) {
            Some(e) => r == Err::<Vec<Payment>, CustomError>(e) && *final(ctx) == *old(ctx),
            None => r is Ok && r->Ok_0@ == seq![payment_of(old(ctx).player2_token, old(ctx).escrow_token, old(ctx).player2, old(ctx).match_state.amount)]
                && *final(ctx) == (JoinMatch {
                    match_state: MatchState {
                        player2: Some(old(ctx).player2),
                        state: MatchStage::ReadyToResolve,
                        ..old(ctx).match_state
                    },
                    ..*old(ctx)
                }),
        },
{
    if ctx.match_state.state != MatchStage::AwaitingOpponent {
        return Err(CustomError::InvalidState);
    }
    if ctx.player2_token.owner != ctx.player2 {
        return Err(CustomError::Unauthorized);
    }
    let deposit = Payment { transfer: ctx.into_transfer_to_escrow_ctx_player2(), amount: ctx.match_state.amount };
    ctx.match_state.player2 = Some(ctx.player2);
    ctx.match_state.state = MatchStage::ReadyToResolve;
    Ok(vec![deposit])
}

/// Settles a ready match: the escrow pays the pot less the fee to `winner` and the fee to
/// the fee wallet, and the match is resolved.
pub fn resolve_match(ctx: &mut ResolveMatch, winner: Pubkey, fee_bps: u16) -> (r: Result<Vec<Payment>, CustomError>)
    ensures
        match resolve_error(*old(ctx), winner, fee_bps) {
            Some(e) => r == Err::<Vec<Payment>, CustomError>(e) && *final(ctx) == *old(ctx),
            None => {
                &&& r is Ok
                &&& r->Ok_0@ == resolve_payments(*old(ctx), winner, fee_bps)
                &&& *final(ctx) == (ResolveMatch {
                    match_state: MatchState { state: MatchStage::Resolved, ..old(ctx).match_state },
                    ..*old(ctx)
                })
            },
        },
{
    if ctx.match_state.state != MatchStage::ReadyToResolve {
        return Err(CustomError::InvalidState);
    }
    if ctx.escrow_token.owner != ctx.admin {
        return Err(CustomError::Unauthorized);
    }
    if fee_bps as u64 > BPS_DENOMINATOR {
        return Err(CustomError::InvalidFee);
    }
    let total = match ctx.match_state.amount.checked_mul(2) {
        Some(t) => t,
        None => return Err(CustomError::MathOverflow),
    };
    let scaled = match total.checked_mul(fee_bps as u64) {
        Some(s) => s,
        None => return Err(CustomError::MathOverflow),
    };
    let fee = scaled / BPS_DENOMINATOR;
    assert(fee <= total) by (nonlinear_arith)
        requires
            fee == total * fee_bps / 10000,
            fee_bps <= 10000,
            total >= 0,
    ;
    let payout = total - fee;
    let winner_token = if winner == ctx.match_state.player1 {
        ctx.player1_token
    } else if ctx.match_state.player2 == Some(winner) {
        ctx.player2_token
    } else {
        return Err(CustomError::InvalidWinner);
    };
    if winner_token.owner != winner {
        return Err(CustomError::InvalidWinner);
    }
    let to_winner = Payment { transfer: ctx.into_transfer_to_winner_ctx(&winner_token), amount: payout };
    let to_fee_wallet = Payment { transfer: ctx.into_transfer_to_fee_ctx(), amount: fee };
    ctx.match_state.state = MatchStage::Resolved;
    Ok(vec![to_winner, to_fee_wallet])
}

/// Settlement neither creates nor destroys value: the payout and the fee add up to the
/// pot of both deposits, and the fee is the pot times the rate, rounded down.
pub proof fn lemma_settlement_conserves_pot(amount: u64, fee_bps: u16)
    requires
        fee_bps <= 10000,
    ensures
        payout_amount(2 * amount, fee_bps as int) + fee_amount(2 * amount, fee_bps as int) == 2 * amount,
        fee_amount(2 * amount, fee_bps as int) == (2 * amount * fee_bps) / 10000,
        0 <= fee_amount(2 * amount, fee_bps as int) <= 2 * amount,
{
    let total: int = 2 * amount;
    assert(0 <= total * fee_bps / 10000 <= total) by (nonlinear_arith)
        requires
            total >= 0,
            0 <= fee_bps <= 10000,
    ;
}

/// A resolved match stays resolved: settling it again fails with `InvalidState`, so no
/// payment is made twice.
pub proof fn lemma_resolved_is_terminal(ctx: ResolveMatch, winner: Pubkey, fee_bps: u16)
    requires
        ctx.match_state.state == MatchStage::Resolved,
    ensures
        resolve_error(ctx, winner, fee_bps) == Some(CustomError::InvalidState),
{
}

/// Over the life of a match the escrow account is drained: it receives both deposits and
/// pays out exactly their sum, whatever the fee.
pub proof fn lemma_escrow_drained(c: CreateMatch, amount: u64, j: JoinMatch, s: ResolveMatch, winner: Pubkey, fee_bps: u16)
    requires
        create_error(c) is None,
        join_error(j) is None,
        resolve_error(s, winner, fee_bps) is None,
        j.match_state.amount == amount,
        s.match_state.amount == amount,
        j.escrow_token.key == c.escrow_token.key,
        s.escrow_token.key == c.escrow_token.key,
        c.player1_token.key != c.escrow_token.key,
        j.player2_token.key != c.escrow_token.key,
        s.player1_token.key != c.escrow_token.key,
        s.player2_token.key != c.escrow_token.key,
        s.fee_wallet.key != c.escrow_token.key,
    ensures
        net_flow(
            seq![
                payment_of(c.player1_token, c.escrow_token, c.player1, amount),
                payment_of(j.player2_token, j.escrow_token, j.player2, amount),
            ] + resolve_payments(s, winner, fee_bps),
            c.escrow_token.key,
        ) == 0,
{
    let escrow = c.escrow_token.key;
    let deposits = seq![
        payment_of(c.player1_token, c.escrow_token, c.player1, amount),
        payment_of(j.player2_token, j.escrow_token, j.player2, amount),
    ];
    let all = deposits + resolve_payments(s, winner, fee_bps);
    lemma_settlement_conserves_pot(amount, fee_bps);
    assert(all.drop_last() =~= deposits.push(all[2]));
    assert(deposits.push(all[2]).drop_last() =~= deposits);
    assert(deposits.drop_last() =~= seq![deposits[0]]);
    assert(seq![deposits[0]].drop_last() =~= Seq::<Payment>::empty());
    assert(net_flow(Seq::<Payment>::empty(), escrow) == 0);
    assert(seq![deposits[0]].last() == deposits[0]);
    assert(net_flow(seq![deposits[0]], escrow) == amount);
    assert(net_flow(deposits, escrow) == 2 * amount);
    assert(net_flow(deposits.push(all[2]), escrow) == 2 * amount - all[2].amount);
}

} // verus!
