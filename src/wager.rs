use vstd::prelude::*;

use crate::key::Pubkey;

verus! {

/// Settlement status of a result-claim match. Only `Pending` is ever set here: how the two
/// claims are reconciled into the other statuses is left to a later policy.
#[derive(Clone, Copy, Debug, PartialEq, Eq, Structural)]
pub enum MatchStatus {
    Pending,
    Completed,
    Disputed,
    Void,
}

/// A match where each side reports its own result; no funds move.
#[derive(Clone, Debug, PartialEq, Eq)]
pub struct MatchState {
    pub creator: Pubkey,
    /// The opponent, once one has been assigned to the match.
    pub joiner: Option<Pubkey>,
    pub wager_amount: u64,
    pub creator_result: Option<String>,
    pub joiner_result: Option<String>,
    pub status: MatchStatus,
}

#[derive(Clone, Copy, Debug, PartialEq, Eq, Structural)]
pub enum ErrorCode {
    /// A match record already exists at this address.
    AlreadyInitialized,
    /// The caller is neither the creator nor the joiner.
    Unauthorized,
}

#[derive(Clone, Debug, PartialEq, Eq)]
pub struct InitializeMatch {
    pub match_state: Option<MatchState>,
    pub creator: Pubkey,
}

#[derive(Clone, Debug, PartialEq, Eq)]
pub struct SubmitWinner {
    pub match_state: MatchState,
    pub player: Pubkey,
}

/// Creates a pending match for `wager_amount`, with no opponent and no claims.
pub fn initialize_match(ctx: &mut InitializeMatch, wager_amount: u64) -> (r: Result<(), ErrorCode>)
    ensures
        final(ctx).creator == old(ctx).creator,
        old(ctx).match_state is Some ==> r == Err::<(), ErrorCode>(ErrorCode::AlreadyInitialized)
            && final(ctx).match_state == old(ctx).match_state,
        old(ctx).match_state is None ==> r is Ok && final(ctx).match_state == Some(MatchState {
            creator: old(ctx).creator,
            joiner: None,
            wager_amount,
            creator_result: None,
            joiner_result: None,
            status: MatchStatus::Pending,
        }),
{
    if ctx.match_state.is_some() {
        return Err(ErrorCode::AlreadyInitialized);
    }
    ctx.match_state = Some(MatchState {
        creator: ctx.creator,
        joiner: None,
        wager_amount,
        creator_result: None,
        joiner_result: None,
        status: MatchStatus::Pending,
    });
    Ok(())
}

/// Records the caller's own claim of the result; each side may only set its own field.
pub fn submit_winner(ctx: &mut SubmitWinner, result: String) -> (r: Result<(), ErrorCode>)
    ensures
        final(ctx).player == old(ctx).player,
        ({
            let m0 = old(ctx).match_state;
            let p = old(ctx).player;
            if p == m0.creator {
                r is Ok && final(ctx).match_state == (MatchState { creator_result: Some(result), ..m0 })
            } else if m0.joiner == Some(p) {
                r is Ok && final(ctx).match_state == (MatchState { joiner_result: Some(result), ..m0 })
            } else {
                r == Err::<(), ErrorCode>(ErrorCode::Unauthorized) && final(ctx).match_state == m0
            }
        }),
{
    let player = ctx.player;
    if player == ctx.match_state.creator {
        ctx.match_state.creator_result = Some(result);
    } else if ctx.match_state.joiner == Some(player) {
        ctx.match_state.joiner_result = Some(result);
    } else {
        return Err(ErrorCode::Unauthorized);
    }
    Ok(())
}

} // verus!
