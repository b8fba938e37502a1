use vstd::prelude::*;

use crate::key::Pubkey;
use crate::token::{payment_of, Payment, TokenAccount, TokenTransfer};

verus! {

/// Lifecycle of a tournament. Nothing here moves `Open` to `Started`: locking the roster
/// belongs to whoever runs the tournament. `Complete` is terminal.
#[derive(Clone, Copy, Debug, PartialEq, Eq, Structural)]
pub enum TournamentStage {
    Open,
    Started,
    Complete,
}

#[derive(Clone, Debug, PartialEq, Eq)]
pub struct TournamentAccount {
    pub organizer: Pubkey,
    pub entry_fee: u64,
    pub max_players: u8,
    pub players: Vec<Pubkey>,
    pub prize_pool: u64,
    pub state: TournamentStage,
}

#[derive(Clone, Copy, Debug, PartialEq, Eq, Structural)]
pub enum TournamentError {
    /// A tournament record already exists under this key.
    AlreadyInitialized,
    NotOpen,
    Full,
    /// The player is already on the roster.
    AlreadyJoined,
    NotStarted,
    NotAPlayer,
    MathOverflow,
}

impl TournamentAccount {
    /// The pool holds exactly one entry fee per player, the roster respects the cap, and
    /// nobody is on it twice.
    pub open spec fn wf(&self) -> bool {
        &&& self.prize_pool == self.entry_fee * self.players@.len()
        &&& self.players@.len() <= self.max_players
        &&& self.players@.no_duplicates()
    }
}

impl TournamentAccount {
    /// Tells whether a stored record satisfies `wf`, as a record read back from storage
    /// must before it is handed to `join_tournament` or `payout_winner`.
    pub fn is_well_formed(&self) -> (r: bool)
        ensures
            r == self.wf(),
    {
        let n = self.players.len();
        if n > self.max_players as usize {
            return false;
        }
        match self.entry_fee.checked_mul(n as u64) {
            Some(pool) => {
                if pool != self.prize_pool {
                    return false;
                }
            },
            None => {
                assert(self.entry_fee * n > u64::MAX);
                return false;
            },
        }
        let mut i: usize = 0;
        while i < n
            invariant
                n == self.players@.len(),
                i <= n,
                forall|a: int, b: int| 0 <= a < b < n && a < i ==> self.players@[a] != self.players@[b],
            decreases n - i,
        {
            let mut j: usize = i + 1;
            while j < n
                invariant
                    n == self.players@.len(),
                    i < n,
                    i + 1 <= j <= n,
                    forall|a: int, b: int| 0 <= a < b < n && a < i ==> self.players@[a] != self.players@[b],
                    forall|b: int| i < b < j ==> self.players@[i as int] != self.players@[b],
                decreases n - j,
            {
                if self.players[i] == self.players[j] {
                    assert(!self.players@.no_duplicates());
                    return false;
                }
                j += 1;
            }
            i += 1;
        }
        true
    }
}

/// Accounts of `init_tournament`; `tournament` is the record slot derived from the
/// organizer and the denomination, empty until the tournament exists.
#[derive(Clone, Debug, PartialEq, Eq)]
pub struct InitTournament {
    pub organizer: Pubkey,
    pub mint: Pubkey,
    pub tournament: Option<TournamentAccount>,
    pub escrow: TokenAccount,
}

#[derive(Clone, Debug, PartialEq, Eq)]
pub struct JoinTournament {
    pub player: Pubkey,
    pub tournament: TournamentAccount,
    pub player_token: TokenAccount,
    pub escrow: TokenAccount,
}

/// Accounts of `payout_winner`. `tournament_address` is the address of the tournament
/// record, which controls the escrow.
#[derive(Clone, Debug, PartialEq, Eq)]
pub struct PayoutWinner {
    pub tournament_address: Pubkey,
    pub tournament: TournamentAccount,
    pub winner: Pubkey,
    pub escrow: TokenAccount,
    pub winner_token: TokenAccount,
}

pub open spec fn join_error(ctx: JoinTournament) -> Option<TournamentError> {
    let t = ctx.tournament;
    if t.state != TournamentStage::Open {
        Some(TournamentError::NotOpen)
    } else if t.players@.len() >= t.max_players {
        Some(TournamentError::Full)
    } else if t.players@.contains(ctx.player) {
        Some(TournamentError::AlreadyJoined)
    } else if t.prize_pool + t.entry_fee > u64::MAX {
        Some(TournamentError::MathOverflow)
    } else {
        None
    }
}

pub open spec fn payout_error(ctx: PayoutWinner) -> Option<TournamentError> {
    if ctx.tournament.state != TournamentStage::Started {
        Some(TournamentError::NotStarted)
    } else if !ctx.tournament.players@.contains(ctx.winner) {
        Some(TournamentError::NotAPlayer)
    } else {
        None
    }
}

fn has_player(players: &Vec<Pubkey>, key: Pubkey) -> (r: bool)
    ensures
        r == players@.contains(key),
{
    let mut i: usize = 0;
    while i < players.len()
        invariant
            i <= players@.len(),
            forall|j: int| 0 <= j < i ==> players@[j] != key,
        decreases players@.len() - i,
    {
        if players[i] == key {
            return true;
        }
        i += 1;
    }
    false
}

impl JoinTournament {
    pub fn into_transfer_to_escrow(&self) -> (r: TokenTransfer)
        ensures
            r == (TokenTransfer { from: self.player_token.key, to: self.escrow.key, authority: self.player }),
    {
        TokenTransfer::new(&self.player_token, &self.escrow, self.player)
    }
}

impl PayoutWinner {
    pub fn into_transfer_to_winner(&self) -> (r: TokenTransfer)
        ensures
            r == (TokenTransfer { from: self.escrow.key, to: self.winner_token.key, authority: self.tournament_address }),
    {
        TokenTransfer::new(&self.escrow, &self.winner_token, self.tournament_address)
    }
}

/// Creates an open tournament with an empty roster and an empty pool.
pub fn init_tournament(ctx: &mut InitTournament, entry_fee: u64, max_players: u8) -> (r: Result<(), TournamentError>)
    ensures
        final(ctx).organizer == old(ctx).organizer,
        final(ctx).mint == old(ctx).mint,
        final(ctx).escrow == old(ctx).escrow,
        old(ctx).tournament is Some ==> r == Err::<(), TournamentError>(TournamentError::AlreadyInitialized)
            && final(ctx).tournament == old(ctx).tournament,
        old(ctx).tournament is None ==> r is Ok && final(ctx).tournament is Some && {
            let t = final(ctx).tournament.unwrap();
            &&& t.organizer == old(ctx).organizer
            &&& t.entry_fee == entry_fee
            &&& t.max_players == max_players
            &&& t.players@ == Seq::<Pubkey>::empty()
            &&& t.prize_pool == 0
            &&& t.state == TournamentStage::Open
            &&& t.wf()
        },
{
    if ctx.tournament.is_some() {
        return Err(TournamentError::AlreadyInitialized);
    }
    ctx.tournament = Some(TournamentAccount {
        organizer: ctx.organizer,
        entry_fee,
        max_players,
        players: Vec::new(),
        prize_pool: 0,
        state: TournamentStage::Open,
    });
    Ok(())
}

/// Adds the caller to an open tournament that has room, collecting the entry fee into
/// the escrow.
pub fn join_tournament(ctx: &mut JoinTournament) -> (r: Result<Vec<Payment>, TournamentError>)
    requires
        old(ctx).tournament.wf(),
    ensures
        final(ctx).tournament.wf(),
        final(ctx).player == old(ctx).player,
        final(ctx).player_token == old(ctx).player_token,
        final(ctx).escrow == old(ctx).escrow,
        match join_error(*old(ctx)) {
            Some(e) => r == Err::<Vec<Payment>, TournamentError>(e) && final(ctx).tournament == old(ctx).tournament,
            None => {
                let t0 = old(ctx).tournament;
                let t1 = final(ctx).tournament;
                &&& r is Ok
                &&& r->Ok_0@ == seq![payment_of(old(ctx).player_token, old(ctx).escrow, old(ctx).player, t0.entry_fee)]
                &&& t1.players@ == t0.players@.push(old(ctx).player)
                &&& t1.prize_pool == t0.prize_pool + t0.entry_fee
                &&& t1.organizer == t0.organizer
                &&& t1.entry_fee == t0.entry_fee
                &&& t1.max_players == t0.max_players
                &&& t1.state == t0.state
            },
        },
{
    if ctx.tournament.state != TournamentStage::Open {
        return Err(TournamentError::NotOpen);
    }
    if ctx.tournament.players.len() >= ctx.tournament.max_players as usize {
        return Err(TournamentError::Full);
    }
    if has_player(&ctx.tournament.players, ctx.player) {
        return Err(TournamentError::AlreadyJoined);
    }
    let pool = match ctx.tournament.prize_pool.checked_add(ctx.tournament.entry_fee) {
        Some(p) => p,
        None => return Err(TournamentError::MathOverflow),
    };
    let entry = Payment { transfer: ctx.into_transfer_to_escrow(), amount: ctx.tournament.entry_fee };
    let ghost n = ctx.tournament.players@.len();
    ctx.tournament.players.push(ctx.player);
    ctx.tournament.prize_pool = pool;
    assert(ctx.tournament.entry_fee * (n + 1) == ctx.tournament.entry_fee * n + ctx.tournament.entry_fee)
        by (nonlinear_arith);
    Ok(vec![entry])
}

/// Pays the whole pool of a started tournament to one of its players and completes it.
pub fn payout_winner(ctx: &mut PayoutWinner) -> (r: Result<Vec<Payment>, TournamentError>)
    requires
        old(ctx).tournament.wf(),
    ensures
        final(ctx).tournament.wf(),
        final(ctx).tournament_address == old(ctx).tournament_address,
        final(ctx).winner == old(ctx).winner,
        final(ctx).escrow == old(ctx).escrow,
        final(ctx).winner_token == old(ctx).winner_token,
        match payout_error(*old(ctx)) {
            Some(e) => r == Err::<Vec<Payment>, TournamentError>(e) && final(ctx).tournament == old(ctx).tournament,
            None => {
                let t0 = old(ctx).tournament;
                let t1 = final(ctx).tournament;
                &&& r is Ok
                &&& r->Ok_0@ == seq![payment_of(old(ctx).escrow, old(ctx).winner_token, old(ctx).tournament_address, t0.prize_pool)]
                &&& t1.state == TournamentStage::Complete
                &&& t1.players@ == t0.players@
                &&& t1.prize_pool == t0.prize_pool
                &&& t1.organizer == t0.organizer
                &&& t1.entry_fee == t0.entry_fee
                &&& t1.max_players == t0.max_players
            },
        },
{
    if ctx.tournament.state != TournamentStage::Started {
        return Err(TournamentError::NotStarted);
    }
    if !has_player(&ctx.tournament.players, ctx.winner) {
        return Err(TournamentError::NotAPlayer);
    }
    let prize = Payment { transfer: ctx.into_transfer_to_winner(), amount: ctx.tournament.prize_pool };
    ctx.tournament.state = TournamentStage::Complete;
    Ok(vec![prize])
}

/// A tournament whose roster has reached its cap turns every further entrant away with
/// `Full`, and the failed join leaves roster and pool as they were (see `join_tournament`).
pub proof fn lemma_full_roster_rejects(ctx: JoinTournament)
    requires
        ctx.tournament.wf(),
        ctx.tournament.state == TournamentStage::Open,
        ctx.tournament.players@.len() == ctx.tournament.max_players,
    ensures
        join_error(ctx) == Some(TournamentError::Full),
{
}

/// After a join the pool still holds one entry fee per player: the pool of a tournament
/// built by successive joins is always the entry fee times the roster size.
pub proof fn lemma_join_keeps_pool_exact(t: TournamentAccount, player: Pubkey)
    requires
        t.wf(),
        !t.players@.contains(player),
        t.players@.len() < t.max_players,
        t.prize_pool + t.entry_fee <= u64::MAX,
    ensures
        t.prize_pool + t.entry_fee == t.entry_fee * t.players@.push(player).len(),
{
    let n = t.players@.len();
    assert(t.entry_fee * (n + 1) == t.entry_fee * n + t.entry_fee) by (nonlinear_arith);
}

/// A completed tournament pays out at most once: asking again fails with `NotStarted`.
pub proof fn lemma_completed_is_terminal(ctx: PayoutWinner)
    requires
        ctx.tournament.state == TournamentStage::Complete,
    ensures
        payout_error(ctx) == Some(TournamentError::NotStarted),
{
}

} // verus!
