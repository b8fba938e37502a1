use trenbet::key::Pubkey;
use trenbet::token::TokenAccount;
use trenbet::tournament::{
    init_tournament, join_tournament, payout_winner, InitTournament, JoinTournament, PayoutWinner,
    TournamentAccount, TournamentError, TournamentStage,
};

fn key(n: u64) -> Pubkey {
    Pubkey::new(n, 0, 0, 0)
}

fn account(k: u64, owner: u64) -> TokenAccount {
    TokenAccount { key: key(k), owner: key(owner), mint: key(99) }
}

const ORGANIZER: u64 = 1;
const ESCROW: u64 = 50;
const TOURNAMENT: u64 = 60;

fn new_tournament(entry_fee: u64, max_players: u8) -> TournamentAccount {
    let mut init = InitTournament { organizer: key(ORGANIZER), mint: key(99), tournament: None, escrow: account(ESCROW, TOURNAMENT) };
    init_tournament(&mut init, entry_fee, max_players).unwrap();
    init.tournament.unwrap()
}

fn join(t: TournamentAccount, player: u64) -> (TournamentAccount, Result<u64, TournamentError>) {
    let mut ctx = JoinTournament {
        player: key(player),
        tournament: t,
        player_token: account(100 + player, player),
        escrow: account(ESCROW, TOURNAMENT),
    };
    let r = join_tournament(&mut ctx).map(|p| {
        assert_eq!(p.len(), 1);
        assert_eq!(p[0].transfer.from, key(100 + player));
        assert_eq!(p[0].transfer.to, key(ESCROW));
        assert_eq!(p[0].transfer.authority, key(player));
        p[0].amount
    });
    (ctx.tournament, r)
}

fn payout(t: TournamentAccount, winner: u64) -> (TournamentAccount, Result<(u64, Pubkey), TournamentError>) {
    let mut ctx = PayoutWinner {
        tournament_address: key(TOURNAMENT),
        tournament: t,
        winner: key(winner),
        escrow: account(ESCROW, TOURNAMENT),
        winner_token: account(100 + winner, winner),
    };
    let r = payout_winner(&mut ctx).map(|p| {
        assert_eq!(p.len(), 1);
        assert_eq!(p[0].transfer.from, key(ESCROW));
        assert_eq!(p[0].transfer.authority, key(TOURNAMENT));
        (p[0].amount, p[0].transfer.to)
    });
    (ctx.tournament, r)
}

#[test]
fn two_player_tournament_runs_to_completion() {
    let t = new_tournament(10, 2);
    assert_eq!(t.state, TournamentStage::Open);
    assert_eq!(t.prize_pool, 0);
    assert!(t.players.is_empty());
    assert_eq!(t.organizer, key(ORGANIZER));

    let (t, r) = join(t, 2);
    assert_eq!(r, Ok(10));
    let (t, r) = join(t, 3);
    assert_eq!(r, Ok(10));
    assert_eq!(t.prize_pool, 20);
    assert_eq!(t.players, vec![key(2), key(3)]);

    let before = t.clone();
    let (t, r) = join(t, 4);
    assert_eq!(r, Err(TournamentError::Full));
    assert_eq!(t, before);

    let mut t = t;
    t.state = TournamentStage::Started;
    let (t, r) = payout(t, 2);
    assert_eq!(r, Ok((20, key(102))));
    assert_eq!(t.state, TournamentStage::Complete);

    let (t, r) = payout(t, 2);
    assert_eq!(r, Err(TournamentError::NotStarted));
    assert_eq!(t.state, TournamentStage::Complete);
}

#[test]
fn pool_tracks_every_join() {
    let mut t = new_tournament(7, 5);
    for (i, p) in [11u64, 12, 13, 14, 15].iter().enumerate() {
        let (next, r) = join(t, *p);
        assert_eq!(r, Ok(7));
        t = next;
        assert_eq!(t.players.len(), i + 1);
        assert_eq!(t.prize_pool, 7 * t.players.len() as u64);
    }
    let (t, r) = join(t, 16);
    assert_eq!(r, Err(TournamentError::Full));
    assert_eq!(t.prize_pool, 35);
}

#[test]
fn init_over_existing_record_fails() {
    let existing = new_tournament(1, 1);
    let mut init = InitTournament { organizer: key(ORGANIZER), mint: key(99), tournament: Some(existing.clone()), escrow: account(ESCROW, TOURNAMENT) };
    assert_eq!(init_tournament(&mut init, 5, 5), Err(TournamentError::AlreadyInitialized));
    assert_eq!(init.tournament, Some(existing));
}

#[test]
fn zero_capacity_tournament_is_full() {
    let t = new_tournament(3, 0);
    let (t, r) = join(t, 2);
    assert_eq!(r, Err(TournamentError::Full));
    assert!(t.players.is_empty());
}

#[test]
fn join_after_start_is_not_open() {
    let mut t = new_tournament(3, 4);
    t.state = TournamentStage::Started;
    let (_, r) = join(t, 2);
    assert_eq!(r, Err(TournamentError::NotOpen));
}

#[test]
fn same_player_cannot_join_twice() {
    let t = new_tournament(3, 4);
    let (t, _) = join(t, 2);
    let (t, r) = join(t, 2);
    assert_eq!(r, Err(TournamentError::AlreadyJoined));
    assert_eq!(t.prize_pool, 3);
}

#[test]
fn pool_overflow_is_rejected() {
    let t = new_tournament(u64::MAX, 3);
    let (t, r) = join(t, 2);
    assert_eq!(r, Ok(u64::MAX));
    let (t, r) = join(t, 3);
    assert_eq!(r, Err(TournamentError::MathOverflow));
    assert_eq!(t.players.len(), 1);
}

#[test]
fn payout_before_start_fails() {
    let t = new_tournament(3, 4);
    let (t, _) = join(t, 2);
    let (t, r) = payout(t, 2);
    assert_eq!(r, Err(TournamentError::NotStarted));
    assert_eq!(t.state, TournamentStage::Open);
}

#[test]
fn outsider_cannot_collect_prize() {
    let t = new_tournament(3, 4);
    let (mut t, _) = join(t, 2);
    t.state = TournamentStage::Started;
    let (t, r) = payout(t, 9);
    assert_eq!(r, Err(TournamentError::NotAPlayer));
    assert_eq!(t.state, TournamentStage::Started);
}

#[test]
fn well_formedness_detects_broken_records() {
    let t = new_tournament(5, 3);
    let (t, _) = join(t, 2);
    let (t, _) = join(t, 3);
    assert!(t.is_well_formed());

    let mut bad_pool = t.clone();
    bad_pool.prize_pool = 11;
    assert!(!bad_pool.is_well_formed());

    let mut repeated = t.clone();
    repeated.players = vec![key(2), key(2)];
    assert!(!repeated.is_well_formed());

    let mut over_cap = t.clone();
    over_cap.max_players = 1;
    assert!(!over_cap.is_well_formed());

    let mut overflow = t.clone();
    overflow.entry_fee = u64::MAX;
    assert!(!overflow.is_well_formed());
}
