use trenbet::key::Pubkey;
use trenbet::subscription::{subscribe, SubErr, Subscribe, SubscriptionAccount, PRICE_PER_MONTH, SECONDS_PER_MONTH};
use trenbet::token::TokenAccount;

fn key(n: u64) -> Pubkey {
    Pubkey::new(n, 0, 0, 0)
}

const PAYER: u64 = 1;
const MINT: u64 = 99;

fn ctx(slot: Option<SubscriptionAccount>) -> Subscribe {
    Subscribe {
        payer: key(PAYER),
        subscription: slot,
        payer_token: TokenAccount { key: key(10), owner: key(PAYER), mint: key(MINT) },
        vault_token: TokenAccount { key: key(20), owner: key(2), mint: key(MINT) },
        mint: key(MINT),
    }
}

#[test]
fn first_subscription_starts_now() {
    let mut c = ctx(None);
    let p = subscribe(&mut c, 1, 1_000).unwrap();
    assert_eq!(p.len(), 1);
    assert_eq!(p[0].amount, 14_990_000_000);
    assert_eq!(p[0].transfer.from, key(10));
    assert_eq!(p[0].transfer.to, key(20));
    assert_eq!(p[0].transfer.authority, key(PAYER));
    assert_eq!(c.subscription, Some(SubscriptionAccount { owner: key(PAYER), expiry: 1_000 + 2_592_000 }));
}

#[test]
fn renewal_stacks_on_unexpired_time() {
    let mut c = ctx(Some(SubscriptionAccount { owner: key(PAYER), expiry: 10_000_000 }));
    let p = subscribe(&mut c, 2, 5_000_000).unwrap();
    assert_eq!(p[0].amount, 2 * PRICE_PER_MONTH);
    assert_eq!(c.subscription.unwrap().expiry, 10_000_000 + 2 * 2_592_000);
}

#[test]
fn renewal_after_expiry_starts_now() {
    let mut c = ctx(Some(SubscriptionAccount { owner: key(PAYER), expiry: 100 }));
    subscribe(&mut c, 3, 5_000).unwrap();
    assert_eq!(c.subscription.unwrap().expiry, 5_000 + 3 * SECONDS_PER_MONTH);
}

#[test]
fn one_then_two_months_equals_three() {
    let now = 1_700_000_000;
    let mut a = ctx(None);
    subscribe(&mut a, 1, now).unwrap();
    subscribe(&mut a, 2, now).unwrap();
    let mut b = ctx(None);
    subscribe(&mut b, 3, now).unwrap();
    assert_eq!(a.subscription.unwrap().expiry, b.subscription.unwrap().expiry);
    assert_eq!(b.subscription.unwrap().expiry, now + 3 * 2_592_000);
}

#[test]
fn largest_month_count_is_priced_exactly() {
    let mut c = ctx(None);
    let p = subscribe(&mut c, 255, 0).unwrap();
    assert_eq!(p[0].amount, 255 * 14_990_000_000);
    assert_eq!(c.subscription.unwrap().expiry, 255 * 2_592_000);
}

#[test]
fn zero_months_is_rejected() {
    let mut c = ctx(None);
    assert_eq!(subscribe(&mut c, 0, 5), Err(SubErr::ZeroMonths));
    assert_eq!(c.subscription, None);
}

#[test]
fn expiry_overflow_is_rejected() {
    let start = SubscriptionAccount { owner: key(PAYER), expiry: i64::MAX - 10 };
    let mut c = ctx(Some(start));
    assert_eq!(subscribe(&mut c, 1, 0), Err(SubErr::MathOverflow));
    assert_eq!(c.subscription, Some(start));
}

#[test]
fn paying_from_foreign_account_is_unauthorized() {
    let mut c = ctx(None);
    c.payer_token.owner = key(7);
    assert_eq!(subscribe(&mut c, 1, 0), Err(SubErr::Unauthorized));
}

#[test]
fn mismatched_denomination_is_rejected() {
    let mut c = ctx(None);
    c.vault_token.mint = key(98);
    assert_eq!(subscribe(&mut c, 1, 0), Err(SubErr::WrongMint));
    let mut c = ctx(None);
    c.payer_token.mint = key(98);
    assert_eq!(subscribe(&mut c, 1, 0), Err(SubErr::WrongMint));
}
