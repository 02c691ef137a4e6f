//! The arithmetic of the auction engine.

use line_market::actor::ActorId;
use line_market::marketplace::funcs::{
    calculate_finalizer_reward, queue_payout, queue_refund, validate_bid,
};
use line_market::marketplace::Error;
use line_market::tables::AmountTable;
use line_market::u256::U256;

fn actor(bytes: [u8; 32]) -> ActorId {
    ActorId::new(sails_rs::ActorId::from(bytes).into_bytes())
}

const MAX: U256 = U256 { l0: u64::MAX, l1: u64::MAX, l2: u64::MAX, l3: u64::MAX };

#[test]
fn test_queue_refund_new() {
    let mut pending = AmountTable::new();
    let user = actor([1u8; 32]);
    let amount = U256::from(100);

    assert_eq!(queue_refund(&mut pending, user, amount), Ok(()));

    assert_eq!(pending.get(&user), Some(amount));
}

#[test]
fn test_queue_refund_accumulates() {
    let mut pending = AmountTable::new();
    let user = actor([1u8; 32]);

    assert_eq!(queue_refund(&mut pending, user, U256::from(100)), Ok(()));
    assert_eq!(queue_refund(&mut pending, user, U256::from(50)), Ok(()));

    assert_eq!(pending.get(&user), Some(U256::from(150)));
}

#[test]
fn test_queue_refund_zero_ignored() {
    let mut pending = AmountTable::new();
    let user = actor([1u8; 32]);

    assert_eq!(queue_refund(&mut pending, user, U256::zero()), Ok(()));

    assert_eq!(pending.len(), 0);
}

#[test]
fn test_finalizer_reward_calculation() {
    // 1000 at 50 bps (0.5%) = 5
    let reward = calculate_finalizer_reward(U256::from(1000), 50);
    assert_eq!(reward, Ok(U256::from(5)));

    // 10000 at 100 bps (1%) = 100
    let reward = calculate_finalizer_reward(U256::from(10000), 100);
    assert_eq!(reward, Ok(U256::from(100)));

    // 0 bps = 0 reward
    let reward = calculate_finalizer_reward(U256::from(10000), 0);
    assert_eq!(reward, Ok(U256::zero()));
}

#[test]
fn test_validate_bid_first_bid() {
    assert!(validate_bid(
        U256::from(100),
        U256::from(100),
        U256::zero(),
        U256::from(10),
        true
    )
    .is_ok());

    assert!(validate_bid(
        U256::from(50),
        U256::from(100),
        U256::zero(),
        U256::from(10),
        true
    )
    .is_err());
}

#[test]
fn test_validate_bid_subsequent() {
    assert!(validate_bid(
        U256::from(120),
        U256::from(100),
        U256::from(100),
        U256::from(10),
        false
    )
    .is_ok());

    assert!(validate_bid(
        U256::from(105),
        U256::from(100),
        U256::from(100),
        U256::from(10),
        false
    )
    .is_err());
}

#[test]
fn validate_bid_names_what_is_wrong() {
    let bid = |amount: u64, first: bool| {
        validate_bid(U256::from(amount), U256::from(100), U256::from(200), U256::from(10), first)
    };

    assert_eq!(bid(99, true), Err(Error::BidBelowStartPrice));
    assert_eq!(bid(100, true), Ok(()));
    assert_eq!(bid(209, false), Err(Error::BidBelowIncrement));
    assert_eq!(bid(210, false), Ok(()));
    assert_eq!(
        validate_bid(MAX, U256::from(1), MAX, U256::from(1), false),
        Err(Error::BidOverflow)
    );
    // A minimum increment of zero lets a bid match the highest bid.
    assert_eq!(
        validate_bid(U256::from(200), U256::from(100), U256::from(200), U256::zero(), false),
        Ok(())
    );
}

#[test]
fn finalizer_reward_rounds_down() {
    assert_eq!(calculate_finalizer_reward(U256::from(150), 100), Ok(U256::from(1)));
    assert_eq!(calculate_finalizer_reward(U256::from(99), 100), Ok(U256::zero()));
    assert_eq!(calculate_finalizer_reward(U256::from(9_999), 1000), Ok(U256::from(999)));
    assert_eq!(calculate_finalizer_reward(U256::from(10), 10_000), Ok(U256::from(10)));
}

#[test]
fn finalizer_reward_on_amounts_beyond_64_bits() {
    // 2^200 at 1000 bps is 2^200 / 10, rounded down.
    let bid = U256 { l0: 0, l1: 0, l2: 0, l3: 1 << 8 };
    let expected = sails_rs::U256([0, 0, 0, 1 << 8]) / sails_rs::U256::from(10u64);

    let reward = calculate_finalizer_reward(bid, 1000).expect("the product fits");

    assert_eq!([reward.l0, reward.l1, reward.l2, reward.l3], expected.0);
    assert_ne!(reward, bid);
}

#[test]
fn finalizer_reward_is_refused_where_the_product_overflows() {
    assert_eq!(calculate_finalizer_reward(MAX, 2), Err(Error::AmountOverflow));
    assert_eq!(calculate_finalizer_reward(MAX, 1000), Err(Error::AmountOverflow));
    // 2^255 doubles to exactly 2^256, the first product that does not fit.
    let half = U256 { l0: 0, l1: 0, l2: 0, l3: 1 << 63 };
    assert_eq!(calculate_finalizer_reward(half, 2), Err(Error::AmountOverflow));
    let below_half = U256 { l0: u64::MAX, l1: u64::MAX, l2: u64::MAX, l3: (1 << 63) - 1 };
    let expected = (sails_rs::U256::MAX - sails_rs::U256::from(1u64)) / sails_rs::U256::from(10_000u64);
    let reward = calculate_finalizer_reward(below_half, 2).expect("the product fits");
    assert_eq!([reward.l0, reward.l1, reward.l2, reward.l3], expected.0);
    // At one basis point the product is the bid itself and fits.
    let expected = sails_rs::U256::MAX / sails_rs::U256::from(10_000u64);
    let reward = calculate_finalizer_reward(MAX, 1).expect("the product fits");
    assert_eq!([reward.l0, reward.l1, reward.l2, reward.l3], expected.0);
    // A rate of zero gives a reward of zero on any bid.
    assert_eq!(calculate_finalizer_reward(MAX, 0), Ok(U256::zero()));
}

#[test]
fn queue_payout_accumulates_and_refuses_overflow() {
    let mut pending = AmountTable::new();
    let seller = actor([2u8; 32]);
    let other = actor([3u8; 32]);

    assert_eq!(queue_payout(&mut pending, seller, U256::from(7)), Ok(()));
    assert_eq!(queue_payout(&mut pending, seller, U256::from(8)), Ok(()));
    assert_eq!(queue_payout(&mut pending, other, U256::zero()), Ok(()));
    assert_eq!(pending.get(&seller), Some(U256::from(15)));
    assert_eq!(pending.get(&other), None);

    assert_eq!(queue_payout(&mut pending, seller, MAX), Err(Error::AmountOverflow));
    assert_eq!(pending.get(&seller), Some(U256::from(15)));
    assert_eq!(queue_refund(&mut pending, seller, MAX), Err(Error::AmountOverflow));
}
