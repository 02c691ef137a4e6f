//! The arithmetic of the auction engine: queues of amounts owed, the
//! finalizer's reward, and the minimum that a bid must reach.

use crate::actor::ActorId;
use crate::amounts::{amount_of, set_amount, with_amount};
use crate::marketplace::Error;
use crate::tables::AmountTable;
use crate::u256::{u256_modulus, U256};
use vstd::prelude::*;

verus! {

/// What queueing `amount` for `user` returns: an amount that would push the
/// queued total past 256 bits is refused.
pub open spec fn queue_result(pending: Map<ActorId, U256>, user: ActorId, amount: U256) -> Result<
    (),
    Error,
> {
    if amount.value() != 0 && amount_of(pending, user) + amount.value() >= u256_modulus() {
        Err(Error::AmountOverflow)
    } else {
        Ok(())
    }
}

/// The queue after `amount` was added to what `user` is owed. Adding zero
/// changes nothing.
pub open spec fn queue_after(pending: Map<ActorId, U256>, user: ActorId, amount: U256) -> Map<
    ActorId,
    U256,
> {
    if amount.value() == 0 {
        pending
    } else {
        with_amount(pending, user, amount_of(pending, user) + amount.value())
    }
}

/// Adds `amount` to the refund that `user` may claim. A zero amount is
/// ignored.
pub fn queue_refund(pending_refunds: &mut AmountTable, user: ActorId, amount: U256) -> (r: Result<
    (),
    Error,
>)
    ensures
        r == queue_result(old(pending_refunds)@, user, amount),
        r is Ok ==> final(pending_refunds)@ == queue_after(old(pending_refunds)@, user, amount),
        r is Err ==> final(pending_refunds)@ == old(pending_refunds)@,
{
    queue_amount(pending_refunds, user, amount)
}

/// Adds `amount` to the payout that `recipient` may claim. A zero amount is
/// ignored.
pub fn queue_payout(pending_payouts: &mut AmountTable, recipient: ActorId, amount: U256) -> (r:
    Result<(), Error>)
    ensures
        r == queue_result(old(pending_payouts)@, recipient, amount),
        r is Ok ==> final(pending_payouts)@ == queue_after(old(pending_payouts)@, recipient, amount),
        r is Err ==> final(pending_payouts)@ == old(pending_payouts)@,
{
    queue_amount(pending_payouts, recipient, amount)
}

fn queue_amount(pending: &mut AmountTable, user: ActorId, amount: U256) -> (r: Result<(), Error>)
    ensures
        r == queue_result(old(pending)@, user, amount),
        r is Ok ==> final(pending)@ == queue_after(old(pending)@, user, amount),
        r is Err ==> final(pending)@ == old(pending)@,
{
    if amount.is_zero() {
        return Ok(());
    }
    let owed = match pending.get(&user) {
        Some(v) => v,
        None => U256::zero(),
    };
    match owed.checked_add(&amount) {
        Some(sum) => {
            set_amount(pending, user, sum);
            Ok(())
        },
        None => Err(Error::AmountOverflow),
    }
}

/// The finalizer's reward on a winning bid of `highest_bid` at `reward_bps`
/// basis points: the bid times the rate, divided by 10 000 and rounded down.
pub open spec fn finalizer_reward(highest_bid: nat, reward_bps: nat) -> nat {
    highest_bid * reward_bps / 10000
}

/// Whether the reward can be computed: the bid times the rate must fit in
/// 256 bits.
pub open spec fn reward_fits(highest_bid: nat, reward_bps: nat) -> bool {
    highest_bid * reward_bps < u256_modulus()
}

/// What computing the finalizer's reward returns: the reward, or
/// `AmountOverflow` where the bid times the rate leaves 256 bits.
pub open spec fn finalizer_reward_result(highest_bid: U256, reward_bps: u32) -> Result<
    U256,
    Error,
> {
    if reward_fits(highest_bid.value(), reward_bps as nat) {
        Ok(U256::from_nat(finalizer_reward(highest_bid.value(), reward_bps as nat)))
    } else {
        Err(Error::AmountOverflow)
    }
}

/// At a rate of at most 10 000 basis points the reward is at most the bid,
/// and at a rate of zero it is zero.
pub proof fn lemma_finalizer_reward_bound(highest_bid: nat, reward_bps: nat)
    requires
        reward_bps <= 10000,
    ensures
        finalizer_reward(highest_bid, reward_bps) <= highest_bid,
        reward_bps == 0 ==> finalizer_reward(highest_bid, reward_bps) == 0,
        highest_bid == 0 ==> finalizer_reward(highest_bid, reward_bps) == 0,
{
    assert(highest_bid * reward_bps <= highest_bid * 10000) by (nonlinear_arith)
        requires
            reward_bps <= 10000,
    ;
    vstd::arithmetic::div_mod::lemma_div_is_ordered(
        (highest_bid * reward_bps) as int,
        (highest_bid * 10000) as int,
        10000,
    );
    vstd::arithmetic::div_mod::lemma_div_multiples_vanish(highest_bid as int, 10000);
    assert(highest_bid * 10000 == 10000 * highest_bid) by (nonlinear_arith);
    if reward_bps == 0 || highest_bid == 0 {
        assert(highest_bid * reward_bps == 0) by (nonlinear_arith)
            requires
                reward_bps == 0 || highest_bid == 0,
        ;
    }
}

/// At the highest rate that the engine admits, 1000 basis points, the
/// reward is at most a tenth of the bid.
pub proof fn law_finalizer_reward_is_at_most_a_tenth(highest_bid: nat, reward_bps: nat)
    requires
        reward_bps <= 1000,
    ensures
        finalizer_reward(highest_bid, reward_bps) <= highest_bid / 10,
{
    assert(highest_bid * reward_bps <= 1000 * highest_bid) by (nonlinear_arith)
        requires
            reward_bps <= 1000,
    ;
    vstd::arithmetic::div_mod::lemma_div_is_ordered(
        (highest_bid * reward_bps) as int,
        (1000 * highest_bid) as int,
        10000,
    );
    vstd::arithmetic::div_mod::lemma_div_multiples_vanish_quotient(1000, highest_bid as int, 10);
}

/// Computes the finalizer's reward with a checked multiplication: where the
/// bid times the rate leaves 256 bits the result is `AmountOverflow`, never
/// a wrapped or made-up amount.
pub fn calculate_finalizer_reward(highest_bid: U256, reward_bps: u32) -> (r: Result<U256, Error>)
    ensures
        r == finalizer_reward_result(highest_bid, reward_bps),
        r matches Ok(reward) ==> reward.value() == finalizer_reward(
            highest_bid.value(),
            reward_bps as nat,
        ),
{
    let bps_u256 = U256::from_u64(reward_bps as u64);
    let divisor = U256::from_u64(10000);
    match highest_bid.checked_mul(&bps_u256) {
        Some(product) => {
            proof {
                U256::lemma_value_from_nat(highest_bid.value() * bps_u256.value());
                assert(product.value() / 10000 <= product.value()) by {
                    vstd::arithmetic::div_mod::lemma_div_is_ordered_by_denominator(
                        product.value() as int,
                        1,
                        10000,
                    );
                }
                product.lemma_value_bound();
                U256::lemma_value_from_nat(product.value() / 10000);
            }
            Ok(product.div(&divisor))
        },
        None => Err(Error::AmountOverflow),
    }
}

/// What validating a bid returns. A first bid must reach the start price; a
/// later bid must reach the highest bid plus the minimum increment, a sum
/// that must itself fit in 256 bits.
pub open spec fn validate_bid_result(
    bid_amount: U256,
    start_price: U256,
    highest_bid: U256,
    min_increment: U256,
    is_first_bid: bool,
) -> Result<(), Error> {
    if is_first_bid {
        if bid_amount.value() < start_price.value() {
            Err(Error::BidBelowStartPrice)
        } else {
            Ok(())
        }
    } else if highest_bid.value() + min_increment.value() >= u256_modulus() {
        Err(Error::BidOverflow)
    } else if bid_amount.value() < highest_bid.value() + min_increment.value() {
        Err(Error::BidBelowIncrement)
    } else {
        Ok(())
    }
}

/// Validates the amount of a bid against the rules of its auction.
pub fn validate_bid(
    bid_amount: U256,
    start_price: U256,
    highest_bid: U256,
    min_increment: U256,
    is_first_bid: bool,
) -> (r: Result<(), Error>)
    ensures
        r == validate_bid_result(bid_amount, start_price, highest_bid, min_increment, is_first_bid),
{
    if is_first_bid {
        if bid_amount.lt(&start_price) {
            return Err(Error::BidBelowStartPrice);
        }
    } else {
        let min_bid = match highest_bid.checked_add(&min_increment) {
            Some(sum) => sum,
            None => {
                return Err(Error::BidOverflow);
            },
        };
        if bid_amount.lt(&min_bid) {
            return Err(Error::BidBelowIncrement);
        }
    }
    Ok(())
}

} // verus!
