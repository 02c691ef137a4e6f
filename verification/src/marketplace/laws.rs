//! What holds of the auction engine across its operations, stated over the
//! state transitions that the operations' contracts name.

use crate::actor::ActorId;
use crate::marketplace::funcs::validate_bid_result;
use crate::marketplace::{Auction, Error, Pending, Reply, Step, StorageView};
use crate::u256::{u256_modulus, U256};
use vstd::prelude::*;

verus! {

/// Whether the index refers to `auction_id` under some token.
pub open spec fn is_indexed(s: StorageView, auction_id: u64) -> bool {
    exists|key: (ActorId, u64)| #[trigger]
        s.token_to_auction.dom().contains(key) && s.token_to_auction[key] == auction_id
}

/// The index refers to exactly the live auctions: those that are recorded
/// and not settled. An auction that no operation holds locked is live as soon
/// as it is recorded, so for such an auction the index and the record agree;
/// an auction that is settled is in the index no more.
pub proof fn law_index_holds_the_live_auctions(s: StorageView, auction_id: u64)
    requires
        s.wf(),
    ensures
        is_indexed(s, auction_id) <==> s.is_live(auction_id),
        !s.locked_auctions.contains(auction_id) ==> (is_indexed(s, auction_id)
            <==> s.auctions.dom().contains(auction_id)),
        s.auctions.dom().contains(auction_id) && s.auctions[auction_id].settled ==> !is_indexed(
            s,
            auction_id,
        ),
{
    if s.is_live(auction_id) {
        let key = s.auctions[auction_id].token();
        assert(s.token_to_auction.dom().contains(key) && s.token_to_auction[key] == auction_id);
    }
}

/// The auction that a pending operation holds locked, if it holds one.
pub open spec fn locked_by(pending: Pending) -> Option<u64> {
    match pending {
        Pending::CancelAuction { auction_id } => Some(auction_id),
        Pending::Bid { auction_id, .. } => Some(auction_id),
        Pending::Finalize { auction_id, .. } => Some(auction_id),
        _ => None,
    }
}

/// The locks after the operation `pending` has let go of its own.
pub open spec fn locks_without(s: StorageView, pending: Pending) -> Set<u64> {
    match locked_by(pending) {
        Some(auction_id) => s.locked_auctions.remove(auction_id),
        None => s.locked_auctions,
    }
}

/// A lock lasts as long as the operation that took it. Resuming an
/// operation touches no lock but its own. Where another call follows, the
/// lock stays and the operation to resume next is in flight. Where the
/// operation is done, its lock is gone; so it is where the operation fails,
/// unless it fails on an overflow, which changes nothing at all.
pub proof fn law_lock_lasts_as_long_as_the_operation(s: StorageView, pending: Pending, reply: Reply)
    requires
        s.wf(),
        s.in_flight(pending),
    ensures
        ({
            let after = s.resume_state(pending, reply);
            let result = s.resume_result(pending, reply);
            &&& result matches Ok(Step::Call(_, next)) ==> after.locked_auctions
                == s.locked_auctions && after.in_flight(next) && locked_by(next) == locked_by(
                pending,
            )
            &&& result matches Ok(Step::Done(_)) ==> after.locked_auctions == locks_without(
                s,
                pending,
            )
            &&& result matches Err(e) ==> (if e == Error::AmountOverflow || e
                == Error::EndTimeOverflow {
                after == s
            } else {
                after.locked_auctions == locks_without(s, pending)
            })
        }),
{
    let after = s.resume_state(pending, reply);
    match pending {
        Pending::Finalize { auction_id, finalizer, reward_bps, stage } => {
            let taken = s.after_finalize_reply(auction_id, finalizer, reward_bps, stage, reply);
            assert(taken.auctions == s.auctions);
            assert(taken.locked_auctions == s.locked_auctions);
        },
        _ => {},
    }
}

/// An operation locks an auction that was not locked, and a bid or a
/// cancellation that runs to its end leaves the locks as it found them.
pub proof fn law_bid_and_cancel_leave_no_lock(
    s: StorageView,
    caller: ActorId,
    now: u64,
    auction_id: u64,
    amount: U256,
    reply: Reply,
)
    requires
        s.wf(),
    ensures
        s.bid_check(caller, now, auction_id, amount) is Ok ==> {
            let pending = Pending::Bid { auction_id, bidder: caller, amount, now };
            let begun = s.with_lock(auction_id);
            &&& !s.locked_auctions.contains(auction_id)
            &&& begun.in_flight(pending)
            &&& (begun.resume_result(pending, reply) is Ok || reply != Reply::Accepted)
                ==> begun.resume_state(pending, reply).locked_auctions == s.locked_auctions
        },
        s.cancel_check(caller, now, auction_id) is Ok ==> {
            let pending = Pending::CancelAuction { auction_id };
            let begun = s.after_cancel_begin(auction_id);
            &&& !s.locked_auctions.contains(auction_id)
            &&& begun.in_flight(pending)
            &&& begun.resume_state(pending, reply).locked_auctions == s.locked_auctions
        },
        s.finalize_check(now, auction_id) is Ok ==> !s.locked_auctions.contains(auction_id),
{
    if s.bid_check(caller, now, auction_id, amount) is Ok {
        let pending = Pending::Bid { auction_id, bidder: caller, amount, now };
        let begun = s.with_lock(auction_id);
        assert(begun.locked_auctions.remove(auction_id) =~= s.locked_auctions);
    }
    if s.cancel_check(caller, now, auction_id) is Ok {
        let begun = s.after_cancel_begin(auction_id);
        assert(begun.locked_auctions.remove(auction_id) =~= s.locked_auctions);
    }
}

/// A first bid of exactly the start price is high enough; a first bid one
/// unit below it is not.
pub proof fn law_first_bid_boundary(
    bid_amount: U256,
    start_price: U256,
    highest_bid: U256,
    min_increment: U256,
)
    ensures
        validate_bid_result(start_price, start_price, highest_bid, min_increment, true) is Ok,
        bid_amount.value() + 1 == start_price.value() ==> validate_bid_result(
            bid_amount,
            start_price,
            highest_bid,
            min_increment,
            true,
        ) == Err::<(), Error>(Error::BidBelowStartPrice),
{
}

/// A later bid of exactly the highest bid plus the minimum increment is high
/// enough; one unit below it is not.
pub proof fn law_next_bid_boundary(
    bid_amount: U256,
    start_price: U256,
    highest_bid: U256,
    min_increment: U256,
)
    requires
        highest_bid.value() + min_increment.value() < u256_modulus(),
    ensures
        bid_amount.value() == highest_bid.value() + min_increment.value() ==> validate_bid_result(
            bid_amount,
            start_price,
            highest_bid,
            min_increment,
            false,
        ) is Ok,
        bid_amount.value() + 1 == highest_bid.value() + min_increment.value()
            ==> validate_bid_result(bid_amount, start_price, highest_bid, min_increment, false)
            == Err::<(), Error>(Error::BidBelowIncrement),
{
}

/// Whether nothing but the time and the amount can stand against a bid by
/// `caller` on `auction_id`: the auction is live and unlocked, and the caller
/// does not hold the highest bid.
pub open spec fn open_to(s: StorageView, caller: ActorId, auction_id: u64) -> bool {
    &&& s.is_live(auction_id)
    &&& !s.locked_auctions.contains(auction_id)
    &&& s.auctions[auction_id].highest_bidder != Some(caller)
}

/// Bidding is open until the end time and closed from it on: a bid that is
/// high enough is accepted one millisecond before the end and refused as
/// late at the end.
pub proof fn law_bid_time_boundary(s: StorageView, caller: ActorId, auction_id: u64, amount: U256)
    requires
        open_to(s, caller, auction_id),
        s.auctions[auction_id].end_time_ms > 0,
        validate_bid_result(
            amount,
            s.auctions[auction_id].start_price,
            s.auctions[auction_id].highest_bid,
            s.auctions[auction_id].min_bid_increment,
            s.auctions[auction_id].highest_bidder is None,
        ) is Ok,
        s.auctions[auction_id].end_time_ms - 1 + s.auctions[auction_id].extension_window_ms
            <= u64::MAX,
    ensures
        s.bid_check(caller, (s.auctions[auction_id].end_time_ms - 1) as u64, auction_id, amount)
            is Ok,
        s.bid_check(caller, s.auctions[auction_id].end_time_ms, auction_id, amount) == Err::<
            (),
            Error,
        >(Error::AuctionEnded),
{
}

/// The first bid of an auction is accepted at exactly the start price and
/// refused one unit below it.
pub proof fn law_first_bid_at_start_price(
    s: StorageView,
    caller: ActorId,
    now: u64,
    auction_id: u64,
    amount: U256,
)
    requires
        open_to(s, caller, auction_id),
        s.auctions[auction_id].highest_bidder is None,
        now < s.auctions[auction_id].end_time_ms,
        s.auctions[auction_id].end_after_bid(now) <= u64::MAX,
    ensures
        s.bid_check(caller, now, auction_id, s.auctions[auction_id].start_price) is Ok,
        amount.value() + 1 == s.auctions[auction_id].start_price.value() ==> s.bid_check(
            caller,
            now,
            auction_id,
            amount,
        ) == Err::<(), Error>(Error::BidBelowStartPrice),
{
}

/// A later bid is accepted at exactly the highest bid plus the minimum
/// increment.
pub proof fn law_next_bid_at_increment(
    s: StorageView,
    caller: ActorId,
    now: u64,
    auction_id: u64,
    amount: U256,
)
    requires
        open_to(s, caller, auction_id),
        s.auctions[auction_id].highest_bidder is Some,
        now < s.auctions[auction_id].end_time_ms,
        s.auctions[auction_id].end_after_bid(now) <= u64::MAX,
        amount.value() == s.auctions[auction_id].highest_bid.value()
            + s.auctions[auction_id].min_bid_increment.value(),
    ensures
        s.bid_check(caller, now, auction_id, amount) is Ok,
{
    amount.lemma_value_bound();
}

/// A bid placed when exactly the extension window is left moves the end to
/// one window after the bid; a bid placed one millisecond earlier leaves the
/// end where it was.
pub proof fn law_extension_window_boundary(auction: Auction, now: u64)
    requires
        now <= auction.end_time_ms,
    ensures
        auction.end_time_ms - now == auction.extension_window_ms ==> auction.end_after_bid(now)
            == now + auction.extension_window_ms,
        auction.end_time_ms - now == auction.extension_window_ms + 1 ==> auction.end_after_bid(now)
            == auction.end_time_ms,
        auction.end_after_bid(now) >= auction.end_time_ms,
{
}

/// A finalization whose reward cannot be computed is refused before
/// anything is settled: where the auction could be finalized but its highest
/// bid times the reward rate leaves 256 bits, the answer is `AmountOverflow`;
/// and a finalization that is accepted has a reward that fits.
pub proof fn law_finalize_refuses_an_overflowing_reward(s: StorageView, now: u64, auction_id: u64)
    requires
        s.is_live(auction_id),
        !s.locked_auctions.contains(auction_id),
        now >= s.auctions[auction_id].end_time_ms,
    ensures
        s.finalize_check(now, auction_id) == (if crate::marketplace::funcs::reward_fits(
            s.auctions[auction_id].highest_bid.value(),
            s.finalizer_reward_bps as nat,
        ) {
            Ok::<(), Error>(())
        } else {
            Err(Error::AmountOverflow)
        }),
{
}

} // verus!
