//! What the engine owes, and why the tokens it holds cover it.
//!
//! The engine holds bids in the fungible token. At any moment it owes the
//! highest bid of every auction at rest (live and not locked), every queued
//! refund and every queued payout: [`owed`]. An operation in flight has
//! taken some amount out of that sum without having passed it on yet:
//! [`due`]. The laws below follow both through every step of every
//! operation. Together they say that an engine whose token balance covers
//! what it owes and what is due keeps it covered, as long as the token moves
//! exactly what the replies report.

use crate::actor::ActorId;
use crate::amounts::{
    amount_of, lemma_sum_insert, lemma_sum_remove, lemma_total_with_amount, sum_values, total_of,
    with_amount,
};
use crate::marketplace::funcs::lemma_finalizer_reward_bound;
use crate::marketplace::laws::locked_by;
use crate::marketplace::{FinalizeStage, Pending, Reply, Step, StorageView};
use crate::u256::U256;
use vstd::prelude::*;

verus! {

/// The bid that the engine holds for `auction_id` at rest: the highest bid
/// of a live auction that no operation holds locked, zero otherwise.
pub open spec fn bid_at_rest(s: StorageView, auction_id: u64) -> nat {
    if s.is_live(auction_id) && !s.locked_auctions.contains(auction_id) {
        s.auctions[auction_id].highest_bid.value()
    } else {
        0
    }
}

/// The bid at rest of every recorded auction.
pub open spec fn bids_at_rest(s: StorageView) -> Map<u64, nat> {
    Map::new(|id: u64| s.auctions.dom().contains(id), |id: u64| bid_at_rest(s, id))
}

/// What the engine owes: the bids at rest, the queued refunds and the queued
/// payouts.
pub open spec fn owed(s: StorageView) -> nat {
    sum_values(bids_at_rest(s)) + total_of(s.pending_refunds) + total_of(s.pending_payouts)
}

/// What a pending operation has taken out of what is owed and not passed on
/// yet: a bid, the highest bid that it is about to outbid; a claim, the
/// amount being transferred; a finalization, what is left to pay of the
/// winning bid.
pub open spec fn due(s: StorageView, pending: Pending) -> nat {
    match pending {
        Pending::Bid { auction_id, .. } => s.auctions[auction_id].highest_bid.value(),
        Pending::ClaimRefund { amount, .. } => amount.value(),
        Pending::ClaimPayout { amount, .. } => amount.value(),
        Pending::Finalize { auction_id, reward_bps, stage, .. } => {
            let auction = s.auctions[auction_id];
            if stage == FinalizeStage::DeliverNft || stage == FinalizeStage::PaySeller {
                auction.payout(reward_bps) + auction.reward(reward_bps)
            } else if stage == FinalizeStage::PayFinalizer {
                auction.reward(reward_bps)
            } else {
                0
            }
        },
        _ => 0,
    }
}

/// What the token moved into the engine before the reply: the amount of a
/// bid whose pull was accepted.
pub open spec fn received(pending: Pending, reply: Reply) -> nat {
    match pending {
        Pending::Bid { amount, .. } => if reply == Reply::Accepted {
            amount.value()
        } else {
            0
        },
        _ => 0,
    }
}

/// What the token moved out of the engine before the reply: the amount of
/// a claim or of a payment whose transfer was accepted.
pub open spec fn paid(s: StorageView, pending: Pending, reply: Reply) -> nat {
    if reply != Reply::Accepted {
        0
    } else {
        match pending {
            Pending::ClaimRefund { amount, .. } => amount.value(),
            Pending::ClaimPayout { amount, .. } => amount.value(),
            Pending::Finalize { auction_id, finalizer, reward_bps, stage } => {
                if stage == FinalizeStage::PaySeller || stage == FinalizeStage::PayFinalizer {
                    s.auctions[auction_id].payment(finalizer, reward_bps, stage).1
                } else {
                    0
                }
            },
            _ => 0,
        }
    }
}

/// What is due to the operation that a step leaves pending; zero where the
/// step ends the operation.
pub open spec fn due_after(s: StorageView, result: Result<Step, crate::marketplace::Error>) -> nat {
    match result {
        Ok(Step::Call(_, next)) => due(s, next),
        _ => 0,
    }
}

/// While no operation is in flight on any auction, no auction is locked,
/// and then every recorded auction is live and counts with its highest bid:
/// what the engine owes is the highest bids of all recorded auctions, the
/// refunds and the payouts.
pub proof fn law_owed_with_nothing_in_flight(s: StorageView)
    requires
        s.wf(),
        forall|id: u64| !s.locked_auctions.contains(id),
    ensures
        forall|id: u64| #[trigger]
            s.auctions.dom().contains(id) ==> s.is_live(id) && bid_at_rest(s, id)
                == s.auctions[id].highest_bid.value(),
        owed(s) == sum_values(
            Map::new(
                |id: u64| s.auctions.dom().contains(id),
                |id: u64| s.auctions[id].highest_bid.value(),
            ),
        ) + total_of(s.pending_refunds) + total_of(s.pending_payouts),
{
    assert(bids_at_rest(s) =~= Map::new(
        |id: u64| s.auctions.dom().contains(id),
        |id: u64| s.auctions[id].highest_bid.value(),
    ));
}

/// Where two states differ in the bid at rest of at most one auction, the
/// sums of their bids at rest differ by that bid.
pub proof fn lemma_bids_at_rest_differ_in_one(s: StorageView, t: StorageView, auction_id: u64)
    requires
        s.auctions.dom().finite(),
        forall|other: u64|
            other != auction_id ==> (#[trigger] t.auctions.dom().contains(other))
                == s.auctions.dom().contains(other),
        forall|other: u64|
            other != auction_id ==> (#[trigger] bid_at_rest(t, other)) == bid_at_rest(s, other),
    ensures
        sum_values(bids_at_rest(t)) + bid_at_rest(s, auction_id) == sum_values(bids_at_rest(s))
            + bid_at_rest(t, auction_id),
{
    let ms = bids_at_rest(s);
    let mt = bids_at_rest(t);
    assert(ms.dom() =~= s.auctions.dom());
    if s.auctions.dom().contains(auction_id) {
        lemma_sum_remove(ms, auction_id);
    } else {
        assert(ms.remove(auction_id) =~= ms);
    }
    if t.auctions.dom().contains(auction_id) {
        assert(mt =~= ms.insert(auction_id, bid_at_rest(t, auction_id))) by {
            assert forall|id: u64| mt.dom().contains(id) == ms.insert(
                auction_id,
                bid_at_rest(t, auction_id),
            ).dom().contains(id) by {
                if id != auction_id {
                    assert(t.auctions.dom().contains(id) == s.auctions.dom().contains(id));
                }
            }
            assert forall|id: u64| mt.dom().contains(id) implies mt[id] == ms.insert(
                auction_id,
                bid_at_rest(t, auction_id),
            )[id] by {
                if id != auction_id {
                    assert(bid_at_rest(t, id) == bid_at_rest(s, id));
                }
            }
        }
        lemma_sum_insert(ms, auction_id, bid_at_rest(t, auction_id));
    } else {
        assert(mt =~= ms.remove(auction_id)) by {
            assert forall|id: u64| mt.dom().contains(id) == ms.remove(auction_id).dom().contains(
                id,
            ) by {
                if id != auction_id {
                    assert(t.auctions.dom().contains(id) == s.auctions.dom().contains(id));
                }
            }
            assert forall|id: u64| mt.dom().contains(id) implies mt[id] == ms.remove(
                auction_id,
            )[id] by {
                assert(bid_at_rest(t, id) == bid_at_rest(s, id));
            }
        }
    }
}

/// Queueing an amount raises the sum of the queue by that amount.
pub proof fn lemma_total_after_queue(pending: Map<ActorId, U256>, user: ActorId, amount: U256)
    requires
        pending.dom().finite(),
        crate::marketplace::funcs::queue_result(pending, user, amount) is Ok,
    ensures
        total_of(crate::marketplace::funcs::queue_after(pending, user, amount)) == total_of(pending)
            + amount.value(),
{
    if amount.value() != 0 {
        lemma_total_with_amount(pending, user, amount_of(pending, user) + amount.value());
    }
}

/// Putting a claimed amount back raises the sum of the queue by no more
/// than that amount.
pub proof fn lemma_total_after_putting_back(pending: Map<ActorId, U256>, user: ActorId, amount: U256)
    requires
        pending.dom().finite(),
        amount.value() != 0,
    ensures
        total_of(pending.insert(user, amount)) <= total_of(pending) + amount.value(),
{
    amount.lemma_value_bound();
    amount.lemma_from_nat_value();
    assert(pending.insert(user, amount) == with_amount(pending, user, amount.value()));
    lemma_total_with_amount(pending, user, amount.value());
}

/// Beginning a bid moves the highest bid of the auction from what is owed
/// to what is due to the bid.
pub proof fn law_bid_begin_keeps_custody(
    s: StorageView,
    caller: ActorId,
    now: u64,
    auction_id: u64,
    amount: U256,
)
    requires
        s.wf(),
        s.bid_check(caller, now, auction_id, amount) is Ok,
    ensures
        owed(s.with_lock(auction_id)) + due(
            s.with_lock(auction_id),
            Pending::Bid { auction_id, bidder: caller, amount, now },
        ) == owed(s),
{
    lemma_bids_at_rest_differ_in_one(s, s.with_lock(auction_id), auction_id);
}

/// Beginning a cancellation turns the highest bid of the auction into a
/// refund: what is owed stays, and nothing is due to the cancellation.
pub proof fn law_cancel_begin_keeps_custody(s: StorageView, caller: ActorId, now: u64, auction_id: u64)
    requires
        s.wf(),
        s.cancel_check(caller, now, auction_id) is Ok,
    ensures
        owed(s.after_cancel_begin(auction_id)) + due(
            s.after_cancel_begin(auction_id),
            Pending::CancelAuction { auction_id },
        ) == owed(s),
{
    let t = s.after_cancel_begin(auction_id);
    lemma_bids_at_rest_differ_in_one(s, t, auction_id);
    let auction = s.auctions[auction_id];
    match auction.highest_bidder {
        Some(bidder) => {
            lemma_total_after_queue(s.pending_refunds, bidder, auction.highest_bid);
        },
        None => {},
    }
}

/// Beginning a finalization moves the winning bid from what is owed to what
/// is due to the finalization.
pub proof fn law_finalize_begin_keeps_custody(
    s: StorageView,
    caller: ActorId,
    now: u64,
    auction_id: u64,
)
    requires
        s.wf(),
        s.finalize_check(now, auction_id) is Ok,
    ensures
        owed(s.after_finalize_begin(auction_id)) + due(
            s.after_finalize_begin(auction_id),
            Pending::Finalize {
                auction_id,
                finalizer: caller,
                reward_bps: s.finalizer_reward_bps,
                stage: crate::marketplace::MarketplaceService::first_finalize_stage(s, auction_id),
            },
        ) == owed(s),
{
    let t = s.after_finalize_begin(auction_id);
    assert forall|other: u64| other != auction_id implies (#[trigger] t.auctions.dom().contains(
        other,
    )) == s.auctions.dom().contains(other) by {}
    assert forall|other: u64| other != auction_id implies (#[trigger] bid_at_rest(t, other))
        == bid_at_rest(s, other) by {}
    lemma_bids_at_rest_differ_in_one(s, t, auction_id);
    lemma_finalizer_reward_bound(
        s.auctions[auction_id].highest_bid.value(),
        s.finalizer_reward_bps as nat,
    );
}

/// Beginning the claim of a refund or of a payout moves the claimed amount
/// from what is owed to what is due to the claim.
pub proof fn law_claim_begin_keeps_custody(s: StorageView, caller: ActorId)
    requires
        s.wf(),
    ensures
        s.pending_refund(caller) != 0 ==> owed(
            StorageView { pending_refunds: s.pending_refunds.remove(caller), ..s },
        ) + s.pending_refund(caller) == owed(s),
        s.pending_payout(caller) != 0 ==> owed(
            StorageView { pending_payouts: s.pending_payouts.remove(caller), ..s },
        ) + s.pending_payout(caller) == owed(s),
{
    if s.pending_refund(caller) != 0 {
        let t = StorageView { pending_refunds: s.pending_refunds.remove(caller), ..s };
        assert(bids_at_rest(t) =~= bids_at_rest(s));
        assert(t.pending_refunds == with_amount(s.pending_refunds, caller, 0));
        lemma_total_with_amount(s.pending_refunds, caller, 0);
    }
    if s.pending_payout(caller) != 0 {
        let t = StorageView { pending_payouts: s.pending_payouts.remove(caller), ..s };
        assert(bids_at_rest(t) =~= bids_at_rest(s));
        assert(t.pending_payouts == with_amount(s.pending_payouts, caller, 0));
        lemma_total_with_amount(s.pending_payouts, caller, 0);
    }
}

/// The accounting of one step: what is owed and due after it, and what was
/// paid out, is no more than what was owed and due before it, and what came
/// in.
pub open spec fn step_accounts(s: StorageView, pending: Pending, reply: Reply) -> bool {
    owed(s.resume_state(pending, reply)) + due_after(
        s.resume_state(pending, reply),
        s.resume_result(pending, reply),
    ) + paid(s, pending, reply) <= owed(s) + due(s, pending) + received(pending, reply)
}

proof fn lemma_create_step_accounts(s: StorageView, pending: Pending, reply: Reply)
    requires
        s.wf(),
        pending is CreateAuction,
    ensures
        step_accounts(s, pending, reply),
{
    let t = s.resume_state(pending, reply);
    if s.resume_result(pending, reply) is Ok {
        lemma_bids_at_rest_differ_in_one(s, t, s.next_auction_id);
        U256::lemma_value_from_nat(0);
    }
}

proof fn lemma_cancel_step_accounts(s: StorageView, pending: Pending, reply: Reply)
    requires
        s.wf(),
        s.in_flight(pending),
        pending is CancelAuction,
    ensures
        step_accounts(s, pending, reply),
{
    let t = s.resume_state(pending, reply);
    lemma_bids_at_rest_differ_in_one(s, t, pending->CancelAuction_auction_id);
}

#[verifier::rlimit(50)]
proof fn lemma_bid_step_accounts(s: StorageView, pending: Pending, reply: Reply)
    requires
        s.wf(),
        s.in_flight(pending),
        pending is Bid,
    ensures
        step_accounts(s, pending, reply),
{
    let t = s.resume_state(pending, reply);
    let auction_id = pending->Bid_auction_id;
    let now = pending->Bid_now;
    let auction = s.auctions[auction_id];
    if s.bid_reply_check(auction_id, now, reply) is Ok {
        lemma_bids_at_rest_differ_in_one(s, t, auction_id);
        match auction.highest_bidder {
            Some(prev) => {
                lemma_total_after_queue(s.pending_refunds, prev, auction.highest_bid);
            },
            None => {},
        }
    } else if reply != Reply::Accepted {
        lemma_bids_at_rest_differ_in_one(s, t, auction_id);
    }
}

proof fn lemma_claim_step_accounts(s: StorageView, pending: Pending, reply: Reply)
    requires
        s.wf(),
        s.in_flight(pending),
        pending is ClaimRefund || pending is ClaimPayout || pending is ClaimNft,
    ensures
        step_accounts(s, pending, reply),
{
    let t = s.resume_state(pending, reply);
    assert(bids_at_rest(t) =~= bids_at_rest(s));
    if reply != Reply::Accepted {
        match pending {
            Pending::ClaimRefund { caller, amount } => {
                lemma_total_after_putting_back(s.pending_refunds, caller, amount);
            },
            Pending::ClaimPayout { caller, amount } => {
                lemma_total_after_putting_back(s.pending_payouts, caller, amount);
            },
            _ => {},
        }
    }
}

#[verifier::rlimit(50)]
proof fn lemma_finalize_step_accounts(s: StorageView, pending: Pending, reply: Reply)
    requires
        s.wf(),
        s.in_flight(pending),
        pending is Finalize,
    ensures
        step_accounts(s, pending, reply),
{
    let t = s.resume_state(pending, reply);
    let auction_id = pending->Finalize_auction_id;
    let finalizer = pending->Finalize_finalizer;
    let reward_bps = pending->Finalize_reward_bps;
    let stage = pending->Finalize_stage;
    let auction = s.auctions[auction_id];
    let taken = s.after_finalize_reply(auction_id, finalizer, reward_bps, stage, reply);
    let payment = auction.payment(finalizer, reward_bps, stage);
    lemma_finalizer_reward_bound(auction.highest_bid.value(), reward_bps as nat);
    auction.highest_bid.lemma_value_bound();
    U256::lemma_value_from_nat(payment.1);
    if s.finalize_reply_check(auction_id, finalizer, reward_bps, stage, reply) is Ok {
        assert(taken.auctions == s.auctions);
        assert(taken.locked_auctions == s.locked_auctions);
        assert(bids_at_rest(taken) =~= bids_at_rest(s));
        if reply != Reply::Accepted && (stage == FinalizeStage::PaySeller || stage
            == FinalizeStage::PayFinalizer) {
            lemma_total_after_queue(s.pending_payouts, payment.0, U256::from_nat(payment.1));
        }
        assert(owed(taken) + paid(s, pending, reply) + (if stage == FinalizeStage::PaySeller
            || stage == FinalizeStage::PayFinalizer {
            0
        } else {
            payment.1
        }) <= owed(s) + payment.1);
        if auction.stage_after(reward_bps, stage) is None {
            lemma_bids_at_rest_differ_in_one(taken, t, auction_id);
            assert(owed(t) == owed(taken));
        } else {
            assert(t == taken);
        }
    }
}

/// Every step of every operation accounts for what it moves. After the
/// step, what the engine owes, what is due to the operation that is still
/// pending, and what the token paid out on the engine's behalf are together
/// no more than what was owed and due before, plus what the token took in.
pub proof fn law_step_keeps_custody(s: StorageView, pending: Pending, reply: Reply)
    requires
        s.wf(),
        s.in_flight(pending),
    ensures
        owed(s.resume_state(pending, reply)) + due_after(
            s.resume_state(pending, reply),
            s.resume_result(pending, reply),
        ) + paid(s, pending, reply) <= owed(s) + due(s, pending) + received(pending, reply),
{
    match pending {
        Pending::CreateAuction { .. } => lemma_create_step_accounts(s, pending, reply),
        Pending::CancelAuction { .. } => lemma_cancel_step_accounts(s, pending, reply),
        Pending::Bid { .. } => lemma_bid_step_accounts(s, pending, reply),
        Pending::Finalize { .. } => lemma_finalize_step_accounts(s, pending, reply),
        _ => lemma_claim_step_accounts(s, pending, reply),
    }
}

/// A step leaves what is due to the other operations in flight as it was.
/// An operation that holds another auction locked, or none, stays in
/// flight through the step, with the same amount due.
pub proof fn law_step_leaves_others_alone(
    s: StorageView,
    pending: Pending,
    reply: Reply,
    other: Pending,
)
    requires
        s.wf(),
        s.in_flight(pending),
        s.in_flight(other),
        locked_by(other) is None || locked_by(other) != locked_by(pending),
    ensures
        s.resume_state(pending, reply).in_flight(other),
        due(s.resume_state(pending, reply), other) == due(s, other),
{
    let t = s.resume_state(pending, reply);
    match pending {
        Pending::Finalize { auction_id, finalizer, reward_bps, stage } => {
            let taken = s.after_finalize_reply(auction_id, finalizer, reward_bps, stage, reply);
            assert(taken.auctions == s.auctions);
            assert(taken.locked_auctions == s.locked_auctions);
        },
        _ => {},
    }
}

/// Beginning an operation leaves what is due to the operations in flight
/// as it was. An operation begins only on an auction that is not locked, so
/// whatever is in flight stays in flight, with the same amount due.
pub proof fn law_begin_leaves_others_alone(
    s: StorageView,
    caller: ActorId,
    now: u64,
    auction_id: u64,
    amount: U256,
    other: Pending,
)
    requires
        s.wf(),
        s.in_flight(other),
    ensures
        s.bid_check(caller, now, auction_id, amount) is Ok ==> s.with_lock(auction_id).in_flight(
            other,
        ) && due(s.with_lock(auction_id), other) == due(s, other),
        s.cancel_check(caller, now, auction_id) is Ok ==> s.after_cancel_begin(
            auction_id,
        ).in_flight(other) && due(s.after_cancel_begin(auction_id), other) == due(s, other),
        s.finalize_check(now, auction_id) is Ok ==> s.after_finalize_begin(auction_id).in_flight(
            other,
        ) && due(s.after_finalize_begin(auction_id), other) == due(s, other),
        (StorageView { pending_refunds: s.pending_refunds.remove(caller), ..s }).in_flight(other)
            && due(StorageView { pending_refunds: s.pending_refunds.remove(caller), ..s }, other)
            == due(s, other),
        (StorageView { pending_payouts: s.pending_payouts.remove(caller), ..s }).in_flight(other)
            && due(StorageView { pending_payouts: s.pending_payouts.remove(caller), ..s }, other)
            == due(s, other),
        (StorageView {
            pending_nft_returns: s.pending_nft_returns.remove(auction_id),
            ..s
        }).in_flight(other) && due(
            StorageView { pending_nft_returns: s.pending_nft_returns.remove(auction_id), ..s },
            other,
        ) == due(s, other),
{
}

/// The transfer of tokens that a pending operation waits for, if it waits
/// for one: from whom, to whom, how much. `engine` is the account of the
/// engine in the token.
pub open spec fn awaited_transfer(s: StorageView, engine: ActorId, pending: Pending) -> Option<
    (ActorId, ActorId, U256),
> {
    match pending {
        Pending::Bid { bidder, amount, .. } => Some((bidder, engine, amount)),
        Pending::ClaimRefund { caller, amount } => Some((engine, caller, amount)),
        Pending::ClaimPayout { caller, amount } => Some((engine, caller, amount)),
        Pending::Finalize { auction_id, finalizer, reward_bps, stage } => {
            if stage == FinalizeStage::PaySeller || stage == FinalizeStage::PayFinalizer {
                let payment = s.auctions[auction_id].payment(finalizer, reward_bps, stage);
                Some((engine, payment.0, U256::from_nat(payment.1)))
            } else {
                None
            }
        },
        _ => None,
    }
}

} // verus!
