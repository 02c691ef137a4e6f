//! The token and the auction engine side by side.
//!
//! The engine keeps the bids it pulled as a balance in the token. This
//! module follows both contracts through everything that can happen to
//! them and proves that the balance of the engine always covers what the
//! engine owes: the highest bids of the auctions at rest, the queued
//! refunds and the queued payouts, and on top of it what is due to the
//! operations in flight.
//!
//! An [`Exchange`] is a snapshot of the two states and of the operations of
//! the engine that wait for a reply. Three kinds of steps change it: an
//! operation of the engine begins ([`Begin`]), an operation in flight is
//! resumed with a reply, and somebody else uses the token ([`TokenStep`]).
//! The replies are taken to be truthful: the token accepts a transfer
//! exactly when it made it.

use crate::actor::ActorId;
use crate::amounts::{sum_values, total_of};
use crate::line_token::Error as TokenError;
use crate::line_token::StorageView as Token;
use crate::marketplace::custody::{
    awaited_transfer, due, law_begin_leaves_others_alone, law_bid_begin_keeps_custody,
    law_cancel_begin_keeps_custody, law_claim_begin_keeps_custody,
    law_finalize_begin_keeps_custody, law_owed_with_nothing_in_flight, law_step_keeps_custody,
    law_step_leaves_others_alone, owed, paid, received,
};
use crate::marketplace::laws::{law_lock_lasts_as_long_as_the_operation, locked_by};
use crate::marketplace::StorageView as Market;
use crate::marketplace::{MarketplaceService, Pending, Reply, Step};
use crate::u256::{u256_modulus, U256};
use vstd::prelude::*;

verus! {

/// The token, the engine, the account of the engine in the token, and the
/// operations of the engine that wait for a reply.
pub struct Exchange {
    pub token: Token,
    pub market: Market,
    pub engine: ActorId,
    pub in_flight: Seq<Pending>,
}

/// An operation of the engine that begins.
pub enum Begin {
    CreateAuction {
        caller: ActorId,
        now: u64,
        nft_program_id: ActorId,
        token_id: u64,
        start_price: U256,
        duration_ms: u64,
        extension_window_ms: u64,
        min_bid_increment: U256,
    },
    CancelAuction { caller: ActorId, now: u64, auction_id: u64 },
    Bid { caller: ActorId, now: u64, auction_id: u64, amount: U256 },
    ClaimRefund { caller: ActorId },
    FinalizeAuction { caller: ActorId, now: u64, auction_id: u64 },
    ClaimPayout { caller: ActorId },
    ClaimNft { caller: ActorId, auction_id: u64 },
}

/// A use of the token by somebody who is not the engine.
pub enum TokenStep {
    Mint { caller: ActorId, to: ActorId, value: U256 },
    Transfer { caller: ActorId, to: ActorId, value: U256 },
    Approve { caller: ActorId, spender: ActorId, value: U256 },
    TransferFrom { caller: ActorId, from: ActorId, to: ActorId, value: U256 },
    Withdraw {
        caller: ActorId,
        now: u64,
        amount: U256,
        withdrawal_id: [u8; 32],
        expiry: u64,
        verdict: Result<(), TokenError>,
    },
}

/// What is due to all the operations in `pending` together.
pub open spec fn dues(market: Market, pending: Seq<Pending>) -> nat
    decreases pending.len(),
{
    if pending.len() == 0 {
        0
    } else {
        dues(market, pending.drop_last()) + due(market, pending.last())
    }
}

/// Whether the engine accepts `begin` in the state `market`.
pub open spec fn admits(market: Market, begin: Begin) -> bool {
    match begin {
        Begin::CreateAuction {
            caller,
            now,
            nft_program_id,
            token_id,
            start_price,
            duration_ms,
            extension_window_ms,
            ..
        } => market.create_auction_check(
            caller,
            now,
            nft_program_id,
            token_id,
            start_price,
            duration_ms,
            extension_window_ms,
        ) is Ok,
        Begin::CancelAuction { caller, now, auction_id } => market.cancel_check(
            caller,
            now,
            auction_id,
        ) is Ok,
        Begin::Bid { caller, now, auction_id, amount } => market.bid_check(
            caller,
            now,
            auction_id,
            amount,
        ) is Ok,
        Begin::ClaimRefund { caller } => market.pending_refund(caller) != 0,
        Begin::FinalizeAuction { now, auction_id, .. } => market.finalize_check(now, auction_id)
            is Ok,
        Begin::ClaimPayout { caller } => market.pending_payout(caller) != 0,
        Begin::ClaimNft { caller, auction_id } => market.claim_nft_check(caller, auction_id)
            is Ok,
    }
}

/// The state of the engine after it accepted `begin`.
pub open spec fn begun(market: Market, begin: Begin) -> Market {
    match begin {
        Begin::CreateAuction { .. } => market,
        Begin::CancelAuction { auction_id, .. } => market.after_cancel_begin(auction_id),
        Begin::Bid { auction_id, .. } => market.with_lock(auction_id),
        Begin::ClaimRefund { caller } => Market {
            pending_refunds: market.pending_refunds.remove(caller),
            ..market
        },
        Begin::FinalizeAuction { auction_id, .. } => market.after_finalize_begin(auction_id),
        Begin::ClaimPayout { caller } => Market {
            pending_payouts: market.pending_payouts.remove(caller),
            ..market
        },
        Begin::ClaimNft { auction_id, .. } => Market {
            pending_nft_returns: market.pending_nft_returns.remove(auction_id),
            ..market
        },
    }
}

/// The operation that is pending after the engine accepted `begin`.
pub open spec fn pending_of(market: Market, begin: Begin) -> Pending {
    match begin {
        Begin::CreateAuction {
            caller,
            now,
            nft_program_id,
            token_id,
            start_price,
            duration_ms,
            extension_window_ms,
            min_bid_increment,
        } => Pending::CreateAuction {
            seller: caller,
            nft_program_id,
            token_id,
            start_price,
            end_time_ms: (now + duration_ms) as u64,
            extension_window_ms,
            min_bid_increment,
        },
        Begin::CancelAuction { auction_id, .. } => Pending::CancelAuction { auction_id },
        Begin::Bid { caller, now, auction_id, amount } => Pending::Bid {
            auction_id,
            bidder: caller,
            amount,
            now,
        },
        Begin::ClaimRefund { caller } => Pending::ClaimRefund {
            caller,
            amount: market.pending_refunds[caller],
        },
        Begin::FinalizeAuction { caller, auction_id, .. } => Pending::Finalize {
            auction_id,
            finalizer: caller,
            reward_bps: market.finalizer_reward_bps,
            stage: MarketplaceService::first_finalize_stage(market, auction_id),
        },
        Begin::ClaimPayout { caller } => Pending::ClaimPayout {
            caller,
            amount: market.pending_payouts[caller],
        },
        Begin::ClaimNft { auction_id, .. } => Pending::ClaimNft {
            auction_id,
            recipient: market.pending_nft_returns[auction_id].0,
            token_id: market.pending_nft_returns[auction_id].1,
            nft_program_id: market.pending_nft_returns[auction_id].2,
        },
    }
}

/// Whether the token accepts `step`, made by somebody who is not the
/// engine.
pub open spec fn token_admits(token: Token, engine: ActorId, step: TokenStep) -> bool {
    match step {
        TokenStep::Mint { caller, value, .. } => caller != engine && token.mint_result(
            caller,
            value,
        ) == Ok::<bool, TokenError>(true),
        TokenStep::Transfer { caller, value, .. } => caller != engine && token.transfer_result(
            caller,
            value,
        ) == Ok::<bool, TokenError>(true),
        TokenStep::Approve { caller, .. } => caller != engine,
        TokenStep::TransferFrom { caller, from, value, .. } => caller != engine
            && token.transfer_from_result(caller, from, value) == Ok::<bool, TokenError>(true),
        TokenStep::Withdraw { caller, now, amount, withdrawal_id, expiry, verdict } => caller
            != engine && token.withdraw_result(now, amount, withdrawal_id, expiry, verdict)
            is Ok,
    }
}

/// The token after it accepted `step`.
pub open spec fn token_after(token: Token, step: TokenStep) -> Token {
    match step {
        TokenStep::Mint { to, value, .. } => token.after_mint(to, value),
        TokenStep::Transfer { caller, to, value } => token.after_transfer(caller, to, value),
        TokenStep::Approve { caller, spender, value } => token.after_approve(
            caller,
            spender,
            value.value(),
        ),
        TokenStep::TransferFrom { caller, from, to, value } => token.after_transfer(
            from,
            to,
            value,
        ).after_approve(from, caller, (token.allowance(from, caller) - value.value()) as nat),
        TokenStep::Withdraw { caller, amount, withdrawal_id, .. } => token.after_withdraw(
            caller,
            amount,
            withdrawal_id,
        ),
    }
}

/// The token after the call that `pending` waited for was answered with
/// `reply`: an accepted transfer has moved its amount, and where it was a
/// pull, has spent the allowance of the engine; anything else has changed
/// nothing.
pub open spec fn token_after_call(
    token: Token,
    market: Market,
    engine: ActorId,
    pending: Pending,
    reply: Reply,
) -> Token {
    match awaited_transfer(market, engine, pending) {
        Some((from, to, value)) => if reply != Reply::Accepted {
            token
        } else if from == engine {
            token.after_transfer(from, to, value)
        } else {
            token.after_transfer(from, to, value).after_approve(
                from,
                engine,
                (token.allowance(from, engine) - value.value()) as nat,
            )
        },
        None => token,
    }
}

/// Whether `reply` can be the token's answer to the call that `pending`
/// waited for: the token accepts a transfer only if it can make it.
pub open spec fn truthful(
    token: Token,
    market: Market,
    engine: ActorId,
    pending: Pending,
    reply: Reply,
) -> bool {
    reply == Reply::Accepted ==> match awaited_transfer(market, engine, pending) {
        Some((from, to, value)) => if from == engine {
            token.transfer_result(engine, value) == Ok::<bool, TokenError>(true)
        } else {
            token.transfer_from_result(engine, from, value) == Ok::<bool, TokenError>(true)
        },
        None => true,
    }
}

impl Exchange {
    /// Whether the snapshot hangs together: both states are well-formed,
    /// every operation listed is in flight, no two of them hold the same
    /// lock, no bidder is the engine itself, and the engine has given nobody
    /// an allowance.
    pub open spec fn consistent(self) -> bool {
        &&& self.token.wf()
        &&& self.market.wf()
        &&& forall|i: int|
            0 <= i < self.in_flight.len() ==> self.market.in_flight(#[trigger] self.in_flight[i])
        &&& forall|i: int, j: int|
            0 <= i < self.in_flight.len() && 0 <= j < self.in_flight.len() && i != j
                && locked_by(#[trigger] self.in_flight[i]) is Some ==> locked_by(
                self.in_flight[i],
            ) != locked_by(#[trigger] self.in_flight[j])
        &&& forall|i: int|
            0 <= i < self.in_flight.len() ==> ((#[trigger] self.in_flight[i]) matches Pending::Bid {
                bidder,
                ..
            } ==> bidder != self.engine)
        &&& forall|spender: ActorId| #[trigger]
            self.token.allowance(self.engine, spender) == 0
    }

    /// Whether the balance of the engine covers what the engine owes and
    /// what is due to the operations in flight.
    pub open spec fn covered(self) -> bool {
        self.token.balance_of(self.engine) >= owed(self.market) + dues(
            self.market,
            self.in_flight,
        )
    }

    /// The snapshot after the engine accepted `begin`.
    pub open spec fn after_begin(self, begin: Begin) -> Exchange {
        Exchange {
            market: begun(self.market, begin),
            in_flight: self.in_flight.push(pending_of(self.market, begin)),
            ..self
        }
    }

    /// The snapshot after the operation at `index` was resumed with `reply`:
    /// the token has made the call or not, the engine has taken the reply
    /// in, and the operation waits for its next call or is off the list.
    pub open spec fn after_resume(self, index: int, reply: Reply) -> Exchange {
        let pending = self.in_flight[index];
        Exchange {
            token: token_after_call(self.token, self.market, self.engine, pending, reply),
            market: self.market.resume_state(pending, reply),
            in_flight: match self.market.resume_result(pending, reply) {
                Ok(Step::Call(_, next)) => self.in_flight.update(index, next),
                _ => self.in_flight.remove(index),
            },
            ..self
        }
    }

    /// The snapshot after the token accepted `step`.
    pub open spec fn after_token_step(self, step: TokenStep) -> Exchange {
        Exchange { token: token_after(self.token, step), ..self }
    }
}

/// Appending an operation adds what is due to it.
pub proof fn lemma_dues_push(market: Market, pending: Seq<Pending>, last: Pending)
    ensures
        dues(market, pending.push(last)) == dues(market, pending) + due(market, last),
{
    assert(pending.push(last).drop_last() =~= pending);
}

/// What is due does not depend on the state where what is due to each
/// operation does not.
pub proof fn lemma_dues_frame(before: Market, after: Market, pending: Seq<Pending>)
    requires
        forall|i: int|
            0 <= i < pending.len() ==> due(after, #[trigger] pending[i]) == due(
                before,
                pending[i],
            ),
    ensures
        dues(after, pending) == dues(before, pending),
    decreases pending.len(),
{
    if pending.len() > 0 {
        let rest = pending.drop_last();
        assert forall|i: int| 0 <= i < rest.len() implies due(after, #[trigger] rest[i]) == due(
            before,
            rest[i],
        ) by {
            assert(rest[i] == pending[i]);
        }
        lemma_dues_frame(before, after, rest);
        assert(pending.last() == pending[pending.len() - 1]);
    }
}

/// Any operation can be split off what is due.
pub proof fn lemma_dues_split(market: Market, pending: Seq<Pending>, index: int)
    requires
        0 <= index < pending.len(),
    ensures
        dues(market, pending) == dues(market, pending.remove(index)) + due(
            market,
            pending[index],
        ),
    decreases pending.len(),
{
    if index == pending.len() - 1 {
        assert(pending.remove(index) =~= pending.drop_last());
    } else {
        let rest = pending.drop_last();
        lemma_dues_split(market, rest, index);
        assert(pending.remove(index).drop_last() =~= rest.remove(index));
        assert(pending.remove(index).last() == pending.last());
        assert(rest[index] == pending[index]);
    }
}

/// Replacing an operation replaces what is due to it.
pub proof fn lemma_dues_update(market: Market, pending: Seq<Pending>, index: int, next: Pending)
    requires
        0 <= index < pending.len(),
    ensures
        dues(market, pending.update(index, next)) + due(market, pending[index]) == dues(
            market,
            pending,
        ) + due(market, next),
{
    lemma_dues_split(market, pending, index);
    lemma_dues_split(market, pending.update(index, next), index);
    assert(pending.update(index, next).remove(index) =~= pending.remove(index));
}

/// The engine stays well-formed when an operation begins, and the operation
/// is then in flight.
pub proof fn lemma_begun_is_well_formed(market: Market, begin: Begin)
    requires
        market.wf(),
        admits(market, begin),
    ensures
        begun(market, begin).wf(),
        begun(market, begin).in_flight(pending_of(market, begin)),
{
    let after = begun(market, begin);
    match begin {
        Begin::CancelAuction { auction_id, .. } => {
            let auction = market.auctions[auction_id];
            match auction.highest_bidder {
                Some(bidder) => {
                    if auction.highest_bid.value() != 0 {
                        crate::amounts::lemma_total_with_amount(
                            market.pending_refunds,
                            bidder,
                            crate::amounts::amount_of(market.pending_refunds, bidder)
                                + auction.highest_bid.value(),
                        );
                    }
                },
                None => {},
            }
        },
        _ => {},
    }
}

proof fn lemma_resumed_create_is_well_formed(market: Market, pending: Pending, reply: Reply)
    requires
        market.wf(),
        pending is CreateAuction,
    ensures
        market.resume_state(pending, reply).wf(),
{
    U256::lemma_value_from_nat(0);
}

proof fn lemma_resumed_cancel_is_well_formed(market: Market, pending: Pending, reply: Reply)
    requires
        market.wf(),
        market.in_flight(pending),
        pending is CancelAuction,
    ensures
        market.resume_state(pending, reply).wf(),
{
}

proof fn lemma_resumed_bid_is_well_formed(market: Market, pending: Pending, reply: Reply)
    requires
        market.wf(),
        market.in_flight(pending),
        pending is Bid,
    ensures
        market.resume_state(pending, reply).wf(),
{
    let auction_id = pending->Bid_auction_id;
    let auction = market.auctions[auction_id];
    match auction.highest_bidder {
        Some(prev) => {
            if auction.highest_bid.value() != 0 && crate::marketplace::funcs::queue_result(
                market.pending_refunds,
                prev,
                auction.highest_bid,
            ) is Ok {
                crate::amounts::lemma_total_with_amount(
                    market.pending_refunds,
                    prev,
                    crate::amounts::amount_of(market.pending_refunds, prev)
                        + auction.highest_bid.value(),
                );
            }
        },
        None => {},
    }
}

proof fn lemma_resumed_claim_is_well_formed(market: Market, pending: Pending, reply: Reply)
    requires
        market.wf(),
        market.in_flight(pending),
        pending is ClaimRefund || pending is ClaimPayout || pending is ClaimNft,
    ensures
        market.resume_state(pending, reply).wf(),
{
}

proof fn lemma_finalize_reply_taken_is_well_formed(
    market: Market,
    auction_id: u64,
    finalizer: ActorId,
    reward_bps: u32,
    stage: crate::marketplace::FinalizeStage,
    reply: Reply,
)
    requires
        market.wf(),
        market.finalizing(auction_id, reward_bps, stage),
        market.finalize_reply_check(auction_id, finalizer, reward_bps, stage, reply) is Ok,
    ensures
        market.after_finalize_reply(auction_id, finalizer, reward_bps, stage, reply).wf(),
        market.after_finalize_reply(auction_id, finalizer, reward_bps, stage, reply).auctions
            == market.auctions,
        market.after_finalize_reply(
            auction_id,
            finalizer,
            reward_bps,
            stage,
            reply,
        ).token_to_auction == market.token_to_auction,
        market.after_finalize_reply(
            auction_id,
            finalizer,
            reward_bps,
            stage,
            reply,
        ).locked_auctions == market.locked_auctions,
{
    let auction = market.auctions[auction_id];
    let payment = auction.payment(finalizer, reward_bps, stage);
    crate::marketplace::funcs::lemma_finalizer_reward_bound(
        auction.highest_bid.value(),
        reward_bps as nat,
    );
    auction.highest_bid.lemma_value_bound();
    U256::lemma_value_from_nat(payment.1);
    if payment.1 != 0 && crate::amounts::amount_of(market.pending_payouts, payment.0) + payment.1
        < u256_modulus() {
        crate::amounts::lemma_total_with_amount(
            market.pending_payouts,
            payment.0,
            crate::amounts::amount_of(market.pending_payouts, payment.0) + payment.1,
        );
    }
}

proof fn lemma_resumed_finalize_is_well_formed(market: Market, pending: Pending, reply: Reply)
    requires
        market.wf(),
        market.in_flight(pending),
        pending is Finalize,
    ensures
        market.resume_state(pending, reply).wf(),
{
    let auction_id = pending->Finalize_auction_id;
    let finalizer = pending->Finalize_finalizer;
    let reward_bps = pending->Finalize_reward_bps;
    let stage = pending->Finalize_stage;
    if market.finalize_reply_check(auction_id, finalizer, reward_bps, stage, reply) is Ok {
        lemma_finalize_reply_taken_is_well_formed(
            market,
            auction_id,
            finalizer,
            reward_bps,
            stage,
            reply,
        );
    }
}

/// The engine stays well-formed when an operation in flight is resumed.
pub proof fn lemma_resumed_is_well_formed(market: Market, pending: Pending, reply: Reply)
    requires
        market.wf(),
        market.in_flight(pending),
    ensures
        market.resume_state(pending, reply).wf(),
{
    match pending {
        Pending::CreateAuction { .. } => lemma_resumed_create_is_well_formed(
            market,
            pending,
            reply,
        ),
        Pending::CancelAuction { .. } => lemma_resumed_cancel_is_well_formed(
            market,
            pending,
            reply,
        ),
        Pending::Bid { .. } => lemma_resumed_bid_is_well_formed(market, pending, reply),
        Pending::Finalize { .. } => lemma_resumed_finalize_is_well_formed(market, pending, reply),
        _ => lemma_resumed_claim_is_well_formed(market, pending, reply),
    }
}

/// What the engine owes and what is due to a new operation together are
/// what the engine owed before the operation began.
proof fn lemma_begin_keeps_custody(market: Market, begin: Begin)
    requires
        market.wf(),
        admits(market, begin),
    ensures
        owed(begun(market, begin)) + due(begun(market, begin), pending_of(market, begin)) == owed(
            market,
        ),
{
    let after = begun(market, begin);
    match begin {
        Begin::CreateAuction { .. } => {},
        Begin::CancelAuction { caller, now, auction_id } => {
            law_cancel_begin_keeps_custody(market, caller, now, auction_id);
        },
        Begin::Bid { caller, now, auction_id, amount } => {
            law_bid_begin_keeps_custody(market, caller, now, auction_id, amount);
        },
        Begin::ClaimRefund { caller } => {
            law_claim_begin_keeps_custody(market, caller);
        },
        Begin::FinalizeAuction { caller, now, auction_id } => {
            law_finalize_begin_keeps_custody(market, caller, now, auction_id);
        },
        Begin::ClaimPayout { caller } => {
            law_claim_begin_keeps_custody(market, caller);
        },
        Begin::ClaimNft { .. } => {
            assert(crate::marketplace::custody::bids_at_rest(after)
                =~= crate::marketplace::custody::bids_at_rest(market));
        },
    }
}

/// An operation that begins leaves every operation in flight in flight,
/// with the same amount due, and locks no auction that one of them holds.
proof fn lemma_begin_leaves_others_alone(market: Market, begin: Begin, other: Pending)
    requires
        market.wf(),
        admits(market, begin),
        market.in_flight(other),
    ensures
        begun(market, begin).in_flight(other),
        due(begun(market, begin), other) == due(market, other),
        locked_by(other) is Some ==> locked_by(other) != locked_by(pending_of(market, begin)),
{
    let zero = U256::from_nat(0);
    match begin {
        Begin::CreateAuction { caller, now, .. } => {},
        Begin::CancelAuction { caller, now, auction_id } => {
            law_begin_leaves_others_alone(market, caller, now, auction_id, zero, other);
        },
        Begin::Bid { caller, now, auction_id, amount } => {
            law_begin_leaves_others_alone(market, caller, now, auction_id, amount, other);
        },
        Begin::ClaimRefund { caller } => {
            law_begin_leaves_others_alone(market, caller, 0, 0, zero, other);
        },
        Begin::FinalizeAuction { caller, now, auction_id } => {
            law_begin_leaves_others_alone(market, caller, now, auction_id, zero, other);
        },
        Begin::ClaimPayout { caller } => {
            law_begin_leaves_others_alone(market, caller, 0, 0, zero, other);
        },
        Begin::ClaimNft { caller, auction_id } => {
            law_begin_leaves_others_alone(market, caller, 0, auction_id, zero, other);
        },
    }
}

/// A covered engine stays covered when one of its operations begins.
pub proof fn law_begin_keeps_the_engine_covered(x: Exchange, begin: Begin)
    requires
        x.consistent(),
        x.covered(),
        admits(x.market, begin),
        begin matches Begin::Bid { caller, .. } ==> caller != x.engine,
    ensures
        x.after_begin(begin).consistent(),
        x.after_begin(begin).covered(),
{
    let after = x.after_begin(begin);
    let pending = pending_of(x.market, begin);
    lemma_begun_is_well_formed(x.market, begin);
    lemma_begin_keeps_custody(x.market, begin);
    assert forall|i: int| 0 <= i < x.in_flight.len() implies after.market.in_flight(
        #[trigger] x.in_flight[i],
    ) && due(after.market, x.in_flight[i]) == due(x.market, x.in_flight[i]) && (locked_by(
        x.in_flight[i],
    ) is Some ==> locked_by(x.in_flight[i]) != locked_by(pending)) by {
        lemma_begin_leaves_others_alone(x.market, begin, x.in_flight[i]);
    }
    lemma_dues_frame(x.market, after.market, x.in_flight);
    lemma_dues_push(after.market, x.in_flight, pending);
    let n = x.in_flight.len() as int;
    assert forall|i: int| 0 <= i < after.in_flight.len() implies after.market.in_flight(
        #[trigger] after.in_flight[i],
    ) by {
        if i < n {
            assert(after.in_flight[i] == x.in_flight[i]);
        }
    }
    assert forall|i: int, j: int|
        0 <= i < after.in_flight.len() && 0 <= j < after.in_flight.len() && i != j && locked_by(
            #[trigger] after.in_flight[i],
        ) is Some implies locked_by(after.in_flight[i]) != locked_by(
        #[trigger] after.in_flight[j],
    ) by {
        if i < n {
            assert(after.in_flight[i] == x.in_flight[i]);
        }
        if j < n {
            assert(after.in_flight[j] == x.in_flight[j]);
        }
    }
    assert forall|i: int| 0 <= i < after.in_flight.len() implies ((
        #[trigger] after.in_flight[i]) matches Pending::Bid { bidder, .. } ==> bidder
        != after.engine) by {
        if i < n {
            assert(after.in_flight[i] == x.in_flight[i]);
        }
    }
}

/// What the token does on a call of the engine: it stays well-formed, the
/// engine still has given nobody an allowance, and the balance of the engine
/// has changed by what came in and what was paid out, or by less where the
/// engine paid itself.
proof fn lemma_token_after_call(
    token: Token,
    market: Market,
    engine: ActorId,
    pending: Pending,
    reply: Reply,
)
    requires
        token.wf(),
        market.wf(),
        market.in_flight(pending),
        truthful(token, market, engine, pending, reply),
        pending matches Pending::Bid { bidder, .. } ==> bidder != engine,
        forall|spender: ActorId| #[trigger] token.allowance(engine, spender) == 0,
    ensures
        token_after_call(token, market, engine, pending, reply).wf(),
        forall|spender: ActorId| #[trigger]
            token_after_call(token, market, engine, pending, reply).allowance(engine, spender)
                == 0,
        token_after_call(token, market, engine, pending, reply).balance_of(engine) + paid(
            market,
            pending,
            reply,
        ) >= token.balance_of(engine) + received(pending, reply),
{
    let after = token_after_call(token, market, engine, pending, reply);
    match awaited_transfer(market, engine, pending) {
        Some((from, to, value)) => {
            if reply == Reply::Accepted {
                match pending {
                    Pending::Finalize { auction_id, finalizer, reward_bps, stage } => {
                        let auction = market.auctions[auction_id];
                        crate::marketplace::funcs::lemma_finalizer_reward_bound(
                            auction.highest_bid.value(),
                            reward_bps as nat,
                        );
                        auction.highest_bid.lemma_value_bound();
                        U256::lemma_value_from_nat(
                            auction.payment(finalizer, reward_bps, stage).1,
                        );
                    },
                    _ => {},
                }
                token.lemma_after_transfer(from, to, value);
                if from != engine {
                    crate::line_token::laws::law_transfer_from_spends_allowance(
                        token,
                        engine,
                        from,
                        to,
                        value,
                    );
                    assert forall|spender: ActorId| #[trigger]
                        after.allowance(engine, spender) == 0 by {
                        assert(token.allowance(engine, spender) == 0);
                    }
                } else {
                    assert forall|spender: ActorId| #[trigger]
                        after.allowance(engine, spender) == 0 by {
                        assert(token.allowance(engine, spender) == 0);
                    }
                }
            }
        },
        None => {},
    }
}

/// A covered engine stays covered when one of its operations is resumed
/// with a truthful reply.
#[verifier::rlimit(50)]
pub proof fn law_resume_keeps_the_engine_covered(x: Exchange, index: int, reply: Reply)
    requires
        x.consistent(),
        x.covered(),
        0 <= index < x.in_flight.len(),
        truthful(x.token, x.market, x.engine, x.in_flight[index], reply),
    ensures
        x.after_resume(index, reply).consistent(),
        x.after_resume(index, reply).covered(),
{
    let after = x.after_resume(index, reply);
    let pending = x.in_flight[index];
    let result = x.market.resume_result(pending, reply);
    let others = x.in_flight.remove(index);
    lemma_resumed_is_well_formed(x.market, pending, reply);
    lemma_token_after_call(x.token, x.market, x.engine, pending, reply);
    law_step_keeps_custody(x.market, pending, reply);
    law_lock_lasts_as_long_as_the_operation(x.market, pending, reply);
    assert forall|i: int| 0 <= i < others.len() implies after.market.in_flight(
        #[trigger] others[i],
    ) && due(after.market, others[i]) == due(x.market, others[i]) && (locked_by(others[i])
        is Some ==> locked_by(others[i]) != locked_by(pending)) && (others[i] matches Pending::Bid {
        bidder,
        ..
    } ==> bidder != x.engine) by {
        let j = if i < index {
            i
        } else {
            i + 1
        };
        assert(others[i] == x.in_flight[j]);
        law_step_leaves_others_alone(x.market, pending, reply, x.in_flight[j]);
    }
    lemma_dues_frame(x.market, after.market, others);
    lemma_dues_split(x.market, x.in_flight, index);
    match result {
        Ok(Step::Call(_, next)) => {
            lemma_dues_split(after.market, after.in_flight, index);
            assert(after.in_flight.remove(index) =~= others);
            assert(next is Finalize);
            assert forall|i: int| 0 <= i < after.in_flight.len() implies (after.in_flight[i]
                == next && i == index) || (i != index && exists|k: int|
                0 <= k < others.len() && others[k] == #[trigger] after.in_flight[i]) by {
                if i != index {
                    let k = if i < index {
                        i
                    } else {
                        i - 1
                    };
                    assert(others[k] == after.in_flight[i]);
                }
            }
        },
        _ => {
            assert(after.in_flight =~= others);
        },
    }
    assert forall|i: int, j: int|
        0 <= i < after.in_flight.len() && 0 <= j < after.in_flight.len() && i != j && locked_by(
            #[trigger] after.in_flight[i],
        ) is Some implies locked_by(after.in_flight[i]) != locked_by(
        #[trigger] after.in_flight[j],
    ) by {
        lemma_locks_stay_apart(x, index, reply, i, j);
    }
}

/// After a resumption two operations in flight still hold different locks.
proof fn lemma_locks_stay_apart(x: Exchange, index: int, reply: Reply, i: int, j: int)
    requires
        x.consistent(),
        0 <= index < x.in_flight.len(),
        0 <= i < x.after_resume(index, reply).in_flight.len(),
        0 <= j < x.after_resume(index, reply).in_flight.len(),
        i != j,
        locked_by(x.after_resume(index, reply).in_flight[i]) is Some,
    ensures
        locked_by(x.after_resume(index, reply).in_flight[i]) != locked_by(
            x.after_resume(index, reply).in_flight[j],
        ),
{
    let after = x.after_resume(index, reply);
    let pending = x.in_flight[index];
    law_lock_lasts_as_long_as_the_operation(x.market, pending, reply);
    match x.market.resume_result(pending, reply) {
        Ok(Step::Call(_, next)) => {
            // The list keeps its places; the resumed operation keeps its lock.
            if i != index {
                assert(after.in_flight[i] == x.in_flight[i]);
            }
            if j != index {
                assert(after.in_flight[j] == x.in_flight[j]);
            }
            if i == index {
                assert(locked_by(x.in_flight[index]) is Some);
                assert(locked_by(x.in_flight[index]) != locked_by(x.in_flight[j]));
            }
        },
        _ => {
            let a = if i < index {
                i
            } else {
                i + 1
            };
            let b = if j < index {
                j
            } else {
                j + 1
            };
            assert(after.in_flight[i] == x.in_flight[a]);
            assert(after.in_flight[j] == x.in_flight[b]);
        },
    }
}

/// A covered engine stays covered whatever others do with the token: nobody
/// but the engine can lower the balance of the engine.
pub proof fn law_token_step_keeps_the_engine_covered(x: Exchange, step: TokenStep)
    requires
        x.consistent(),
        x.covered(),
        token_admits(x.token, x.engine, step),
    ensures
        x.after_token_step(step).consistent(),
        x.after_token_step(step).covered(),
        x.after_token_step(step).token.balance_of(x.engine) >= x.token.balance_of(x.engine),
{
    let after = x.after_token_step(step).token;
    match step {
        TokenStep::Mint { caller, to, value } => {
            crate::line_token::laws::law_mint_raises_balance_and_supply(
                x.token,
                caller,
                to,
                value,
            );
        },
        TokenStep::Transfer { caller, to, value } => {
            x.token.lemma_after_transfer(caller, to, value);
        },
        TokenStep::Approve { caller, spender, value } => {
            crate::line_token::laws::law_approve_sets_allowance(x.token, caller, spender, value);
        },
        TokenStep::TransferFrom { caller, from, to, value } => {
            assert(x.token.allowance(x.engine, caller) == 0);
            crate::line_token::laws::law_transfer_from_spends_allowance(
                x.token,
                caller,
                from,
                to,
                value,
            );
            x.token.lemma_after_transfer(from, to, value);
        },
        TokenStep::Withdraw { caller, amount, .. } => {
            x.token.lemma_after_mint(caller, amount);
            crate::amounts::lemma_total_bounds(x.token.balances, caller, caller);
            crate::amounts::lemma_total_with_amount(
                x.token.balances,
                caller,
                x.token.balance_of(caller) + amount.value(),
            );
        },
    }
    assert forall|spender: ActorId| #[trigger] after.allowance(x.engine, spender) == 0 by {
        assert(x.token.allowance(x.engine, spender) == 0);
    }
}

/// Where the engine has no auction, no refund and no payout, it owes
/// nothing: with nothing in flight and no allowance given, it is covered
/// whatever it holds. That is how the engine starts.
pub proof fn law_fresh_engine_is_covered(x: Exchange)
    requires
        x.token.wf(),
        x.market.wf(),
        x.in_flight.len() == 0,
        x.market.auctions =~= Map::empty(),
        x.market.pending_refunds =~= Map::empty(),
        x.market.pending_payouts =~= Map::empty(),
        forall|spender: ActorId| #[trigger] x.token.allowance(x.engine, spender) == 0,
    ensures
        x.consistent(),
        x.covered(),
        owed(x.market) == 0,
{
    assert(crate::marketplace::custody::bids_at_rest(x.market) =~= Map::<u64, nat>::empty());
    crate::amounts::lemma_sum_empty::<u64>();
    crate::amounts::lemma_total_empty::<ActorId>();
}

/// A covered engine holds what it owes: its balance in the token is at
/// least the highest bids of the auctions at rest, the queued refunds and
/// the queued payouts together. While nothing is in flight on any auction,
/// that is the highest bid of every recorded auction, every refund and every
/// payout.
pub proof fn law_engine_holds_what_it_owes(x: Exchange)
    requires
        x.consistent(),
        x.covered(),
    ensures
        x.token.balance_of(x.engine) >= owed(x.market),
        (forall|id: u64| !x.market.locked_auctions.contains(id)) ==> x.token.balance_of(x.engine)
            >= sum_values(
            Map::new(
                |id: u64| x.market.auctions.dom().contains(id),
                |id: u64| x.market.auctions[id].highest_bid.value(),
            ),
        ) + total_of(x.market.pending_refunds) + total_of(x.market.pending_payouts),
{
    if forall|id: u64| !x.market.locked_auctions.contains(id) {
        law_owed_with_nothing_in_flight(x.market);
    }
}

} // verus!
