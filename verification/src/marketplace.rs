//! The auction engine: creation, bidding with anti-snipe extension,
//! cancellation, permissionless finalization, and the queues from which
//! refunds, payouts and undelivered NFTs are claimed.
//!
//! The engine talks to two other contracts, the fungible token and the NFT
//! ledger, and every such call suspends the operation that makes it. An
//! operation is therefore written as a state machine. The function named
//! after the operation validates it, commits what must be committed before
//! the call, and returns a [`Step::Call`]: the call to make and the
//! [`Pending`] operation to resume with the reply. [`MarketplaceService::resume`]
//! takes the reply and returns either the next call or [`Step::Done`].
//! Between the two, other operations may run on the same state; the set of
//! locked auctions keeps them off an auction with an operation in flight.
//!
//! A rejected operation returns its [`Error`] and changes nothing, with one
//! exception that every contract spells out: a reply that reports failure
//! undoes what the operation had committed before the call.

use crate::actor::ActorId;
use crate::amounts::{amount_of, no_zero_entries};
use crate::tables::{ActorSet, AmountTable, AuctionTable, LockSet, NftReturnTable, TokenIndex};
use crate::u256::{u256_modulus, U256};
use vstd::prelude::*;

pub mod clients;
pub mod custody;
pub mod funcs;
pub mod laws;

verus! {

/// Why an operation of the auction engine was rejected.
#[derive(Clone, Copy, Debug, PartialEq, Eq, Structural)]
pub enum Error {
    /// The caller is not an admin.
    NotAdmin,
    /// The duration is below the minimum.
    DurationTooShort,
    /// The duration is above the maximum.
    DurationTooLong,
    /// The start price is zero.
    ZeroStartPrice,
    /// The token is on auction already.
    AuctionAlreadyExists,
    /// The end time does not fit in 64 bits.
    EndTimeOverflow,
    /// The extension window is above the maximum.
    ExtensionWindowTooLong,
    /// No further auction identifier is left.
    AuctionIdOverflow,
    /// The NFT contract answered `false` to the escrow transfer.
    NftEscrowDeclined,
    /// The escrow transfer failed.
    NftEscrowFailed,
    /// There is no such auction.
    AuctionNotFound,
    /// The caller is neither an admin nor the seller.
    NotAdminOrSeller,
    /// The auction has been settled.
    AuctionSettled,
    /// The auction has ended.
    AuctionEnded,
    /// The auction has not ended yet.
    AuctionNotEnded,
    /// Another operation on the auction is in flight.
    AuctionLocked,
    /// A first bid below the start price.
    BidBelowStartPrice,
    /// The highest bid plus the increment does not fit in 256 bits.
    BidOverflow,
    /// A bid below the highest bid plus the increment.
    BidBelowIncrement,
    /// The caller holds the highest bid already.
    SelfOutbid,
    /// The token contract answered `false` when the bid was pulled.
    BidTransferDeclined,
    /// Pulling the bid failed.
    BidTransferFailed,
    /// The caller has no refund to claim.
    NoPendingRefund,
    /// The refund could not be transferred; it stays claimable.
    RefundTransferFailed,
    /// The caller has no payout to claim.
    NoPendingPayout,
    /// The payout could not be transferred; it stays claimable.
    PayoutTransferFailed,
    /// No NFT delivery is pending for the auction.
    NoPendingNft,
    /// The caller is neither the recipient nor an admin.
    NotRecipientOrAdmin,
    /// The NFT could not be transferred; it stays claimable.
    NftTransferFailed,
    /// The last admin cannot be removed.
    LastAdmin,
    /// An admin cannot remove itself.
    CannotRemoveSelf,
    /// The finalizer reward is above the maximum.
    RewardTooHigh,
    /// An amount owed, or the product that the finalizer's reward is
    /// computed from, would leave 256 bits.
    AmountOverflow,
    /// The operation to resume is not in flight in this state.
    NotInFlight,
}

/// One auction.
#[derive(Clone, Copy, Debug, PartialEq, Eq)]
pub struct Auction {
    /// The NFT contract of the token on auction.
    pub nft_program_id: ActorId,
    /// The token on auction.
    pub token_id: u64,
    /// Who receives the proceeds.
    pub seller: ActorId,
    /// The least first bid.
    pub start_price: U256,
    /// The highest bid so far; zero while there is none.
    pub highest_bid: U256,
    /// Who placed the highest bid.
    pub highest_bidder: Option<ActorId>,
    /// When the auction ends, in milliseconds.
    pub end_time_ms: u64,
    /// Whether the auction has been settled.
    pub settled: bool,
    /// A bid placed this close to the end moves the end, in milliseconds.
    pub extension_window_ms: u64,
    /// By how much a bid must exceed the highest bid.
    pub min_bid_increment: U256,
}

/// The shortest auction: one minute.
pub const MIN_AUCTION_DURATION_MS: u64 = 60_000;

/// The longest auction: thirty days.
pub const MAX_AUCTION_DURATION_MS: u64 = 2_592_000_000;

/// The widest extension window: one hour.
pub const MAX_EXTENSION_WINDOW_MS: u64 = 3_600_000;

/// The highest finalizer reward: 1000 basis points, ten percent.
pub const MAX_FINALIZER_REWARD_BPS: u32 = 1000;

/// What the engine emits.
#[derive(Clone, Copy, Debug, PartialEq, Eq)]
pub enum Event {
    /// An auction was created.
    AuctionCreated {
        auction_id: u64,
        nft_program_id: ActorId,
        token_id: u64,
        seller: ActorId,
        start_price: U256,
        end_time_ms: u64,
    },
    /// An auction was cancelled.
    AuctionCancelled { auction_id: u64 },
    /// A bid was placed.
    BidPlaced { auction_id: u64, bidder: ActorId, amount: U256, new_end_time_ms: u64 },
    /// An auction was finalized.
    AuctionFinalized {
        auction_id: u64,
        winner: Option<ActorId>,
        winning_bid: U256,
        seller_payout: U256,
        finalizer_reward: U256,
    },
    /// A refund was queued for an outbid bidder.
    RefundQueued { user: ActorId, amount: U256 },
    /// A refund was claimed.
    RefundClaimed { user: ActorId, amount: U256 },
    /// A payout could not be transferred and was queued.
    PayoutQueued { recipient: ActorId, amount: U256 },
    /// A payout was claimed.
    PayoutClaimed { recipient: ActorId, amount: U256 },
    /// An NFT could not be delivered and was queued.
    NftTransferQueued { auction_id: u64, recipient: ActorId, token_id: u64 },
    /// A queued NFT was claimed.
    NftTransferClaimed { auction_id: u64, recipient: ActorId, token_id: u64 },
    /// An account became an admin.
    AdminAdded { admin: ActorId },
    /// An account stopped being an admin.
    AdminRemoved { admin: ActorId },
    /// The finalizer reward was set.
    FinalizerRewardUpdated { bps: u32 },
}

/// A call to another contract.
#[derive(Clone, Copy, Debug, PartialEq, Eq)]
pub enum Call {
    /// `transfer_from(from, to, token_id)` on the NFT ledger `nft_program_id`.
    NftTransferFrom { nft_program_id: ActorId, from: ActorId, to: ActorId, token_id: u64 },
    /// `transfer(to, value)` on the token `line_program_id`.
    LineTransfer { line_program_id: ActorId, to: ActorId, value: U256 },
    /// `transfer_from(from, to, value)` on the token `line_program_id`.
    LineTransferFrom { line_program_id: ActorId, from: ActorId, to: ActorId, value: U256 },
}

/// How a call to another contract ended.
#[derive(Clone, Copy, Debug, PartialEq, Eq, Structural)]
pub enum Reply {
    /// The contract answered `true`.
    Accepted,
    /// The contract answered `false`.
    Declined,
    /// The call failed, or its answer could not be read.
    Failed,
}

/// Where a finalization stands: the call it waits for.
#[derive(Clone, Copy, Debug, PartialEq, Eq, Structural)]
pub enum FinalizeStage {
    /// The NFT is on its way to the winner.
    DeliverNft,
    /// The seller's payout is on its way.
    PaySeller,
    /// The finalizer's reward is on its way.
    PayFinalizer,
    /// There was no bid; the NFT is on its way back to the seller.
    ReturnNft,
}

/// An operation that waits for the reply to a call.
#[derive(Clone, Copy, Debug, PartialEq, Eq)]
pub enum Pending {
    /// `create_auction` waits for the NFT to be escrowed.
    CreateAuction {
        seller: ActorId,
        nft_program_id: ActorId,
        token_id: u64,
        start_price: U256,
        end_time_ms: u64,
        extension_window_ms: u64,
        min_bid_increment: U256,
    },
    /// `cancel_auction` waits for the NFT to return to the seller.
    CancelAuction { auction_id: u64 },
    /// `bid` waits for the bid to be pulled from the bidder.
    Bid { auction_id: u64, bidder: ActorId, amount: U256, now: u64 },
    /// `claim_refund` waits for the refund to be transferred.
    ClaimRefund { caller: ActorId, amount: U256 },
    /// `finalize_auction` waits for the call of `stage`. The reward rate is
    /// the one in force when the finalization began.
    Finalize { auction_id: u64, finalizer: ActorId, reward_bps: u32, stage: FinalizeStage },
    /// `claim_payout` waits for the payout to be transferred.
    ClaimPayout { caller: ActorId, amount: U256 },
    /// `claim_nft` waits for the NFT to be transferred.
    ClaimNft { auction_id: u64, recipient: ActorId, token_id: u64, nft_program_id: ActorId },
}

/// How an operation ended.
#[derive(Clone, Copy, Debug, PartialEq, Eq, Structural)]
pub enum Completion {
    /// `create_auction` created the auction `auction_id`.
    AuctionCreated { auction_id: u64 },
    /// `cancel_auction` removed the auction.
    AuctionCancelled,
    /// `bid` recorded the bid.
    BidPlaced,
    /// `claim_refund` paid the refund out.
    RefundClaimed,
    /// `finalize_auction` settled and removed the auction.
    AuctionFinalized,
    /// `claim_payout` paid the payout out.
    PayoutClaimed,
    /// `claim_nft` delivered the NFT.
    NftClaimed,
}

/// What the caller of the engine does next.
#[derive(Clone, Copy, Debug, PartialEq, Eq)]
pub enum Step {
    /// Make the call, then `resume` the pending operation with the reply.
    Call(Call, Pending),
    /// The operation is complete.
    Done(Completion),
}

/// The state of the engine.
pub struct Storage {
    /// The auctions that have not been removed.
    pub auctions: AuctionTable,
    /// The auction of each token on auction.
    pub token_to_auction: TokenIndex,
    /// The identifier that the next auction gets.
    pub next_auction_id: u64,
    /// The fungible token that bids are paid in.
    pub line_program_id: ActorId,
    /// Accounts that may create and cancel auctions.
    pub admins: ActorSet,
    /// Auctions with an operation in flight.
    pub locked_auctions: LockSet,
    /// What outbid bidders may claim back.
    pub pending_refunds: AmountTable,
    /// What sellers and finalizers may claim after a failed transfer.
    pub pending_payouts: AmountTable,
    /// NFTs that could not be delivered: (recipient, token, NFT contract).
    pub pending_nft_returns: NftReturnTable,
    /// The finalizer's reward in basis points.
    pub finalizer_reward_bps: u32,
}

/// The state of the engine as mathematical maps and sets.
pub struct StorageView {
    pub auctions: Map<u64, Auction>,
    pub token_to_auction: Map<(ActorId, u64), u64>,
    pub next_auction_id: u64,
    pub line_program_id: ActorId,
    pub admins: Set<ActorId>,
    pub locked_auctions: Set<u64>,
    pub pending_refunds: Map<ActorId, U256>,
    pub pending_payouts: Map<ActorId, U256>,
    pub pending_nft_returns: Map<u64, (ActorId, u64, ActorId)>,
    pub finalizer_reward_bps: u32,
}

impl View for Storage {
    type V = StorageView;

    open spec fn view(&self) -> StorageView {
        StorageView {
            auctions: self.auctions@,
            token_to_auction: self.token_to_auction@,
            next_auction_id: self.next_auction_id,
            line_program_id: self.line_program_id,
            admins: self.admins@,
            locked_auctions: self.locked_auctions@,
            pending_refunds: self.pending_refunds@,
            pending_payouts: self.pending_payouts@,
            pending_nft_returns: self.pending_nft_returns@,
            finalizer_reward_bps: self.finalizer_reward_bps,
        }
    }
}

impl Auction {
    /// The key of the auction in the token index.
    pub open spec fn token(self) -> (ActorId, u64) {
        (self.nft_program_id, self.token_id)
    }

    /// The end time after a bid at `now`: a bid placed with no more than the
    /// extension window left moves the end to one window after `now`.
    pub open spec fn end_after_bid(self, now: u64) -> nat {
        if self.extends_at(now) {
            (now + self.extension_window_ms) as nat
        } else {
            self.end_time_ms as nat
        }
    }

    /// Whether a bid at `now` moves the end of the auction.
    pub open spec fn extends_at(self, now: u64) -> bool {
        (if self.end_time_ms >= now {
            self.end_time_ms - now
        } else {
            0
        }) <= self.extension_window_ms
    }
}

/// Every live auction is in the index, under its token.
pub open spec fn index_covers(auctions: Map<u64, Auction>, index: Map<(ActorId, u64), u64>) -> bool {
    forall|id: u64| #[trigger]
        auctions.dom().contains(id) && !auctions[id].settled ==> index.dom().contains(
            auctions[id].token(),
        ) && index[auctions[id].token()] == id
}

/// Every entry of the index refers to a live auction of its token.
pub open spec fn index_sound(auctions: Map<u64, Auction>, index: Map<(ActorId, u64), u64>) -> bool {
    forall|key: (ActorId, u64)| #[trigger]
        index.dom().contains(key) ==> auctions.dom().contains(index[key])
            && !auctions[index[key]].settled && auctions[index[key]].token() == key
}

/// Every locked auction is recorded.
pub open spec fn locks_sound(auctions: Map<u64, Auction>, locked: Set<u64>) -> bool {
    forall|id: u64| #[trigger] locked.contains(id) ==> auctions.dom().contains(id)
}

/// Every settled auction is locked: it is on its way out.
pub open spec fn settled_are_locked(auctions: Map<u64, Auction>, locked: Set<u64>) -> bool {
    forall|id: u64| #[trigger]
        auctions.dom().contains(id) && auctions[id].settled ==> locked.contains(id)
}

/// Auction identifiers start at 1 and lie below the next identifier.
pub open spec fn ids_in_range(auctions: Map<u64, Auction>, next_auction_id: u64) -> bool {
    forall|id: u64| #[trigger] auctions.dom().contains(id) ==> 1 <= id < next_auction_id
}

/// An auction without bidder has a highest bid of zero.
pub open spec fn bids_sound(auctions: Map<u64, Auction>) -> bool {
    forall|id: u64| #[trigger]
        auctions.dom().contains(id) && auctions[id].highest_bidder is None
            ==> auctions[id].highest_bid.value() == 0
}

impl StorageView {
    /// Whether `auction_id` is live: recorded and not settled.
    pub open spec fn is_live(self, auction_id: u64) -> bool {
        self.auctions.dom().contains(auction_id) && !self.auctions[auction_id].settled
    }

    /// What holds of the engine at every moment, also while operations are
    /// in flight:
    /// - the index holds exactly the live auctions, each under its token;
    /// - a locked auction is recorded, and a settled one is locked;
    /// - auction identifiers start at 1 and lie below the next identifier;
    /// - an auction without bidder has a highest bid of zero;
    /// - the queues of refunds and payouts hold no zero entry;
    /// - there is an admin, and the reward is at most the maximum.
    pub open spec fn wf(self) -> bool {
        &&& index_covers(self.auctions, self.token_to_auction)
        &&& index_sound(self.auctions, self.token_to_auction)
        &&& locks_sound(self.auctions, self.locked_auctions)
        &&& settled_are_locked(self.auctions, self.locked_auctions)
        &&& ids_in_range(self.auctions, self.next_auction_id)
        &&& bids_sound(self.auctions)
        &&& self.auctions.dom().finite()
        &&& self.next_auction_id >= 1
        &&& self.pending_refunds.dom().finite()
        &&& self.pending_payouts.dom().finite()
        &&& no_zero_entries(self.pending_refunds)
        &&& no_zero_entries(self.pending_payouts)
        &&& self.admins.finite()
        &&& self.admins.len() > 0
        &&& self.finalizer_reward_bps <= MAX_FINALIZER_REWARD_BPS
    }

    /// What an admin-only operation returns to `caller`.
    pub open spec fn admin_result(self, caller: ActorId) -> Result<(), Error> {
        if self.admins.contains(caller) {
            Ok(())
        } else {
            Err(Error::NotAdmin)
        }
    }

    /// What `remove_admin` returns: only an admin may remove one, the last
    /// admin stays, and no admin removes itself.
    pub open spec fn remove_admin_result(self, caller: ActorId, admin: ActorId) -> Result<
        bool,
        Error,
    > {
        if !self.admins.contains(caller) {
            Err(Error::NotAdmin)
        } else if self.admins.len() <= 1 {
            Err(Error::LastAdmin)
        } else if admin == caller {
            Err(Error::CannotRemoveSelf)
        } else {
            Ok(true)
        }
    }

    /// What `set_finalizer_reward_bps` returns: only an admin may set the
    /// reward, and to no more than the maximum.
    pub open spec fn set_reward_result(self, caller: ActorId, bps: u32) -> Result<bool, Error> {
        if !self.admins.contains(caller) {
            Err(Error::NotAdmin)
        } else if bps > MAX_FINALIZER_REWARD_BPS {
            Err(Error::RewardTooHigh)
        } else {
            Ok(true)
        }
    }

    /// The refund that `user` may claim.
    pub open spec fn pending_refund(self, user: ActorId) -> nat {
        amount_of(self.pending_refunds, user)
    }

    /// The payout that `user` may claim.
    pub open spec fn pending_payout(self, user: ActorId) -> nat {
        amount_of(self.pending_payouts, user)
    }
}

/// The engine: its state and the events it has emitted.
pub struct MarketplaceService {
    storage: Storage,
    events: Vec<Event>,
}

impl MarketplaceService {
    /// The state of the engine.
    pub closed spec fn state(&self) -> StorageView {
        self.storage@
    }

    /// The events emitted so far, oldest first.
    pub closed spec fn emitted(&self) -> Seq<Event> {
        self.events@
    }

    /// Whether the state is well-formed.
    pub open spec fn wf(&self) -> bool {
        self.state().wf()
    }

    /// A service over an existing state, with an empty event log.
    pub fn new(storage: Storage) -> (r: MarketplaceService)
        ensures
            r.state() == storage@,
            r.emitted() == Seq::<Event>::empty(),
    {
        MarketplaceService { storage, events: Vec::new() }
    }

    /// A fresh engine that is paid in the token `line_program_id`: no
    /// auctions, empty queues, no reward, the first auction identifier 1, and
    /// `deployer` as its only admin.
    pub fn init(deployer: ActorId, line_program_id: ActorId) -> (r: MarketplaceService)
        ensures
            r.wf(),
            r.emitted() == Seq::<Event>::empty(),
            r.state() == (StorageView {
                auctions: Map::empty(),
                token_to_auction: Map::empty(),
                next_auction_id: 1,
                line_program_id,
                admins: Set::empty().insert(deployer),
                locked_auctions: Set::empty(),
                pending_refunds: Map::empty(),
                pending_payouts: Map::empty(),
                pending_nft_returns: Map::empty(),
                finalizer_reward_bps: 0,
            }),
    {
        let mut admins = ActorSet::new();
        admins.insert(deployer);
        let storage = Storage {
            auctions: AuctionTable::new(),
            token_to_auction: TokenIndex::new(),
            next_auction_id: 1,
            line_program_id,
            admins,
            locked_auctions: LockSet::new(),
            pending_refunds: AmountTable::new(),
            pending_payouts: AmountTable::new(),
            pending_nft_returns: NftReturnTable::new(),
            finalizer_reward_bps: 0,
        };
        proof {
            assert(storage@.auctions =~= Map::empty());
            assert(storage@.token_to_auction =~= Map::empty());
            assert(storage@.locked_auctions =~= Set::empty());
            assert(storage@.pending_refunds =~= Map::empty());
            assert(storage@.pending_payouts =~= Map::empty());
            assert(storage@.pending_nft_returns =~= Map::empty());
        }
        MarketplaceService { storage, events: Vec::new() }
    }

    /// The state of the engine.
    pub fn storage(&self) -> (r: &Storage)
        ensures
            r@ == self.state(),
    {
        &self.storage
    }

    /// Hands out the events emitted since the last call and empties the log.
    pub fn take_events(&mut self) -> (r: Vec<Event>)
        ensures
            r@ == old(self).emitted(),
            final(self).emitted() == Seq::<Event>::empty(),
            final(self).state() == old(self).state(),
    {
        let mut out: Vec<Event> = Vec::new();
        std::mem::swap(&mut self.events, &mut out);
        out
    }

    /// Makes `admin` an admin; only an admin may. Emits `AdminAdded`.
    pub fn add_admin(&mut self, caller: ActorId, admin: ActorId) -> (r: Result<bool, Error>)
        requires
            old(self).wf(),
        ensures
            final(self).wf(),
            r == (match old(self).state().admin_result(caller) {
                Ok(_) => Ok::<bool, Error>(true),
                Err(e) => Err(e),
            }),
            r is Ok ==> {
                &&& final(self).state() == (StorageView {
                    admins: old(self).state().admins.insert(admin),
                    ..old(self).state()
                })
                &&& final(self).emitted() == old(self).emitted().push(Event::AdminAdded { admin })
            },
            r is Err ==> {
                &&& final(self).state() == old(self).state()
                &&& final(self).emitted() == old(self).emitted()
            },
    {
        if !self.storage.admins.contains(&caller) {
            return Err(Error::NotAdmin);
        }
        self.storage.admins.insert(admin);
        self.events.push(Event::AdminAdded { admin });
        Ok(true)
    }

    /// Takes the admin role from `admin`. Emits `AdminRemoved`.
    pub fn remove_admin(&mut self, caller: ActorId, admin: ActorId) -> (r: Result<bool, Error>)
        requires
            old(self).wf(),
        ensures
            final(self).wf(),
            r == old(self).state().remove_admin_result(caller, admin),
            r is Ok ==> {
                &&& final(self).state() == (StorageView {
                    admins: old(self).state().admins.remove(admin),
                    ..old(self).state()
                })
                &&& final(self).emitted() == old(self).emitted().push(
                    Event::AdminRemoved { admin },
                )
            },
            r is Err ==> {
                &&& final(self).state() == old(self).state()
                &&& final(self).emitted() == old(self).emitted()
            },
    {
        if !self.storage.admins.contains(&caller) {
            return Err(Error::NotAdmin);
        }
        if self.storage.admins.len() <= 1 {
            return Err(Error::LastAdmin);
        }
        if admin == caller {
            return Err(Error::CannotRemoveSelf);
        }
        proof {
            let admins = self.storage@.admins;
            if admins.contains(admin) {
                assert(admins.remove(admin).len() == admins.len() - 1);
            } else {
                assert(admins.remove(admin) =~= admins);
            }
        }
        self.storage.admins.remove(&admin);
        self.events.push(Event::AdminRemoved { admin });
        Ok(true)
    }

    /// Sets the finalizer's reward to `bps` basis points. Emits
    /// `FinalizerRewardUpdated`.
    pub fn set_finalizer_reward_bps(&mut self, caller: ActorId, bps: u32) -> (r: Result<
        bool,
        Error,
    >)
        requires
            old(self).wf(),
        ensures
            final(self).wf(),
            r == old(self).state().set_reward_result(caller, bps),
            r is Ok ==> {
                &&& final(self).state() == (StorageView {
                    finalizer_reward_bps: bps,
                    ..old(self).state()
                })
                &&& final(self).emitted() == old(self).emitted().push(
                    Event::FinalizerRewardUpdated { bps },
                )
            },
            r is Err ==> {
                &&& final(self).state() == old(self).state()
                &&& final(self).emitted() == old(self).emitted()
            },
    {
        if !self.storage.admins.contains(&caller) {
            return Err(Error::NotAdmin);
        }
        if bps > MAX_FINALIZER_REWARD_BPS {
            return Err(Error::RewardTooHigh);
        }
        self.storage.finalizer_reward_bps = bps;
        self.events.push(Event::FinalizerRewardUpdated { bps });
        Ok(true)
    }

    /// The record of `auction_id`, if the auction has not been removed.
    pub fn get_auction(&self, auction_id: u64) -> (r: Option<Auction>)
        ensures
            r == (if self.state().auctions.dom().contains(auction_id) {
                Some(self.state().auctions[auction_id])
            } else {
                None
            }),
    {
        self.storage.auctions.get(auction_id)
    }

    /// The refund that `user` may claim; zero where none is queued.
    pub fn get_pending_refund(&self, user: ActorId) -> (r: U256)
        ensures
            r.value() == self.state().pending_refund(user),
    {
        match self.storage.pending_refunds.get(&user) {
            Some(v) => v,
            None => U256::zero(),
        }
    }

    /// The payout that `user` may claim; zero where none is queued.
    pub fn get_pending_payout(&self, user: ActorId) -> (r: U256)
        ensures
            r.value() == self.state().pending_payout(user),
    {
        match self.storage.pending_payouts.get(&user) {
            Some(v) => v,
            None => U256::zero(),
        }
    }

    /// The NFT delivery that is pending for `auction_id`, if any: recipient,
    /// token, NFT contract.
    pub fn get_pending_nft(&self, auction_id: u64) -> (r: Option<(ActorId, u64, ActorId)>)
        ensures
            r == (if self.state().pending_nft_returns.dom().contains(auction_id) {
                Some(self.state().pending_nft_returns[auction_id])
            } else {
                None
            }),
    {
        self.storage.pending_nft_returns.get(auction_id)
    }

    /// Whether `account` is an admin.
    pub fn is_admin(&self, account: ActorId) -> (r: bool)
        ensures
            r == self.state().admins.contains(account),
    {
        self.storage.admins.contains(&account)
    }

    /// The admins, each once, in no particular order.
    pub fn admins(&self) -> (r: Vec<ActorId>)
        ensures
            r@.no_duplicates(),
            r@.to_set() == self.state().admins,
    {
        self.storage.admins.to_vec()
    }

    /// The finalizer's reward in basis points.
    pub fn finalizer_reward_bps(&self) -> (r: u32)
        ensures
            r == self.state().finalizer_reward_bps,
    {
        self.storage.finalizer_reward_bps
    }

    /// The fungible token that bids are paid in.
    pub fn line_program_id(&self) -> (r: ActorId)
        ensures
            r == self.state().line_program_id,
    {
        self.storage.line_program_id
    }

    /// The identifier that the next auction gets.
    pub fn next_auction_id(&self) -> (r: u64)
        ensures
            r == self.state().next_auction_id,
    {
        self.storage.next_auction_id
    }
}

impl StorageView {
    /// Whether `create_auction` is accepted. The checks are made in this
    /// order.
    pub open spec fn create_auction_check(
        self,
        caller: ActorId,
        now: u64,
        nft_program_id: ActorId,
        token_id: u64,
        start_price: U256,
        duration_ms: u64,
        extension_window_ms: u64,
    ) -> Result<(), Error> {
        if !self.admins.contains(caller) {
            Err(Error::NotAdmin)
        } else if duration_ms < MIN_AUCTION_DURATION_MS {
            Err(Error::DurationTooShort)
        } else if start_price.value() == 0 {
            Err(Error::ZeroStartPrice)
        } else if self.token_to_auction.dom().contains((nft_program_id, token_id)) {
            Err(Error::AuctionAlreadyExists)
        } else if now + duration_ms > u64::MAX {
            Err(Error::EndTimeOverflow)
        } else if extension_window_ms > MAX_EXTENSION_WINDOW_MS {
            Err(Error::ExtensionWindowTooLong)
        } else if duration_ms > MAX_AUCTION_DURATION_MS {
            Err(Error::DurationTooLong)
        } else {
            Ok(())
        }
    }

    /// Whether the reply to the escrow call lets the auction be recorded.
    pub open spec fn create_auction_reply_check(
        self,
        nft_program_id: ActorId,
        token_id: u64,
        reply: Reply,
    ) -> Result<(), Error> {
        if reply == Reply::Declined {
            Err(Error::NftEscrowDeclined)
        } else if reply == Reply::Failed {
            Err(Error::NftEscrowFailed)
        } else if self.token_to_auction.dom().contains((nft_program_id, token_id)) {
            Err(Error::AuctionAlreadyExists)
        } else if self.next_auction_id == u64::MAX {
            Err(Error::AuctionIdOverflow)
        } else {
            Ok(())
        }
    }

    /// The state after `auction` was recorded under the next identifier.
    pub open spec fn after_create(self, auction: Auction) -> StorageView {
        StorageView {
            auctions: self.auctions.insert(self.next_auction_id, auction),
            token_to_auction: self.token_to_auction.insert(auction.token(), self.next_auction_id),
            next_auction_id: (self.next_auction_id + 1) as u64,
            ..self
        }
    }

    /// Whether `bid` is accepted. The checks are made in this order.
    pub open spec fn bid_check(self, caller: ActorId, now: u64, auction_id: u64, bid_amount: U256)
        -> Result<(), Error> {
        if !self.auctions.dom().contains(auction_id) {
            Err(Error::AuctionNotFound)
        } else {
            let auction = self.auctions[auction_id];
            let amount_check = funcs::validate_bid_result(
                bid_amount,
                auction.start_price,
                auction.highest_bid,
                auction.min_bid_increment,
                auction.highest_bidder is None,
            );
            if auction.settled {
                Err(Error::AuctionSettled)
            } else if now >= auction.end_time_ms {
                Err(Error::AuctionEnded)
            } else if self.locked_auctions.contains(auction_id) {
                Err(Error::AuctionLocked)
            } else if amount_check is Err {
                amount_check
            } else if auction.highest_bidder == Some(caller) {
                Err(Error::SelfOutbid)
            } else if auction.end_after_bid(now) > u64::MAX {
                Err(Error::EndTimeOverflow)
            } else {
                Ok(())
            }
        }
    }

    /// The state with `auction_id` locked.
    pub open spec fn with_lock(self, auction_id: u64) -> StorageView {
        StorageView { locked_auctions: self.locked_auctions.insert(auction_id), ..self }
    }

    /// The state with `auction_id` unlocked.
    pub open spec fn without_lock(self, auction_id: u64) -> StorageView {
        StorageView { locked_auctions: self.locked_auctions.remove(auction_id), ..self }
    }

    /// Whether an operation on the live auction `auction_id` is in flight.
    pub open spec fn holds_lock(self, auction_id: u64) -> bool {
        self.locked_auctions.contains(auction_id) && self.is_live(auction_id)
    }

    /// Whether the reply to the pull of a bid lets the bid be recorded: the
    /// pull must have been accepted, the refund owed to the previous bidder
    /// must fit in 256 bits, and the end time in 64.
    pub open spec fn bid_reply_check(self, auction_id: u64, now: u64, reply: Reply) -> Result<
        (),
        Error,
    > {
        let auction = self.auctions[auction_id];
        if reply == Reply::Declined {
            Err(Error::BidTransferDeclined)
        } else if reply == Reply::Failed {
            Err(Error::BidTransferFailed)
        } else if auction.highest_bidder is Some && funcs::queue_result(
            self.pending_refunds,
            auction.highest_bidder->0,
            auction.highest_bid,
        ) is Err {
            Err(Error::AmountOverflow)
        } else if auction.end_after_bid(now) > u64::MAX {
            Err(Error::EndTimeOverflow)
        } else {
            Ok(())
        }
    }

    /// The refunds after the highest bid of `auction` was queued for its
    /// bidder, if it has one.
    pub open spec fn refunds_with_bid_of(self, auction: Auction) -> Map<ActorId, U256> {
        match auction.highest_bidder {
            Some(bidder) => funcs::queue_after(self.pending_refunds, bidder, auction.highest_bid),
            None => self.pending_refunds,
        }
    }

    /// The state after `bidder` took the lead in `auction_id` with `amount` at
    /// `now`: the previous bid is queued as a refund, the auction records the
    /// new bid and, where the bid came late, a later end, and the lock is
    /// released.
    pub open spec fn after_bid(self, auction_id: u64, bidder: ActorId, amount: U256, now: u64)
        -> StorageView {
        let auction = self.auctions[auction_id];
        StorageView {
            auctions: self.auctions.insert(
                auction_id,
                Auction {
                    highest_bid: amount,
                    highest_bidder: Some(bidder),
                    end_time_ms: auction.end_after_bid(now) as u64,
                    ..auction
                },
            ),
            pending_refunds: self.refunds_with_bid_of(auction),
            locked_auctions: self.locked_auctions.remove(auction_id),
            ..self
        }
    }

    /// The events of a bid: the refund queued for the previous bidder, if
    /// there was one, then the bid.
    pub open spec fn bid_events(self, auction_id: u64, bidder: ActorId, amount: U256, now: u64)
        -> Seq<Event> {
        let auction = self.auctions[auction_id];
        let placed = Event::BidPlaced {
            auction_id,
            bidder,
            amount,
            new_end_time_ms: auction.end_after_bid(now) as u64,
        };
        match auction.highest_bidder {
            Some(prev) => seq![
                Event::RefundQueued { user: prev, amount: auction.highest_bid },
                placed,
            ],
            None => seq![placed],
        }
    }
}

impl MarketplaceService {
    /// Begins the creation of an auction of the token `token_id` of the NFT
    /// contract `nft_program_id`, by the admin `caller`, at time `now`.
    ///
    /// Where `create_auction_check` accepts, nothing is recorded yet: the
    /// step is the call that escrows the token from the caller to the engine
    /// (`program_id`), and the auction is recorded when `resume` gets an
    /// accepting reply.
    pub fn create_auction(
        &mut self,
        caller: ActorId,
        now: u64,
        program_id: ActorId,
        nft_program_id: ActorId,
        token_id: u64,
        start_price: U256,
        duration_ms: u64,
        extension_window_ms: u64,
        min_bid_increment: U256,
    ) -> (r: Result<Step, Error>)
        requires
            old(self).wf(),
        ensures
            final(self).wf(),
            final(self).state() == old(self).state(),
            final(self).emitted() == old(self).emitted(),
            r == (match old(self).state().create_auction_check(
                caller,
                now,
                nft_program_id,
                token_id,
                start_price,
                duration_ms,
                extension_window_ms,
            ) {
                Ok(_) => Ok::<Step, Error>(
                    Step::Call(
                        Call::NftTransferFrom {
                            nft_program_id,
                            from: caller,
                            to: program_id,
                            token_id,
                        },
                        Pending::CreateAuction {
                            seller: caller,
                            nft_program_id,
                            token_id,
                            start_price,
                            end_time_ms: (now + duration_ms) as u64,
                            extension_window_ms,
                            min_bid_increment,
                        },
                    ),
                ),
                Err(e) => Err(e),
            }),
    {
        if !self.storage.admins.contains(&caller) {
            return Err(Error::NotAdmin);
        }
        if duration_ms < MIN_AUCTION_DURATION_MS {
            return Err(Error::DurationTooShort);
        }
        if start_price.is_zero() {
            return Err(Error::ZeroStartPrice);
        }
        if self.storage.token_to_auction.get(&nft_program_id, token_id).is_some() {
            return Err(Error::AuctionAlreadyExists);
        }
        let end_time_ms = match now.checked_add(duration_ms) {
            Some(t) => t,
            None => {
                return Err(Error::EndTimeOverflow);
            },
        };
        if extension_window_ms > MAX_EXTENSION_WINDOW_MS {
            return Err(Error::ExtensionWindowTooLong);
        }
        if duration_ms > MAX_AUCTION_DURATION_MS {
            return Err(Error::DurationTooLong);
        }
        Ok(
            Step::Call(
                Call::NftTransferFrom { nft_program_id, from: caller, to: program_id, token_id },
                Pending::CreateAuction {
                    seller: caller,
                    nft_program_id,
                    token_id,
                    start_price,
                    end_time_ms,
                    extension_window_ms,
                    min_bid_increment,
                },
            ),
        )
    }

    /// Resumes the creation of an auction with the reply to the escrow call.
    ///
    /// Only an accepting reply records the auction: it gets the next
    /// identifier, enters the index under its token, and `AuctionCreated` is
    /// emitted. A token that has meanwhile been put on auction is refused
    /// like a duplicate at the start.
    pub fn create_auction_reply(
        &mut self,
        seller: ActorId,
        nft_program_id: ActorId,
        token_id: u64,
        start_price: U256,
        end_time_ms: u64,
        extension_window_ms: u64,
        min_bid_increment: U256,
        reply: Reply,
    ) -> (r: Result<Step, Error>)
        requires
            old(self).wf(),
        ensures
            final(self).wf(),
            r == (match old(self).state().create_auction_reply_check(
                nft_program_id,
                token_id,
                reply,
            ) {
                Ok(_) => Ok::<Step, Error>(
                    Step::Done(
                        Completion::AuctionCreated {
                            auction_id: old(self).state().next_auction_id,
                        },
                    ),
                ),
                Err(e) => Err(e),
            }),
            r is Ok ==> {
                &&& final(self).state() == old(self).state().after_create(
                    Auction {
                        nft_program_id,
                        token_id,
                        seller,
                        start_price,
                        highest_bid: U256::from_nat(0),
                        highest_bidder: None,
                        end_time_ms,
                        settled: false,
                        extension_window_ms,
                        min_bid_increment,
                    },
                )
                &&& final(self).emitted() == old(self).emitted().push(
                    Event::AuctionCreated {
                        auction_id: old(self).state().next_auction_id,
                        nft_program_id,
                        token_id,
                        seller,
                        start_price,
                        end_time_ms,
                    },
                )
            },
            r is Err ==> {
                &&& final(self).state() == old(self).state()
                &&& final(self).emitted() == old(self).emitted()
            },
    {
        match reply {
            Reply::Accepted => {},
            Reply::Declined => {
                return Err(Error::NftEscrowDeclined);
            },
            Reply::Failed => {
                return Err(Error::NftEscrowFailed);
            },
        }
        if self.storage.token_to_auction.get(&nft_program_id, token_id).is_some() {
            return Err(Error::AuctionAlreadyExists);
        }
        let auction_id = self.storage.next_auction_id;
        if auction_id == u64::MAX {
            return Err(Error::AuctionIdOverflow);
        }
        let auction = Auction {
            nft_program_id,
            token_id,
            seller,
            start_price,
            highest_bid: U256::zero(),
            highest_bidder: None,
            end_time_ms,
            settled: false,
            extension_window_ms,
            min_bid_increment,
        };
        self.storage.auctions.insert(auction_id, auction);
        self.storage.token_to_auction.insert(nft_program_id, token_id, auction_id);
        self.storage.next_auction_id = auction_id + 1;
        self.events.push(
            Event::AuctionCreated {
                auction_id,
                nft_program_id,
                token_id,
                seller,
                start_price,
                end_time_ms,
            },
        );
        Ok(Step::Done(Completion::AuctionCreated { auction_id }))
    }

    /// Begins a bid of `bid_amount` by `caller` on `auction_id` at time `now`.
    ///
    /// Where `bid_check` accepts, the auction is locked and the step is the
    /// call that pulls the bid from the caller to the engine (`program_id`).
    /// The bid is recorded when `resume` gets an accepting reply.
    pub fn bid(
        &mut self,
        caller: ActorId,
        now: u64,
        program_id: ActorId,
        auction_id: u64,
        bid_amount: U256,
    ) -> (r: Result<Step, Error>)
        requires
            old(self).wf(),
        ensures
            final(self).wf(),
            final(self).emitted() == old(self).emitted(),
            r == (match old(self).state().bid_check(caller, now, auction_id, bid_amount) {
                Ok(_) => Ok::<Step, Error>(
                    Step::Call(
                        Call::LineTransferFrom {
                            line_program_id: old(self).state().line_program_id,
                            from: caller,
                            to: program_id,
                            value: bid_amount,
                        },
                        Pending::Bid { auction_id, bidder: caller, amount: bid_amount, now },
                    ),
                ),
                Err(e) => Err(e),
            }),
            r is Ok ==> final(self).state() == old(self).state().with_lock(auction_id),
            r is Ok ==> final(self).state().holds_lock(auction_id),
            r is Err ==> final(self).state() == old(self).state(),
    {
        let auction = match self.storage.auctions.get(auction_id) {
            Some(a) => a,
            None => {
                return Err(Error::AuctionNotFound);
            },
        };
        if auction.settled {
            return Err(Error::AuctionSettled);
        }
        if now >= auction.end_time_ms {
            return Err(Error::AuctionEnded);
        }
        if self.storage.locked_auctions.contains(auction_id) {
            return Err(Error::AuctionLocked);
        }
        let is_first_bid = auction.highest_bidder.is_none();
        match funcs::validate_bid(
            bid_amount,
            auction.start_price,
            auction.highest_bid,
            auction.min_bid_increment,
            is_first_bid,
        ) {
            Ok(()) => {},
            Err(e) => {
                return Err(e);
            },
        }
        match auction.highest_bidder {
            Some(prev) => {
                if prev == caller {
                    return Err(Error::SelfOutbid);
                }
            },
            None => {},
        }
        if end_after_bid(&auction, now).is_none() {
            return Err(Error::EndTimeOverflow);
        }
        self.storage.locked_auctions.insert(auction_id);
        Ok(
            Step::Call(
                Call::LineTransferFrom {
                    line_program_id: self.storage.line_program_id,
                    from: caller,
                    to: program_id,
                    value: bid_amount,
                },
                Pending::Bid { auction_id, bidder: caller, amount: bid_amount, now },
            ),
        )
    }

    /// Resumes a bid with the reply to the pull of the funds.
    ///
    /// A reply that does not accept releases the lock and fails; the state
    /// is then what it was before the bid began. On an accepting reply the
    /// bid is recorded as `after_bid` says, and `RefundQueued` (where there
    /// was a previous bidder) and `BidPlaced` are emitted. Where the refund
    /// or the new end time would overflow, the bid fails and nothing changes.
    #[verifier::rlimit(50)]
    pub fn bid_reply(
        &mut self,
        auction_id: u64,
        bidder: ActorId,
        amount: U256,
        now: u64,
        reply: Reply,
    ) -> (r: Result<Step, Error>)
        requires
            old(self).wf(),
            old(self).state().holds_lock(auction_id),
        ensures
            final(self).wf(),
            r == (match old(self).state().bid_reply_check(auction_id, now, reply) {
                Ok(_) => Ok::<Step, Error>(Step::Done(Completion::BidPlaced)),
                Err(e) => Err(e),
            }),
            r is Ok ==> {
                &&& final(self).state() == old(self).state().after_bid(
                    auction_id,
                    bidder,
                    amount,
                    now,
                )
                &&& final(self).emitted() == old(self).emitted() + old(self).state().bid_events(
                    auction_id,
                    bidder,
                    amount,
                    now,
                )
            },
            r is Err ==> final(self).emitted() == old(self).emitted(),
            r is Err && reply != Reply::Accepted ==> final(self).state() == old(
                self,
            ).state().without_lock(auction_id),
            r is Err && reply == Reply::Accepted ==> final(self).state() == old(self).state(),
    {
        match reply {
            Reply::Accepted => {},
            Reply::Declined => {
                self.storage.locked_auctions.remove(auction_id);
                return Err(Error::BidTransferDeclined);
            },
            Reply::Failed => {
                self.storage.locked_auctions.remove(auction_id);
                return Err(Error::BidTransferFailed);
            },
        }
        let auction = match self.storage.auctions.get(auction_id) {
            Some(a) => a,
            None => {
                return Err(Error::NotInFlight);
            },
        };
        let ghost before = self.storage@;
        let queued = match auction.highest_bidder {
            Some(prev) => {
                let owed = self.get_pending_refund(prev);
                if auction.highest_bid.is_zero() {
                    Some(owed)
                } else {
                    owed.checked_add(&auction.highest_bid)
                }
            },
            None => Some(U256::zero()),
        };
        if queued.is_none() {
            return Err(Error::AmountOverflow);
        }
        let new_end_time_ms = match end_after_bid(&auction, now) {
            Some(t) => t,
            None => {
                return Err(Error::EndTimeOverflow);
            },
        };
        match auction.highest_bidder {
            Some(prev) => {
                let _ = funcs::queue_refund(
                    &mut self.storage.pending_refunds,
                    prev,
                    auction.highest_bid,
                );
                proof {
                    crate::amounts::lemma_total_with_amount(
                        before.pending_refunds,
                        prev,
                        amount_of(before.pending_refunds, prev) + auction.highest_bid.value(),
                    );
                }
                self.events.push(Event::RefundQueued { user: prev, amount: auction.highest_bid });
            },
            None => {},
        }
        self.storage.auctions.insert(
            auction_id,
            Auction {
                nft_program_id: auction.nft_program_id,
                token_id: auction.token_id,
                seller: auction.seller,
                start_price: auction.start_price,
                highest_bid: amount,
                highest_bidder: Some(bidder),
                end_time_ms: new_end_time_ms,
                settled: auction.settled,
                extension_window_ms: auction.extension_window_ms,
                min_bid_increment: auction.min_bid_increment,
            },
        );
        self.storage.locked_auctions.remove(auction_id);
        self.events.push(
            Event::BidPlaced { auction_id, bidder, amount, new_end_time_ms },
        );
        proof {
            assert(self.events@ =~= old(self).emitted() + before.bid_events(
                auction_id,
                bidder,
                amount,
                now,
            ));
        }
        Ok(Step::Done(Completion::BidPlaced))
    }
}

impl StorageView {
    /// Whether `cancel_auction` is accepted. The checks are made in this
    /// order; the last one refuses a refund that would leave 256 bits.
    pub open spec fn cancel_check(self, caller: ActorId, now: u64, auction_id: u64) -> Result<
        (),
        Error,
    > {
        if !self.auctions.dom().contains(auction_id) {
            Err(Error::AuctionNotFound)
        } else {
            let auction = self.auctions[auction_id];
            if !self.admins.contains(caller) && caller != auction.seller {
                Err(Error::NotAdminOrSeller)
            } else if auction.settled {
                Err(Error::AuctionSettled)
            } else if now >= auction.end_time_ms {
                Err(Error::AuctionEnded)
            } else if self.locked_auctions.contains(auction_id) {
                Err(Error::AuctionLocked)
            } else if auction.highest_bidder is Some && funcs::queue_result(
                self.pending_refunds,
                auction.highest_bidder->0,
                auction.highest_bid,
            ) is Err {
                Err(Error::AmountOverflow)
            } else {
                Ok(())
            }
        }
    }

    /// The state after a cancellation of `auction_id` began: the auction is
    /// locked and its highest bid is queued as a refund.
    pub open spec fn after_cancel_begin(self, auction_id: u64) -> StorageView {
        StorageView {
            pending_refunds: self.refunds_with_bid_of(self.auctions[auction_id]),
            locked_auctions: self.locked_auctions.insert(auction_id),
            ..self
        }
    }

    /// The pending NFT deliveries after the reply to the delivery of the
    /// token of `auction_id` to `recipient`: a delivery that was not accepted
    /// is queued.
    pub open spec fn nft_returns_after(self, auction_id: u64, recipient: ActorId, reply: Reply)
        -> Map<u64, (ActorId, u64, ActorId)> {
        let auction = self.auctions[auction_id];
        if reply == Reply::Accepted {
            self.pending_nft_returns
        } else {
            self.pending_nft_returns.insert(
                auction_id,
                (recipient, auction.token_id, auction.nft_program_id),
            )
        }
    }

    /// The events of an NFT delivery: none where it was accepted, the
    /// queueing else.
    pub open spec fn nft_events(self, auction_id: u64, recipient: ActorId, reply: Reply) -> Seq<
        Event,
    > {
        if reply == Reply::Accepted {
            Seq::empty()
        } else {
            seq![
                Event::NftTransferQueued {
                    auction_id,
                    recipient,
                    token_id: self.auctions[auction_id].token_id,
                },
            ]
        }
    }

    /// The state after the live auction `auction_id` was removed: its record,
    /// its index entry and its lock are gone.
    pub open spec fn without_auction(self, auction_id: u64) -> StorageView {
        StorageView {
            auctions: self.auctions.remove(auction_id),
            token_to_auction: self.token_to_auction.remove(self.auctions[auction_id].token()),
            locked_auctions: self.locked_auctions.remove(auction_id),
            ..self
        }
    }

    /// The state after a cancellation of `auction_id` got its reply.
    pub open spec fn after_cancel(self, auction_id: u64, reply: Reply) -> StorageView {
        StorageView {
            pending_nft_returns: self.nft_returns_after(
                auction_id,
                self.auctions[auction_id].seller,
                reply,
            ),
            ..self.without_auction(auction_id)
        }
    }

    /// Whether `claim_nft` is accepted.
    pub open spec fn claim_nft_check(self, caller: ActorId, auction_id: u64) -> Result<(), Error> {
        if !self.pending_nft_returns.dom().contains(auction_id) {
            Err(Error::NoPendingNft)
        } else if caller != self.pending_nft_returns[auction_id].0 && !self.admins.contains(
            caller,
        ) {
            Err(Error::NotRecipientOrAdmin)
        } else {
            Ok(())
        }
    }

    /// Whether `finalize_auction` is accepted. The checks are made in this
    /// order; the last one refuses a finalization whose reward cannot be
    /// computed, because the winning bid times the reward rate leaves 256
    /// bits.
    pub open spec fn finalize_check(self, now: u64, auction_id: u64) -> Result<(), Error> {
        if !self.auctions.dom().contains(auction_id) {
            Err(Error::AuctionNotFound)
        } else if self.auctions[auction_id].settled {
            Err(Error::AuctionSettled)
        } else if now < self.auctions[auction_id].end_time_ms {
            Err(Error::AuctionNotEnded)
        } else if self.locked_auctions.contains(auction_id) {
            Err(Error::AuctionLocked)
        } else if !funcs::reward_fits(
            self.auctions[auction_id].highest_bid.value(),
            self.finalizer_reward_bps as nat,
        ) {
            Err(Error::AmountOverflow)
        } else {
            Ok(())
        }
    }

    /// The state after a finalization of `auction_id` began: the auction is
    /// settled and locked, and has left the index.
    pub open spec fn after_finalize_begin(self, auction_id: u64) -> StorageView {
        StorageView {
            auctions: self.auctions.insert(
                auction_id,
                Auction { settled: true, ..self.auctions[auction_id] },
            ),
            token_to_auction: self.token_to_auction.remove(self.auctions[auction_id].token()),
            locked_auctions: self.locked_auctions.insert(auction_id),
            ..self
        }
    }

    /// Whether a finalization of `auction_id` at `stage` is in flight: the
    /// auction is settled and locked, and the reward at the rate that goes
    /// with the finalization can be computed.
    pub open spec fn finalizing(self, auction_id: u64, reward_bps: u32, stage: FinalizeStage)
        -> bool {
        &&& self.locked_auctions.contains(auction_id)
        &&& self.auctions.dom().contains(auction_id)
        &&& self.auctions[auction_id].settled
        &&& reward_bps <= MAX_FINALIZER_REWARD_BPS
        &&& funcs::reward_fits(self.auctions[auction_id].highest_bid.value(), reward_bps as nat)
        &&& stage != FinalizeStage::ReturnNft ==> self.auctions[auction_id].highest_bidder is Some
    }

    /// The state after a settled auction was removed and unlocked.
    pub open spec fn without_settled(self, auction_id: u64) -> StorageView {
        StorageView {
            auctions: self.auctions.remove(auction_id),
            locked_auctions: self.locked_auctions.remove(auction_id),
            ..self
        }
    }
}

impl Auction {
    /// The finalizer's reward on this auction at `reward_bps`.
    pub open spec fn reward(self, reward_bps: u32) -> nat {
        funcs::finalizer_reward(self.highest_bid.value(), reward_bps as nat)
    }

    /// The seller's payout on this auction at `reward_bps`: the winning bid
    /// less the finalizer's reward.
    pub open spec fn payout(self, reward_bps: u32) -> nat {
        (self.highest_bid.value() - self.reward(reward_bps)) as nat
    }

    /// The stage that follows `stage` in the finalization of this auction, or
    /// `None` where `stage` is the last. A payment of zero is skipped.
    pub open spec fn stage_after(self, reward_bps: u32, stage: FinalizeStage) -> Option<
        FinalizeStage,
    > {
        if stage == FinalizeStage::DeliverNft && self.payout(reward_bps) != 0 {
            Some(FinalizeStage::PaySeller)
        } else if (stage == FinalizeStage::DeliverNft || stage == FinalizeStage::PaySeller)
            && self.reward(reward_bps) != 0 {
            Some(FinalizeStage::PayFinalizer)
        } else {
            None
        }
    }

    /// Whom the payment of `stage` goes to, and how much.
    pub open spec fn payment(self, finalizer: ActorId, reward_bps: u32, stage: FinalizeStage) -> (
        ActorId,
        nat,
    ) {
        if stage == FinalizeStage::PaySeller {
            (self.seller, self.payout(reward_bps))
        } else {
            (finalizer, self.reward(reward_bps))
        }
    }

    /// What `finalize_auction` reports of this auction at the end.
    pub open spec fn finalized_event(self, auction_id: u64, reward_bps: u32) -> Event {
        Event::AuctionFinalized {
            auction_id,
            winner: self.highest_bidder,
            winning_bid: self.highest_bid,
            seller_payout: U256::from_nat(self.payout(reward_bps)),
            finalizer_reward: U256::from_nat(self.reward(reward_bps)),
        }
    }
}

impl StorageView {
    /// Whether the reply to a call of a finalization can be taken in: a
    /// payment that was not accepted is queued as a payout, which must fit
    /// in 256 bits.
    pub open spec fn finalize_reply_check(
        self,
        auction_id: u64,
        finalizer: ActorId,
        reward_bps: u32,
        stage: FinalizeStage,
        reply: Reply,
    ) -> Result<(), Error> {
        let payment = self.auctions[auction_id].payment(finalizer, reward_bps, stage);
        if (stage == FinalizeStage::PaySeller || stage == FinalizeStage::PayFinalizer) && reply
            != Reply::Accepted && amount_of(self.pending_payouts, payment.0) + payment.1
            >= u256_modulus() {
            Err(Error::AmountOverflow)
        } else {
            Ok(())
        }
    }

    /// The state after the reply to the call of `stage` was taken in: what
    /// was not accepted is queued, an NFT as a pending delivery and a payment
    /// as a pending payout.
    pub open spec fn after_finalize_reply(
        self,
        auction_id: u64,
        finalizer: ActorId,
        reward_bps: u32,
        stage: FinalizeStage,
        reply: Reply,
    ) -> StorageView {
        let auction = self.auctions[auction_id];
        let payment = auction.payment(finalizer, reward_bps, stage);
        if reply == Reply::Accepted {
            self
        } else if stage == FinalizeStage::DeliverNft {
            StorageView {
                pending_nft_returns: self.nft_returns_after(
                    auction_id,
                    auction.highest_bidder->0,
                    reply,
                ),
                ..self
            }
        } else if stage == FinalizeStage::ReturnNft {
            StorageView {
                pending_nft_returns: self.nft_returns_after(auction_id, auction.seller, reply),
                ..self
            }
        } else {
            StorageView {
                pending_payouts: funcs::queue_after(
                    self.pending_payouts,
                    payment.0,
                    U256::from_nat(payment.1),
                ),
                ..self
            }
        }
    }

    /// The events of taking in the reply to the call of `stage`.
    pub open spec fn finalize_reply_events(
        self,
        auction_id: u64,
        finalizer: ActorId,
        reward_bps: u32,
        stage: FinalizeStage,
        reply: Reply,
    ) -> Seq<Event> {
        let auction = self.auctions[auction_id];
        let payment = auction.payment(finalizer, reward_bps, stage);
        if stage == FinalizeStage::DeliverNft {
            self.nft_events(auction_id, auction.highest_bidder->0, reply)
        } else if stage == FinalizeStage::ReturnNft {
            self.nft_events(auction_id, auction.seller, reply)
        } else if reply == Reply::Accepted {
            Seq::empty()
        } else {
            seq![Event::PayoutQueued { recipient: payment.0, amount: U256::from_nat(payment.1) }]
        }
    }
}

impl MarketplaceService {
    /// Begins the cancellation of `auction_id` by `caller`, an admin or the
    /// seller, at time `now`, before the auction has ended.
    ///
    /// Where `cancel_check` accepts, the auction is locked, the highest bid
    /// is queued as a refund for its bidder (with `RefundQueued`), and the
    /// step is the call that returns the NFT from the engine (`program_id`)
    /// to the seller.
    pub fn cancel_auction(&mut self, caller: ActorId, now: u64, program_id: ActorId, auction_id: u64)
        -> (r: Result<Step, Error>)
        requires
            old(self).wf(),
        ensures
            final(self).wf(),
            r == (match old(self).state().cancel_check(caller, now, auction_id) {
                Ok(_) => Ok::<Step, Error>(
                    Step::Call(
                        Call::NftTransferFrom {
                            nft_program_id: old(self).state().auctions[auction_id].nft_program_id,
                            from: program_id,
                            to: old(self).state().auctions[auction_id].seller,
                            token_id: old(self).state().auctions[auction_id].token_id,
                        },
                        Pending::CancelAuction { auction_id },
                    ),
                ),
                Err(e) => Err(e),
            }),
            r is Ok ==> {
                &&& final(self).state() == old(self).state().after_cancel_begin(auction_id)
                &&& final(self).state().holds_lock(auction_id)
                &&& final(self).emitted() == old(self).emitted() + (match old(
                    self,
                ).state().auctions[auction_id].highest_bidder {
                    Some(bidder) => seq![
                        Event::RefundQueued {
                            user: bidder,
                            amount: old(self).state().auctions[auction_id].highest_bid,
                        },
                    ],
                    None => Seq::empty(),
                })
            },
            r is Err ==> {
                &&& final(self).state() == old(self).state()
                &&& final(self).emitted() == old(self).emitted()
            },
    {
        let auction = match self.storage.auctions.get(auction_id) {
            Some(a) => a,
            None => {
                return Err(Error::AuctionNotFound);
            },
        };
        if !self.storage.admins.contains(&caller) && caller != auction.seller {
            return Err(Error::NotAdminOrSeller);
        }
        if auction.settled {
            return Err(Error::AuctionSettled);
        }
        if now >= auction.end_time_ms {
            return Err(Error::AuctionEnded);
        }
        if self.storage.locked_auctions.contains(auction_id) {
            return Err(Error::AuctionLocked);
        }
        let ghost before = self.storage@;
        match auction.highest_bidder {
            Some(bidder) => {
                match funcs::queue_refund(
                    &mut self.storage.pending_refunds,
                    bidder,
                    auction.highest_bid,
                ) {
                    Ok(()) => {},
                    Err(e) => {
                        return Err(e);
                    },
                }
                proof {
                    crate::amounts::lemma_total_with_amount(
                        before.pending_refunds,
                        bidder,
                        amount_of(before.pending_refunds, bidder) + auction.highest_bid.value(),
                    );
                }
                self.events.push(
                    Event::RefundQueued { user: bidder, amount: auction.highest_bid },
                );
            },
            None => {
                proof {
                    assert(self.events@ =~= old(self).emitted() + Seq::<Event>::empty());
                }
            },
        }
        self.storage.locked_auctions.insert(auction_id);
        Ok(
            Step::Call(
                Call::NftTransferFrom {
                    nft_program_id: auction.nft_program_id,
                    from: program_id,
                    to: auction.seller,
                    token_id: auction.token_id,
                },
                Pending::CancelAuction { auction_id },
            ),
        )
    }

    /// Resumes the cancellation of `auction_id` with the reply to the return
    /// of the NFT.
    ///
    /// An NFT that could not be returned is queued for the seller (with
    /// `NftTransferQueued`). Either way the auction, its index entry and its
    /// lock are removed and `AuctionCancelled` is emitted.
    pub fn cancel_auction_reply(&mut self, auction_id: u64, reply: Reply) -> (r: Result<Step, Error>)
        requires
            old(self).wf(),
            old(self).state().holds_lock(auction_id),
        ensures
            final(self).wf(),
            r == Ok::<Step, Error>(Step::Done(Completion::AuctionCancelled)),
            final(self).state() == old(self).state().after_cancel(auction_id, reply),
            final(self).emitted() == old(self).emitted() + old(self).state().nft_events(
                auction_id,
                old(self).state().auctions[auction_id].seller,
                reply,
            ).push(Event::AuctionCancelled { auction_id }),
    {
        let auction = match self.storage.auctions.get(auction_id) {
            Some(a) => a,
            None => {
                return Err(Error::NotInFlight);
            },
        };
        match reply {
            Reply::Accepted => {},
            _ => {
                self.storage.pending_nft_returns.insert(
                    auction_id,
                    (auction.seller, auction.token_id, auction.nft_program_id),
                );
                self.events.push(
                    Event::NftTransferQueued {
                        auction_id,
                        recipient: auction.seller,
                        token_id: auction.token_id,
                    },
                );
            },
        }
        self.storage.auctions.remove(auction_id);
        self.storage.token_to_auction.remove(&auction.nft_program_id, auction.token_id);
        self.storage.locked_auctions.remove(auction_id);
        self.events.push(Event::AuctionCancelled { auction_id });
        proof {
            assert(self.events@ =~= old(self).emitted() + old(self).state().nft_events(
                auction_id,
                auction.seller,
                reply,
            ).push(Event::AuctionCancelled { auction_id }));
        }
        Ok(Step::Done(Completion::AuctionCancelled))
    }

    /// Begins the claim of the refund that is queued for `caller`.
    ///
    /// A caller without refund gets `NoPendingRefund`. Otherwise the entry
    /// is removed, and the step is the transfer of the whole refund to the
    /// caller.
    pub fn claim_refund(&mut self, caller: ActorId) -> (r: Result<Step, Error>)
        requires
            old(self).wf(),
        ensures
            final(self).wf(),
            final(self).emitted() == old(self).emitted(),
            r == (if old(self).state().pending_refund(caller) == 0 {
                Err::<Step, Error>(Error::NoPendingRefund)
            } else {
                Ok(
                    Step::Call(
                        Call::LineTransfer {
                            line_program_id: old(self).state().line_program_id,
                            to: caller,
                            value: old(self).state().pending_refunds[caller],
                        },
                        Pending::ClaimRefund {
                            caller,
                            amount: old(self).state().pending_refunds[caller],
                        },
                    ),
                )
            }),
            r is Ok ==> final(self).state() == (StorageView {
                pending_refunds: old(self).state().pending_refunds.remove(caller),
                ..old(self).state()
            }),
            r is Err ==> final(self).state() == old(self).state(),
    {
        let amount = match self.storage.pending_refunds.get(&caller) {
            Some(v) => v,
            None => {
                return Err(Error::NoPendingRefund);
            },
        };
        if amount.is_zero() {
            return Err(Error::NoPendingRefund);
        }
        self.storage.pending_refunds.remove(&caller);
        Ok(
            Step::Call(
                Call::LineTransfer {
                    line_program_id: self.storage.line_program_id,
                    to: caller,
                    value: amount,
                },
                Pending::ClaimRefund { caller, amount },
            ),
        )
    }

    /// Resumes the claim of a refund with the reply to the transfer.
    ///
    /// On an accepting reply `RefundClaimed` is emitted. Otherwise the whole
    /// amount is put back under `caller` and the claim fails with
    /// `RefundTransferFailed`; the caller may claim again.
    pub fn claim_refund_reply(&mut self, caller: ActorId, amount: U256, reply: Reply) -> (r: Result<
        Step,
        Error,
    >)
        requires
            old(self).wf(),
            amount.value() != 0,
        ensures
            final(self).wf(),
            r == (if reply == Reply::Accepted {
                Ok::<Step, Error>(Step::Done(Completion::RefundClaimed))
            } else {
                Err(Error::RefundTransferFailed)
            }),
            r is Ok ==> {
                &&& final(self).state() == old(self).state()
                &&& final(self).emitted() == old(self).emitted().push(
                    Event::RefundClaimed { user: caller, amount },
                )
            },
            r is Err ==> {
                &&& final(self).state() == (StorageView {
                    pending_refunds: old(self).state().pending_refunds.insert(caller, amount),
                    ..old(self).state()
                })
                &&& final(self).emitted() == old(self).emitted()
            },
    {
        match reply {
            Reply::Accepted => {
                self.events.push(Event::RefundClaimed { user: caller, amount });
                Ok(Step::Done(Completion::RefundClaimed))
            },
            _ => {
                self.storage.pending_refunds.insert(caller, amount);
                Err(Error::RefundTransferFailed)
            },
        }
    }

    /// Begins the claim of the payout that is queued for `caller`.
    ///
    /// A caller without payout gets `NoPendingPayout`. Otherwise the entry
    /// is removed, and the step is the transfer of the whole payout to the
    /// caller.
    pub fn claim_payout(&mut self, caller: ActorId) -> (r: Result<Step, Error>)
        requires
            old(self).wf(),
        ensures
            final(self).wf(),
            final(self).emitted() == old(self).emitted(),
            r == (if old(self).state().pending_payout(caller) == 0 {
                Err::<Step, Error>(Error::NoPendingPayout)
            } else {
                Ok(
                    Step::Call(
                        Call::LineTransfer {
                            line_program_id: old(self).state().line_program_id,
                            to: caller,
                            value: old(self).state().pending_payouts[caller],
                        },
                        Pending::ClaimPayout {
                            caller,
                            amount: old(self).state().pending_payouts[caller],
                        },
                    ),
                )
            }),
            r is Ok ==> final(self).state() == (StorageView {
                pending_payouts: old(self).state().pending_payouts.remove(caller),
                ..old(self).state()
            }),
            r is Err ==> final(self).state() == old(self).state(),
    {
        let amount = match self.storage.pending_payouts.get(&caller) {
            Some(v) => v,
            None => {
                return Err(Error::NoPendingPayout);
            },
        };
        if amount.is_zero() {
            return Err(Error::NoPendingPayout);
        }
        self.storage.pending_payouts.remove(&caller);
        Ok(
            Step::Call(
                Call::LineTransfer {
                    line_program_id: self.storage.line_program_id,
                    to: caller,
                    value: amount,
                },
                Pending::ClaimPayout { caller, amount },
            ),
        )
    }

    /// Resumes the claim of a payout with the reply to the transfer.
    ///
    /// On an accepting reply `PayoutClaimed` is emitted. Otherwise the whole
    /// amount is put back under `caller` and the claim fails with
    /// `PayoutTransferFailed`; the caller may claim again.
    pub fn claim_payout_reply(&mut self, caller: ActorId, amount: U256, reply: Reply) -> (r: Result<
        Step,
        Error,
    >)
        requires
            old(self).wf(),
            amount.value() != 0,
        ensures
            final(self).wf(),
            r == (if reply == Reply::Accepted {
                Ok::<Step, Error>(Step::Done(Completion::PayoutClaimed))
            } else {
                Err(Error::PayoutTransferFailed)
            }),
            r is Ok ==> {
                &&& final(self).state() == old(self).state()
                &&& final(self).emitted() == old(self).emitted().push(
                    Event::PayoutClaimed { recipient: caller, amount },
                )
            },
            r is Err ==> {
                &&& final(self).state() == (StorageView {
                    pending_payouts: old(self).state().pending_payouts.insert(caller, amount),
                    ..old(self).state()
                })
                &&& final(self).emitted() == old(self).emitted()
            },
    {
        match reply {
            Reply::Accepted => {
                self.events.push(Event::PayoutClaimed { recipient: caller, amount });
                Ok(Step::Done(Completion::PayoutClaimed))
            },
            _ => {
                self.storage.pending_payouts.insert(caller, amount);
                Err(Error::PayoutTransferFailed)
            },
        }
    }

    /// Begins the claim of the NFT that is pending for `auction_id`, by its
    /// recipient or an admin.
    ///
    /// Where `claim_nft_check` accepts, the entry is removed, and the step is
    /// the transfer of the NFT from the engine (`program_id`) to the
    /// recipient.
    pub fn claim_nft(&mut self, caller: ActorId, program_id: ActorId, auction_id: u64) -> (r: Result<
        Step,
        Error,
    >)
        requires
            old(self).wf(),
        ensures
            final(self).wf(),
            final(self).emitted() == old(self).emitted(),
            r == (match old(self).state().claim_nft_check(caller, auction_id) {
                Ok(_) => Ok::<Step, Error>(
                    Step::Call(
                        Call::NftTransferFrom {
                            nft_program_id: old(self).state().pending_nft_returns[auction_id].2,
                            from: program_id,
                            to: old(self).state().pending_nft_returns[auction_id].0,
                            token_id: old(self).state().pending_nft_returns[auction_id].1,
                        },
                        Pending::ClaimNft {
                            auction_id,
                            recipient: old(self).state().pending_nft_returns[auction_id].0,
                            token_id: old(self).state().pending_nft_returns[auction_id].1,
                            nft_program_id: old(self).state().pending_nft_returns[auction_id].2,
                        },
                    ),
                ),
                Err(e) => Err(e),
            }),
            r is Ok ==> final(self).state() == (StorageView {
                pending_nft_returns: old(self).state().pending_nft_returns.remove(auction_id),
                ..old(self).state()
            }),
            r is Err ==> final(self).state() == old(self).state(),
    {
        let (recipient, token_id, nft_program_id) = match self.storage.pending_nft_returns.get(
            auction_id,
        ) {
            Some(entry) => entry,
            None => {
                return Err(Error::NoPendingNft);
            },
        };
        if caller != recipient && !self.storage.admins.contains(&caller) {
            return Err(Error::NotRecipientOrAdmin);
        }
        self.storage.pending_nft_returns.remove(auction_id);
        Ok(
            Step::Call(
                Call::NftTransferFrom { nft_program_id, from: program_id, to: recipient, token_id },
                Pending::ClaimNft { auction_id, recipient, token_id, nft_program_id },
            ),
        )
    }

    /// Resumes the claim of an NFT with the reply to the transfer.
    ///
    /// On an accepting reply `NftTransferClaimed` is emitted. Otherwise the
    /// entry is put back and the claim fails with `NftTransferFailed`; it
    /// may be claimed again.
    pub fn claim_nft_reply(
        &mut self,
        auction_id: u64,
        recipient: ActorId,
        token_id: u64,
        nft_program_id: ActorId,
        reply: Reply,
    ) -> (r: Result<Step, Error>)
        requires
            old(self).wf(),
        ensures
            final(self).wf(),
            r == (if reply == Reply::Accepted {
                Ok::<Step, Error>(Step::Done(Completion::NftClaimed))
            } else {
                Err(Error::NftTransferFailed)
            }),
            r is Ok ==> {
                &&& final(self).state() == old(self).state()
                &&& final(self).emitted() == old(self).emitted().push(
                    Event::NftTransferClaimed { auction_id, recipient, token_id },
                )
            },
            r is Err ==> {
                &&& final(self).state() == (StorageView {
                    pending_nft_returns: old(self).state().pending_nft_returns.insert(
                        auction_id,
                        (recipient, token_id, nft_program_id),
                    ),
                    ..old(self).state()
                })
                &&& final(self).emitted() == old(self).emitted()
            },
    {
        match reply {
            Reply::Accepted => {
                self.events.push(Event::NftTransferClaimed { auction_id, recipient, token_id });
                Ok(Step::Done(Completion::NftClaimed))
            },
            _ => {
                self.storage.pending_nft_returns.insert(
                    auction_id,
                    (recipient, token_id, nft_program_id),
                );
                Err(Error::NftTransferFailed)
            },
        }
    }
}

impl MarketplaceService {
    /// Begins the finalization of `auction_id` at time `now`, at or after the
    /// end of the auction. Anyone may finalize; `caller` earns the reward.
    ///
    /// Where `finalize_check` accepts, which it does not where the reward
    /// would overflow, settlement is committed before any call: the auction is marked settled, leaves the index and is locked.
    /// The step is the delivery of the NFT from the engine (`program_id`), to
    /// the highest bidder where there is one and back to the seller where
    /// there is none. The reward rate of this moment goes with the pending
    /// operation.
    pub fn finalize_auction(
        &mut self,
        caller: ActorId,
        now: u64,
        program_id: ActorId,
        auction_id: u64,
    ) -> (r: Result<Step, Error>)
        requires
            old(self).wf(),
        ensures
            final(self).wf(),
            final(self).emitted() == old(self).emitted(),
            r == (match old(self).state().finalize_check(now, auction_id) {
                Ok(_) => Ok::<Step, Error>(
                    MarketplaceService::first_finalize_step(
                        old(self).state(),
                        caller,
                        program_id,
                        auction_id,
                    ),
                ),
                Err(e) => Err(e),
            }),
            r is Ok ==> {
                &&& final(self).state() == old(self).state().after_finalize_begin(auction_id)
                &&& final(self).state().finalizing(
                    auction_id,
                    old(self).state().finalizer_reward_bps,
                    MarketplaceService::first_finalize_stage(old(self).state(), auction_id),
                )
            },
            r is Err ==> final(self).state() == old(self).state(),
    {
        let auction = match self.storage.auctions.get(auction_id) {
            Some(a) => a,
            None => {
                return Err(Error::AuctionNotFound);
            },
        };
        if auction.settled {
            return Err(Error::AuctionSettled);
        }
        if now < auction.end_time_ms {
            return Err(Error::AuctionNotEnded);
        }
        if self.storage.locked_auctions.contains(auction_id) {
            return Err(Error::AuctionLocked);
        }
        let reward_bps = self.storage.finalizer_reward_bps;
        match funcs::calculate_finalizer_reward(auction.highest_bid, reward_bps) {
            Ok(_) => {},
            Err(e) => {
                return Err(e);
            },
        }
        self.storage.locked_auctions.insert(auction_id);
        self.storage.auctions.insert(
            auction_id,
            Auction {
                nft_program_id: auction.nft_program_id,
                token_id: auction.token_id,
                seller: auction.seller,
                start_price: auction.start_price,
                highest_bid: auction.highest_bid,
                highest_bidder: auction.highest_bidder,
                end_time_ms: auction.end_time_ms,
                settled: true,
                extension_window_ms: auction.extension_window_ms,
                min_bid_increment: auction.min_bid_increment,
            },
        );
        self.storage.token_to_auction.remove(&auction.nft_program_id, auction.token_id);
        let (to, stage) = match auction.highest_bidder {
            Some(winner) => (winner, FinalizeStage::DeliverNft),
            None => (auction.seller, FinalizeStage::ReturnNft),
        };
        Ok(
            Step::Call(
                Call::NftTransferFrom {
                    nft_program_id: auction.nft_program_id,
                    from: program_id,
                    to,
                    token_id: auction.token_id,
                },
                Pending::Finalize { auction_id, finalizer: caller, reward_bps, stage },
            ),
        )
    }

    /// The stage that a finalization of `auction_id` begins with.
    pub open spec fn first_finalize_stage(state: StorageView, auction_id: u64) -> FinalizeStage {
        if state.auctions[auction_id].highest_bidder is Some {
            FinalizeStage::DeliverNft
        } else {
            FinalizeStage::ReturnNft
        }
    }

    /// The step that a finalization of `auction_id` by `caller` begins with.
    pub open spec fn first_finalize_step(
        state: StorageView,
        caller: ActorId,
        program_id: ActorId,
        auction_id: u64,
    ) -> Step {
        let auction = state.auctions[auction_id];
        Step::Call(
            Call::NftTransferFrom {
                nft_program_id: auction.nft_program_id,
                from: program_id,
                to: match auction.highest_bidder {
                    Some(winner) => winner,
                    None => auction.seller,
                },
                token_id: auction.token_id,
            },
            Pending::Finalize {
                auction_id,
                finalizer: caller,
                reward_bps: state.finalizer_reward_bps,
                stage: MarketplaceService::first_finalize_stage(state, auction_id),
            },
        )
    }

    /// The step that follows the call of `stage` in a finalization: the
    /// payment of the next stage, or the end.
    pub open spec fn next_finalize_step(
        state: StorageView,
        auction_id: u64,
        finalizer: ActorId,
        reward_bps: u32,
        stage: FinalizeStage,
    ) -> Step {
        let auction = state.auctions[auction_id];
        match auction.stage_after(reward_bps, stage) {
            Some(next) => Step::Call(
                Call::LineTransfer {
                    line_program_id: state.line_program_id,
                    to: auction.payment(finalizer, reward_bps, next).0,
                    value: U256::from_nat(auction.payment(finalizer, reward_bps, next).1),
                },
                Pending::Finalize { auction_id, finalizer, reward_bps, stage: next },
            ),
            None => Step::Done(Completion::AuctionFinalized),
        }
    }

    /// Resumes the finalization of `auction_id` with the reply to the call
    /// of `stage`.
    ///
    /// What the reply did not accept is queued: an NFT as a pending delivery
    /// (with `NftTransferQueued`), a payment as a pending payout (with
    /// `PayoutQueued`). A failed call never undoes the settlement. Then the
    /// next payment is due: the seller's payout after the NFT, the
    /// finalizer's reward after that, each skipped where it is zero. After
    /// the last call the auction is removed and unlocked and
    /// `AuctionFinalized` is emitted. Where a payout to queue would leave 256
    /// bits, the step fails and nothing changes.
    #[verifier::rlimit(50)]
    pub fn finalize_reply(
        &mut self,
        auction_id: u64,
        finalizer: ActorId,
        reward_bps: u32,
        stage: FinalizeStage,
        reply: Reply,
    ) -> (r: Result<Step, Error>)
        requires
            old(self).wf(),
            old(self).state().finalizing(auction_id, reward_bps, stage),
        ensures
            final(self).wf(),
            r == (match old(self).state().finalize_reply_check(
                auction_id,
                finalizer,
                reward_bps,
                stage,
                reply,
            ) {
                Ok(_) => Ok::<Step, Error>(
                    MarketplaceService::next_finalize_step(
                        old(self).state(),
                        auction_id,
                        finalizer,
                        reward_bps,
                        stage,
                    ),
                ),
                Err(e) => Err(e),
            }),
            r matches Ok(Step::Call(_, _)) ==> {
                &&& final(self).state() == old(self).state().after_finalize_reply(
                    auction_id,
                    finalizer,
                    reward_bps,
                    stage,
                    reply,
                )
                &&& final(self).emitted() == old(self).emitted() + old(
                    self,
                ).state().finalize_reply_events(auction_id, finalizer, reward_bps, stage, reply)
                &&& final(self).state().finalizing(
                    auction_id,
                    reward_bps,
                    old(self).state().auctions[auction_id].stage_after(reward_bps, stage)->0,
                )
            },
            r matches Ok(Step::Done(_)) ==> {
                &&& final(self).state() == old(self).state().after_finalize_reply(
                    auction_id,
                    finalizer,
                    reward_bps,
                    stage,
                    reply,
                ).without_settled(auction_id)
                &&& final(self).emitted() == (old(self).emitted() + old(
                    self,
                ).state().finalize_reply_events(
                    auction_id,
                    finalizer,
                    reward_bps,
                    stage,
                    reply,
                )).push(old(self).state().auctions[auction_id].finalized_event(auction_id, reward_bps))
            },
            r is Err ==> {
                &&& final(self).state() == old(self).state()
                &&& final(self).emitted() == old(self).emitted()
            },
    {
        let auction = match self.storage.auctions.get(auction_id) {
            Some(a) => a,
            None => {
                return Err(Error::NotInFlight);
            },
        };
        let ghost before = self.storage@;
        let reward = match funcs::calculate_finalizer_reward(auction.highest_bid, reward_bps) {
            Ok(v) => v,
            Err(_) => {
                return Err(Error::NotInFlight);
            },
        };
        proof {
            funcs::lemma_finalizer_reward_bound(auction.highest_bid.value(), reward_bps as nat);
        }
        let payout = match auction.highest_bid.checked_sub(&reward) {
            Some(v) => v,
            None => {
                return Err(Error::NotInFlight);
            },
        };
        proof {
            reward.lemma_from_nat_value();
            payout.lemma_from_nat_value();
        }
        let accepted = match reply {
            Reply::Accepted => true,
            _ => false,
        };
        match stage {
            FinalizeStage::DeliverNft => {
                let winner = match auction.highest_bidder {
                    Some(w) => w,
                    None => {
                        return Err(Error::NotInFlight);
                    },
                };
                if !accepted {
                    self.queue_nft(auction_id, winner, auction.token_id, auction.nft_program_id);
                }
            },
            FinalizeStage::ReturnNft => {
                if !accepted {
                    self.queue_nft(
                        auction_id,
                        auction.seller,
                        auction.token_id,
                        auction.nft_program_id,
                    );
                }
            },
            FinalizeStage::PaySeller => {
                if !accepted {
                    match self.queue_failed_payment(auction.seller, payout) {
                        Ok(()) => {},
                        Err(e) => {
                            return Err(e);
                        },
                    }
                }
            },
            FinalizeStage::PayFinalizer => {
                if !accepted {
                    match self.queue_failed_payment(finalizer, reward) {
                        Ok(()) => {},
                        Err(e) => {
                            return Err(e);
                        },
                    }
                }
            },
        }
        proof {
            assert(self.storage@ == before.after_finalize_reply(
                auction_id,
                finalizer,
                reward_bps,
                stage,
                reply,
            ));
            assert(self.events@ =~= old(self).emitted() + before.finalize_reply_events(
                auction_id,
                finalizer,
                reward_bps,
                stage,
                reply,
            ));
        }
        let line_program_id = self.storage.line_program_id;
        let pay_seller = match stage {
            FinalizeStage::DeliverNft => !payout.is_zero(),
            _ => false,
        };
        let pay_finalizer = match stage {
            FinalizeStage::DeliverNft => !reward.is_zero(),
            FinalizeStage::PaySeller => !reward.is_zero(),
            _ => false,
        };
        if pay_seller {
            Ok(
                Step::Call(
                    Call::LineTransfer { line_program_id, to: auction.seller, value: payout },
                    Pending::Finalize {
                        auction_id,
                        finalizer,
                        reward_bps,
                        stage: FinalizeStage::PaySeller,
                    },
                ),
            )
        } else if pay_finalizer {
            Ok(
                Step::Call(
                    Call::LineTransfer { line_program_id, to: finalizer, value: reward },
                    Pending::Finalize {
                        auction_id,
                        finalizer,
                        reward_bps,
                        stage: FinalizeStage::PayFinalizer,
                    },
                ),
            )
        } else {
            self.storage.auctions.remove(auction_id);
            self.storage.locked_auctions.remove(auction_id);
            self.events.push(
                Event::AuctionFinalized {
                    auction_id,
                    winner: auction.highest_bidder,
                    winning_bid: auction.highest_bid,
                    seller_payout: payout,
                    finalizer_reward: reward,
                },
            );
            Ok(Step::Done(Completion::AuctionFinalized))
        }
    }

    /// Queues an NFT that could not be delivered, and emits
    /// `NftTransferQueued`.
    fn queue_nft(
        &mut self,
        auction_id: u64,
        recipient: ActorId,
        token_id: u64,
        nft_program_id: ActorId,
    )
        ensures
            final(self).state() == (StorageView {
                pending_nft_returns: old(self).state().pending_nft_returns.insert(
                    auction_id,
                    (recipient, token_id, nft_program_id),
                ),
                ..old(self).state()
            }),
            final(self).emitted() == old(self).emitted().push(
                Event::NftTransferQueued { auction_id, recipient, token_id },
            ),
    {
        self.storage.pending_nft_returns.insert(auction_id, (recipient, token_id, nft_program_id));
        self.events.push(Event::NftTransferQueued { auction_id, recipient, token_id });
    }

    /// Queues a payment that could not be transferred, and emits
    /// `PayoutQueued`.
    fn queue_failed_payment(&mut self, recipient: ActorId, amount: U256) -> (r: Result<(), Error>)
        requires
            old(self).wf(),
        ensures
            final(self).wf(),
            r == funcs::queue_result(old(self).state().pending_payouts, recipient, amount),
            r is Ok ==> {
                &&& final(self).state() == (StorageView {
                    pending_payouts: funcs::queue_after(
                        old(self).state().pending_payouts,
                        recipient,
                        amount,
                    ),
                    ..old(self).state()
                })
                &&& final(self).emitted() == old(self).emitted().push(
                    Event::PayoutQueued { recipient, amount },
                )
            },
            r is Err ==> {
                &&& final(self).state() == old(self).state()
                &&& final(self).emitted() == old(self).emitted()
            },
    {
        let ghost before = self.storage@;
        match funcs::queue_payout(&mut self.storage.pending_payouts, recipient, amount) {
            Ok(()) => {},
            Err(e) => {
                return Err(e);
            },
        }
        proof {
            if amount.value() != 0 {
                crate::amounts::lemma_total_with_amount(
                    before.pending_payouts,
                    recipient,
                    amount_of(before.pending_payouts, recipient) + amount.value(),
                );
            }
        }
        self.events.push(Event::PayoutQueued { recipient, amount });
        Ok(())
    }
}

impl StorageView {
    /// Whether `pending` can be resumed in this state: the auction of a bid
    /// or a cancellation is live and locked, that of a finalization is
    /// settled and locked, and a claim is for a non-zero amount.
    pub open spec fn in_flight(self, pending: Pending) -> bool {
        match pending {
            Pending::CreateAuction { .. } => true,
            Pending::CancelAuction { auction_id } => self.holds_lock(auction_id),
            Pending::Bid { auction_id, .. } => self.holds_lock(auction_id),
            Pending::ClaimRefund { amount, .. } => amount.value() != 0,
            Pending::Finalize { auction_id, reward_bps, stage, .. } => self.finalizing(
                auction_id,
                reward_bps,
                stage,
            ),
            Pending::ClaimPayout { amount, .. } => amount.value() != 0,
            Pending::ClaimNft { .. } => true,
        }
    }

    /// What resuming `pending` with `reply` returns.
    pub open spec fn resume_result(self, pending: Pending, reply: Reply) -> Result<Step, Error> {
        if !self.in_flight(pending) {
            Err(Error::NotInFlight)
        } else {
            match pending {
                Pending::CreateAuction { nft_program_id, token_id, .. } => {
                    match self.create_auction_reply_check(nft_program_id, token_id, reply) {
                        Ok(_) => Ok(
                            Step::Done(
                                Completion::AuctionCreated { auction_id: self.next_auction_id },
                            ),
                        ),
                        Err(e) => Err(e),
                    }
                },
                Pending::CancelAuction { .. } => Ok(Step::Done(Completion::AuctionCancelled)),
                Pending::Bid { auction_id, now, .. } => {
                    match self.bid_reply_check(auction_id, now, reply) {
                        Ok(_) => Ok(Step::Done(Completion::BidPlaced)),
                        Err(e) => Err(e),
                    }
                },
                Pending::ClaimRefund { .. } => {
                    if reply == Reply::Accepted {
                        Ok(Step::Done(Completion::RefundClaimed))
                    } else {
                        Err(Error::RefundTransferFailed)
                    }
                },
                Pending::Finalize { auction_id, finalizer, reward_bps, stage } => {
                    match self.finalize_reply_check(auction_id, finalizer, reward_bps, stage, reply) {
                        Ok(_) => Ok(
                            MarketplaceService::next_finalize_step(
                                self,
                                auction_id,
                                finalizer,
                                reward_bps,
                                stage,
                            ),
                        ),
                        Err(e) => Err(e),
                    }
                },
                Pending::ClaimPayout { .. } => {
                    if reply == Reply::Accepted {
                        Ok(Step::Done(Completion::PayoutClaimed))
                    } else {
                        Err(Error::PayoutTransferFailed)
                    }
                },
                Pending::ClaimNft { .. } => {
                    if reply == Reply::Accepted {
                        Ok(Step::Done(Completion::NftClaimed))
                    } else {
                        Err(Error::NftTransferFailed)
                    }
                },
            }
        }
    }

    /// The state after `pending` was resumed with `reply`.
    pub open spec fn resume_state(self, pending: Pending, reply: Reply) -> StorageView {
        if !self.in_flight(pending) {
            self
        } else {
            match pending {
                Pending::CreateAuction {
                    seller,
                    nft_program_id,
                    token_id,
                    start_price,
                    end_time_ms,
                    extension_window_ms,
                    min_bid_increment,
                } => {
                    if self.create_auction_reply_check(nft_program_id, token_id, reply) is Ok {
                        self.after_create(
                            Auction {
                                nft_program_id,
                                token_id,
                                seller,
                                start_price,
                                highest_bid: U256::from_nat(0),
                                highest_bidder: None,
                                end_time_ms,
                                settled: false,
                                extension_window_ms,
                                min_bid_increment,
                            },
                        )
                    } else {
                        self
                    }
                },
                Pending::CancelAuction { auction_id } => self.after_cancel(auction_id, reply),
                Pending::Bid { auction_id, bidder, amount, now } => {
                    if self.bid_reply_check(auction_id, now, reply) is Ok {
                        self.after_bid(auction_id, bidder, amount, now)
                    } else if reply != Reply::Accepted {
                        self.without_lock(auction_id)
                    } else {
                        self
                    }
                },
                Pending::ClaimRefund { caller, amount } => {
                    if reply == Reply::Accepted {
                        self
                    } else {
                        StorageView {
                            pending_refunds: self.pending_refunds.insert(caller, amount),
                            ..self
                        }
                    }
                },
                Pending::Finalize { auction_id, finalizer, reward_bps, stage } => {
                    let taken = self.after_finalize_reply(
                        auction_id,
                        finalizer,
                        reward_bps,
                        stage,
                        reply,
                    );
                    if self.finalize_reply_check(auction_id, finalizer, reward_bps, stage, reply)
                        is Err {
                        self
                    } else if self.auctions[auction_id].stage_after(reward_bps, stage) is Some {
                        taken
                    } else {
                        taken.without_settled(auction_id)
                    }
                },
                Pending::ClaimPayout { caller, amount } => {
                    if reply == Reply::Accepted {
                        self
                    } else {
                        StorageView {
                            pending_payouts: self.pending_payouts.insert(caller, amount),
                            ..self
                        }
                    }
                },
                Pending::ClaimNft { auction_id, recipient, token_id, nft_program_id } => {
                    if reply == Reply::Accepted {
                        self
                    } else {
                        StorageView {
                            pending_nft_returns: self.pending_nft_returns.insert(
                                auction_id,
                                (recipient, token_id, nft_program_id),
                            ),
                            ..self
                        }
                    }
                },
            }
        }
    }

    /// The events that resuming `pending` with `reply` emits; none where the
    /// result is an error.
    pub open spec fn resume_events(self, pending: Pending, reply: Reply) -> Seq<Event> {
        if self.resume_result(pending, reply) is Err {
            Seq::empty()
        } else {
            match pending {
                Pending::CreateAuction {
                    seller,
                    nft_program_id,
                    token_id,
                    start_price,
                    end_time_ms,
                    ..
                } => seq![
                    Event::AuctionCreated {
                        auction_id: self.next_auction_id,
                        nft_program_id,
                        token_id,
                        seller,
                        start_price,
                        end_time_ms,
                    },
                ],
                Pending::CancelAuction { auction_id } => self.nft_events(
                    auction_id,
                    self.auctions[auction_id].seller,
                    reply,
                ).push(Event::AuctionCancelled { auction_id }),
                Pending::Bid { auction_id, bidder, amount, now } => self.bid_events(
                    auction_id,
                    bidder,
                    amount,
                    now,
                ),
                Pending::ClaimRefund { caller, amount } => seq![
                    Event::RefundClaimed { user: caller, amount },
                ],
                Pending::Finalize { auction_id, finalizer, reward_bps, stage } => {
                    let taken = self.finalize_reply_events(
                        auction_id,
                        finalizer,
                        reward_bps,
                        stage,
                        reply,
                    );
                    if self.auctions[auction_id].stage_after(reward_bps, stage) is Some {
                        taken
                    } else {
                        taken.push(
                            self.auctions[auction_id].finalized_event(auction_id, reward_bps),
                        )
                    }
                },
                Pending::ClaimPayout { caller, amount } => seq![
                    Event::PayoutClaimed { recipient: caller, amount },
                ],
                Pending::ClaimNft { auction_id, recipient, token_id, .. } => seq![
                    Event::NftTransferClaimed { auction_id, recipient, token_id },
                ],
            }
        }
    }
}

impl MarketplaceService {
    /// Whether `pending` can be resumed in the current state.
    pub fn is_in_flight(&self, pending: &Pending) -> (r: bool)
        ensures
            r == self.state().in_flight(*pending),
    {
        match pending {
            Pending::CreateAuction { .. } => true,
            Pending::CancelAuction { auction_id } => self.live_and_locked(*auction_id),
            Pending::Bid { auction_id, .. } => self.live_and_locked(*auction_id),
            Pending::ClaimRefund { amount, .. } => !amount.is_zero(),
            Pending::Finalize { auction_id, reward_bps, stage, .. } => {
                match self.storage.auctions.get(*auction_id) {
                    Some(auction) => {
                        let has_winner = auction.highest_bidder.is_some();
                        let needs_winner = match stage {
                            FinalizeStage::ReturnNft => false,
                            _ => true,
                        };
                        let reward_fits = funcs::calculate_finalizer_reward(
                            auction.highest_bid,
                            *reward_bps,
                        ).is_ok();
                        self.storage.locked_auctions.contains(*auction_id) && auction.settled
                            && *reward_bps <= MAX_FINALIZER_REWARD_BPS && reward_fits
                            && (!needs_winner || has_winner)
                    },
                    None => false,
                }
            },
            Pending::ClaimPayout { amount, .. } => !amount.is_zero(),
            Pending::ClaimNft { .. } => true,
        }
    }

    fn live_and_locked(&self, auction_id: u64) -> (r: bool)
        ensures
            r == self.state().holds_lock(auction_id),
    {
        match self.storage.auctions.get(auction_id) {
            Some(auction) => self.storage.locked_auctions.contains(auction_id) && !auction.settled,
            None => false,
        }
    }

    /// Resumes the pending operation with the reply to the call it waited
    /// for.
    ///
    /// An operation that is not in flight in this state is refused with
    /// `NotInFlight`. Otherwise the result, the state and the events are
    /// those of the operation's own `_reply` function, collected in
    /// `resume_result`, `resume_state` and `resume_events`.
    #[verifier::rlimit(50)]
    pub fn resume(&mut self, pending: Pending, reply: Reply) -> (r: Result<Step, Error>)
        requires
            old(self).wf(),
        ensures
            final(self).wf(),
            r == old(self).state().resume_result(pending, reply),
            final(self).state() == old(self).state().resume_state(pending, reply),
            final(self).emitted() == old(self).emitted() + old(self).state().resume_events(
                pending,
                reply,
            ),
    {
        if !self.is_in_flight(&pending) {
            proof {
                assert(self.events@ =~= old(self).emitted() + Seq::<Event>::empty());
            }
            return Err(Error::NotInFlight);
        }
        let ghost log = self.events@;
        let r = match pending {
            Pending::CreateAuction {
                seller,
                nft_program_id,
                token_id,
                start_price,
                end_time_ms,
                extension_window_ms,
                min_bid_increment,
            } => self.create_auction_reply(
                seller,
                nft_program_id,
                token_id,
                start_price,
                end_time_ms,
                extension_window_ms,
                min_bid_increment,
                reply,
            ),
            Pending::CancelAuction { auction_id } => self.cancel_auction_reply(auction_id, reply),
            Pending::Bid { auction_id, bidder, amount, now } => self.bid_reply(
                auction_id,
                bidder,
                amount,
                now,
                reply,
            ),
            Pending::ClaimRefund { caller, amount } => self.claim_refund_reply(
                caller,
                amount,
                reply,
            ),
            Pending::Finalize { auction_id, finalizer, reward_bps, stage } => self.finalize_reply(
                auction_id,
                finalizer,
                reward_bps,
                stage,
                reply,
            ),
            Pending::ClaimPayout { caller, amount } => self.claim_payout_reply(
                caller,
                amount,
                reply,
            ),
            Pending::ClaimNft {
                auction_id,
                recipient,
                token_id,
                nft_program_id,
            } => self.claim_nft_reply(auction_id, recipient, token_id, nft_program_id, reply),
        };
        proof {
            assert(self.events@ =~= log + old(self).state().resume_events(pending, reply));
        }
        r
    }
}

/// The end time of `auction` after a bid at `now`, or `None` where it does
/// not fit in 64 bits.
fn end_after_bid(auction: &Auction, now: u64) -> (r: Option<u64>)
    ensures
        r == (if auction.end_after_bid(now) > u64::MAX {
            None
        } else {
            Some(auction.end_after_bid(now) as u64)
        }),
{
    let time_remaining: u64 = if auction.end_time_ms >= now {
        auction.end_time_ms - now
    } else {
        0
    };
    if time_remaining <= auction.extension_window_ms {
        now.checked_add(auction.extension_window_ms)
    } else {
        Some(auction.end_time_ms)
    }
}

} // verus!
