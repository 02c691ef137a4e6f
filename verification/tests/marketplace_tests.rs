//! The auction engine, driven against a token and an NFT ledger the way a
//! host would drive it: every call that a step asks for is made on the other
//! contract, and its reply is handed back.

use line_market::actor::ActorId;
use line_market::line_token::LineTokenService;
use line_market::marketplace::{
    Auction, Call, Completion, Error, Event, FinalizeStage, MarketplaceService, Pending, Reply,
    Step,
};
use line_market::nft::NftService;
use line_market::u256::U256;

const ADMIN: u64 = 1;
const BIDDER1: u64 = 2;
const BIDDER2: u64 = 3;
const CAROL: u64 = 4;
const NFT_PROGRAM: u64 = 100;
const LINE_PROGRAM: u64 = 101;
const MARKET_PROGRAM: u64 = 102;

const MINUTE: u64 = 60_000;
const SECOND: u64 = 1_000;

fn actor_id(id: u64) -> ActorId {
    ActorId::new(sails_rs::ActorId::from(id).into_bytes())
}

fn amount(n: u64) -> U256 {
    U256::from(n)
}

/// The three contracts and the clock.
struct World {
    token: LineTokenService,
    nft: NftService,
    market: MarketplaceService,
    now: u64,
    /// Accounts to which the token refuses transfers.
    blacklist: Vec<ActorId>,
    /// While set, the NFT ledger answers every call with a failure.
    nft_down: bool,
}

impl World {
    /// Admin deploys everything, makes the engine an admin of the ledger,
    /// mints 1000 to each bidder and the NFTs 7, 8 and 9 to itself.
    fn new() -> World {
        let admin = actor_id(ADMIN);
        let mut token = LineTokenService::init(admin, "LINE".to_string(), "LINE".to_string(), 12);
        for who in [BIDDER1, BIDDER2] {
            assert_eq!(token.mint(admin, actor_id(who), amount(1000)), Ok(true));
        }
        let mut nft = NftService::init(admin, Some(vec![actor_id(MARKET_PROGRAM)]));
        for token_id in [7, 8, 9] {
            assert_eq!(nft.mint(admin, admin, token_id, format!("ipfs://nft{}", token_id)), Ok(true));
        }
        let market = MarketplaceService::init(admin, actor_id(LINE_PROGRAM));
        World { token, nft, market, now: 1_000_000, blacklist: Vec::new(), nft_down: false }
    }

    /// Makes a call on the contract it is addressed to, as the engine.
    fn perform(&mut self, call: Call) -> Reply {
        let engine = actor_id(MARKET_PROGRAM);
        let answer = match call {
            Call::NftTransferFrom { nft_program_id, from, to, token_id } => {
                assert_eq!(nft_program_id, actor_id(NFT_PROGRAM));
                if self.nft_down {
                    return Reply::Failed;
                }
                self.nft.transfer_from(engine, from, to, token_id).map_err(|_| ())
            }
            Call::LineTransfer { line_program_id, to, value } => {
                assert_eq!(line_program_id, actor_id(LINE_PROGRAM));
                if self.blacklist.contains(&to) {
                    Ok(false)
                } else {
                    self.token.transfer(engine, to, value).map_err(|_| ())
                }
            }
            Call::LineTransferFrom { line_program_id, from, to, value } => {
                assert_eq!(line_program_id, actor_id(LINE_PROGRAM));
                self.token.transfer_from(engine, from, to, value).map_err(|_| ())
            }
        };
        match answer {
            Ok(true) => Reply::Accepted,
            Ok(false) => Reply::Declined,
            Err(()) => Reply::Failed,
        }
    }

    /// Runs an operation to its end.
    fn drive(&mut self, first: Result<Step, Error>) -> Result<Completion, Error> {
        let mut step = first?;
        loop {
            match step {
                Step::Call(call, pending) => {
                    let reply = self.perform(call);
                    step = self.market.resume(pending, reply)?;
                }
                Step::Done(completion) => return Ok(completion),
            }
        }
    }

    fn create(&mut self, caller: u64, token_id: u64, start: u64, duration: u64, window: u64, increment: u64)
        -> Result<Completion, Error> {
        let first = self.market.create_auction(
            actor_id(caller),
            self.now,
            actor_id(MARKET_PROGRAM),
            actor_id(NFT_PROGRAM),
            token_id,
            amount(start),
            duration,
            window,
            amount(increment),
        );
        self.drive(first)
    }

    /// The auction that most tests run on: NFT 7, start 100, one minute,
    /// window 10 s, increment 10. It gets the identifier 1.
    fn create_default(&mut self) -> u64 {
        assert_eq!(
            self.create(ADMIN, 7, 100, MINUTE, 10 * SECOND, 10),
            Ok(Completion::AuctionCreated { auction_id: 1 })
        );
        self.market.take_events();
        1
    }

    /// Approves the engine for exactly the bid, then bids.
    fn bid(&mut self, bidder: u64, auction_id: u64, bid: u64) -> Result<Completion, Error> {
        self.token.approve(actor_id(bidder), actor_id(MARKET_PROGRAM), amount(bid));
        let first = self.market.bid(
            actor_id(bidder),
            self.now,
            actor_id(MARKET_PROGRAM),
            auction_id,
            amount(bid),
        );
        self.drive(first)
    }

    fn finalize(&mut self, caller: u64, auction_id: u64) -> Result<Completion, Error> {
        let first = self.market.finalize_auction(
            actor_id(caller),
            self.now,
            actor_id(MARKET_PROGRAM),
            auction_id,
        );
        self.drive(first)
    }

    fn cancel(&mut self, caller: u64, auction_id: u64) -> Result<Completion, Error> {
        let first = self.market.cancel_auction(
            actor_id(caller),
            self.now,
            actor_id(MARKET_PROGRAM),
            auction_id,
        );
        self.drive(first)
    }

    fn claim_refund(&mut self, caller: u64) -> Result<Completion, Error> {
        let first = self.market.claim_refund(actor_id(caller));
        self.drive(first)
    }

    fn claim_payout(&mut self, caller: u64) -> Result<Completion, Error> {
        let first = self.market.claim_payout(actor_id(caller));
        self.drive(first)
    }

    fn claim_nft(&mut self, caller: u64, auction_id: u64) -> Result<Completion, Error> {
        let first = self.market.claim_nft(actor_id(caller), actor_id(MARKET_PROGRAM), auction_id);
        self.drive(first)
    }

    fn balance(&self, who: u64) -> U256 {
        self.token.balance_of(actor_id(who))
    }

    fn end_time(&self, auction_id: u64) -> u64 {
        self.market.get_auction(auction_id).expect("auction").end_time_ms
    }
}

// ---------------------------------------------------------------------------
// Creation
// ---------------------------------------------------------------------------

#[test]
fn test_create_auction_by_admin() {
    let mut world = World::new();

    let done = world.create(ADMIN, 7, 100, MINUTE, 10 * SECOND, 10);

    assert_eq!(done, Ok(Completion::AuctionCreated { auction_id: 1 }));
    assert_eq!(world.market.next_auction_id(), 2);
    assert_eq!(world.nft.owner_of(7), Some(actor_id(MARKET_PROGRAM)));
    assert_eq!(
        world.market.take_events(),
        vec![Event::AuctionCreated {
            auction_id: 1,
            nft_program_id: actor_id(NFT_PROGRAM),
            token_id: 7,
            seller: actor_id(ADMIN),
            start_price: amount(100),
            end_time_ms: 1_000_000 + MINUTE,
        }]
    );
}

#[test]
fn test_create_auction_by_non_admin_fails() {
    let mut world = World::new();

    assert_eq!(world.create(BIDDER1, 7, 100, MINUTE, 10 * SECOND, 10), Err(Error::NotAdmin));

    assert_eq!(world.market.next_auction_id(), 1);
    assert_eq!(world.market.get_auction(1), None);
    assert_eq!(world.nft.owner_of(7), Some(actor_id(ADMIN)));
}

#[test]
fn test_create_auction_duration_too_short() {
    let mut world = World::new();

    assert_eq!(world.create(ADMIN, 7, 100, MINUTE - 1, 0, 0), Err(Error::DurationTooShort));
    assert_eq!(world.create(ADMIN, 7, 100, MINUTE, 0, 0), Ok(Completion::AuctionCreated { auction_id: 1 }));
}

#[test]
fn test_create_auction_zero_start_price_fails() {
    let mut world = World::new();

    assert_eq!(world.create(ADMIN, 7, 0, MINUTE, 0, 0), Err(Error::ZeroStartPrice));
}

#[test]
fn test_create_auction_duplicate_nft_fails() {
    let mut world = World::new();
    world.create_default();

    assert_eq!(world.create(ADMIN, 7, 100, MINUTE, 0, 0), Err(Error::AuctionAlreadyExists));
    assert_eq!(world.market.next_auction_id(), 2);
}

#[test]
fn create_auction_checks_its_limits() {
    let mut world = World::new();
    let thirty_days = 2_592_000_000u64;
    let hour = 3_600_000u64;

    assert_eq!(world.create(ADMIN, 7, 1, thirty_days + 1, 0, 0), Err(Error::DurationTooLong));
    assert_eq!(world.create(ADMIN, 7, 1, MINUTE, hour + 1, 0), Err(Error::ExtensionWindowTooLong));
    world.now = u64::MAX - MINUTE + 1;
    assert_eq!(world.create(ADMIN, 7, 1, MINUTE, 0, 0), Err(Error::EndTimeOverflow));
    world.now = 5;
    assert_eq!(
        world.create(ADMIN, 7, 1, thirty_days, hour, 0),
        Ok(Completion::AuctionCreated { auction_id: 1 })
    );
    assert_eq!(world.end_time(1), 5 + thirty_days);
}

#[test]
fn create_auction_needs_the_escrow() {
    let mut world = World::new();

    // The seller does not own token 11: the ledger refuses the escrow.
    assert_eq!(world.create(ADMIN, 11, 100, MINUTE, 0, 0), Err(Error::NftEscrowFailed));
    assert_eq!(world.market.next_auction_id(), 1);

    // A ledger that answers `false` is told apart from one that fails.
    let step = world
        .market
        .create_auction(
            actor_id(ADMIN),
            world.now,
            actor_id(MARKET_PROGRAM),
            actor_id(NFT_PROGRAM),
            7,
            amount(100),
            MINUTE,
            0,
            amount(0),
        )
        .expect("accepted");
    let Step::Call(call, pending) = step else { panic!("a call was expected") };
    assert_eq!(
        call,
        Call::NftTransferFrom {
            nft_program_id: actor_id(NFT_PROGRAM),
            from: actor_id(ADMIN),
            to: actor_id(MARKET_PROGRAM),
            token_id: 7,
        }
    );
    assert_eq!(world.market.resume(pending, Reply::Declined), Err(Error::NftEscrowDeclined));
    assert_eq!(world.market.get_auction(1), None);
    assert!(world.market.take_events().is_empty());
}

#[test]
fn create_auction_refuses_a_token_taken_meanwhile() {
    let mut world = World::new();
    let begin = |world: &mut World| {
        world
            .market
            .create_auction(
                actor_id(ADMIN),
                world.now,
                actor_id(MARKET_PROGRAM),
                actor_id(NFT_PROGRAM),
                7,
                amount(100),
                MINUTE,
                0,
                amount(0),
            )
            .expect("accepted")
    };
    let Step::Call(_, first) = begin(&mut world) else { panic!("a call was expected") };
    let Step::Call(_, second) = begin(&mut world) else { panic!("a call was expected") };

    assert_eq!(
        world.market.resume(first, Reply::Accepted),
        Ok(Step::Done(Completion::AuctionCreated { auction_id: 1 }))
    );
    assert_eq!(world.market.resume(second, Reply::Accepted), Err(Error::AuctionAlreadyExists));
    assert_eq!(world.market.next_auction_id(), 2);
}

// ---------------------------------------------------------------------------
// Bidding
// ---------------------------------------------------------------------------

#[test]
fn test_bid_first_bid_at_start_price() {
    let mut world = World::new();
    let id = world.create_default();

    assert_eq!(world.bid(BIDDER1, id, 100), Ok(Completion::BidPlaced));

    let auction = world.market.get_auction(id).expect("auction");
    assert_eq!(auction.highest_bid, amount(100));
    assert_eq!(auction.highest_bidder, Some(actor_id(BIDDER1)));
    assert_eq!(world.balance(BIDDER1), amount(900));
    assert_eq!(world.balance(MARKET_PROGRAM), amount(100));
    assert_eq!(
        world.market.take_events(),
        vec![Event::BidPlaced {
            auction_id: id,
            bidder: actor_id(BIDDER1),
            amount: amount(100),
            new_end_time_ms: 1_000_000 + MINUTE,
        }]
    );
}

#[test]
fn test_bid_below_start_price_fails() {
    let mut world = World::new();
    let id = world.create_default();

    assert_eq!(world.bid(BIDDER1, id, 99), Err(Error::BidBelowStartPrice));

    assert_eq!(world.market.get_auction(id).expect("auction").highest_bidder, None);
    assert_eq!(world.balance(BIDDER1), amount(1000));
}

#[test]
fn test_bid_outbids_previous() {
    let mut world = World::new();
    let id = world.create_default();
    assert_eq!(world.bid(BIDDER1, id, 100), Ok(Completion::BidPlaced));
    world.market.take_events();

    assert_eq!(world.bid(BIDDER2, id, 150), Ok(Completion::BidPlaced));

    assert_eq!(world.market.get_pending_refund(actor_id(BIDDER1)), amount(100));
    let auction = world.market.get_auction(id).expect("auction");
    assert_eq!(auction.highest_bid, amount(150));
    assert_eq!(auction.highest_bidder, Some(actor_id(BIDDER2)));
    assert_eq!(world.balance(MARKET_PROGRAM), amount(250));
    assert_eq!(
        world.market.take_events(),
        vec![
            Event::RefundQueued { user: actor_id(BIDDER1), amount: amount(100) },
            Event::BidPlaced {
                auction_id: id,
                bidder: actor_id(BIDDER2),
                amount: amount(150),
                new_end_time_ms: 1_000_000 + MINUTE,
            },
        ]
    );
}

#[test]
fn test_bid_below_increment_fails() {
    let mut world = World::new();
    let id = world.create_default();
    assert_eq!(world.bid(BIDDER1, id, 100), Ok(Completion::BidPlaced));

    assert_eq!(world.bid(BIDDER2, id, 109), Err(Error::BidBelowIncrement));
    assert_eq!(world.bid(BIDDER2, id, 110), Ok(Completion::BidPlaced));
}

#[test]
fn test_bid_after_end_time_fails() {
    let mut world = World::new();
    let id = world.create_default();
    let end = world.end_time(id);

    world.now = end + 1;
    assert_eq!(world.bid(BIDDER1, id, 100), Err(Error::AuctionEnded));
    world.now = end;
    assert_eq!(world.bid(BIDDER1, id, 100), Err(Error::AuctionEnded));
    world.now = end - 1;
    assert_eq!(world.bid(BIDDER1, id, 100), Ok(Completion::BidPlaced));
}

#[test]
fn test_bid_on_settled_auction_fails() {
    let mut world = World::new();
    let id = world.create_default();
    assert_eq!(world.bid(BIDDER1, id, 100), Ok(Completion::BidPlaced));
    world.now += MINUTE;

    // While the finalization waits for its first reply the auction is
    // settled but still recorded.
    let step = world
        .market
        .finalize_auction(actor_id(CAROL), world.now, actor_id(MARKET_PROGRAM), id)
        .expect("accepted");
    assert!(world.market.get_auction(id).expect("auction").settled);
    let bid = world.market.bid(
        actor_id(BIDDER2),
        world.now,
        actor_id(MARKET_PROGRAM),
        id,
        amount(200),
    );
    assert_eq!(bid, Err(Error::AuctionSettled));

    // Once finalized it is gone.
    assert_eq!(world.drive(Ok(step)), Ok(Completion::AuctionFinalized));
    assert_eq!(world.bid(BIDDER2, id, 200), Err(Error::AuctionNotFound));
}

#[test]
fn test_bid_anti_snipe_extends_auction() {
    let mut world = World::new();
    let id = world.create_default();
    let end = world.end_time(id);

    // Exactly one window before the end: the bid extends.
    world.now = end - 10 * SECOND;
    assert_eq!(world.bid(BIDDER1, id, 100), Ok(Completion::BidPlaced));

    assert_eq!(world.end_time(id), world.now + 10 * SECOND);
    assert_eq!(world.end_time(id), end);

    world.now = end - 1;
    assert_eq!(world.bid(BIDDER2, id, 110), Ok(Completion::BidPlaced));
    assert_eq!(world.end_time(id), end - 1 + 10 * SECOND);
}

#[test]
fn test_bid_outside_extension_window_no_extension() {
    let mut world = World::new();
    let id = world.create_default();
    let end = world.end_time(id);

    // One millisecond more than the window is left: no extension.
    world.now = end - 10 * SECOND - 1;
    assert_eq!(world.bid(BIDDER1, id, 100), Ok(Completion::BidPlaced));

    assert_eq!(world.end_time(id), end);
}

#[test]
fn bid_cannot_outbid_oneself() {
    let mut world = World::new();
    let id = world.create_default();
    assert_eq!(world.bid(BIDDER1, id, 100), Ok(Completion::BidPlaced));

    assert_eq!(world.bid(BIDDER1, id, 200), Err(Error::SelfOutbid));
    assert_eq!(world.market.get_auction(id).expect("auction").highest_bid, amount(100));
}

#[test]
fn bid_without_allowance_fails_and_unlocks() {
    let mut world = World::new();
    let id = world.create_default();

    let first = world.market.bid(
        actor_id(BIDDER1),
        world.now,
        actor_id(MARKET_PROGRAM),
        id,
        amount(100),
    );
    assert_eq!(world.drive(first), Err(Error::BidTransferFailed));

    assert_eq!(world.market.get_auction(id).expect("auction").highest_bidder, None);
    assert!(world.market.take_events().is_empty());
    // The lock is gone: the next bid goes through.
    assert_eq!(world.bid(BIDDER1, id, 100), Ok(Completion::BidPlaced));
}

#[test]
fn bid_declined_by_the_token_fails_and_unlocks() {
    let mut world = World::new();
    let id = world.create_default();
    let step = world
        .market
        .bid(actor_id(BIDDER1), world.now, actor_id(MARKET_PROGRAM), id, amount(100))
        .expect("accepted");
    let Step::Call(call, pending) = step else { panic!("a call was expected") };
    assert_eq!(
        call,
        Call::LineTransferFrom {
            line_program_id: actor_id(LINE_PROGRAM),
            from: actor_id(BIDDER1),
            to: actor_id(MARKET_PROGRAM),
            value: amount(100),
        }
    );
    assert_eq!(
        pending,
        Pending::Bid { auction_id: id, bidder: actor_id(BIDDER1), amount: amount(100), now: world.now }
    );

    assert_eq!(world.market.resume(pending, Reply::Declined), Err(Error::BidTransferDeclined));

    assert!(!world.market.is_in_flight(&pending));
    assert_eq!(world.bid(BIDDER2, id, 100), Ok(Completion::BidPlaced));
}

#[test]
fn bid_that_would_overflow_the_minimum_is_refused() {
    let mut world = World::new();
    let max = U256 { l0: u64::MAX, l1: u64::MAX, l2: u64::MAX, l3: u64::MAX };
    let first = world.market.create_auction(
        actor_id(ADMIN),
        world.now,
        actor_id(MARKET_PROGRAM),
        actor_id(NFT_PROGRAM),
        7,
        amount(100),
        MINUTE,
        0,
        max,
    );
    assert_eq!(world.drive(first), Ok(Completion::AuctionCreated { auction_id: 1 }));
    assert_eq!(world.bid(BIDDER1, 1, 100), Ok(Completion::BidPlaced));

    assert_eq!(world.bid(BIDDER2, 1, 1000), Err(Error::BidOverflow));
}

// ---------------------------------------------------------------------------
// Refunds
// ---------------------------------------------------------------------------

#[test]
fn test_claim_refund_success() {
    let mut world = World::new();
    let id = world.create_default();
    assert_eq!(world.bid(BIDDER1, id, 100), Ok(Completion::BidPlaced));
    assert_eq!(world.bid(BIDDER2, id, 150), Ok(Completion::BidPlaced));
    world.market.take_events();

    assert_eq!(world.claim_refund(BIDDER1), Ok(Completion::RefundClaimed));

    assert_eq!(world.market.get_pending_refund(actor_id(BIDDER1)), amount(0));
    assert_eq!(world.balance(BIDDER1), amount(1000));
    assert_eq!(world.balance(MARKET_PROGRAM), amount(150));
    assert_eq!(
        world.market.take_events(),
        vec![Event::RefundClaimed { user: actor_id(BIDDER1), amount: amount(100) }]
    );
}

#[test]
fn test_claim_refund_no_pending_fails() {
    let mut world = World::new();

    assert_eq!(world.claim_refund(BIDDER1), Err(Error::NoPendingRefund));
}

#[test]
fn test_refund_accumulates() {
    let mut world = World::new();
    let id = world.create_default();
    assert_eq!(world.bid(BIDDER1, id, 100), Ok(Completion::BidPlaced));
    assert_eq!(world.bid(BIDDER2, id, 110), Ok(Completion::BidPlaced));
    assert_eq!(world.bid(BIDDER1, id, 120), Ok(Completion::BidPlaced));
    assert_eq!(world.bid(BIDDER2, id, 130), Ok(Completion::BidPlaced));

    assert_eq!(world.market.get_pending_refund(actor_id(BIDDER1)), amount(220));
    assert_eq!(world.market.get_pending_refund(actor_id(BIDDER2)), amount(110));
    assert_eq!(world.balance(MARKET_PROGRAM), amount(460));
}

#[test]
fn claim_refund_that_fails_can_be_retried() {
    let mut world = World::new();
    let id = world.create_default();
    assert_eq!(world.bid(BIDDER1, id, 100), Ok(Completion::BidPlaced));
    assert_eq!(world.bid(BIDDER2, id, 150), Ok(Completion::BidPlaced));
    world.market.take_events();

    world.blacklist.push(actor_id(BIDDER1));
    assert_eq!(world.claim_refund(BIDDER1), Err(Error::RefundTransferFailed));
    assert_eq!(world.market.get_pending_refund(actor_id(BIDDER1)), amount(100));
    assert!(world.market.take_events().is_empty());

    world.blacklist.clear();
    assert_eq!(world.claim_refund(BIDDER1), Ok(Completion::RefundClaimed));
    assert_eq!(world.market.get_pending_refund(actor_id(BIDDER1)), amount(0));
    assert_eq!(world.claim_refund(BIDDER1), Err(Error::NoPendingRefund));
}

// ---------------------------------------------------------------------------
// Finalization
// ---------------------------------------------------------------------------

#[test]
fn test_finalize_before_end_fails() {
    let mut world = World::new();
    let id = world.create_default();
    let end = world.end_time(id);

    world.now = end - 1;
    assert_eq!(world.finalize(CAROL, id), Err(Error::AuctionNotEnded));
    world.now = end;
    assert_eq!(world.finalize(CAROL, id), Ok(Completion::AuctionFinalized));
}

#[test]
fn test_finalize_success_with_bids() {
    let mut world = World::new();
    let id = world.create_default();
    assert_eq!(world.bid(BIDDER1, id, 100), Ok(Completion::BidPlaced));
    world.market.take_events();
    world.now += MINUTE;

    assert_eq!(world.finalize(CAROL, id), Ok(Completion::AuctionFinalized));

    assert_eq!(world.nft.owner_of(7), Some(actor_id(BIDDER1)));
    assert_eq!(world.balance(ADMIN), amount(100));
    assert_eq!(world.balance(MARKET_PROGRAM), amount(0));
    assert_eq!(world.market.get_auction(id), None);
    assert_eq!(
        world.market.take_events(),
        vec![Event::AuctionFinalized {
            auction_id: id,
            winner: Some(actor_id(BIDDER1)),
            winning_bid: amount(100),
            seller_payout: amount(100),
            finalizer_reward: amount(0),
        }]
    );
}

#[test]
fn test_finalize_success_no_bids() {
    let mut world = World::new();
    let id = world.create_default();
    world.now += MINUTE;

    let step = world
        .market
        .finalize_auction(actor_id(CAROL), world.now, actor_id(MARKET_PROGRAM), id)
        .expect("accepted");
    assert_eq!(
        step,
        Step::Call(
            Call::NftTransferFrom {
                nft_program_id: actor_id(NFT_PROGRAM),
                from: actor_id(MARKET_PROGRAM),
                to: actor_id(ADMIN),
                token_id: 7,
            },
            Pending::Finalize {
                auction_id: id,
                finalizer: actor_id(CAROL),
                reward_bps: 0,
                stage: FinalizeStage::ReturnNft,
            },
        )
    );
    assert_eq!(world.drive(Ok(step)), Ok(Completion::AuctionFinalized));

    assert_eq!(world.nft.owner_of(7), Some(actor_id(ADMIN)));
    assert_eq!(world.market.get_auction(id), None);
    assert_eq!(
        world.market.take_events(),
        vec![Event::AuctionFinalized {
            auction_id: id,
            winner: None,
            winning_bid: amount(0),
            seller_payout: amount(0),
            finalizer_reward: amount(0),
        }]
    );
}

#[test]
fn finalize_without_bids_queues_an_nft_that_cannot_return() {
    let mut world = World::new();
    let id = world.create_default();
    world.now += MINUTE;
    world.nft_down = true;

    assert_eq!(world.finalize(CAROL, id), Ok(Completion::AuctionFinalized));

    assert_eq!(
        world.market.get_pending_nft(id),
        Some((actor_id(ADMIN), 7, actor_id(NFT_PROGRAM)))
    );
    assert_eq!(
        world.market.take_events(),
        vec![
            Event::NftTransferQueued { auction_id: id, recipient: actor_id(ADMIN), token_id: 7 },
            Event::AuctionFinalized {
                auction_id: id,
                winner: None,
                winning_bid: amount(0),
                seller_payout: amount(0),
                finalizer_reward: amount(0),
            },
        ]
    );
}

#[test]
fn test_finalize_twice_fails() {
    let mut world = World::new();
    let id = world.create_default();
    world.now += MINUTE;
    assert_eq!(world.finalize(CAROL, id), Ok(Completion::AuctionFinalized));

    assert_eq!(world.finalize(CAROL, id), Err(Error::AuctionNotFound));
}

#[test]
fn finalize_of_a_settled_auction_fails() {
    let mut world = World::new();
    let id = world.create_default();
    world.now += MINUTE;
    let _waiting = world
        .market
        .finalize_auction(actor_id(CAROL), world.now, actor_id(MARKET_PROGRAM), id)
        .expect("accepted");

    let again = world.market.finalize_auction(
        actor_id(BIDDER1),
        world.now,
        actor_id(MARKET_PROGRAM),
        id,
    );

    assert_eq!(again, Err(Error::AuctionSettled));
}

#[test]
fn test_finalize_permissionless() {
    let mut world = World::new();
    let id = world.create_default();
    assert_eq!(world.bid(BIDDER1, id, 100), Ok(Completion::BidPlaced));
    world.now += MINUTE;

    assert!(!world.market.is_admin(actor_id(BIDDER2)));
    assert_eq!(world.finalize(BIDDER2, id), Ok(Completion::AuctionFinalized));
}

#[test]
fn test_finalize_calculates_reward_correctly() {
    let mut world = World::new();
    assert_eq!(world.market.set_finalizer_reward_bps(actor_id(ADMIN), 250), Ok(true));
    let id = world.create_default();
    assert_eq!(world.bid(BIDDER1, id, 999), Ok(Completion::BidPlaced));
    world.market.take_events();
    world.now += MINUTE;

    assert_eq!(world.finalize(CAROL, id), Ok(Completion::AuctionFinalized));

    // floor(999 * 250 / 10_000) = 24, and the seller gets the rest.
    assert_eq!(world.balance(CAROL), amount(24));
    assert_eq!(world.balance(ADMIN), amount(975));
    assert_eq!(
        world.market.take_events(),
        vec![Event::AuctionFinalized {
            auction_id: id,
            winner: Some(actor_id(BIDDER1)),
            winning_bid: amount(999),
            seller_payout: amount(975),
            finalizer_reward: amount(24),
        }]
    );
}

#[test]
fn finalize_uses_the_reward_rate_of_its_beginning() {
    let mut world = World::new();
    assert_eq!(world.market.set_finalizer_reward_bps(actor_id(ADMIN), 100), Ok(true));
    let id = world.create_default();
    assert_eq!(world.bid(BIDDER1, id, 200), Ok(Completion::BidPlaced));
    world.now += MINUTE;
    let step = world
        .market
        .finalize_auction(actor_id(CAROL), world.now, actor_id(MARKET_PROGRAM), id)
        .expect("accepted");

    assert_eq!(world.market.set_finalizer_reward_bps(actor_id(ADMIN), 1000), Ok(true));
    assert_eq!(world.drive(Ok(step)), Ok(Completion::AuctionFinalized));

    assert_eq!(world.balance(CAROL), amount(2));
    assert_eq!(world.balance(ADMIN), amount(198));
}

#[test]
fn finalize_walks_through_its_stages() {
    let mut world = World::new();
    assert_eq!(world.market.set_finalizer_reward_bps(actor_id(ADMIN), 100), Ok(true));
    let id = world.create_default();
    assert_eq!(world.bid(BIDDER1, id, 150), Ok(Completion::BidPlaced));
    world.market.take_events();
    world.now += MINUTE;
    let pending = |stage| Pending::Finalize {
        auction_id: id,
        finalizer: actor_id(CAROL),
        reward_bps: 100,
        stage,
    };

    let first = world
        .market
        .finalize_auction(actor_id(CAROL), world.now, actor_id(MARKET_PROGRAM), id)
        .expect("accepted");
    assert_eq!(
        first,
        Step::Call(
            Call::NftTransferFrom {
                nft_program_id: actor_id(NFT_PROGRAM),
                from: actor_id(MARKET_PROGRAM),
                to: actor_id(BIDDER1),
                token_id: 7,
            },
            pending(FinalizeStage::DeliverNft),
        )
    );
    let second = world.market.resume(pending(FinalizeStage::DeliverNft), Reply::Failed);
    assert_eq!(
        second,
        Ok(Step::Call(
            Call::LineTransfer {
                line_program_id: actor_id(LINE_PROGRAM),
                to: actor_id(ADMIN),
                value: amount(149),
            },
            pending(FinalizeStage::PaySeller),
        ))
    );
    let third = world.market.resume(pending(FinalizeStage::PaySeller), Reply::Declined);
    assert_eq!(
        third,
        Ok(Step::Call(
            Call::LineTransfer {
                line_program_id: actor_id(LINE_PROGRAM),
                to: actor_id(CAROL),
                value: amount(1),
            },
            pending(FinalizeStage::PayFinalizer),
        ))
    );
    assert!(world.market.is_in_flight(&pending(FinalizeStage::PayFinalizer)));
    let last = world.market.resume(pending(FinalizeStage::PayFinalizer), Reply::Failed);
    assert_eq!(last, Ok(Step::Done(Completion::AuctionFinalized)));

    assert_eq!(
        world.market.get_pending_nft(id),
        Some((actor_id(BIDDER1), 7, actor_id(NFT_PROGRAM)))
    );
    assert_eq!(world.market.get_pending_payout(actor_id(ADMIN)), amount(149));
    assert_eq!(world.market.get_pending_payout(actor_id(CAROL)), amount(1));
    assert_eq!(world.market.get_auction(id), None);
    assert!(!world.market.is_in_flight(&pending(FinalizeStage::PayFinalizer)));
    assert_eq!(
        world.market.take_events(),
        vec![
            Event::NftTransferQueued { auction_id: id, recipient: actor_id(BIDDER1), token_id: 7 },
            Event::PayoutQueued { recipient: actor_id(ADMIN), amount: amount(149) },
            Event::PayoutQueued { recipient: actor_id(CAROL), amount: amount(1) },
            Event::AuctionFinalized {
                auction_id: id,
                winner: Some(actor_id(BIDDER1)),
                winning_bid: amount(150),
                seller_payout: amount(149),
                finalizer_reward: amount(1),
            },
        ]
    );
}

#[test]
fn finalize_is_refused_where_the_reward_would_overflow() {
    let mut world = World::new();
    // 2^250: a thousand times that leaves 256 bits, ten times does not.
    let huge = U256 { l0: 0, l1: 0, l2: 0, l3: 1 << 58 };
    assert_eq!(world.token.mint(actor_id(ADMIN), actor_id(BIDDER1), huge), Ok(true));
    assert_eq!(world.market.set_finalizer_reward_bps(actor_id(ADMIN), 1000), Ok(true));
    let id = world.create_default();
    world.token.approve(actor_id(BIDDER1), actor_id(MARKET_PROGRAM), huge);
    let first = world.market.bid(
        actor_id(BIDDER1),
        world.now,
        actor_id(MARKET_PROGRAM),
        id,
        huge,
    );
    assert_eq!(world.drive(first), Ok(Completion::BidPlaced));
    world.market.take_events();
    world.now += MINUTE;
    let before = world.market.get_auction(id);

    assert_eq!(world.finalize(CAROL, id), Err(Error::AmountOverflow));

    // Nothing was settled, locked or moved: the auction is as it was.
    assert_eq!(world.market.get_auction(id), before);
    assert!(!before.expect("auction").settled);
    assert_eq!(world.nft.owner_of(7), Some(actor_id(MARKET_PROGRAM)));
    assert_eq!(world.balance(MARKET_PROGRAM), huge);
    assert_eq!(world.balance(CAROL), amount(0));
    assert!(world.market.take_events().is_empty());
    // A finalization at that rate is not in flight either.
    let forged = Pending::Finalize {
        auction_id: id,
        finalizer: actor_id(CAROL),
        reward_bps: 1000,
        stage: FinalizeStage::DeliverNft,
    };
    assert!(!world.market.is_in_flight(&forged));
    assert_eq!(world.market.resume(forged, Reply::Accepted), Err(Error::NotInFlight));

    // At a rate whose product fits, the same auction finalizes.
    assert_eq!(world.market.set_finalizer_reward_bps(actor_id(ADMIN), 10), Ok(true));
    assert_eq!(world.finalize(CAROL, id), Ok(Completion::AuctionFinalized));
    let reward = sails_rs::U256([0, 0, 0, 1 << 58]) / sails_rs::U256::from(1000u64);
    let paid = world.balance(CAROL);
    assert_eq!([paid.l0, paid.l1, paid.l2, paid.l3], reward.0);
    assert_eq!(world.nft.owner_of(7), Some(actor_id(BIDDER1)));
    assert_eq!(world.balance(MARKET_PROGRAM), amount(0));
}

// ---------------------------------------------------------------------------
// Payouts
// ---------------------------------------------------------------------------

#[test]
fn test_claim_payout_success() {
    let mut world = World::new();
    let id = world.create_default();
    assert_eq!(world.bid(BIDDER1, id, 100), Ok(Completion::BidPlaced));
    world.now += MINUTE;
    world.blacklist.push(actor_id(ADMIN));
    assert_eq!(world.finalize(CAROL, id), Ok(Completion::AuctionFinalized));
    assert_eq!(world.market.get_pending_payout(actor_id(ADMIN)), amount(100));
    world.market.take_events();

    world.blacklist.clear();
    assert_eq!(world.claim_payout(ADMIN), Ok(Completion::PayoutClaimed));

    assert_eq!(world.market.get_pending_payout(actor_id(ADMIN)), amount(0));
    assert_eq!(world.balance(ADMIN), amount(100));
    assert_eq!(
        world.market.take_events(),
        vec![Event::PayoutClaimed { recipient: actor_id(ADMIN), amount: amount(100) }]
    );
}

#[test]
fn test_claim_payout_no_pending_fails() {
    let mut world = World::new();

    assert_eq!(world.claim_payout(ADMIN), Err(Error::NoPendingPayout));
}

#[test]
fn claim_payout_that_fails_can_be_retried() {
    let mut world = World::new();
    let id = world.create_default();
    assert_eq!(world.bid(BIDDER1, id, 100), Ok(Completion::BidPlaced));
    world.now += MINUTE;
    world.blacklist.push(actor_id(ADMIN));
    assert_eq!(world.finalize(CAROL, id), Ok(Completion::AuctionFinalized));

    assert_eq!(world.claim_payout(ADMIN), Err(Error::PayoutTransferFailed));
    assert_eq!(world.market.get_pending_payout(actor_id(ADMIN)), amount(100));
}

// ---------------------------------------------------------------------------
// NFT claims
// ---------------------------------------------------------------------------

/// An auction that Bidder 1 won while the ledger was down.
fn world_with_undelivered_nft() -> (World, u64) {
    let mut world = World::new();
    let id = world.create_default();
    assert_eq!(world.bid(BIDDER1, id, 100), Ok(Completion::BidPlaced));
    world.now += MINUTE;
    world.nft_down = true;
    assert_eq!(world.finalize(CAROL, id), Ok(Completion::AuctionFinalized));
    world.nft_down = false;
    world.market.take_events();
    (world, id)
}

#[test]
fn test_claim_nft_by_winner() {
    let (mut world, id) = world_with_undelivered_nft();
    assert_eq!(
        world.market.get_pending_nft(id),
        Some((actor_id(BIDDER1), 7, actor_id(NFT_PROGRAM)))
    );

    assert_eq!(world.claim_nft(BIDDER1, id), Ok(Completion::NftClaimed));

    assert_eq!(world.nft.owner_of(7), Some(actor_id(BIDDER1)));
    assert_eq!(world.market.get_pending_nft(id), None);
    assert_eq!(
        world.market.take_events(),
        vec![Event::NftTransferClaimed { auction_id: id, recipient: actor_id(BIDDER1), token_id: 7 }]
    );
}

#[test]
fn test_claim_nft_by_admin() {
    let (mut world, id) = world_with_undelivered_nft();

    assert_eq!(world.claim_nft(ADMIN, id), Ok(Completion::NftClaimed));

    // The NFT goes to the recipient, whoever claims.
    assert_eq!(world.nft.owner_of(7), Some(actor_id(BIDDER1)));
}

#[test]
fn test_claim_nft_by_non_recipient_fails() {
    let (mut world, id) = world_with_undelivered_nft();

    assert_eq!(world.claim_nft(BIDDER2, id), Err(Error::NotRecipientOrAdmin));

    assert_eq!(
        world.market.get_pending_nft(id),
        Some((actor_id(BIDDER1), 7, actor_id(NFT_PROGRAM)))
    );
    assert_eq!(world.claim_nft(BIDDER1, id + 1), Err(Error::NoPendingNft));
}

#[test]
fn claim_nft_that_fails_can_be_retried() {
    let (mut world, id) = world_with_undelivered_nft();

    world.nft_down = true;
    assert_eq!(world.claim_nft(BIDDER1, id), Err(Error::NftTransferFailed));
    assert_eq!(
        world.market.get_pending_nft(id),
        Some((actor_id(BIDDER1), 7, actor_id(NFT_PROGRAM)))
    );

    world.nft_down = false;
    assert_eq!(world.claim_nft(BIDDER1, id), Ok(Completion::NftClaimed));
}

// ---------------------------------------------------------------------------
// Cancellation
// ---------------------------------------------------------------------------

#[test]
fn test_cancel_auction_by_admin() {
    let mut world = World::new();
    let id = world.create_default();

    assert_eq!(world.cancel(ADMIN, id), Ok(Completion::AuctionCancelled));

    assert_eq!(world.market.get_auction(id), None);
    assert_eq!(world.nft.owner_of(7), Some(actor_id(ADMIN)));
    assert_eq!(world.market.take_events(), vec![Event::AuctionCancelled { auction_id: id }]);
    // The token can be put on auction again.
    assert_eq!(
        world.create(ADMIN, 7, 100, MINUTE, 0, 0),
        Ok(Completion::AuctionCreated { auction_id: 2 })
    );
}

#[test]
fn test_cancel_auction_with_bids_queues_refund() {
    let mut world = World::new();
    let id = world.create_default();
    assert_eq!(world.bid(BIDDER1, id, 200), Ok(Completion::BidPlaced));
    world.market.take_events();

    assert_eq!(world.cancel(ADMIN, id), Ok(Completion::AuctionCancelled));

    assert_eq!(world.market.get_pending_refund(actor_id(BIDDER1)), amount(200));
    assert_eq!(
        world.market.take_events(),
        vec![
            Event::RefundQueued { user: actor_id(BIDDER1), amount: amount(200) },
            Event::AuctionCancelled { auction_id: id },
        ]
    );
}

#[test]
fn test_cancel_auction_after_end_fails() {
    let mut world = World::new();
    let id = world.create_default();

    world.now = world.end_time(id);
    assert_eq!(world.cancel(ADMIN, id), Err(Error::AuctionEnded));
    assert!(world.market.get_auction(id).is_some());
}

#[test]
fn test_cancel_by_non_admin_fails() {
    let mut world = World::new();
    let id = world.create_default();

    assert_eq!(world.cancel(BIDDER1, id), Err(Error::NotAdminOrSeller));
    assert_eq!(world.cancel(BIDDER1, id + 1), Err(Error::AuctionNotFound));
}

#[test]
fn cancel_by_a_seller_who_is_no_longer_admin() {
    let mut world = World::new();
    let id = world.create_default();
    assert_eq!(world.market.add_admin(actor_id(ADMIN), actor_id(CAROL)), Ok(true));
    assert_eq!(world.market.remove_admin(actor_id(CAROL), actor_id(ADMIN)), Ok(true));

    assert_eq!(world.cancel(ADMIN, id), Ok(Completion::AuctionCancelled));
}

#[test]
fn cancel_queues_an_nft_that_cannot_return() {
    let mut world = World::new();
    let id = world.create_default();
    world.nft_down = true;

    assert_eq!(world.cancel(ADMIN, id), Ok(Completion::AuctionCancelled));

    assert_eq!(
        world.market.get_pending_nft(id),
        Some((actor_id(ADMIN), 7, actor_id(NFT_PROGRAM)))
    );
    assert_eq!(
        world.market.take_events(),
        vec![
            Event::NftTransferQueued { auction_id: id, recipient: actor_id(ADMIN), token_id: 7 },
            Event::AuctionCancelled { auction_id: id },
        ]
    );
}

// ---------------------------------------------------------------------------
// Admins
// ---------------------------------------------------------------------------

#[test]
fn test_add_admin() {
    let mut world = World::new();
    assert_eq!(world.create(BIDDER1, 7, 100, MINUTE, 0, 0), Err(Error::NotAdmin));

    assert_eq!(world.market.add_admin(actor_id(ADMIN), actor_id(BIDDER1)), Ok(true));

    assert!(world.market.is_admin(actor_id(BIDDER1)));
    assert_eq!(world.market.take_events(), vec![Event::AdminAdded { admin: actor_id(BIDDER1) }]);
    // As an admin Bidder 1 passes the check; the escrow then fails because
    // the token is not theirs.
    assert_eq!(world.create(BIDDER1, 7, 100, MINUTE, 0, 0), Err(Error::NftEscrowFailed));
    assert_eq!(world.market.add_admin(actor_id(BIDDER2), actor_id(BIDDER2)), Err(Error::NotAdmin));
}

#[test]
fn test_remove_admin() {
    let mut world = World::new();
    assert_eq!(world.market.add_admin(actor_id(ADMIN), actor_id(BIDDER1)), Ok(true));
    world.market.take_events();

    assert_eq!(world.market.remove_admin(actor_id(ADMIN), actor_id(BIDDER1)), Ok(true));

    assert!(!world.market.is_admin(actor_id(BIDDER1)));
    assert_eq!(world.market.admins(), vec![actor_id(ADMIN)]);
    assert_eq!(world.market.take_events(), vec![Event::AdminRemoved { admin: actor_id(BIDDER1) }]);
    assert_eq!(world.create(BIDDER1, 7, 100, MINUTE, 0, 0), Err(Error::NotAdmin));
}

#[test]
fn test_cannot_remove_last_admin() {
    let mut world = World::new();

    assert_eq!(world.market.remove_admin(actor_id(ADMIN), actor_id(ADMIN)), Err(Error::LastAdmin));
    assert_eq!(world.market.remove_admin(actor_id(ADMIN), actor_id(BIDDER1)), Err(Error::LastAdmin));
    assert!(world.market.is_admin(actor_id(ADMIN)));
}

#[test]
fn admin_cannot_remove_itself() {
    let mut world = World::new();
    assert_eq!(world.market.add_admin(actor_id(ADMIN), actor_id(BIDDER1)), Ok(true));

    assert_eq!(
        world.market.remove_admin(actor_id(ADMIN), actor_id(ADMIN)),
        Err(Error::CannotRemoveSelf)
    );
    assert_eq!(
        world.market.remove_admin(actor_id(BIDDER2), actor_id(ADMIN)),
        Err(Error::NotAdmin)
    );
}

#[test]
fn test_set_finalizer_reward_bps() {
    let mut world = World::new();
    assert_eq!(world.market.finalizer_reward_bps(), 0);

    assert_eq!(world.market.set_finalizer_reward_bps(actor_id(ADMIN), 1000), Ok(true));

    assert_eq!(world.market.finalizer_reward_bps(), 1000);
    assert_eq!(world.market.take_events(), vec![Event::FinalizerRewardUpdated { bps: 1000 }]);
    let id = world.create_default();
    assert_eq!(world.bid(BIDDER1, id, 500), Ok(Completion::BidPlaced));
    world.now += MINUTE;
    assert_eq!(world.finalize(CAROL, id), Ok(Completion::AuctionFinalized));
    assert_eq!(world.balance(CAROL), amount(50));
    assert_eq!(world.balance(ADMIN), amount(450));
}

#[test]
fn test_set_finalizer_reward_too_high_fails() {
    let mut world = World::new();

    assert_eq!(
        world.market.set_finalizer_reward_bps(actor_id(ADMIN), 1001),
        Err(Error::RewardTooHigh)
    );
    assert_eq!(
        world.market.set_finalizer_reward_bps(actor_id(BIDDER1), 10),
        Err(Error::NotAdmin)
    );
    assert_eq!(world.market.finalizer_reward_bps(), 0);
}

// ---------------------------------------------------------------------------
// Operations in flight
// ---------------------------------------------------------------------------

#[test]
fn test_concurrent_bids_ordering() {
    let mut world = World::new();
    let id = world.create_default();

    assert_eq!(world.bid(BIDDER1, id, 100), Ok(Completion::BidPlaced));
    // The second bid is judged against the first one, committed.
    assert_eq!(world.bid(BIDDER2, id, 105), Err(Error::BidBelowIncrement));
    assert_eq!(world.bid(BIDDER2, id, 110), Ok(Completion::BidPlaced));

    let auction = world.market.get_auction(id).expect("auction");
    assert_eq!(auction.highest_bidder, Some(actor_id(BIDDER2)));
    assert_eq!(auction.highest_bid, amount(110));
}

#[test]
fn test_bid_vs_finalize_race() {
    let mut world = World::new();
    let id = world.create_default();
    let end = world.end_time(id);

    world.now = end;
    assert_eq!(world.bid(BIDDER1, id, 100), Err(Error::AuctionEnded));
    assert_eq!(world.finalize(CAROL, id), Ok(Completion::AuctionFinalized));

    // The other way round: a bid in flight keeps the finalizer out.
    let mut world = World::new();
    let id = world.create_default();
    world.token.approve(actor_id(BIDDER1), actor_id(MARKET_PROGRAM), amount(100));
    // Window 10 s: this bid, placed 1 ms before the end, will extend.
    world.now = end - 1;
    let step = world
        .market
        .bid(actor_id(BIDDER1), world.now, actor_id(MARKET_PROGRAM), id, amount(100))
        .expect("accepted");
    world.now = end;
    assert_eq!(world.finalize(CAROL, id), Err(Error::AuctionLocked));
    assert_eq!(world.drive(Ok(step)), Ok(Completion::BidPlaced));
    assert_eq!(world.end_time(id), end - 1 + 10 * SECOND);
    assert_eq!(world.finalize(CAROL, id), Err(Error::AuctionNotEnded));
}

#[test]
fn test_locked_auction_prevents_concurrent_bid() {
    let mut world = World::new();
    let id = world.create_default();
    world.token.approve(actor_id(BIDDER1), actor_id(MARKET_PROGRAM), amount(100));
    let step = world
        .market
        .bid(actor_id(BIDDER1), world.now, actor_id(MARKET_PROGRAM), id, amount(100))
        .expect("accepted");

    assert_eq!(world.bid(BIDDER2, id, 150), Err(Error::AuctionLocked));
    assert_eq!(world.cancel(ADMIN, id), Err(Error::AuctionLocked));

    assert_eq!(world.drive(Ok(step)), Ok(Completion::BidPlaced));
    assert_eq!(world.bid(BIDDER2, id, 150), Ok(Completion::BidPlaced));
}

#[test]
fn resume_refuses_what_is_not_in_flight() {
    let mut world = World::new();
    let id = world.create_default();
    let bid = Pending::Bid { auction_id: id, bidder: actor_id(BIDDER1), amount: amount(100), now: world.now };
    let finalize = Pending::Finalize {
        auction_id: id,
        finalizer: actor_id(CAROL),
        reward_bps: 0,
        stage: FinalizeStage::ReturnNft,
    };
    let claim = Pending::ClaimRefund { caller: actor_id(BIDDER1), amount: amount(0) };

    assert_eq!(world.market.resume(bid, Reply::Accepted), Err(Error::NotInFlight));
    assert_eq!(world.market.resume(Pending::CancelAuction { auction_id: id }, Reply::Accepted), Err(Error::NotInFlight));
    assert_eq!(world.market.resume(finalize, Reply::Accepted), Err(Error::NotInFlight));
    assert_eq!(world.market.resume(claim, Reply::Declined), Err(Error::NotInFlight));

    assert_eq!(world.market.get_auction(id).expect("auction").highest_bidder, None);
    assert_eq!(world.market.get_pending_refund(actor_id(BIDDER1)), amount(0));
    assert!(world.market.take_events().is_empty());
}

// ---------------------------------------------------------------------------
// Queries
// ---------------------------------------------------------------------------

#[test]
fn test_get_auction() {
    let mut world = World::new();
    let id = world.create_default();

    assert_eq!(
        world.market.get_auction(id),
        Some(Auction {
            nft_program_id: actor_id(NFT_PROGRAM),
            token_id: 7,
            seller: actor_id(ADMIN),
            start_price: amount(100),
            highest_bid: amount(0),
            highest_bidder: None,
            end_time_ms: 1_000_000 + MINUTE,
            settled: false,
            extension_window_ms: 10 * SECOND,
            min_bid_increment: amount(10),
        })
    );
    assert_eq!(world.market.get_auction(id + 1), None);
    assert_eq!(world.market.line_program_id(), actor_id(LINE_PROGRAM));
}

#[test]
fn test_get_pending_refund() {
    let mut world = World::new();
    let id = world.create_default();
    assert_eq!(world.market.get_pending_refund(actor_id(BIDDER1)), amount(0));

    assert_eq!(world.bid(BIDDER1, id, 100), Ok(Completion::BidPlaced));
    assert_eq!(world.bid(BIDDER2, id, 110), Ok(Completion::BidPlaced));

    assert_eq!(world.market.get_pending_refund(actor_id(BIDDER1)), amount(100));
    assert_eq!(world.market.get_pending_refund(actor_id(BIDDER2)), amount(0));
    assert_eq!(world.market.get_pending_payout(actor_id(BIDDER1)), amount(0));
}

#[test]
fn test_is_admin() {
    let world = World::new();

    assert!(world.market.is_admin(actor_id(ADMIN)));
    assert!(!world.market.is_admin(actor_id(BIDDER1)));
}

// ---------------------------------------------------------------------------
// Whole stories
// ---------------------------------------------------------------------------

#[test]
fn clean_sale() {
    let mut world = World::new();
    assert_eq!(world.market.set_finalizer_reward_bps(actor_id(ADMIN), 100), Ok(true));
    let id = world.create_default();

    // Alice approves and bids 100; Bob approves 200 and bids 150.
    assert_eq!(world.bid(BIDDER1, id, 100), Ok(Completion::BidPlaced));
    world.token.approve(actor_id(BIDDER2), actor_id(MARKET_PROGRAM), amount(200));
    let first = world.market.bid(
        actor_id(BIDDER2),
        world.now,
        actor_id(MARKET_PROGRAM),
        id,
        amount(150),
    );
    assert_eq!(world.drive(first), Ok(Completion::BidPlaced));
    assert_eq!(world.market.get_pending_refund(actor_id(BIDDER1)), amount(100));
    assert_eq!(world.balance(MARKET_PROGRAM), amount(250));
    assert_eq!(world.token.allowance(actor_id(BIDDER2), actor_id(MARKET_PROGRAM)), amount(50));

    world.now += MINUTE;
    assert_eq!(world.finalize(CAROL, id), Ok(Completion::AuctionFinalized));

    assert_eq!(world.nft.owner_of(7), Some(actor_id(BIDDER2)));
    // floor(150 * 100 / 10_000) = 1 goes to the finalizer, the rest to the
    // seller.
    assert_eq!(world.balance(CAROL), amount(1));
    assert_eq!(world.balance(ADMIN), amount(149));
    assert_eq!(world.market.get_auction(id), None);
    assert_eq!(world.market.get_pending_refund(actor_id(BIDDER1)), amount(100));
    // What the engine still holds is what it owes.
    assert_eq!(world.balance(MARKET_PROGRAM), amount(100));
    assert_eq!(world.token.total_supply(), amount(2000));
}

#[test]
fn anti_snipe() {
    let mut world = World::new();
    let start = world.now;
    let id = world.create_default();

    world.now = start + 50 * SECOND;
    assert_eq!(world.bid(BIDDER1, id, 100), Ok(Completion::BidPlaced));
    // Exactly one window is left at 50 s: the end moves to 50 s + 10 s,
    // which is where it was.
    assert_eq!(world.end_time(id), start + 60 * SECOND);

    world.now = start + 55 * SECOND;
    assert_eq!(world.bid(BIDDER2, id, 110), Ok(Completion::BidPlaced));
    assert_eq!(world.end_time(id), start + 65 * SECOND);

    world.now = start + 64 * SECOND;
    assert_eq!(world.bid(BIDDER1, id, 120), Ok(Completion::BidPlaced));
    assert_eq!(world.end_time(id), start + 74 * SECOND);

    world.now = start + 75 * SECOND;
    world.market.take_events();
    assert_eq!(world.finalize(CAROL, id), Ok(Completion::AuctionFinalized));
    assert_eq!(
        world.market.take_events(),
        vec![Event::AuctionFinalized {
            auction_id: id,
            winner: Some(actor_id(BIDDER1)),
            winning_bid: amount(120),
            seller_payout: amount(120),
            finalizer_reward: amount(0),
        }]
    );
    assert_eq!(world.nft.owner_of(7), Some(actor_id(BIDDER1)));
}

#[test]
fn failed_payout() {
    let mut world = World::new();
    assert_eq!(world.create(ADMIN, 8, 50, MINUTE, 0, 0), Ok(Completion::AuctionCreated { auction_id: 1 }));
    assert_eq!(world.create(ADMIN, 9, 100, MINUTE, 0, 0), Ok(Completion::AuctionCreated { auction_id: 2 }));
    assert_eq!(world.bid(BIDDER1, 2, 300), Ok(Completion::BidPlaced));
    world.now += MINUTE;
    world.blacklist.push(actor_id(ADMIN));

    assert_eq!(world.finalize(CAROL, 2), Ok(Completion::AuctionFinalized));

    assert_eq!(world.market.get_pending_payout(actor_id(ADMIN)), amount(300));
    assert_eq!(world.balance(ADMIN), amount(0));
    assert_eq!(world.nft.owner_of(9), Some(actor_id(BIDDER1)));

    world.blacklist.clear();
    assert_eq!(world.claim_payout(ADMIN), Ok(Completion::PayoutClaimed));
    assert_eq!(world.balance(ADMIN), amount(300));
    assert_eq!(world.market.get_pending_payout(actor_id(ADMIN)), amount(0));
}

#[test]
fn cancel_with_bidder() {
    let mut world = World::new();
    for token_id in [7, 8, 9] {
        assert!(world.create(ADMIN, token_id, 100, MINUTE, 0, 0).is_ok());
    }
    assert_eq!(world.bid(BIDDER2, 3, 200), Ok(Completion::BidPlaced));

    assert_eq!(world.cancel(ADMIN, 3), Ok(Completion::AuctionCancelled));

    assert_eq!(world.nft.owner_of(9), Some(actor_id(ADMIN)));
    assert_eq!(world.market.get_pending_refund(actor_id(BIDDER2)), amount(200));
    assert_eq!(world.market.get_auction(3), None);
    assert!(world.market.get_auction(1).is_some());

    assert_eq!(world.claim_refund(BIDDER2), Ok(Completion::RefundClaimed));
    assert_eq!(world.balance(BIDDER2), amount(1000));
    assert_eq!(world.balance(MARKET_PROGRAM), amount(0));
}

#[test]
fn engine_holds_what_it_owes() {
    let mut world = World::new();
    let id = world.create_default();
    assert_eq!(world.create(ADMIN, 8, 10, MINUTE, 0, 1), Ok(Completion::AuctionCreated { auction_id: 2 }));

    assert_eq!(world.bid(BIDDER1, id, 100), Ok(Completion::BidPlaced));
    assert_eq!(world.bid(BIDDER2, id, 110), Ok(Completion::BidPlaced));
    assert_eq!(world.bid(BIDDER1, 2, 10), Ok(Completion::BidPlaced));
    assert_eq!(world.bid(BIDDER1, id, 120), Ok(Completion::BidPlaced));

    // Live bids 120 + 10, refunds 100 (Bidder 1) + 110 (Bidder 2).
    let owed = 120 + 10 + 100 + 110;
    assert_eq!(world.balance(MARKET_PROGRAM), amount(owed));
    assert_eq!(world.market.get_pending_refund(actor_id(BIDDER1)), amount(100));
    assert_eq!(world.market.get_pending_refund(actor_id(BIDDER2)), amount(110));
}
