use double_auction::engine::{Config, GenesisConfig, Pallet};
use double_auction::model::{Bid, Error, Event};
use double_auction::tier::classify;

const ALICE: u64 = 1;
const BOB: u64 = 2;
const CAROL: u64 = 3;

fn new_auction_house() -> Pallet {
    GenesisConfig::default().build(Config::default())
}

#[test]
fn tier_levels_follow_quantity_thresholds() {
    assert_eq!(classify(1).level, 1);
    assert_eq!(classify(4).level, 1);
    assert_eq!(classify(5).level, 2);
    assert_eq!(classify(1_000_000).level, 2);
}

#[test]
fn creation_schedule_is_exact() {
    let mut auction_house = new_auction_house();
    let id = auction_house.new(ALICE, 2, 1_000, 5, 2);
    assert_eq!(id, 0);
    let auction = auction_house.auctions(0).expect("return indexed auction");
    assert_eq!(auction.tier.level, 1);
    assert_eq!(auction.created_at, 2);
    assert_eq!(auction.period, 50);
    assert_eq!(auction.expires_at, 52);
    assert_eq!(auction.highest_bid, Bid { bidder: ALICE, amount: 1_000 });
    assert!(auction.bid_history.is_empty());
}

#[test]
fn losing_bid_keeps_leader_but_is_acknowledged() {
    let mut auction_house = new_auction_house();
    let id = auction_house.new(ALICE, 2, 1_000, 5, 2);
    assert!(auction_house.bid(BOB, id, 10_000).is_ok());
    assert!(auction_house.bid(CAROL, id, 5_000).is_ok());
    let auction = auction_house.auctions(id).expect("return indexed auction");
    assert_eq!(auction.highest_bid, Bid { bidder: BOB, amount: 10_000 });
    assert_eq!(auction.bid_history.len(), 1);
    assert!(auction_house.events().contains(&Event::AuctionBidAdded {
        auction_id: id,
        seller_id: ALICE,
        energy_quantity: 2,
        bid: Bid { bidder: CAROL, amount: 5_000 },
    }));
    // the losing bidder's cache is still refreshed
    assert!(auction_house.auctions_of(CAROL).unwrap().auctions.contains(&id));
}

#[test]
fn tie_does_not_displace_incumbent() {
    let mut auction_house = new_auction_house();
    let id = auction_house.new(ALICE, 2, 1_000, 5, 2);
    assert!(auction_house.bid(BOB, id, 10_000).is_ok());
    assert!(auction_house.bid(CAROL, id, 10_000).is_ok());
    let auction = auction_house.auctions(id).expect("return indexed auction");
    assert_eq!(auction.highest_bid, Bid { bidder: BOB, amount: 10_000 });
}

#[test]
fn bid_history_holds_accepted_bids_most_recent_first() {
    let mut auction_house = new_auction_house();
    let id = auction_house.new(ALICE, 2, 1_000, 5, 2);
    assert!(auction_house.bid(BOB, id, 2_000).is_ok());
    assert!(auction_house.bid(CAROL, id, 3_000).is_ok());
    assert!(auction_house.bid(BOB, id, 2_500).is_ok()); // rejected from leadership
    assert!(auction_house.bid(BOB, id, 5_000).is_ok());
    let auction = auction_house.auctions(id).expect("return indexed auction");
    assert_eq!(
        auction.bid_history,
        vec![
            Bid { bidder: BOB, amount: 5_000 },
            Bid { bidder: CAROL, amount: 3_000 },
            Bid { bidder: BOB, amount: 2_000 },
        ]
    );
    assert_eq!(auction.highest_bid, Bid { bidder: BOB, amount: 5_000 });
}

#[test]
fn operations_on_missing_auction_fail() {
    let mut auction_house = new_auction_house();
    assert_eq!(auction_house.bid(BOB, 9, 10_000), Err(Error::AuctionDoesNotExist));
    assert_eq!(auction_house.cancel(ALICE, 9), Err(Error::AuctionDoesNotExist));
    assert!(auction_house.events().is_empty());
}

#[test]
fn cancel_requires_the_seller() {
    let mut auction_house = new_auction_house();
    let id = auction_house.new(ALICE, 2, 1_000, 5, 2);
    assert_eq!(auction_house.cancel(BOB, id), Err(Error::Unauthorized));
    assert!(auction_house.auctions(id).is_some());
}

#[test]
fn cancelled_auction_never_accepts_another_operation() {
    let mut auction_house = new_auction_house();
    let id = auction_house.new(ALICE, 2, 1_000, 5, 2);
    assert!(auction_house.cancel(ALICE, id).is_ok());
    assert!(auction_house.auctions(id).is_none());
    assert_eq!(auction_house.bid(BOB, id, 10_000), Err(Error::AuctionDoesNotExist));
    assert_eq!(auction_house.cancel(ALICE, id), Err(Error::AuctionDoesNotExist));
    // the failures left no trace: one creation event, one cancellation event
    assert_eq!(auction_house.events().len(), 2);
}

#[test]
fn time_step_drains_only_the_matching_height() {
    let mut auction_house = new_auction_house();
    let early = auction_house.new(ALICE, 2, 1_000, 5, 2); // expires at 52
    let late = auction_house.new(ALICE, 2, 1_000, 10, 2); // expires at 102
    auction_house.on_time_step(52);
    assert!(auction_house.auctions(early).is_none());
    assert!(auction_house.auctions(late).is_some());
    assert!(auction_house.auction_execution_queue(102, late));
    assert!(!auction_house.auction_execution_queue(52, early));
}

#[test]
fn time_step_is_idempotent() {
    let mut auction_house = new_auction_house();
    let id = auction_house.new(ALICE, 2, 1_000, 5, 2);
    assert!(auction_house.bid(BOB, id, 10_000).is_ok());
    auction_house.on_time_step(52);
    let events_after_first = auction_house.events().len();
    auction_house.on_time_step(52);
    assert_eq!(auction_house.events().len(), events_after_first);
}

#[test]
fn participant_cache_never_exceeds_capacity() {
    let mut auction_house = new_auction_house();
    for _ in 0..7 {
        auction_house.new(ALICE, 2, 1_000, 5, 2);
    }
    let info = auction_house
        .auctions_of(ALICE)
        .expect("return seller's auction information");
    assert_eq!(info.auctions, vec![6, 5, 4, 3, 2]); // most recent first, oldest evicted
}

#[test]
fn participant_cache_capacity_is_configurable() {
    let mut auction_house =
        GenesisConfig::default().build(Config { participant_cache_capacity: 10 });
    for _ in 0..12 {
        auction_house.new(ALICE, 2, 1_000, 5, 2);
    }
    let info = auction_house
        .auctions_of(ALICE)
        .expect("return seller's auction information");
    assert_eq!(info.auctions.len(), 10);
}

#[test]
fn auction_ids_are_monotonic_and_never_reused() {
    let mut auction_house = new_auction_house();
    let first = auction_house.new(ALICE, 2, 1_000, 5, 2);
    assert!(auction_house.cancel(ALICE, first).is_ok());
    let second = auction_house.new(ALICE, 2, 1_000, 5, 2);
    assert_eq!(first, 0);
    assert_eq!(second, 1);
    assert_eq!(auction_house.auctions_index(), 2);
}

#[test]
fn genesis_index_sets_the_first_id() {
    let mut auction_house =
        GenesisConfig { auction_index: 7 }.build(Config::default());
    assert_eq!(auction_house.new(ALICE, 2, 1_000, 5, 2), 7);
}

#[test]
fn match_after_cancel_uses_a_fresh_id() {
    let mut auction_house = new_auction_house();

    // first round, then its cancellation
    let first = auction_house.new(ALICE, 2, 1_000, 5, 2);
    assert!(auction_house.bid(BOB, first, 10_000).is_ok());
    assert!(auction_house.cancel(ALICE, first).is_ok());

    // the same listing again: a fresh id, never the old one
    let second = auction_house.new(ALICE, 2, 1_000, 5, 2);
    assert_eq!(second, 1);
    assert!(auction_house.bid(BOB, second, 10_000).is_ok());

    auction_house.on_time_step(52);

    let events = auction_house.events();
    let matched = Event::AuctionMatched {
        auction_id: second,
        seller_id: ALICE,
        energy_quantity: 2,
        starting_price: 1_000,
        highest_bid: Bid { bidder: BOB, amount: 10_000 },
        matched_at: 52,
    };
    let executed = Event::AuctionExecuted {
        auction_id: second,
        seller_id: ALICE,
        buyer_id: BOB,
        energy_quantity: 2,
        starting_price: 1_000,
        highest_bid_amount: 10_000,
        executed_at: 52,
    };
    let at = events
        .iter()
        .position(|e| *e == matched)
        .expect("match event recorded");
    // the execution immediately follows the match
    assert_eq!(events[at + 1], executed);
    assert!(!auction_house.auction_execution_queue(52, second));
    assert!(auction_house.auctions(second).is_none());
}

#[test]
fn unbid_auction_matches_its_seeded_bid() {
    let mut auction_house = new_auction_house();
    let id = auction_house.new(ALICE, 2, 1_000, 0, 10); // zero-minute lifetime
    auction_house.on_time_step(10);
    assert!(auction_house.events().contains(&Event::AuctionExecuted {
        auction_id: id,
        seller_id: ALICE,
        buyer_id: ALICE,
        energy_quantity: 2,
        starting_price: 1_000,
        highest_bid_amount: 1_000,
        executed_at: 10,
    }));
}
