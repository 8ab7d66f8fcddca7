use double_auction::engine::{Config, GenesisConfig, Pallet};
use double_auction::model::{Bid, Event};

const ALICE: u64 = 1;
const BOB: u64 = 2;

fn new_auction_house() -> Pallet {
    GenesisConfig::default().build(Config::default())
}

#[test]
fn create_new_auction_should_work() {
    let mut auction_house = new_auction_house();

    // the first block after genesis
    let now: u64 = 2;
    let energy_quantity: u128 = 2; // in KWH
    let starting_price: u128 = 1_000;
    let auction_period: u16 = 5; // in minutes

    let execution_block = now + 50;

    let id = auction_house.new(ALICE, energy_quantity, starting_price, auction_period, now);

    // the auction was added to the registry
    let auction = auction_house.auctions(id).expect("return indexed auction");
    assert_eq!(auction.seller_id, ALICE);
    assert_eq!(auction.quantity, energy_quantity);
    assert_eq!(auction.starting_price, starting_price);
    let auction_id = auction.auction_id;

    // the auction was added for the seller
    let seller_auction_info = auction_house
        .auctions_of(ALICE)
        .expect("return seller's auction information");
    assert_eq!(seller_auction_info.participant_id, ALICE);

    // the auction is in the execution queue
    assert!(auction_house.auction_execution_queue(execution_block, auction_id));

    // the correct event was emitted
    assert!(auction_house.events().contains(&Event::AuctionCreated {
        auction_id,
        seller_id: ALICE,
        energy_quantity,
        starting_price,
    }));
}

#[test]
fn cancel_auction_should_work() {
    let mut auction_house = new_auction_house();

    let now: u64 = 2;
    let energy_quantity: u128 = 2; // in KWH
    let starting_price: u128 = 1_000;
    let auction_period: u16 = 5; // in minutes

    let execution_block = now + 50;

    let auction_id =
        auction_house.new(ALICE, energy_quantity, starting_price, auction_period, now);
    assert!(auction_house.auctions(auction_id).is_some());

    assert!(auction_house.cancel(ALICE, auction_id).is_ok());

    // the auction was removed from the registry
    assert!(auction_house.auctions(auction_id).is_none());

    // the auction was removed from the seller's cache
    assert!(!auction_house
        .auctions_of(ALICE)
        .expect("return seller's auction information")
        .auctions
        .contains(&auction_id));

    // the auction is no longer in the execution queue
    assert!(!auction_house.auction_execution_queue(execution_block, auction_id));

    // the correct event was emitted
    assert!(auction_house.events().contains(&Event::AuctionCanceled {
        auction_id,
        seller_id: ALICE,
        energy_quantity,
        starting_price,
    }));
}

#[test]
fn bid_should_work() {
    let mut auction_house = new_auction_house();

    let now: u64 = 2;
    let energy_quantity: u128 = 2; // in KWH
    let starting_price: u128 = 1_000;
    let auction_period: u16 = 5; // in minutes

    let auction_id =
        auction_house.new(ALICE, energy_quantity, starting_price, auction_period, now);

    let new_bid: u128 = 10_000;
    assert!(auction_house.bid(BOB, auction_id, new_bid).is_ok());

    // the bid was recorded on the auction
    let auction = auction_house.auctions(auction_id).expect("return indexed auction");
    assert_eq!(auction.highest_bid.amount, new_bid);
    assert_eq!(auction.highest_bid.bidder, BOB);

    // the auction was added to the buyer's cache
    assert!(auction_house
        .auctions_of(BOB)
        .expect("return buyer's auction information")
        .auctions
        .contains(&auction_id));

    // the seller's cache still references the auction
    assert!(auction_house
        .auctions_of(ALICE)
        .expect("return seller's auction information")
        .auctions
        .contains(&auction_id));

    // the correct event was emitted
    assert!(auction_house.events().contains(&Event::AuctionBidAdded {
        auction_id,
        seller_id: ALICE,
        energy_quantity,
        bid: Bid { bidder: BOB, amount: new_bid },
    }));
}

#[test]
fn on_auction_ended_should_work() {
    let mut auction_house = new_auction_house();

    let now: u64 = 2;
    let energy_quantity: u128 = 2; // in KWH
    let starting_price: u128 = 1_000;
    let auction_period: u16 = 5; // in minutes

    let auction_id =
        auction_house.new(ALICE, energy_quantity, starting_price, auction_period, now);

    let new_bid: u128 = 10_000;
    assert!(auction_house.bid(BOB, auction_id, new_bid).is_ok());

    // fast forward to the auction's execution block
    let execution_block = now + 50;
    assert_eq!(execution_block, 52);
    auction_house.on_time_step(execution_block);

    // the auction is no longer in the execution queue
    assert!(!auction_house.auction_execution_queue(execution_block, auction_id));

    // the match and its execution were recorded
    assert!(auction_house.events().contains(&Event::AuctionMatched {
        auction_id,
        seller_id: ALICE,
        energy_quantity,
        starting_price,
        highest_bid: Bid { bidder: BOB, amount: new_bid },
        matched_at: execution_block,
    }));
    assert!(auction_house.events().contains(&Event::AuctionExecuted {
        auction_id,
        seller_id: ALICE,
        buyer_id: BOB,
        energy_quantity,
        starting_price,
        highest_bid_amount: new_bid,
        executed_at: execution_block,
    }));
}
