//! The data entities of the marketplace: bids, auction records,
//! participant records, domain events and domain errors.

use vstd::prelude::*;

use crate::id_list::distinct_ids;
use crate::tier::{spec_classify, Tier};
use crate::{AccountId, AuctionId, BlockNumber, Price, Quantity};

verus! {

/// A bid on an auction. Immutable once recorded.
#[derive(Clone, Copy, Debug, PartialEq, Eq, Structural)]
pub struct Bid {
    pub bidder: AccountId,
    pub amount: Price,
}

/// Lifecycle status of an auction. `Closed` is terminal: a closed
/// auction accepts no further bids and cannot be closed again.
#[derive(Clone, Copy, Debug, PartialEq, Eq, Structural)]
pub enum AuctionStatus {
    Open,
    Closed,
}

impl Default for AuctionStatus {
    /// Auctions start out open.
    fn default() -> (s: AuctionStatus)
        ensures
            s == AuctionStatus::Open,
    {
        AuctionStatus::Open
    }
}

/// The role in which an account most recently took part in an auction.
#[derive(Clone, Copy, Debug, PartialEq, Eq, Structural)]
pub enum PartyType {
    Seller,
    Buyer,
}

impl Default for PartyType {
    fn default() -> (p: PartyType)
        ensures
            p == PartyType::Seller,
    {
        PartyType::Seller
    }
}

/// The central entity: one seller's time-bounded offer of a fixed
/// quantity at a starting price, open to competitive bids.
#[derive(Debug)]
pub struct AuctionData {
    pub auction_id: AuctionId,
    pub seller_id: AccountId,
    pub quantity: Quantity,
    pub starting_price: Price,
    pub status: AuctionStatus,
    pub tier: Tier,
    pub created_at: BlockNumber,
    pub period: BlockNumber,
    pub expires_at: BlockNumber,
    /// The currently leading bid; seeded from the starting price and
    /// replaced only by a strictly greater bid.
    pub highest_bid: Bid,
    /// Append-only audit trail of the accepted bids, most recent first.
    pub bid_history: Vec<Bid>,
}

/// Mathematical model of an [`AuctionData`] record.
#[verifier::ext_equal]
pub struct AuctionDataView {
    pub auction_id: AuctionId,
    pub seller_id: AccountId,
    pub quantity: Quantity,
    pub starting_price: Price,
    pub status: AuctionStatus,
    pub tier: Tier,
    pub created_at: BlockNumber,
    pub period: BlockNumber,
    pub expires_at: BlockNumber,
    pub highest_bid: Bid,
    pub bid_history: Seq<Bid>,
}

impl View for AuctionData {
    type V = AuctionDataView;

    open spec fn view(&self) -> AuctionDataView {
        AuctionDataView {
            auction_id: self.auction_id,
            seller_id: self.seller_id,
            quantity: self.quantity,
            starting_price: self.starting_price,
            status: self.status,
            tier: self.tier,
            created_at: self.created_at,
            period: self.period,
            expires_at: self.expires_at,
            highest_bid: self.highest_bid,
            bid_history: self.bid_history@,
        }
    }
}

impl AuctionDataView {
    /// Internal consistency of one auction record: the expiry is fixed
    /// at creation as `created_at + period`; the tier is derived from
    /// the quantity; the leading bid never falls below the starting
    /// price; and the history holds the accepted bids most recent
    /// first, each strictly greater than the next and than the starting
    /// price, with the leader at its front.
    pub open spec fn wf(self) -> bool {
        &&& self.expires_at == self.created_at + self.period
        &&& self.tier == spec_classify(self.quantity)
        &&& self.quantity > 0
        &&& self.highest_bid.amount >= self.starting_price
        &&& if self.bid_history.len() == 0 {
            self.highest_bid == Bid { bidder: self.seller_id, amount: self.starting_price }
        } else {
            self.highest_bid == self.bid_history[0]
        }
        &&& forall|i: int, j: int|
            #![trigger self.bid_history[i], self.bid_history[j]]
            0 <= i < j < self.bid_history.len() ==> self.bid_history[i].amount
                > self.bid_history[j].amount
        &&& forall|i: int|
            0 <= i < self.bid_history.len() ==> #[trigger] self.bid_history[i].amount
                > self.starting_price
    }
}

/// An account's bounded cache of the auctions it recently took part in.
/// Created on first interaction and never deleted; a cancelled auction
/// is pruned from the list but the record persists, possibly empty.
#[derive(Debug)]
pub struct AuctionInfo {
    pub participant_id: AccountId,
    /// The most recent interaction type, not a permanent classification.
    pub party_type: PartyType,
    /// Recently touched auction ids, most recent first, at most the
    /// index's configured capacity.
    pub auctions: Vec<AuctionId>,
}

/// Mathematical model of an [`AuctionInfo`] record.
#[verifier::ext_equal]
pub struct AuctionInfoView {
    pub participant_id: AccountId,
    pub party_type: PartyType,
    pub auctions: Seq<AuctionId>,
}

impl View for AuctionInfo {
    type V = AuctionInfoView;

    open spec fn view(&self) -> AuctionInfoView {
        AuctionInfoView {
            participant_id: self.participant_id,
            party_type: self.party_type,
            auctions: self.auctions@,
        }
    }
}

impl AuctionInfoView {
    /// Internal consistency of a participant record stored under key
    /// `account` in an index of capacity `capacity`.
    pub open spec fn wf(self, account: AccountId, capacity: usize) -> bool {
        &&& self.participant_id == account
        &&& self.auctions.len() <= capacity
        &&& distinct_ids(self.auctions)
    }
}

/// Domain events, published to an external event sink. Exactly one
/// event is emitted per successful caller-facing operation; a drained
/// auction emits a matched/executed pair.
#[derive(Clone, Copy, Debug, PartialEq, Eq, Structural)]
pub enum Event {
    AuctionCreated {
        auction_id: AuctionId,
        seller_id: AccountId,
        energy_quantity: Quantity,
        starting_price: Price,
    },
    AuctionBidAdded {
        auction_id: AuctionId,
        seller_id: AccountId,
        energy_quantity: Quantity,
        /// The submitted bid, acknowledged whether or not it took the
        /// lead.
        bid: Bid,
    },
    AuctionMatched {
        auction_id: AuctionId,
        seller_id: AccountId,
        energy_quantity: Quantity,
        starting_price: Price,
        highest_bid: Bid,
        matched_at: BlockNumber,
    },
    AuctionExecuted {
        auction_id: AuctionId,
        seller_id: AccountId,
        buyer_id: AccountId,
        energy_quantity: Quantity,
        starting_price: Price,
        highest_bid_amount: Price,
        executed_at: BlockNumber,
    },
    AuctionCanceled {
        auction_id: AuctionId,
        seller_id: AccountId,
        energy_quantity: Quantity,
        starting_price: Price,
    },
}

/// Domain errors of the caller-facing operations. Any error aborts the
/// operation with zero state mutation.
#[derive(Clone, Copy, Debug, PartialEq, Eq, Structural)]
pub enum Error {
    /// The referenced auction id is absent from the registry.
    AuctionDoesNotExist,
    /// The operation targets an auction that is no longer open.
    AuctionIsOver,
    /// The caller of a cancellation is not the auction's seller.
    Unauthorized,
}

} // verus!
