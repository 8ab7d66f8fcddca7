//! The auction lifecycle engine: creation, bidding, seller-only
//! cancellation, and the time-step-driven matching that closes expired
//! auctions.
//!
//! Every operation validates fully before it mutates, so an error
//! leaves no partial trace; a successful operation mutates the
//! registry, the execution queue and the participant index together
//! and records exactly one event (a drained auction records its
//! matched/executed pair). The caller owns the clock: an external
//! driver invokes [`Pallet::on_time_step`] once per tick.

use vstd::prelude::*;

use crate::id_list::distinct_ids;
use crate::model::{AuctionData, AuctionInfo, AuctionStatus, Bid, Error, Event, PartyType};
use crate::participants::ParticipantIndex;
use crate::queue::ExecutionQueue;
use crate::registry::AuctionRegistry;
use crate::state::{
    lemma_bid_preserves_wf, lemma_cancel_preserves_wf, lemma_create_preserves_wf,
    lemma_drained_auctions, lemma_time_step_preserves_wf, spec_apply_bid, spec_bid,
    spec_bid_result, spec_cancel, spec_cancel_result, spec_create, spec_drained_auctions,
    spec_end_pair, spec_match_events, spec_new_record, spec_time_step, PalletView,
};
use crate::tier::classify;
use crate::{AccountId, AuctionId, BlockNumber, Price, Quantity, TICKS_PER_MINUTE};

verus! {

/// Capacity of the per-participant cache unless configured otherwise.
pub const DEFAULT_PARTICIPANT_CACHE_CAPACITY: usize = 5;

/// The parameters the engine is configured with.
#[derive(Clone, Copy, Debug, PartialEq, Eq, Structural)]
pub struct Config {
    /// Capacity of each account's cache of recent auctions.
    pub participant_cache_capacity: usize,
}

impl Default for Config {
    fn default() -> (c: Config)
        ensures
            c.participant_cache_capacity == DEFAULT_PARTICIPANT_CACHE_CAPACITY,
    {
        Config { participant_cache_capacity: DEFAULT_PARTICIPANT_CACHE_CAPACITY }
    }
}

/// The state an engine starts from: the id the allocator hands out
/// first.
#[derive(Clone, Copy, Debug, PartialEq, Eq, Structural)]
pub struct GenesisConfig {
    pub auction_index: AuctionId,
}

impl Default for GenesisConfig {
    fn default() -> (g: GenesisConfig)
        ensures
            g.auction_index == 0,
    {
        GenesisConfig { auction_index: 0 }
    }
}

impl GenesisConfig {
    /// Builds an engine: empty registry, queue and participant index,
    /// with the allocator starting at the configured index.
    pub fn build(&self, config: Config) -> (p: Pallet)
        requires
            config.participant_cache_capacity >= 1,
        ensures
            p@ == PalletView::genesis(self.auction_index, config.participant_cache_capacity),
            p@.wf(),
    {
        let p = Pallet {
            registry: AuctionRegistry::new(self.auction_index),
            queue: ExecutionQueue::new(),
            participants: ParticipantIndex::new(config.participant_cache_capacity),
            events: Vec::new(),
        };
        proof {
            assert(p@ =~~= PalletView::genesis(
                self.auction_index,
                config.participant_cache_capacity,
            ));
        }
        p
    }
}

/// The lifecycle engine. Owns the authoritative registry and keeps the
/// two derived indices and the event log consistent with it on every
/// operation.
pub struct Pallet {
    registry: AuctionRegistry,
    queue: ExecutionQueue,
    participants: ParticipantIndex,
    events: Vec<Event>,
}

impl View for Pallet {
    type V = PalletView;

    closed spec fn view(&self) -> PalletView {
        PalletView {
            auctions: self.registry@.auctions,
            next_id: self.registry@.next_id,
            queue: self.queue@,
            participants: self.participants@.records,
            capacity: self.participants@.capacity,
            events: self.events@,
        }
    }
}

impl Pallet {
    /// Creates an auction: the caller becomes the seller, the lifetime
    /// given in minutes is converted to ticks at [`TICKS_PER_MINUTE`],
    /// the tier is derived from the quantity, and the leading bid is
    /// seeded with the seller's starting price. The record is stored,
    /// scheduled at its expiry, the seller's cache is touched, and
    /// `AuctionCreated` is emitted. Returns the allocated id; ids are
    /// monotonic and never reused.
    pub fn new(
        &mut self,
        seller: AccountId,
        energy_quantity: Quantity,
        starting_price: Price,
        auction_period: u16,
        now: BlockNumber,
    ) -> (id: AuctionId)
        requires
            old(self)@.wf(),
            energy_quantity > 0,
            old(self)@.next_id < AuctionId::MAX,
            now + auction_period * TICKS_PER_MINUTE <= BlockNumber::MAX,
        ensures
            final(self)@.wf(),
            id == old(self)@.next_id,
            final(self)@ == spec_create(
                old(self)@,
                seller,
                energy_quantity,
                starting_price,
                auction_period,
                now,
            ),
    {
        proof {
            lemma_create_preserves_wf(
                old(self)@,
                seller,
                energy_quantity,
                starting_price,
                auction_period,
                now,
            );
        }
        let id = self.registry.allocate_id();
        let period: BlockNumber = (auction_period as u64) * TICKS_PER_MINUTE;
        let expires_at = now + period;
        let starting_bid = Bid { bidder: seller, amount: starting_price };
        let record = AuctionData {
            auction_id: id,
            seller_id: seller,
            quantity: energy_quantity,
            starting_price: starting_price,
            status: AuctionStatus::Open,
            tier: classify(energy_quantity),
            created_at: now,
            period: period,
            expires_at: expires_at,
            highest_bid: starting_bid,
            bid_history: Vec::new(),
        };
        proof {
            assert(record@ =~= spec_new_record(
                id,
                seller,
                energy_quantity,
                starting_price,
                auction_period,
                now,
            ));
        }
        self.participants.touch(seller, PartyType::Seller, id);
        self.queue.schedule(expires_at, id);
        self.registry.insert(record);
        self.events.push(
            Event::AuctionCreated {
                auction_id: id,
                seller_id: seller,
                energy_quantity: energy_quantity,
                starting_price: starting_price,
            },
        );
        proof {
            assert(self@ =~~= spec_create(
                old(self)@,
                seller,
                energy_quantity,
                starting_price,
                auction_period,
                now,
            ));
        }
        id
    }

    /// Submits a bid. Fails `AuctionDoesNotExist` when the id is not
    /// stored and `AuctionIsOver` when the record is not open, leaving
    /// the state untouched. Otherwise the bid takes the lead if and
    /// only if it is strictly greater than the current leader (a tie
    /// keeps the incumbent), a winning bid is prepended to the
    /// history, the buyer's cache is touched, the seller's entry is
    /// refreshed, and `AuctionBidAdded` acknowledges the submission
    /// either way.
    pub fn bid(&mut self, buyer: AccountId, auction_id: AuctionId, amount: Price) -> (r: Result<
        (),
        Error,
    >)
        requires
            old(self)@.wf(),
        ensures
            final(self)@.wf(),
            r == spec_bid_result(old(self)@, auction_id),
            final(self)@ == spec_bid(old(self)@, buyer, auction_id, amount),
            r is Err ==> final(self)@ == old(self)@,
            r is Ok ==> final(self)@.auctions[auction_id].highest_bid.amount >= old(
                self,
            )@.auctions[auction_id].highest_bid.amount,
    {
        proof {
            lemma_bid_preserves_wf(old(self)@, buyer, auction_id, amount);
        }
        match self.registry.get(auction_id) {
            None => {
                return Err(Error::AuctionDoesNotExist);
            },
            Some(found) => {
                if found.status != AuctionStatus::Open {
                    return Err(Error::AuctionIsOver);
                }
            },
        }
        let mut record = self.registry.remove(auction_id).unwrap();
        if amount > record.highest_bid.amount {
            let new_bid = Bid { bidder: buyer, amount: amount };
            record.highest_bid = new_bid;
            record.bid_history.insert(0, new_bid);
        }
        proof {
            assert(record@ =~= spec_apply_bid(
                old(self)@.auctions[auction_id],
                buyer,
                amount,
            ));
        }
        let seller = record.seller_id;
        let quantity = record.quantity;
        self.registry.insert(record);
        self.participants.touch(buyer, PartyType::Buyer, auction_id);
        self.participants.touch(seller, PartyType::Seller, auction_id);
        self.events.push(
            Event::AuctionBidAdded {
                auction_id: auction_id,
                seller_id: seller,
                energy_quantity: quantity,
                bid: Bid { bidder: buyer, amount: amount },
            },
        );
        proof {
            assert(self@ =~~= spec_bid(old(self)@, buyer, auction_id, amount));
        }
        Ok(())
    }

    /// Cancels an open auction. Fails `AuctionDoesNotExist` when the id
    /// is not stored, `AuctionIsOver` when the record is not open, and
    /// `Unauthorized` when the caller is not the seller, leaving the
    /// state untouched. Otherwise the record leaves the registry, its
    /// queue entry is unscheduled, the reference is pruned from the
    /// seller's cache, and `AuctionCanceled` is emitted. Closure is
    /// terminal: the id never accepts an operation again.
    pub fn cancel(&mut self, caller: AccountId, auction_id: AuctionId) -> (r: Result<(), Error>)
        requires
            old(self)@.wf(),
        ensures
            final(self)@.wf(),
            r == spec_cancel_result(old(self)@, caller, auction_id),
            final(self)@ == spec_cancel(old(self)@, caller, auction_id),
            r is Err ==> final(self)@ == old(self)@,
            r is Ok ==> !final(self)@.auctions.contains_key(auction_id),
    {
        proof {
            lemma_cancel_preserves_wf(old(self)@, caller, auction_id);
        }
        match self.registry.get(auction_id) {
            None => {
                return Err(Error::AuctionDoesNotExist);
            },
            Some(found) => {
                if found.status != AuctionStatus::Open {
                    return Err(Error::AuctionIsOver);
                }
                if found.seller_id != caller {
                    return Err(Error::Unauthorized);
                }
            },
        }
        let record = self.registry.remove(auction_id).unwrap();
        self.queue.unschedule(record.expires_at, auction_id);
        self.participants.remove(record.seller_id, auction_id);
        self.events.push(
            Event::AuctionCanceled {
                auction_id: auction_id,
                seller_id: record.seller_id,
                energy_quantity: record.quantity,
                starting_price: record.starting_price,
            },
        );
        proof {
            assert(self@ =~~= spec_cancel(old(self)@, caller, auction_id));
        }
        Ok(())
    }

    /// Records the matched/executed event pair for one auction whose
    /// lifetime ended at height `now`. No payment or quantity transfer
    /// occurs here: settlement belongs to an absent collaborator.
    fn on_auction_ended(&mut self, auction: AuctionData, now: BlockNumber)
        ensures
            final(self)@ == (PalletView {
                events: old(self)@.events + spec_end_pair(auction@, now),
                ..old(self)@
            }),
    {
        self.events.push(
            Event::AuctionMatched {
                auction_id: auction.auction_id,
                seller_id: auction.seller_id,
                energy_quantity: auction.quantity,
                starting_price: auction.starting_price,
                highest_bid: auction.highest_bid,
                matched_at: now,
            },
        );
        self.events.push(
            Event::AuctionExecuted {
                auction_id: auction.auction_id,
                seller_id: auction.seller_id,
                buyer_id: auction.highest_bid.bidder,
                energy_quantity: auction.quantity,
                starting_price: auction.starting_price,
                highest_bid_amount: auction.highest_bid.amount,
                executed_at: now,
            },
        );
        proof {
            assert(self@ =~~= (PalletView {
                events: old(self)@.events + spec_end_pair(auction@, now),
                ..old(self)@
            }));
        }
    }

    /// The time step at height `now`, invoked once per tick by the
    /// external clock. Drains exactly the queue bucket of `now`: each
    /// drained auction still stored is closed out of the registry with
    /// its matched/executed pair recorded; an already absent id is
    /// skipped silently, never failing the tick. Auctions expiring at
    /// other heights, and the participant index, are untouched.
    pub fn on_time_step(&mut self, now: BlockNumber)
        requires
            old(self)@.wf(),
        ensures
            final(self)@.wf(),
            final(self)@ == spec_time_step(old(self)@, now),
    {
        proof {
            lemma_time_step_preserves_wf(old(self)@, now);
        }
        let ids = self.queue.drain(now);
        let ghost s0 = old(self)@;
        let ghost bucket = ids@;
        proof {
            if !s0.queue.contains_key(now) {
                assert(bucket =~= Seq::<AuctionId>::empty());
            }
            assert(distinct_ids(bucket));
            assert(bucket.take(0) =~= Seq::<AuctionId>::empty());
        }
        let mut i: usize = 0;
        while i < ids.len()
            invariant
                0 <= i <= ids@.len(),
                ids@ == bucket,
                bucket == crate::queue::spec_bucket(s0.queue, now),
                distinct_ids(bucket),
                self@.auctions == spec_drained_auctions(s0.auctions, bucket.take(i as int)),
                self@.events == s0.events + spec_match_events(
                    s0.auctions,
                    bucket.take(i as int),
                    now,
                ),
                self@.queue == s0.queue.remove(now),
                self@.next_id == s0.next_id,
                self@.participants == s0.participants,
                self@.capacity == s0.capacity,
            decreases ids@.len() - i,
        {
            let id = ids[i];
            proof {
                assert(bucket.take(i as int + 1).drop_last() =~= bucket.take(i as int));
                assert(bucket.take(i as int + 1).last() == bucket[i as int]);
                assert(!bucket.take(i as int).contains(id)) by {
                    if bucket.take(i as int).contains(id) {
                        let j = choose|j: int|
                            0 <= j < i && bucket.take(i as int)[j] == id;
                        assert(bucket[j] == id);
                    }
                }
                lemma_drained_auctions(s0.auctions, bucket.take(i as int));
            }
            match self.registry.remove(id) {
                Some(auction) => {
                    proof {
                        assert(auction@ == s0.auctions[id]);
                    }
                    self.on_auction_ended(auction, now);
                },
                None => {},
            }
            proof {
                assert(self@.auctions =~= spec_drained_auctions(
                    s0.auctions,
                    bucket.take(i as int + 1),
                ));
                assert(self@.events =~= s0.events + spec_match_events(
                    s0.auctions,
                    bucket.take(i as int + 1),
                    now,
                ));
            }
            i = i + 1;
        }
        proof {
            assert(bucket.take(bucket.len() as int) =~= bucket);
            assert(self@ =~~= spec_time_step(s0, now));
        }
    }

    /// The record stored under `auction_id`, if any.
    pub fn auctions(&self, auction_id: AuctionId) -> (r: Option<&AuctionData>)
        ensures
            match r {
                Some(a) => self@.auctions.contains_key(auction_id) && a@
                    == self@.auctions[auction_id],
                None => !self@.auctions.contains_key(auction_id),
            },
    {
        self.registry.get(auction_id)
    }

    /// The cache of `account`'s recent auctions, if it ever took part.
    pub fn auctions_of(&self, account: AccountId) -> (r: Option<&AuctionInfo>)
        ensures
            match r {
                Some(info) => self@.participants.contains_key(account) && info@
                    == self@.participants[account],
                None => !self@.participants.contains_key(account),
            },
    {
        self.participants.lookup(account)
    }

    /// Whether the execution queue holds the entry `(at, auction_id)`.
    pub fn auction_execution_queue(&self, at: BlockNumber, auction_id: AuctionId) -> (r: bool)
        ensures
            r == crate::queue::spec_bucket(self@.queue, at).contains(auction_id),
    {
        self.queue.contains_entry(at, auction_id)
    }

    /// The id the allocator will hand out next.
    pub fn auctions_index(&self) -> (r: AuctionId)
        ensures
            r == self@.next_id,
    {
        self.registry.current_index()
    }

    /// The events emitted so far, oldest first.
    pub fn events(&self) -> (r: &Vec<Event>)
        ensures
            r@ == self@.events,
    {
        &self.events
    }
}

} // verus!
