//! The mathematical model of the whole engine: its state, the
//! well-formedness invariant tying the registry to its two derived
//! indices, and one transition function per operation. The executable
//! engine's contracts are stated against these, and the laws in
//! [`crate::laws`] are proved about them.

use vstd::prelude::*;

use crate::id_list::{
    distinct_ids, lemma_contains_push, lemma_contains_split_last, lemma_distinct_push,
    lemma_seq_without_id, seq_without_id,
};
use crate::model::{AuctionDataView, AuctionInfoView, AuctionStatus, Bid, Error, Event, PartyType};
use crate::participants::{
    lemma_touched_list_wf, spec_prior_list, spec_remove_ref, spec_touch,
};
use crate::queue::{spec_bucket, spec_schedule, spec_unschedule};
use crate::tier::spec_classify;
use crate::{AccountId, AuctionId, BlockNumber, Price, Quantity, TICKS_PER_MINUTE};

verus! {

/// The engine's whole state: the authoritative auction store and id
/// allocator, the execution queue, the participant index with its
/// configured capacity, and the log of emitted events.
#[verifier::ext_equal]
pub struct PalletView {
    pub auctions: Map<AuctionId, AuctionDataView>,
    pub next_id: AuctionId,
    pub queue: Map<BlockNumber, Seq<AuctionId>>,
    pub participants: Map<AccountId, AuctionInfoView>,
    pub capacity: usize,
    pub events: Seq<Event>,
}

impl PalletView {
    /// The engine's invariant.
    ///
    /// - every stored record is keyed by its own id, open, internally
    ///   consistent, carries an id below the allocator's next one, and
    ///   is scheduled in the queue bucket of its expiry height;
    /// - every queue entry points back to a stored record expiring at
    ///   exactly that height (so each open auction has exactly one
    ///   entry, and a drained bucket drains exactly the auctions that
    ///   expire then);
    /// - no queue bucket lists an id twice;
    /// - every participant record is well formed for the configured
    ///   capacity.
    pub open spec fn wf(self) -> bool {
        &&& self.capacity >= 1
        &&& forall|id: AuctionId|
            self.auctions.contains_key(id) ==> {
                let r = #[trigger] self.auctions[id];
                &&& r.auction_id == id
                &&& id < self.next_id
                &&& r.status == AuctionStatus::Open
                &&& r.wf()
                &&& spec_bucket(self.queue, r.expires_at).contains(id)
            }
        &&& forall|at: BlockNumber, id: AuctionId|
            #[trigger] spec_bucket(self.queue, at).contains(id) ==> self.auctions.contains_key(id)
                && self.auctions[id].expires_at == at
        &&& forall|at: BlockNumber|
            self.queue.contains_key(at) ==> distinct_ids(#[trigger] self.queue[at])
        &&& forall|a: AccountId|
            self.participants.contains_key(a) ==> (#[trigger] self.participants[a]).wf(
                a,
                self.capacity,
            )
    }

    /// The state of a freshly built engine: empty but for the
    /// allocator's starting point and the configured capacity.
    pub open spec fn genesis(initial_id: AuctionId, capacity: usize) -> PalletView {
        PalletView {
            auctions: Map::empty(),
            next_id: initial_id,
            queue: Map::empty(),
            participants: Map::empty(),
            capacity: capacity,
            events: Seq::empty(),
        }
    }
}

/// The record a successful creation stores: open, tiered by quantity,
/// expiring a fixed number of ticks after `now`, with the leading bid
/// seeded from the seller's starting price and an empty history.
pub open spec fn spec_new_record(
    id: AuctionId,
    seller: AccountId,
    quantity: Quantity,
    starting_price: Price,
    period_minutes: u16,
    now: BlockNumber,
) -> AuctionDataView {
    let period = (period_minutes * TICKS_PER_MINUTE) as BlockNumber;
    AuctionDataView {
        auction_id: id,
        seller_id: seller,
        quantity: quantity,
        starting_price: starting_price,
        status: AuctionStatus::Open,
        tier: spec_classify(quantity),
        created_at: now,
        period: period,
        expires_at: (now + period) as BlockNumber,
        highest_bid: Bid { bidder: seller, amount: starting_price },
        bid_history: Seq::empty(),
    }
}

/// The state after a successful creation: the record stored under the
/// allocated id, the allocator advanced, the record scheduled at its
/// expiry, the seller's cache touched, and `AuctionCreated` emitted.
pub open spec fn spec_create(
    s: PalletView,
    seller: AccountId,
    quantity: Quantity,
    starting_price: Price,
    period_minutes: u16,
    now: BlockNumber,
) -> PalletView {
    let id = s.next_id;
    let r = spec_new_record(id, seller, quantity, starting_price, period_minutes, now);
    PalletView {
        auctions: s.auctions.insert(id, r),
        next_id: (s.next_id + 1) as AuctionId,
        queue: spec_schedule(s.queue, r.expires_at, id),
        participants: spec_touch(s.participants, seller, PartyType::Seller, id, s.capacity),
        capacity: s.capacity,
        events: s.events.push(
            Event::AuctionCreated {
                auction_id: id,
                seller_id: seller,
                energy_quantity: quantity,
                starting_price: starting_price,
            },
        ),
    }
}

/// A submitted bid takes the lead if and only if it is strictly greater
/// than the current leader; a winning bid is also prepended to the
/// history. A tie or lower bid leaves the record untouched.
pub open spec fn spec_apply_bid(
    r: AuctionDataView,
    bidder: AccountId,
    amount: Price,
) -> AuctionDataView {
    if amount > r.highest_bid.amount {
        AuctionDataView {
            auction_id: r.auction_id,
            seller_id: r.seller_id,
            quantity: r.quantity,
            starting_price: r.starting_price,
            status: r.status,
            tier: r.tier,
            created_at: r.created_at,
            period: r.period,
            expires_at: r.expires_at,
            highest_bid: Bid { bidder: bidder, amount: amount },
            bid_history: seq![Bid { bidder: bidder, amount: amount }] + r.bid_history,
        }
    } else {
        r
    }
}

/// Whether a bid on `id` is accepted for processing, and the error
/// otherwise: the id must be stored and the record open.
pub open spec fn spec_bid_result(s: PalletView, id: AuctionId) -> Result<(), Error> {
    if !s.auctions.contains_key(id) {
        Err(Error::AuctionDoesNotExist)
    } else if s.auctions[id].status != AuctionStatus::Open {
        Err(Error::AuctionIsOver)
    } else {
        Ok(())
    }
}

/// The state after a bid. On error, the state is unchanged. Otherwise
/// the record is updated per [`spec_apply_bid`], the buyer's cache is
/// touched in role buyer, the seller's entry is refreshed, and
/// `AuctionBidAdded` acknowledges the submission whether or not it took
/// the lead.
pub open spec fn spec_bid(
    s: PalletView,
    buyer: AccountId,
    id: AuctionId,
    amount: Price,
) -> PalletView {
    if spec_bid_result(s, id) is Err {
        s
    } else {
        let r = s.auctions[id];
        PalletView {
            auctions: s.auctions.insert(id, spec_apply_bid(r, buyer, amount)),
            next_id: s.next_id,
            queue: s.queue,
            participants: spec_touch(
                spec_touch(s.participants, buyer, PartyType::Buyer, id, s.capacity),
                r.seller_id,
                PartyType::Seller,
                id,
                s.capacity,
            ),
            capacity: s.capacity,
            events: s.events.push(
                Event::AuctionBidAdded {
                    auction_id: id,
                    seller_id: r.seller_id,
                    energy_quantity: r.quantity,
                    bid: Bid { bidder: buyer, amount: amount },
                },
            ),
        }
    }
}

/// Whether a cancellation succeeds, and the error otherwise: the id
/// must be stored, the record open, and the caller its seller.
pub open spec fn spec_cancel_result(
    s: PalletView,
    caller: AccountId,
    id: AuctionId,
) -> Result<(), Error> {
    if !s.auctions.contains_key(id) {
        Err(Error::AuctionDoesNotExist)
    } else if s.auctions[id].status != AuctionStatus::Open {
        Err(Error::AuctionIsOver)
    } else if s.auctions[id].seller_id != caller {
        Err(Error::Unauthorized)
    } else {
        Ok(())
    }
}

/// The state after a cancellation. On error, the state is unchanged.
/// Otherwise the record leaves the registry, its queue entry is
/// unscheduled, the reference is pruned from the seller's cache, and
/// `AuctionCanceled` is emitted.
pub open spec fn spec_cancel(s: PalletView, caller: AccountId, id: AuctionId) -> PalletView {
    if spec_cancel_result(s, caller, id) is Err {
        s
    } else {
        let r = s.auctions[id];
        PalletView {
            auctions: s.auctions.remove(id),
            next_id: s.next_id,
            queue: spec_unschedule(s.queue, r.expires_at, id),
            participants: spec_remove_ref(s.participants, r.seller_id, id),
            capacity: s.capacity,
            events: s.events.push(
                Event::AuctionCanceled {
                    auction_id: id,
                    seller_id: r.seller_id,
                    energy_quantity: r.quantity,
                    starting_price: r.starting_price,
                },
            ),
        }
    }
}

/// The matched/executed event pair recorded for one auction that
/// reached its expiry at height `now`.
pub open spec fn spec_end_pair(r: AuctionDataView, now: BlockNumber) -> Seq<Event> {
    seq![
        Event::AuctionMatched {
            auction_id: r.auction_id,
            seller_id: r.seller_id,
            energy_quantity: r.quantity,
            starting_price: r.starting_price,
            highest_bid: r.highest_bid,
            matched_at: now,
        },
        Event::AuctionExecuted {
            auction_id: r.auction_id,
            seller_id: r.seller_id,
            buyer_id: r.highest_bid.bidder,
            energy_quantity: r.quantity,
            starting_price: r.starting_price,
            highest_bid_amount: r.highest_bid.amount,
            executed_at: now,
        },
    ]
}

/// The events of one drained id: the matched/executed pair when the id
/// is still stored, nothing when it was already gone (the silent skip
/// of the system-driven path).
pub open spec fn spec_end_events(
    auctions: Map<AuctionId, AuctionDataView>,
    id: AuctionId,
    now: BlockNumber,
) -> Seq<Event> {
    if auctions.contains_key(id) {
        spec_end_pair(auctions[id], now)
    } else {
        Seq::empty()
    }
}

/// The events appended by draining `ids` in order against the store
/// `auctions`.
pub open spec fn spec_match_events(
    auctions: Map<AuctionId, AuctionDataView>,
    ids: Seq<AuctionId>,
    now: BlockNumber,
) -> Seq<Event>
    decreases ids.len(),
{
    if ids.len() == 0 {
        Seq::empty()
    } else {
        spec_match_events(auctions, ids.drop_last(), now) + spec_end_events(
            auctions,
            ids.last(),
            now,
        )
    }
}

/// The store after the drained `ids` are removed from it, in order.
pub open spec fn spec_drained_auctions(
    auctions: Map<AuctionId, AuctionDataView>,
    ids: Seq<AuctionId>,
) -> Map<AuctionId, AuctionDataView>
    decreases ids.len(),
{
    if ids.len() == 0 {
        auctions
    } else {
        spec_drained_auctions(auctions, ids.drop_last()).remove(ids.last())
    }
}

/// The state after the time step at height `now`: the bucket of `now`
/// is drained in scheduling order, each drained auction still stored is
/// closed out of the registry with its matched/executed pair recorded;
/// everything else, the participant index included, is untouched.
pub open spec fn spec_time_step(s: PalletView, now: BlockNumber) -> PalletView {
    let bucket = spec_bucket(s.queue, now);
    PalletView {
        auctions: spec_drained_auctions(s.auctions, bucket),
        next_id: s.next_id,
        queue: s.queue.remove(now),
        participants: s.participants,
        capacity: s.capacity,
        events: s.events + spec_match_events(s.auctions, bucket, now),
    }
}

/// Draining removes exactly the listed ids: a key survives if and only
/// if it was stored and not listed, and a surviving key's record is
/// untouched.
pub proof fn lemma_drained_auctions(auctions: Map<AuctionId, AuctionDataView>, ids: Seq<AuctionId>)
    ensures
        forall|k: AuctionId|
            #[trigger] spec_drained_auctions(auctions, ids).contains_key(k) <==> (
            auctions.contains_key(k) && !ids.contains(k)),
        forall|k: AuctionId|
            #[trigger] spec_drained_auctions(auctions, ids).contains_key(k)
                ==> spec_drained_auctions(auctions, ids)[k] == auctions[k],
    decreases ids.len(),
{
    if ids.len() > 0 {
        lemma_drained_auctions(auctions, ids.drop_last());
        lemma_contains_split_last(ids);
        let inner = spec_drained_auctions(auctions, ids.drop_last());
        let full = spec_drained_auctions(auctions, ids);
        assert(full == inner.remove(ids.last()));
        assert forall|k: AuctionId| #[trigger] full.contains_key(k) <==> (auctions.contains_key(k)
            && !ids.contains(k)) by {
            assert(full.contains_key(k) <==> inner.contains_key(k) && k != ids.last());
            assert(inner.contains_key(k) <==> auctions.contains_key(k) && !ids.drop_last().contains(
                k,
            ));
            assert(ids.contains(k) <==> ids.drop_last().contains(k) || k == ids.last());
        }
        assert forall|k: AuctionId| #[trigger] full.contains_key(k) implies full[k]
            == auctions[k] by {
            assert(inner.contains_key(k));
            assert(full[k] == inner[k]);
        }
    }
}

/// Touching an account's cache preserves the well-formedness of every
/// participant record.
pub proof fn lemma_touch_wf(
    m: Map<AccountId, AuctionInfoView>,
    account: AccountId,
    role: PartyType,
    id: AuctionId,
    capacity: usize,
)
    requires
        capacity >= 1,
        forall|a: AccountId| m.contains_key(a) ==> (#[trigger] m[a]).wf(a, capacity),
    ensures
        forall|a: AccountId|
            spec_touch(m, account, role, id, capacity).contains_key(a) ==> (#[trigger] spec_touch(
                m,
                account,
                role,
                id,
                capacity,
            )[a]).wf(a, capacity),
{
    if m.contains_key(account) {
        assert(m[account].wf(account, capacity));
    }
    lemma_touched_list_wf(spec_prior_list(m, account), id, capacity);
}

/// Pruning a reference from an account's cache preserves the
/// well-formedness of every participant record.
pub proof fn lemma_remove_ref_wf(
    m: Map<AccountId, AuctionInfoView>,
    account: AccountId,
    id: AuctionId,
    capacity: usize,
)
    requires
        capacity >= 1,
        forall|a: AccountId| m.contains_key(a) ==> (#[trigger] m[a]).wf(a, capacity),
    ensures
        forall|a: AccountId|
            spec_remove_ref(m, account, id).contains_key(a) ==> (#[trigger] spec_remove_ref(
                m,
                account,
                id,
            )[a]).wf(a, capacity),
{
    if m.contains_key(account) {
        assert(m[account].wf(account, capacity));
        lemma_seq_without_id(m[account].auctions, id);
    }
}

/// A creation on a well-formed state yields a well-formed state.
pub proof fn lemma_create_preserves_wf(
    s: PalletView,
    seller: AccountId,
    quantity: Quantity,
    starting_price: Price,
    period_minutes: u16,
    now: BlockNumber,
)
    requires
        s.wf(),
        quantity > 0,
        s.next_id < AuctionId::MAX,
        now + period_minutes * TICKS_PER_MINUTE <= BlockNumber::MAX,
    ensures
        spec_create(s, seller, quantity, starting_price, period_minutes, now).wf(),
{
    let id = s.next_id;
    let r = spec_new_record(id, seller, quantity, starting_price, period_minutes, now);
    let s2 = spec_create(s, seller, quantity, starting_price, period_minutes, now);
    assert(r.wf());
    let b0 = spec_bucket(s.queue, r.expires_at);
    let b1 = b0.push(id);
    lemma_contains_push(b0, id);
    assert(spec_bucket(s2.queue, r.expires_at) == b1);
    assert(!b0.contains(id));
    if s.queue.contains_key(r.expires_at) {
        assert(distinct_ids(b0));
    }
    lemma_distinct_push(b0, id);
    assert(b1[b1.len() - 1] == id);
    assert forall|id2: AuctionId| s2.auctions.contains_key(id2) implies {
        let rr = #[trigger] s2.auctions[id2];
        &&& rr.auction_id == id2
        &&& id2 < s2.next_id
        &&& rr.status == AuctionStatus::Open
        &&& rr.wf()
        &&& spec_bucket(s2.queue, rr.expires_at).contains(id2)
    } by {
        if id2 == id {
            assert(s2.auctions[id2] == r);
        } else {
            assert(s.auctions.contains_key(id2));
            let rr = s.auctions[id2];
            assert(spec_bucket(s.queue, rr.expires_at).contains(id2));
            if rr.expires_at != r.expires_at {
                assert(spec_bucket(s2.queue, rr.expires_at) == spec_bucket(s.queue, rr.expires_at));
            }
        }
    }
    assert forall|at: BlockNumber, id2: AuctionId|
        #[trigger] spec_bucket(s2.queue, at).contains(id2) implies s2.auctions.contains_key(id2)
        && s2.auctions[id2].expires_at == at by {
        if at == r.expires_at {
            assert(spec_bucket(s2.queue, at) == b1);
            if id2 != id {
                assert(b0.contains(id2));
                assert(s.auctions.contains_key(id2));
            }
        } else {
            assert(spec_bucket(s2.queue, at) == spec_bucket(s.queue, at));
            assert(s.auctions.contains_key(id2));
        }
    }
    assert forall|at: BlockNumber| s2.queue.contains_key(at) implies distinct_ids(
        #[trigger] s2.queue[at],
    ) by {
        if at == r.expires_at {
            assert(s2.queue[at] == b1);
        } else {
            assert(s2.queue[at] == s.queue[at]);
        }
    }
    lemma_touch_wf(s.participants, seller, PartyType::Seller, id, s.capacity);
}

/// A bid on a well-formed state yields a well-formed state.
pub proof fn lemma_bid_preserves_wf(s: PalletView, buyer: AccountId, id: AuctionId, amount: Price)
    requires
        s.wf(),
    ensures
        spec_bid(s, buyer, id, amount).wf(),
{
    if spec_bid_result(s, id) is Ok {
        let r = s.auctions[id];
        let r2 = spec_apply_bid(r, buyer, amount);
        let s2 = spec_bid(s, buyer, id, amount);
        assert(r.wf());
        if amount > r.highest_bid.amount {
            let h2 = r2.bid_history;
            assert(h2[0] == Bid { bidder: buyer, amount: amount });
            assert forall|i: int, j: int|
                #![trigger h2[i], h2[j]]
                0 <= i < j < h2.len() implies h2[i].amount > h2[j].amount by {
                if i == 0 {
                    if r.bid_history.len() > 0 && j > 1 {
                        assert(r.bid_history[0].amount > r.bid_history[j - 1].amount);
                    }
                } else {
                    assert(r.bid_history[i - 1].amount > r.bid_history[j - 1].amount);
                }
            }
        }
        assert(r2.wf());
        assert forall|id2: AuctionId| s2.auctions.contains_key(id2) implies {
            let rr = #[trigger] s2.auctions[id2];
            &&& rr.auction_id == id2
            &&& id2 < s2.next_id
            &&& rr.status == AuctionStatus::Open
            &&& rr.wf()
            &&& spec_bucket(s2.queue, rr.expires_at).contains(id2)
        } by {
            if id2 == id {
                assert(s2.auctions[id2] == r2);
            } else {
                assert(s.auctions.contains_key(id2));
            }
        }
        lemma_touch_wf(s.participants, buyer, PartyType::Buyer, id, s.capacity);
        lemma_touch_wf(
            spec_touch(s.participants, buyer, PartyType::Buyer, id, s.capacity),
            r.seller_id,
            PartyType::Seller,
            id,
            s.capacity,
        );
    }
}

/// A cancellation on a well-formed state yields a well-formed state.
pub proof fn lemma_cancel_preserves_wf(s: PalletView, caller: AccountId, id: AuctionId)
    requires
        s.wf(),
    ensures
        spec_cancel(s, caller, id).wf(),
{
    if spec_cancel_result(s, caller, id) is Ok {
        let r = s.auctions[id];
        let s2 = spec_cancel(s, caller, id);
        assert(spec_bucket(s.queue, r.expires_at).contains(id));
        assert(s.queue.contains_key(r.expires_at));
        let b0 = s.queue[r.expires_at];
        let b1 = seq_without_id(b0, id);
        lemma_seq_without_id(b0, id);
        assert(spec_bucket(s2.queue, r.expires_at) == b1);
        assert forall|id2: AuctionId| s2.auctions.contains_key(id2) implies {
            let rr = #[trigger] s2.auctions[id2];
            &&& rr.auction_id == id2
            &&& id2 < s2.next_id
            &&& rr.status == AuctionStatus::Open
            &&& rr.wf()
            &&& spec_bucket(s2.queue, rr.expires_at).contains(id2)
        } by {
            assert(s.auctions.contains_key(id2));
            let rr = s.auctions[id2];
            assert(spec_bucket(s.queue, rr.expires_at).contains(id2));
            if rr.expires_at != r.expires_at {
                assert(spec_bucket(s2.queue, rr.expires_at) == spec_bucket(s.queue, rr.expires_at));
            }
        }
        assert forall|at: BlockNumber, id2: AuctionId|
            #[trigger] spec_bucket(s2.queue, at).contains(id2) implies s2.auctions.contains_key(id2)
            && s2.auctions[id2].expires_at == at by {
            if at == r.expires_at {
                assert(spec_bucket(s2.queue, at) == b1);
                assert(id2 != id);
                assert(b0.contains(id2));
                assert(spec_bucket(s.queue, at).contains(id2));
            } else {
                assert(spec_bucket(s2.queue, at) == spec_bucket(s.queue, at));
                assert(s.auctions.contains_key(id2));
                assert(s.auctions[id2].expires_at == at);
                assert(id2 != id);
            }
        }
        assert forall|at: BlockNumber| s2.queue.contains_key(at) implies distinct_ids(
            #[trigger] s2.queue[at],
        ) by {
            if at == r.expires_at {
                assert(s2.queue[at] == b1);
            } else {
                assert(s2.queue[at] == s.queue[at]);
            }
        }
        lemma_remove_ref_wf(s.participants, r.seller_id, id, s.capacity);
    }
}

/// A time step on a well-formed state yields a well-formed state.
pub proof fn lemma_time_step_preserves_wf(s: PalletView, now: BlockNumber)
    requires
        s.wf(),
    ensures
        spec_time_step(s, now).wf(),
{
    let b = spec_bucket(s.queue, now);
    lemma_drained_auctions(s.auctions, b);
    let s2 = spec_time_step(s, now);
    assert forall|id2: AuctionId| s2.auctions.contains_key(id2) implies {
        let rr = #[trigger] s2.auctions[id2];
        &&& rr.auction_id == id2
        &&& id2 < s2.next_id
        &&& rr.status == AuctionStatus::Open
        &&& rr.wf()
        &&& spec_bucket(s2.queue, rr.expires_at).contains(id2)
    } by {
        assert(s.auctions.contains_key(id2) && !b.contains(id2));
        let rr = s.auctions[id2];
        assert(spec_bucket(s.queue, rr.expires_at).contains(id2));
        assert(rr.expires_at != now);
        assert(spec_bucket(s2.queue, rr.expires_at) == spec_bucket(s.queue, rr.expires_at));
    }
    assert forall|at: BlockNumber, id2: AuctionId|
        #[trigger] spec_bucket(s2.queue, at).contains(id2) implies s2.auctions.contains_key(id2)
        && s2.auctions[id2].expires_at == at by {
        assert(at != now);
        assert(spec_bucket(s2.queue, at) == spec_bucket(s.queue, at));
        assert(s.auctions.contains_key(id2));
        assert(s.auctions[id2].expires_at == at);
        assert(!b.contains(id2));
    }
    assert forall|at: BlockNumber| s2.queue.contains_key(at) implies distinct_ids(
        #[trigger] s2.queue[at],
    ) by {
        assert(s2.queue[at] == s.queue[at]);
    }
}

} // verus!
