//! The behavioural laws of the engine, proved once and for all over
//! the transition functions of [`crate::state`]. Together with each
//! operation's own contract (which ties the executable engine to those
//! transitions), they cover every state a [`crate::engine::Pallet`]
//! can reach.

use vstd::prelude::*;

use crate::model::{AuctionStatus, Bid, Error, Event};
use crate::queue::spec_bucket;
use crate::state::{
    lemma_drained_auctions, spec_bid, spec_bid_result, spec_cancel, spec_cancel_result,
    spec_create, spec_time_step, PalletView,
};
use crate::{AccountId, AuctionId, BlockNumber, Price, Quantity};

verus! {

/// Every successful creation stores a record created now and expiring
/// exactly `period_minutes * 10` ticks later, in tier level 1 when the
/// quantity is below 5 and level 2 otherwise.
pub proof fn lemma_creation_schedule(
    s: PalletView,
    seller: AccountId,
    quantity: Quantity,
    starting_price: Price,
    period_minutes: u16,
    now: BlockNumber,
)
    requires
        now + period_minutes * 10 <= BlockNumber::MAX,
    ensures
        ({
            let r = spec_create(
                s,
                seller,
                quantity,
                starting_price,
                period_minutes,
                now,
            ).auctions[s.next_id];
            &&& r.created_at == now
            &&& r.expires_at == now + period_minutes * 10
            &&& (r.tier.level == 1 <==> quantity < 5)
            &&& (r.tier.level == 2 <==> quantity >= 5)
        }),
{
}

/// The leading bid's amount never decreases across a bid, accepted or
/// not; any sequence of bids therefore leaves it non-decreasing.
pub proof fn lemma_bid_monotone(s: PalletView, buyer: AccountId, id: AuctionId, amount: Price)
    requires
        s.auctions.contains_key(id),
    ensures
        spec_bid(s, buyer, id, amount).auctions[id].highest_bid.amount
            >= s.auctions[id].highest_bid.amount,
{
}

/// The state after a whole sequence of bids `(buyer, amount)` on one
/// auction, submitted in order.
pub open spec fn spec_bid_sequence(
    s: PalletView,
    id: AuctionId,
    bids: Seq<(AccountId, Price)>,
) -> PalletView
    decreases bids.len(),
{
    if bids.len() == 0 {
        s
    } else {
        spec_bid(spec_bid_sequence(s, id, bids.drop_last()), bids.last().0, id, bids.last().1)
    }
}

/// Across any sequence of bids — accepted or not — a stored auction
/// stays stored and its leading bid's amount never decreases.
pub proof fn lemma_bid_sequence_monotone(
    s: PalletView,
    id: AuctionId,
    bids: Seq<(AccountId, Price)>,
)
    requires
        s.auctions.contains_key(id),
    ensures
        spec_bid_sequence(s, id, bids).auctions.contains_key(id),
        spec_bid_sequence(s, id, bids).auctions[id].highest_bid.amount
            >= s.auctions[id].highest_bid.amount,
    decreases bids.len(),
{
    if bids.len() > 0 {
        lemma_bid_sequence_monotone(s, id, bids.drop_last());
        lemma_bid_monotone(
            spec_bid_sequence(s, id, bids.drop_last()),
            bids.last().0,
            id,
            bids.last().1,
        );
    }
}

/// A bid that does not exceed the current leader changes no record —
/// in particular the leader stands, first-to-reach-a-value wins a tie —
/// yet the submission is still acknowledged by an `AuctionBidAdded`
/// event.
pub proof fn lemma_losing_bid_keeps_leader(
    s: PalletView,
    buyer: AccountId,
    id: AuctionId,
    amount: Price,
)
    requires
        s.auctions.contains_key(id),
        s.auctions[id].status == AuctionStatus::Open,
        amount <= s.auctions[id].highest_bid.amount,
    ensures
        spec_bid(s, buyer, id, amount).auctions == s.auctions,
        spec_bid(s, buyer, id, amount).events == s.events.push(
            (Event::AuctionBidAdded {
                auction_id: id,
                seller_id: s.auctions[id].seller_id,
                energy_quantity: s.auctions[id].quantity,
                bid: Bid { bidder: buyer, amount: amount },
            }),
        ),
{
    assert(spec_bid(s, buyer, id, amount).auctions =~= s.auctions);
}

/// Cancellation is terminal: once an auction is cancelled, any further
/// bid or cancellation on its id fails — the registry no longer holds
/// the id, so both report `AuctionDoesNotExist` — and leaves the state
/// untouched.
pub proof fn lemma_cancel_terminal(
    s: PalletView,
    caller: AccountId,
    id: AuctionId,
    later_buyer: AccountId,
    later_amount: Price,
    later_caller: AccountId,
)
    requires
        spec_cancel_result(s, caller, id) is Ok,
    ensures
        ({
            let s2 = spec_cancel(s, caller, id);
            &&& spec_bid_result(s2, id) == Err::<(), Error>(Error::AuctionDoesNotExist)
            &&& spec_cancel_result(s2, later_caller, id) == Err::<(), Error>(
                Error::AuctionDoesNotExist,
            )
            &&& spec_bid(s2, later_buyer, id, later_amount) == s2
            &&& spec_cancel(s2, later_caller, id) == s2
        }),
{
}

/// A time step at height `h` drains exactly the auctions whose expiry
/// equals `h`: those are removed, every other record is untouched, and
/// the queue buckets of other heights are kept as they are.
pub proof fn lemma_time_step_drains_exactly(s: PalletView, now: BlockNumber)
    requires
        s.wf(),
    ensures
        forall|id: AuctionId|
            #[trigger] spec_time_step(s, now).auctions.contains_key(id) <==> (
            s.auctions.contains_key(id) && s.auctions[id].expires_at != now),
        forall|id: AuctionId|
            #[trigger] spec_time_step(s, now).auctions.contains_key(id) ==> spec_time_step(
                s,
                now,
            ).auctions[id] == s.auctions[id],
        forall|at: BlockNumber|
            at != now ==> #[trigger] spec_bucket(spec_time_step(s, now).queue, at) == spec_bucket(
                s.queue,
                at,
            ),
{
    let b = spec_bucket(s.queue, now);
    lemma_drained_auctions(s.auctions, b);
    assert forall|id: AuctionId|
        #[trigger] spec_time_step(s, now).auctions.contains_key(id) <==> (s.auctions.contains_key(
            id,
        ) && s.auctions[id].expires_at != now) by {
        if s.auctions.contains_key(id) {
            if s.auctions[id].expires_at == now {
                assert(spec_bucket(s.queue, s.auctions[id].expires_at).contains(id));
            }
            if b.contains(id) {
                assert(s.auctions[id].expires_at == now);
            }
        }
    }
}

/// Draining a height a second time, with nothing newly scheduled
/// there, is a no-op: the bucket was removed by the first drain, so no
/// record changes and no further event is emitted.
pub proof fn lemma_time_step_idempotent(s: PalletView, now: BlockNumber)
    ensures
        spec_time_step(spec_time_step(s, now), now) == spec_time_step(s, now),
{
    let s2 = spec_time_step(s, now);
    assert(spec_bucket(s2.queue, now) =~= Seq::<AuctionId>::empty());
    assert(s2.queue.remove(now) =~= s2.queue);
    assert(s2.events + Seq::<Event>::empty() =~= s2.events);
    assert(spec_time_step(s2, now) =~~= s2);
}

/// In every well-formed state — and every operation's contract shows
/// the engine keeps its state well formed — no account's cache of
/// recent auctions exceeds the configured capacity.
pub proof fn lemma_participant_capacity(s: PalletView, account: AccountId)
    requires
        s.wf(),
        s.participants.contains_key(account),
    ensures
        s.participants[account].auctions.len() <= s.capacity,
{
}

} // verus!
