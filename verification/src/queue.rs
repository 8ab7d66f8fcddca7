//! The time-bucketed execution queue: an index of open auctions by
//! expiry height, used at each tick to find the auctions that must be
//! closed and matched.
//!
//! The queue is a derived index; its truth must track the registry and
//! it is only ever mutated together with it, by the lifecycle engine.

use std::collections::HashMap;
use vstd::prelude::*;

use crate::id_list::{seq_without_id, vec_contains_id, vec_without_id};
use crate::{AuctionId, BlockNumber};

verus! {

broadcast use vstd::std_specs::hash::group_hash_axioms;

/// The ids scheduled under height `at`, in scheduling order; empty when
/// the bucket is absent.
pub open spec fn spec_bucket(
    q: Map<BlockNumber, Seq<AuctionId>>,
    at: BlockNumber,
) -> Seq<AuctionId> {
    if q.contains_key(at) {
        q[at]
    } else {
        Seq::empty()
    }
}

/// What [`ExecutionQueue::schedule`] does to the queue's model: one
/// entry appended to the bucket of `at`.
pub open spec fn spec_schedule(
    q: Map<BlockNumber, Seq<AuctionId>>,
    at: BlockNumber,
    id: AuctionId,
) -> Map<BlockNumber, Seq<AuctionId>> {
    q.insert(at, spec_bucket(q, at).push(id))
}

/// What [`ExecutionQueue::unschedule`] does to the queue's model: the
/// entry removed from the bucket of `at`; a no-op when absent.
pub open spec fn spec_unschedule(
    q: Map<BlockNumber, Seq<AuctionId>>,
    at: BlockNumber,
    id: AuctionId,
) -> Map<BlockNumber, Seq<AuctionId>> {
    if q.contains_key(at) {
        q.insert(at, seq_without_id(q[at], id))
    } else {
        q
    }
}

/// Time-bucketed index of open auctions by expiry height. Modelled as a
/// map from height to the ids scheduled at that height.
pub struct ExecutionQueue {
    buckets: HashMap<BlockNumber, Vec<AuctionId>>,
}

impl View for ExecutionQueue {
    type V = Map<BlockNumber, Seq<AuctionId>>;

    closed spec fn view(&self) -> Map<BlockNumber, Seq<AuctionId>> {
        self.buckets@.map_values(|v: Vec<AuctionId>| v@)
    }
}

impl ExecutionQueue {
    /// An empty queue.
    pub fn new() -> (q: ExecutionQueue)
        ensures
            q@ == Map::<BlockNumber, Seq<AuctionId>>::empty(),
    {
        let q = ExecutionQueue { buckets: HashMap::new() };
        proof {
            assert(q@ =~= Map::<BlockNumber, Seq<AuctionId>>::empty());
        }
        q
    }

    /// Adds the entry `(at, id)`.
    pub fn schedule(&mut self, at: BlockNumber, id: AuctionId)
        ensures
            final(self)@ == spec_schedule(old(self)@, at, id),
    {
        let mut bucket = match self.buckets.remove(&at) {
            Some(v) => v,
            None => Vec::new(),
        };
        bucket.push(id);
        self.buckets.insert(at, bucket);
        proof {
            assert(self@ =~= spec_schedule(old(self)@, at, id));
        }
    }

    /// Removes the entry `(at, id)`; a no-op when it is absent.
    pub fn unschedule(&mut self, at: BlockNumber, id: AuctionId)
        ensures
            final(self)@ == spec_unschedule(old(self)@, at, id),
    {
        match self.buckets.remove(&at) {
            Some(v) => {
                let filtered = vec_without_id(&v, id);
                self.buckets.insert(at, filtered);
            },
            None => {},
        }
        proof {
            assert(self@ =~= spec_unschedule(old(self)@, at, id));
        }
    }

    /// Returns and removes all entries whose bucket key equals `at`
    /// exactly, in scheduling order. Entries at other heights are
    /// untouched.
    pub fn drain(&mut self, at: BlockNumber) -> (ids: Vec<AuctionId>)
        ensures
            final(self)@ == old(self)@.remove(at),
            ids@ == spec_bucket(old(self)@, at),
    {
        let ids = match self.buckets.remove(&at) {
            Some(v) => v,
            None => Vec::new(),
        };
        proof {
            assert(self@ =~= old(self)@.remove(at));
        }
        ids
    }

    /// Whether the entry `(at, id)` is present.
    pub fn contains_entry(&self, at: BlockNumber, id: AuctionId) -> (r: bool)
        ensures
            r == spec_bucket(self@, at).contains(id),
    {
        match self.buckets.get(&at) {
            Some(v) => vec_contains_id(v, id),
            None => false,
        }
    }
}

} // verus!
