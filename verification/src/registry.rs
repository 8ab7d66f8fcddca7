//! The authoritative keyed store of all open auctions, together with
//! the monotonic auction id allocator.
//!
//! The registry holds plain keyed-store semantics and the allocator;
//! all validation lives in the lifecycle engine. The execution queue
//! and the participant index are derived from what is stored here.

use std::collections::HashMap;
use vstd::prelude::*;

use crate::model::{AuctionData, AuctionDataView};
use crate::AuctionId;

verus! {

broadcast use vstd::std_specs::hash::group_hash_axioms;

/// Mathematical model of the registry: the stored records and the next
/// id the allocator will hand out.
#[verifier::ext_equal]
pub struct RegistryView {
    pub auctions: Map<AuctionId, AuctionDataView>,
    pub next_id: AuctionId,
}

/// Keyed store of the open auctions plus the id allocator. Ids are
/// allocated monotonically and never revisited, even after a record is
/// removed.
pub struct AuctionRegistry {
    auctions: HashMap<AuctionId, AuctionData>,
    next_id: AuctionId,
}

impl View for AuctionRegistry {
    type V = RegistryView;

    closed spec fn view(&self) -> RegistryView {
        RegistryView {
            auctions: self.auctions@.map_values(|a: AuctionData| a@),
            next_id: self.next_id,
        }
    }
}

impl AuctionRegistry {
    /// An empty registry whose allocator starts at `initial_id`.
    pub fn new(initial_id: AuctionId) -> (r: AuctionRegistry)
        ensures
            r@.auctions == Map::<AuctionId, AuctionDataView>::empty(),
            r@.next_id == initial_id,
    {
        let r = AuctionRegistry { auctions: HashMap::new(), next_id: initial_id };
        proof {
            assert(r@.auctions =~= Map::<AuctionId, AuctionDataView>::empty());
        }
        r
    }

    /// Returns the next unused id and advances the allocator; the
    /// stored records are untouched.
    pub fn allocate_id(&mut self) -> (id: AuctionId)
        requires
            old(self)@.next_id < AuctionId::MAX,
        ensures
            id == old(self)@.next_id,
            final(self)@.next_id == old(self)@.next_id + 1,
            final(self)@.auctions == old(self)@.auctions,
    {
        let id = self.next_id;
        self.next_id = self.next_id + 1;
        id
    }

    /// The id the allocator will hand out next.
    pub fn current_index(&self) -> (id: AuctionId)
        ensures
            id == self@.next_id,
    {
        self.next_id
    }

    /// Whether a record is stored under `id`.
    pub fn contains(&self, id: AuctionId) -> (r: bool)
        ensures
            r == self@.auctions.contains_key(id),
    {
        self.auctions.contains_key(&id)
    }

    /// The record stored under `id`, if any.
    pub fn get(&self, id: AuctionId) -> (r: Option<&AuctionData>)
        ensures
            match r {
                Some(a) => self@.auctions.contains_key(id) && a@ == self@.auctions[id],
                None => !self@.auctions.contains_key(id),
            },
    {
        self.auctions.get(&id)
    }

    /// Stores `record` under its own id, replacing any previous record
    /// under that id.
    pub fn insert(&mut self, record: AuctionData)
        ensures
            final(self)@.auctions == old(self)@.auctions.insert(record.auction_id, record@),
            final(self)@.next_id == old(self)@.next_id,
    {
        let ghost key = record.auction_id;
        let ghost value = record@;
        self.auctions.insert(record.auction_id, record);
        proof {
            assert(self@.auctions =~= old(self)@.auctions.insert(key, value));
        }
    }

    /// Removes and returns the record stored under `id`, if any.
    pub fn remove(&mut self, id: AuctionId) -> (r: Option<AuctionData>)
        ensures
            final(self)@.auctions == old(self)@.auctions.remove(id),
            final(self)@.next_id == old(self)@.next_id,
            match r {
                Some(a) => old(self)@.auctions.contains_key(id) && a@ == old(
                    self,
                )@.auctions[id],
                None => !old(self)@.auctions.contains_key(id),
            },
    {
        let r = self.auctions.remove(&id);
        proof {
            assert(self@.auctions =~= old(self)@.auctions.remove(id));
        }
        r
    }
}

} // verus!
