//! The bounded per-account cache of recently touched auctions.
//!
//! One record per account, created on the account's first interaction
//! (create as seller, bid as buyer) and never deleted; the record's
//! list holds the most recently touched auction ids first and is capped
//! at the index's configured capacity, evicting the oldest entry when
//! it would overflow.

use std::collections::HashMap;
use vstd::prelude::*;

use crate::id_list::{distinct_ids, lemma_seq_without_id, lemma_take_distinct, seq_without_id, vec_without_id};
use crate::model::{AuctionInfo, AuctionInfoView, PartyType};
use crate::{AccountId, AuctionId};

verus! {

broadcast use vstd::std_specs::hash::group_hash_axioms;

/// The list an account held before a touch: its record's list, or the
/// empty list when the account had no record yet.
pub open spec fn spec_prior_list(
    m: Map<AccountId, AuctionInfoView>,
    account: AccountId,
) -> Seq<AuctionId> {
    if m.contains_key(account) {
        m[account].auctions
    } else {
        Seq::empty()
    }
}

/// The list after a touch: the touched id moved to the front (an older
/// occurrence, if any, is pruned first), truncated to the capacity so
/// that the oldest entry is evicted on overflow.
pub open spec fn spec_touched_list(
    prior: Seq<AuctionId>,
    id: AuctionId,
    capacity: usize,
) -> Seq<AuctionId> {
    let fronted = seq![id] + seq_without_id(prior, id);
    if fronted.len() > capacity {
        fronted.take(capacity as int)
    } else {
        fronted
    }
}

/// What [`ParticipantIndex::touch`] does to the index's records.
pub open spec fn spec_touch(
    m: Map<AccountId, AuctionInfoView>,
    account: AccountId,
    role: PartyType,
    id: AuctionId,
    capacity: usize,
) -> Map<AccountId, AuctionInfoView> {
    m.insert(
        account,
        AuctionInfoView {
            participant_id: account,
            party_type: role,
            auctions: spec_touched_list(spec_prior_list(m, account), id, capacity),
        },
    )
}

/// What [`ParticipantIndex::remove`] does to the index's records: the
/// id pruned from the account's list; the record itself persists.
pub open spec fn spec_remove_ref(
    m: Map<AccountId, AuctionInfoView>,
    account: AccountId,
    id: AuctionId,
) -> Map<AccountId, AuctionInfoView> {
    if m.contains_key(account) {
        m.insert(
            account,
            AuctionInfoView {
                participant_id: m[account].participant_id,
                party_type: m[account].party_type,
                auctions: seq_without_id(m[account].auctions, id),
            },
        )
    } else {
        m
    }
}

/// Mathematical model of the index: the records and the configured
/// capacity.
#[verifier::ext_equal]
pub struct ParticipantIndexView {
    pub records: Map<AccountId, AuctionInfoView>,
    pub capacity: usize,
}

impl ParticipantIndexView {
    /// Every stored record is keyed by its own account, holds no
    /// duplicate ids, and never exceeds the configured capacity.
    pub open spec fn inv(self) -> bool {
        &&& self.capacity >= 1
        &&& forall|a: AccountId|
            self.records.contains_key(a) ==> (#[trigger] self.records[a]).wf(a, self.capacity)
    }
}

/// Bounded per-account cache of an account's recent auctions.
pub struct ParticipantIndex {
    records: HashMap<AccountId, AuctionInfo>,
    capacity: usize,
}

impl View for ParticipantIndex {
    type V = ParticipantIndexView;

    closed spec fn view(&self) -> ParticipantIndexView {
        ParticipantIndexView {
            records: self.records@.map_values(|i: AuctionInfo| i@),
            capacity: self.capacity,
        }
    }
}

/// The touched list is duplicate-free and fits the capacity, and its
/// front is the touched id.
pub proof fn lemma_touched_list_wf(prior: Seq<AuctionId>, id: AuctionId, capacity: usize)
    requires
        distinct_ids(prior),
        capacity >= 1,
    ensures
        distinct_ids(spec_touched_list(prior, id, capacity)),
        spec_touched_list(prior, id, capacity).len() <= capacity,
        spec_touched_list(prior, id, capacity)[0] == id,
{
    lemma_seq_without_id(prior, id);
    let w = seq_without_id(prior, id);
    let fronted = seq![id] + w;
    assert forall|i: int, j: int| 0 <= i < j < fronted.len() implies fronted[i] != fronted[j] by {
        if i == 0 {
            assert(w.contains(w[j - 1]));
        }
    }
    if fronted.len() > capacity {
        lemma_take_distinct(fronted, capacity as int);
    }
}

impl ParticipantIndex {
    /// An empty index with the given capacity.
    pub fn new(capacity: usize) -> (p: ParticipantIndex)
        requires
            capacity >= 1,
        ensures
            p@.records == Map::<AccountId, AuctionInfoView>::empty(),
            p@.capacity == capacity,
            p@.inv(),
    {
        let p = ParticipantIndex { records: HashMap::new(), capacity };
        proof {
            assert(p@.records =~= Map::<AccountId, AuctionInfoView>::empty());
        }
        p
    }

    /// The record of `account`, if it ever interacted.
    pub fn lookup(&self, account: AccountId) -> (r: Option<&AuctionInfo>)
        ensures
            match r {
                Some(info) => self@.records.contains_key(account) && info@
                    == self@.records[account],
                None => !self@.records.contains_key(account),
            },
    {
        self.records.get(&account)
    }

    /// Ensures a record exists for `account`, notes the role of this
    /// interaction, and moves `id` to the front of the account's list,
    /// evicting the oldest entry if the list would overflow.
    pub fn touch(&mut self, account: AccountId, role: PartyType, id: AuctionId)
        requires
            old(self)@.inv(),
        ensures
            final(self)@.records == spec_touch(
                old(self)@.records,
                account,
                role,
                id,
                old(self)@.capacity,
            ),
            final(self)@.capacity == old(self)@.capacity,
            final(self)@.inv(),
    {
        let prior = match self.records.remove(&account) {
            Some(info) => info.auctions,
            None => Vec::new(),
        };
        let mut list = vec_without_id(&prior, id);
        list.insert(0, id);
        if list.len() > self.capacity {
            list.truncate(self.capacity);
        }
        proof {
            assert(list@ =~= spec_touched_list(
                spec_prior_list(old(self)@.records, account),
                id,
                self.capacity,
            ));
        }
        self.records.insert(
            account,
            AuctionInfo { participant_id: account, party_type: role, auctions: list },
        );
        proof {
            assert(self@.records =~= spec_touch(
                old(self)@.records,
                account,
                role,
                id,
                old(self)@.capacity,
            ));
            lemma_touched_list_wf(
                spec_prior_list(old(self)@.records, account),
                id,
                old(self)@.capacity,
            );
        }
    }

    /// Deletes the reference to `id` from the record of `account`, if
    /// both exist; the record itself persists, possibly empty.
    pub fn remove(&mut self, account: AccountId, id: AuctionId)
        requires
            old(self)@.inv(),
        ensures
            final(self)@.records == spec_remove_ref(old(self)@.records, account, id),
            final(self)@.capacity == old(self)@.capacity,
            final(self)@.inv(),
    {
        match self.records.remove(&account) {
            Some(info) => {
                let list = vec_without_id(&info.auctions, id);
                proof {
                    lemma_seq_without_id(info.auctions@, id);
                }
                self.records.insert(
                    account,
                    AuctionInfo {
                        participant_id: info.participant_id,
                        party_type: info.party_type,
                        auctions: list,
                    },
                );
            },
            None => {},
        }
        proof {
            assert(self@.records =~= spec_remove_ref(old(self)@.records, account, id));
        }
    }
}

} // verus!
