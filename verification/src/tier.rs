//! Classification of auctions into market tiers by quantity.
//!
//! The classifier is a total, deterministic function over an ordered
//! threshold table: offers below [`TIER_LOW_LIMIT`] fall in the lowest
//! tier, everything else in the next one. The tier of an auction is
//! computed once at creation and never changes.

use vstd::prelude::*;

use crate::Quantity;

verus! {

/// Quantities strictly below this limit are classified as level 1;
/// everything else as level 2.
pub const TIER_LOW_LIMIT: u128 = 5;

/// A coarse classification of an auction derived from its quantity,
/// grouping comparable-sized offers. Derived, never independently set.
#[derive(Clone, Copy, Debug, PartialEq, Eq, Structural)]
pub struct Tier {
    pub level: u32,
}

impl Default for Tier {
    /// The lowest tier.
    fn default() -> (t: Tier)
        ensures
            t.level == 1,
    {
        Tier { level: 1 }
    }
}

/// What [`classify`] returns for a given quantity.
pub open spec fn spec_classify(quantity: Quantity) -> Tier {
    if quantity < TIER_LOW_LIMIT {
        Tier { level: 1 }
    } else {
        Tier { level: 2 }
    }
}

/// Maps a quantity to its market tier. Total; no side effects.
pub fn classify(quantity: Quantity) -> (t: Tier)
    ensures
        t == spec_classify(quantity),
        t.level == 1 <==> quantity < TIER_LOW_LIMIT,
{
    if quantity < TIER_LOW_LIMIT {
        Tier { level: 1 }
    } else {
        Tier { level: 2 }
    }
}

} // verus!
