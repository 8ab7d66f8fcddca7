//! A double-auction matching engine for a commodity marketplace.
//!
//! Sellers list a quantity for sale at a starting price with a fixed
//! lifetime; buyers submit competing bids; when the lifetime expires the
//! highest bidder is matched with the seller and the match is recorded as
//! a pair of events. The crate is organised around one authoritative
//! keyed store of open auctions (the registry), two derived indices (a
//! time-bucketed execution queue and a bounded per-participant cache),
//! and a lifecycle engine that mutates all three atomically.
//!
//! Payment settlement, caller authentication, persistent storage and
//! event publication are external collaborators: the engine only decides
//! who is matched with whom at what price, and records that decision.

use vstd::prelude::*;

pub mod engine;
pub mod id_list;
pub mod laws;
pub mod model;
pub mod participants;
pub mod queue;
pub mod registry;
pub mod state;
pub mod tier;

verus! {

/// A participant (seller or buyer), as established by the identity
/// collaborator that sits outside this crate.
pub type AccountId = u64;

/// Identifier of an auction; allocated monotonically and never reused.
pub type AuctionId = u64;

/// The engine's discrete logical clock unit (one tick).
pub type BlockNumber = u64;

/// Quantity of the commodity on offer.
pub type Quantity = u128;

/// A price, denominated in the marketplace's unit of account.
pub type Price = u128;

/// Auction lifetimes are given by callers in minutes.
pub const SECONDS_PER_MINUTE: u64 = 60;

/// Length of one tick of the engine's discrete clock, in seconds.
pub const SECONDS_PER_TICK: u64 = 6;

/// Conversion ratio from the caller-facing lifetime unit (minutes) to
/// the engine's discrete time unit (ticks).
pub const TICKS_PER_MINUTE: u64 = SECONDS_PER_MINUTE / SECONDS_PER_TICK;

} // verus!
