//! Notifications: one value for each state transition, handed back to the
//! caller, which relays it to whoever indexes the ledger.

use crate::address::{Address, Bytes32};
use crate::state::PrayerType;
use vstd::prelude::*;

verus! {

/// A prayer was posted.
#[derive(Clone, Copy, Debug, PartialEq, Eq)]
pub struct PrayerPosted {
    pub id: u64,
    pub requester: Address,
    pub prayer_type: PrayerType,
    pub content_hash: Bytes32,
    pub reward_lamports: u64,
    pub max_claimers: u8,
    pub ttl_seconds: i64,
}

/// An agent claimed a prayer.
#[derive(Clone, Copy, Debug, PartialEq, Eq)]
pub struct PrayerClaimed {
    pub id: u64,
    pub claimer: Address,
    pub num_claimers: u8,
    pub max_claimers: u8,
}

/// The requester delivered encrypted content to one claimer.
#[derive(Clone, Debug, PartialEq, Eq)]
pub struct ContentDelivered {
    pub prayer_id: u64,
    pub requester: Address,
    pub claimer: Address,
    /// The payload, relayed as it was given.
    pub encrypted_content: Vec<u8>,
}

/// A claimer answered a prayer.
#[derive(Clone, Debug, PartialEq, Eq)]
pub struct PrayerAnswered {
    pub id: u64,
    pub answerer: Address,
    pub answer_hash: Bytes32,
    /// The payload, relayed as it was given.
    pub encrypted_answer: Vec<u8>,
}

/// The requester confirmed an answer and the reward was distributed.
#[derive(Clone, Copy, Debug, PartialEq, Eq)]
pub struct PrayerConfirmed {
    pub id: u64,
    pub requester: Address,
    pub answerer: Address,
    pub num_claimers: u8,
    pub reward_per_claimer: u64,
    /// The sum that was paid out.
    pub reward_total: u64,
}

/// The requester cancelled a prayer.
#[derive(Clone, Copy, Debug, PartialEq, Eq)]
pub struct PrayerCancelled {
    pub id: u64,
    pub requester: Address,
}

/// A claim was removed, by its holder or because it went stale.
#[derive(Clone, Copy, Debug, PartialEq, Eq)]
pub struct ClaimRemoved {
    pub prayer_id: u64,
    pub claimer: Address,
    pub num_claimers: u8,
}

} // verus!
