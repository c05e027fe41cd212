//! The records that the ledger keeps: the protocol counter, agents,
//! prayers and claims, with the invariant of each.

use crate::address::{zeroed, Address, Bytes32};
use crate::table::Keyed;
use vstd::prelude::*;

verus! {

/// Seconds after which anyone may remove a claim.
pub const CLAIM_TIMEOUT_SECONDS: i64 = 3600;

/// The largest number of agents that can work on one prayer.
pub const MAX_CLAIMERS_LIMIT: u8 = 10;

/// The longest time to live of a prayer, in seconds: one week.
pub const MAX_TTL_SECONDS: i64 = 604_800;

/// The longest agent name, in characters.
pub const MAX_NAME: usize = 32;

/// The longest skills text, in characters.
pub const MAX_SKILLS: usize = 256;

/// Reputation an agent earns for answering a prayer.
pub const ANSWER_REPUTATION: u64 = 10;

/// Reputation an answerer earns when the requester confirms.
pub const CONFIRM_REPUTATION: u64 = 5;

/// What kind of help a prayer asks for.
#[derive(Clone, Copy, Debug, PartialEq, Eq, Structural)]
pub enum PrayerType {
    /// Information or analysis.
    Knowledge,
    /// Processing or execution.
    Compute,
    /// Verification or red-teaming.
    Review,
    /// A data feed or an alert.
    Signal,
    /// A partner for a task.
    Collaboration,
}

/// Where a prayer stands in its life.
#[derive(Clone, Copy, Debug, PartialEq, Eq, Structural)]
pub enum PrayerStatus {
    /// Accepting claims.
    Open,
    /// Every slot is taken.
    Active,
    /// An answer was submitted and awaits confirmation.
    Fulfilled,
    /// The requester approved and the reward was distributed.
    Confirmed,
    /// Reserved: expiry is a condition on the clock, never a stored state.
    Expired,
    /// The requester withdrew the prayer before anyone claimed it.
    Cancelled,
}

impl PrayerStatus {
    /// Open or active: claims can still be delivered to, answered or removed.
    pub open spec fn is_live(self) -> bool {
        self == PrayerStatus::Open || self == PrayerStatus::Active
    }

    /// Confirmed or cancelled: nothing but closing can follow.
    pub open spec fn is_terminal(self) -> bool {
        self == PrayerStatus::Confirmed || self == PrayerStatus::Cancelled
    }

    /// Open, active or fulfilled: the prayer expires when its deadline passes.
    pub open spec fn is_pending(self) -> bool {
        self == PrayerStatus::Open || self == PrayerStatus::Active || self
            == PrayerStatus::Fulfilled
    }
}

/// The protocol singleton: who deployed it, and how much has happened.
#[derive(Clone, Copy, Debug, PartialEq, Eq)]
pub struct PrayerChain {
    pub authority: Address,
    pub total_prayers: u64,
    pub total_answered: u64,
    pub total_agents: u64,
}

/// A registered participant.
#[derive(Clone, Debug, PartialEq, Eq)]
pub struct Agent {
    pub wallet: Address,
    pub name: String,
    pub skills: String,
    /// Public key for content sent privately to this agent, if it published one.
    pub encryption_key: Option<Bytes32>,
    pub prayers_posted: u64,
    pub prayers_answered: u64,
    pub prayers_confirmed: u64,
    pub reputation: u64,
    pub registered_at: i64,
}

/// A posted request for help, with the reward it holds in escrow.
#[derive(Clone, Copy, Debug, PartialEq, Eq)]
pub struct Prayer {
    pub id: u64,
    pub requester: Address,
    pub prayer_type: PrayerType,
    /// Digest of the content, which itself is never stored.
    pub content_hash: Bytes32,
    /// The reward escrowed at posting. Never changes.
    pub reward_lamports: u64,
    /// What the prayer still holds of the reward.
    pub escrow_lamports: u64,
    pub status: PrayerStatus,
    pub max_claimers: u8,
    pub num_claimers: u8,
    /// Who answered; the default address until someone has.
    pub answerer: Address,
    pub answer_hash: Bytes32,
    pub created_at: i64,
    pub expires_at: i64,
    pub fulfilled_at: i64,
}

/// One agent's commitment to work on one prayer.
#[derive(Clone, Copy, Debug, PartialEq, Eq)]
pub struct Claim {
    pub prayer_id: u64,
    pub claimer: Address,
    pub content_delivered: bool,
    pub claimed_at: i64,
}

/// A wallet as an operation sees it: its address and what it holds.
#[derive(Clone, Copy, Debug, PartialEq, Eq)]
pub struct Wallet {
    pub key: Address,
    pub lamports: u64,
}

impl Keyed for Agent {
    type Key = Address;

    /// An agent is found by the wallet that owns it.
    open spec fn key(&self) -> Address {
        self.wallet
    }

    fn has_key(&self, key: &Address) -> (r: bool) {
        self.wallet == *key
    }
}

impl Keyed for Prayer {
    type Key = u64;

    /// A prayer is found by its id.
    open spec fn key(&self) -> u64 {
        self.id
    }

    fn has_key(&self, key: &u64) -> (r: bool) {
        self.id == *key
    }
}

impl Keyed for Claim {
    type Key = (u64, Address);

    /// A claim is found by the prayer it is on and by who holds it.
    open spec fn key(&self) -> (u64, Address) {
        (self.prayer_id, self.claimer)
    }

    fn has_key(&self, key: &(u64, Address)) -> (r: bool) {
        self.prayer_id == key.0 && self.claimer == key.1
    }
}

impl Default for PrayerChain {
    /// A record that awaits `initialize`.
    fn default() -> (r: Self)
        ensures
            r == crate::registry::initial_chain(Address::nobody()),
    {
        PrayerChain {
            authority: Address::default(),
            total_prayers: 0,
            total_answered: 0,
            total_agents: 0,
        }
    }
}

impl Default for Agent {
    /// A record that awaits `register_agent`: nobody's, with empty texts.
    fn default() -> (r: Self)
        ensures
            r.wallet == Address::nobody(),
            r.name@ == Seq::<char>::empty(),
            r.skills@ == Seq::<char>::empty(),
            r.encryption_key is None,
            r.prayers_posted == 0,
            r.prayers_answered == 0,
            r.prayers_confirmed == 0,
            r.reputation == 0,
            r.registered_at == 0,
    {
        Agent {
            wallet: Address::default(),
            name: String::new(),
            skills: String::new(),
            encryption_key: None,
            prayers_posted: 0,
            prayers_answered: 0,
            prayers_confirmed: 0,
            reputation: 0,
            registered_at: 0,
        }
    }
}

impl Default for Prayer {
    /// A record that awaits `post_prayer`.
    fn default() -> (r: Self)
        ensures
            r == Prayer::vacant(),
    {
        Prayer {
            id: 0,
            requester: Address::default(),
            prayer_type: PrayerType::Knowledge,
            content_hash: [0u8; 32],
            reward_lamports: 0,
            escrow_lamports: 0,
            status: PrayerStatus::Open,
            max_claimers: 0,
            num_claimers: 0,
            answerer: Address::default(),
            answer_hash: [0u8; 32],
            created_at: 0,
            expires_at: 0,
            fulfilled_at: 0,
        }
    }
}

impl Default for Claim {
    /// A record that awaits `claim_prayer`.
    fn default() -> (r: Self)
        ensures
            r == Claim::vacant(),
    {
        Claim { prayer_id: 0, claimer: Address::default(), content_delivered: false, claimed_at: 0 }
    }
}

impl Agent {
    /// A copy of this record.
    pub fn duplicate(&self) -> (r: Agent)
        ensures
            r == *self,
    {
        Agent {
            wallet: self.wallet,
            name: self.name.clone(),
            skills: self.skills.clone(),
            encryption_key: self.encryption_key,
            prayers_posted: self.prayers_posted,
            prayers_answered: self.prayers_answered,
            prayers_confirmed: self.prayers_confirmed,
            reputation: self.reputation,
            registered_at: self.registered_at,
        }
    }

    /// The name and the skills text have no more characters than allowed,
    /// and a published key is not all zeros.
    pub open spec fn well_formed(self) -> bool {
        &&& self.name@.len() <= MAX_NAME
        &&& self.skills@.len() <= MAX_SKILLS
        &&& self.encryption_key matches Some(k) ==> !crate::address::all_zero(k)
    }
}

impl Prayer {
    /// The record before a prayer is posted into it: every field zero.
    pub open spec fn vacant() -> Prayer {
        Prayer {
            id: 0,
            requester: Address::nobody(),
            prayer_type: PrayerType::Knowledge,
            content_hash: zeroed(),
            reward_lamports: 0,
            escrow_lamports: 0,
            status: PrayerStatus::Open,
            max_claimers: 0,
            num_claimers: 0,
            answerer: Address::nobody(),
            answer_hash: zeroed(),
            created_at: 0,
            expires_at: 0,
            fulfilled_at: 0,
        }
    }

    /// The invariant of a prayer.
    ///
    /// The claimer count stays within the capacity, which is at most ten. An
    /// open prayer has a free slot and an active one has none. The prayer holds
    /// its whole reward until it is settled, never more than the reward, and
    /// nothing once cancelled. The deadline lies within a week of creation.
    pub open spec fn well_formed(self) -> bool {
        &&& 1 <= self.max_claimers <= MAX_CLAIMERS_LIMIT
        &&& self.num_claimers <= self.max_claimers
        &&& self.status == PrayerStatus::Open ==> self.num_claimers < self.max_claimers
        &&& self.status == PrayerStatus::Active ==> self.num_claimers == self.max_claimers
        &&& self.escrow_lamports <= self.reward_lamports
        &&& self.status.is_pending() ==> self.escrow_lamports == self.reward_lamports
        &&& self.status == PrayerStatus::Cancelled ==> self.escrow_lamports == 0
        &&& self.created_at < self.expires_at <= self.created_at + MAX_TTL_SECONDS
    }

    /// What has been paid out of the reward so far.
    pub open spec fn paid_out(self) -> int {
        self.reward_lamports - self.escrow_lamports
    }

    /// The deadline has passed at time `now`.
    pub open spec fn expired_at(self, now: i64) -> bool {
        now > self.expires_at
    }

    /// Checks the invariant of a prayer.
    pub fn is_well_formed(&self) -> (r: bool)
        ensures
            r == self.well_formed(),
    {
        if self.max_claimers < 1 || self.max_claimers > MAX_CLAIMERS_LIMIT {
            return false;
        }
        if self.num_claimers > self.max_claimers {
            return false;
        }
        if self.escrow_lamports > self.reward_lamports {
            return false;
        }
        let counted: bool = match self.status {
            PrayerStatus::Open => self.num_claimers < self.max_claimers,
            PrayerStatus::Active => self.num_claimers == self.max_claimers,
            _ => true,
        };
        let held: bool = match self.status {
            PrayerStatus::Open | PrayerStatus::Active | PrayerStatus::Fulfilled => {
                self.escrow_lamports == self.reward_lamports
            },
            PrayerStatus::Cancelled => self.escrow_lamports == 0,
            _ => true,
        };
        let timed: bool = self.created_at < self.expires_at && match self.created_at.checked_add(
            MAX_TTL_SECONDS,
        ) {
            Some(latest) => self.expires_at <= latest,
            None => true,
        };
        counted && held && timed
    }
}

impl Claim {
    /// The record before a claim is made in it: every field zero.
    pub open spec fn vacant() -> Claim {
        Claim { prayer_id: 0, claimer: Address::nobody(), content_delivered: false, claimed_at: 0 }
    }

    /// The claim is stale at time `now`: anyone may remove it.
    pub open spec fn stale_at(self, now: i64) -> bool {
        now > self.claimed_at + CLAIM_TIMEOUT_SECONDS
    }
}

} // verus!
