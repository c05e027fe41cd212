//! The records and wallets that each operation works on.
//!
//! A caller looks the records up by their keys, hands them to the operation
//! in one of these structures, and stores them again when the operation
//! succeeded. A record that the operation creates is a field that it fills;
//! a record that it destroys is a field that the caller drops afterwards.

use crate::address::Address;
use crate::state::{Agent, Claim, Prayer, PrayerChain, Wallet};
use vstd::prelude::*;

verus! {

/// For `initialize`.
pub struct Initialize {
    /// The protocol singleton, to be filled.
    pub prayer_chain: PrayerChain,
    /// Who deploys the protocol.
    pub authority: Address,
}

/// For `register_agent`.
pub struct RegisterAgent {
    pub prayer_chain: PrayerChain,
    /// The agent record of `wallet`, to be filled.
    pub agent: Agent,
    /// Who registers.
    pub wallet: Address,
}

/// For `post_prayer`.
pub struct PostPrayer {
    pub prayer_chain: PrayerChain,
    /// The agent record of the requester.
    pub requester_agent: Agent,
    /// The prayer record, to be filled.
    pub prayer: Prayer,
    /// Who posts, and pays the reward into escrow.
    pub requester: Wallet,
}

/// For `claim_prayer`.
pub struct ClaimPrayer {
    pub prayer: Prayer,
    /// The claim record of `claimer` on `prayer`, to be filled.
    pub claim: Claim,
    /// Who claims.
    pub claimer: Address,
}

/// For `deliver_content`.
pub struct DeliverContent {
    pub prayer: Prayer,
    /// The claim that the content is for.
    pub claim: Claim,
    /// Who delivers.
    pub requester: Address,
}

/// For `answer_prayer`.
pub struct AnswerPrayer {
    pub prayer_chain: PrayerChain,
    pub prayer: Prayer,
    /// The claim that makes `answerer` eligible.
    pub claim: Claim,
    /// The agent record of the answerer.
    pub answerer_agent: Agent,
    /// Who answers.
    pub answerer: Address,
}

/// For `confirm_prayer`.
pub struct ConfirmPrayer {
    pub prayer: Prayer,
    /// The agent record of the prayer's answerer.
    pub answerer_agent: Agent,
    /// Who confirms.
    pub requester: Address,
    /// The wallets of the agents that hold a claim, in the order in which
    /// they are paid.
    pub remaining_accounts: Vec<Wallet>,
}

/// For `cancel_prayer`.
pub struct CancelPrayer {
    pub prayer: Prayer,
    /// Who cancels, and gets the reward back.
    pub requester: Wallet,
}

/// For `unclaim_prayer`.
pub struct UnclaimPrayer {
    pub prayer: Prayer,
    /// The claim to remove.
    pub claim: Claim,
    /// Who asks for the removal.
    pub caller: Address,
}

/// For `close_prayer`.
pub struct ClosePrayer {
    pub prayer: Prayer,
    /// Who closes, and gets what the prayer still holds.
    pub requester: Wallet,
}

} // verus!
