//! A request-for-help marketplace ledger: agents post prayers with a reward
//! held in escrow, other agents claim and answer them, and the requester
//! confirms to release the reward.
//!
//! The operations come in two layers. The functions of [`registry`],
//! [`posting`], [`claims`] and [`settlement`] work on records that the caller
//! has looked up, gathered in the structures of [`accounts`]. The
//! [`ledger::Ledger`] keeps the records itself and does the looking up. The
//! ledger is specified against [`model::LedgerState`], and [`laws`] and
//! [`history`] state what holds of every run.
//!
//! An operation takes effect as a whole or not at all: when it is rejected,
//! the records and the wallets are as they were. Which rejection comes first
//! when several apply is part of each contract. All arithmetic is checked: a
//! counter that is full, a wallet that cannot pay or cannot take a payment,
//! and a deadline beyond the end of time reject the operation with
//! [`PrayerError::ArithmeticOverflow`]. Time is what the caller says it is:
//! every operation that looks at the clock takes the current time, in
//! seconds, as `now`.

pub mod accounts;
pub mod address;
pub mod claims;
pub mod error;
pub mod events;
pub mod history;
pub mod laws;
pub mod ledger;
pub mod model;
pub mod posting;
pub mod registry;
pub mod settlement;
pub mod state;
pub mod table;

pub use accounts::{
    AnswerPrayer, CancelPrayer, ClaimPrayer, ClosePrayer, ConfirmPrayer, DeliverContent,
    Initialize, PostPrayer, RegisterAgent, UnclaimPrayer,
};
pub use address::{Address, Bytes32};
pub use claims::{claim_prayer, deliver_content, unclaim_prayer};
pub use error::PrayerError;
pub use events::{
    ClaimRemoved, ContentDelivered, PrayerAnswered, PrayerCancelled, PrayerClaimed,
    PrayerConfirmed, PrayerPosted,
};
pub use ledger::Ledger;
pub use model::LedgerError;
pub use posting::{cancel_prayer, close_prayer, post_prayer};
pub use registry::{initialize, register_agent};
pub use settlement::{answer_prayer, confirm_prayer};
pub use state::{Agent, Claim, Prayer, PrayerChain, PrayerStatus, PrayerType, Wallet};
