//! The reasons for which an operation is rejected.

use vstd::prelude::*;

verus! {

/// Why an operation was rejected. A rejected operation changes nothing.
#[derive(Clone, Copy, Debug, PartialEq, Eq, Structural)]
pub enum PrayerError {
    /// The agent name has more than [`crate::state::MAX_NAME`] characters.
    NameTooLong,
    /// The skills text has more than [`crate::state::MAX_SKILLS`] characters.
    SkillsTooLong,
    /// The time to live is not within one second and one week.
    InvalidTTL,
    /// The prayer does not accept claims.
    NotOpen,
    /// The prayer is neither open nor active, or the claim is not one on it.
    NotClaimed,
    /// The prayer has not been answered.
    NotFulfilled,
    /// The prayer's deadline has passed.
    Expired,
    /// A requester tried to claim their own prayer.
    CannotClaimOwn,
    /// The caller does not hold the claim, and the claim is not stale.
    NotClaimer,
    /// The caller is not the prayer's requester.
    NotRequester,
    /// The prayer still has claimers.
    HasClaimers,
    /// Only an open prayer can be cancelled.
    CannotCancel,
    /// The prayer is neither settled nor past its deadline.
    CannotClose,
    /// The supplied encryption key is all zeros.
    InvalidEncryptionKey,
    /// The requester already delivered content to this claimer.
    AlreadyDelivered,
    /// The number of claimers is not within one and ten.
    InvalidMaxClaimers,
    /// A counter, a balance or a time would leave its range: a sum does not
    /// fit, or a difference falls below zero.
    ArithmeticOverflow,
}

impl PrayerError {
    /// The text shown to a caller for each rejection.
    pub open spec fn message_text(self) -> Seq<char> {
        match self {
            PrayerError::NameTooLong => "Name exceeds 32 characters"@,
            PrayerError::SkillsTooLong => "Skills exceeds 256 characters"@,
            PrayerError::InvalidTTL => "TTL must be between 1 and 604800 seconds"@,
            PrayerError::NotOpen => "Prayer is not open for claims"@,
            PrayerError::NotClaimed => "Prayer has no active claims"@,
            PrayerError::NotFulfilled => "Prayer is not fulfilled"@,
            PrayerError::Expired => "Prayer has expired"@,
            PrayerError::CannotClaimOwn => "Cannot claim your own prayer"@,
            PrayerError::NotClaimer => "Not authorized (not the claimer)"@,
            PrayerError::NotRequester => "Only the requester can perform this action"@,
            PrayerError::HasClaimers => "Cannot cancel a prayer with active claims"@,
            PrayerError::CannotCancel => "Can only cancel open prayers with no claims"@,
            PrayerError::CannotClose => "Prayer must be confirmed, cancelled, or expired to close"@,
            PrayerError::InvalidEncryptionKey => "Encryption key cannot be all zeros"@,
            PrayerError::AlreadyDelivered => "Content has already been delivered to this claimer"@,
            PrayerError::InvalidMaxClaimers => "max_claimers must be 1-10"@,
            PrayerError::ArithmeticOverflow => "Arithmetic overflow or underflow"@,
        }
    }

    /// The message for this rejection.
    pub fn message(&self) -> (r: &'static str)
        ensures
            r@ == self.message_text(),
    {
        match self {
            PrayerError::NameTooLong => "Name exceeds 32 characters",
            PrayerError::SkillsTooLong => "Skills exceeds 256 characters",
            PrayerError::InvalidTTL => "TTL must be between 1 and 604800 seconds",
            PrayerError::NotOpen => "Prayer is not open for claims",
            PrayerError::NotClaimed => "Prayer has no active claims",
            PrayerError::NotFulfilled => "Prayer is not fulfilled",
            PrayerError::Expired => "Prayer has expired",
            PrayerError::CannotClaimOwn => "Cannot claim your own prayer",
            PrayerError::NotClaimer => "Not authorized (not the claimer)",
            PrayerError::NotRequester => "Only the requester can perform this action",
            PrayerError::HasClaimers => "Cannot cancel a prayer with active claims",
            PrayerError::CannotCancel => "Can only cancel open prayers with no claims",
            PrayerError::CannotClose => "Prayer must be confirmed, cancelled, or expired to close",
            PrayerError::InvalidEncryptionKey => "Encryption key cannot be all zeros",
            PrayerError::AlreadyDelivered => "Content has already been delivered to this claimer",
            PrayerError::InvalidMaxClaimers => "max_claimers must be 1-10",
            PrayerError::ArithmeticOverflow => "Arithmetic overflow or underflow",
        }
    }
}

} // verus!
