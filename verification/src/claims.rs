//! The claim sub-ledger: taking a slot on a prayer, giving it up, and
//! marking that the requester delivered content to a claimer.

use crate::accounts::{ClaimPrayer, DeliverContent, UnclaimPrayer};
use crate::error::PrayerError;
use crate::events::{ClaimRemoved, ContentDelivered, PrayerClaimed};
use crate::state::{Claim, Prayer, PrayerStatus, CLAIM_TIMEOUT_SECONDS};
use vstd::prelude::*;

verus! {

/// Why `claim_prayer` rejects, if it does.
pub open spec fn claim_prayer_error(ctx: ClaimPrayer, now: i64) -> Option<PrayerError> {
    if ctx.prayer.status != PrayerStatus::Open {
        Some(PrayerError::NotOpen)
    } else if !(now < ctx.prayer.expires_at) {
        Some(PrayerError::Expired)
    } else if ctx.prayer.requester == ctx.claimer {
        Some(PrayerError::CannotClaimOwn)
    } else if ctx.prayer.num_claimers == u8::MAX {
        Some(PrayerError::ArithmeticOverflow)
    } else {
        None
    }
}

/// The records after `claim_prayer` succeeded.
pub open spec fn claim_prayer_result(ctx: ClaimPrayer, now: i64) -> ClaimPrayer {
    ClaimPrayer {
        prayer: Prayer {
            num_claimers: (ctx.prayer.num_claimers + 1) as u8,
            status: if ctx.prayer.num_claimers + 1 >= ctx.prayer.max_claimers {
                PrayerStatus::Active
            } else {
                PrayerStatus::Open
            },
            ..ctx.prayer
        },
        claim: Claim {
            prayer_id: ctx.prayer.id,
            claimer: ctx.claimer,
            content_delivered: false,
            claimed_at: now,
        },
        claimer: ctx.claimer,
    }
}

/// The notification of `claim_prayer`.
pub open spec fn claim_prayer_event(ctx: ClaimPrayer) -> PrayerClaimed {
    PrayerClaimed {
        id: ctx.prayer.id,
        claimer: ctx.claimer,
        num_claimers: (ctx.prayer.num_claimers + 1) as u8,
        max_claimers: ctx.prayer.max_claimers,
    }
}

/// Claims a slot on a prayer at time `now`.
///
/// The prayer must be open, its deadline must lie ahead, and the claimer
/// must not be its requester. The claim record is filled, the prayer counts
/// one more claimer, and it becomes active when that was the last slot.
pub fn claim_prayer(ctx: &mut ClaimPrayer, now: i64) -> (r: Result<PrayerClaimed, PrayerError>)
    ensures
        r matches Err(e) ==> claim_prayer_error(*old(ctx), now) == Some(e) && *final(ctx) == *old(
            ctx,
        ),
        r matches Ok(ev) ==> {
            &&& claim_prayer_error(*old(ctx), now) is None
            &&& *final(ctx) == claim_prayer_result(*old(ctx), now)
            &&& ev == claim_prayer_event(*old(ctx))
            &&& old(ctx).prayer.well_formed() ==> final(ctx).prayer.well_formed()
        },
{
    if ctx.prayer.status != PrayerStatus::Open {
        return Err(PrayerError::NotOpen);
    }
    if !(now < ctx.prayer.expires_at) {
        return Err(PrayerError::Expired);
    }
    if ctx.prayer.requester == ctx.claimer {
        return Err(PrayerError::CannotClaimOwn);
    }
    let num_claimers: u8 = match ctx.prayer.num_claimers.checked_add(1) {
        Some(n) => n,
        None => { return Err(PrayerError::ArithmeticOverflow); },
    };
    ctx.claim = Claim {
        prayer_id: ctx.prayer.id,
        claimer: ctx.claimer,
        content_delivered: false,
        claimed_at: now,
    };
    ctx.prayer.num_claimers = num_claimers;
    if ctx.prayer.num_claimers >= ctx.prayer.max_claimers {
        ctx.prayer.status = PrayerStatus::Active;
    }
    Ok(
        PrayerClaimed {
            id: ctx.prayer.id,
            claimer: ctx.claimer,
            num_claimers: ctx.prayer.num_claimers,
            max_claimers: ctx.prayer.max_claimers,
        },
    )
}

/// Why `unclaim_prayer` rejects, if it does.
pub open spec fn unclaim_prayer_error(ctx: UnclaimPrayer, now: i64) -> Option<PrayerError> {
    if ctx.claim.prayer_id != ctx.prayer.id {
        Some(PrayerError::NotClaimed)
    } else if !ctx.prayer.status.is_live() {
        Some(PrayerError::NotClaimed)
    } else if !(ctx.claim.claimer == ctx.caller || ctx.claim.stale_at(now)) {
        Some(PrayerError::NotClaimer)
    } else if ctx.prayer.num_claimers == 0 {
        Some(PrayerError::ArithmeticOverflow)
    } else {
        None
    }
}

/// The records after `unclaim_prayer` succeeded.
pub open spec fn unclaim_prayer_result(ctx: UnclaimPrayer) -> UnclaimPrayer {
    UnclaimPrayer {
        prayer: Prayer {
            num_claimers: (ctx.prayer.num_claimers - 1) as u8,
            status: PrayerStatus::Open,
            ..ctx.prayer
        },
        claim: ctx.claim,
        caller: ctx.caller,
    }
}

/// The notification of `unclaim_prayer`.
pub open spec fn unclaim_prayer_event(ctx: UnclaimPrayer) -> ClaimRemoved {
    ClaimRemoved {
        prayer_id: ctx.prayer.id,
        claimer: ctx.claim.claimer,
        num_claimers: (ctx.prayer.num_claimers - 1) as u8,
    }
}

/// Removes a claim at time `now`, after which its record is to be dropped.
///
/// The claim must be one on this prayer, and the prayer open or active. The
/// holder of the claim may remove it at any time; anyone may once the claim
/// is older than [`CLAIM_TIMEOUT_SECONDS`]. The prayer counts one claimer
/// less and, if it was active, is open again.
pub fn unclaim_prayer(ctx: &mut UnclaimPrayer, now: i64) -> (r: Result<ClaimRemoved, PrayerError>)
    ensures
        r matches Err(e) ==> unclaim_prayer_error(*old(ctx), now) == Some(e) && *final(ctx) == *old(
            ctx,
        ),
        r matches Ok(ev) ==> {
            &&& unclaim_prayer_error(*old(ctx), now) is None
            &&& *final(ctx) == unclaim_prayer_result(*old(ctx))
            &&& ev == unclaim_prayer_event(*old(ctx))
            &&& old(ctx).prayer.well_formed() ==> final(ctx).prayer.well_formed()
        },
{
    if ctx.claim.prayer_id != ctx.prayer.id {
        return Err(PrayerError::NotClaimed);
    }
    if !(ctx.prayer.status == PrayerStatus::Open || ctx.prayer.status == PrayerStatus::Active) {
        return Err(PrayerError::NotClaimed);
    }
    let is_claimer: bool = ctx.claim.claimer == ctx.caller;
    let claim_expired: bool = match ctx.claim.claimed_at.checked_add(CLAIM_TIMEOUT_SECONDS) {
        Some(deadline) => now > deadline,
        None => false,
    };
    if !(is_claimer || claim_expired) {
        return Err(PrayerError::NotClaimer);
    }
    let num_claimers: u8 = match ctx.prayer.num_claimers.checked_sub(1) {
        Some(n) => n,
        None => { return Err(PrayerError::ArithmeticOverflow); },
    };
    ctx.prayer.num_claimers = num_claimers;
    if ctx.prayer.status == PrayerStatus::Active {
        ctx.prayer.status = PrayerStatus::Open;
    }
    Ok(
        ClaimRemoved {
            prayer_id: ctx.prayer.id,
            claimer: ctx.claim.claimer,
            num_claimers: ctx.prayer.num_claimers,
        },
    )
}

/// Why `deliver_content` rejects, if it does.
pub open spec fn deliver_content_error(ctx: DeliverContent) -> Option<PrayerError> {
    if ctx.prayer.requester != ctx.requester {
        Some(PrayerError::NotRequester)
    } else if ctx.claim.prayer_id != ctx.prayer.id {
        Some(PrayerError::NotClaimed)
    } else if !ctx.prayer.status.is_live() {
        Some(PrayerError::NotClaimed)
    } else if ctx.claim.content_delivered {
        Some(PrayerError::AlreadyDelivered)
    } else {
        None
    }
}

/// The records after `deliver_content` succeeded.
pub open spec fn deliver_content_result(ctx: DeliverContent) -> DeliverContent {
    DeliverContent { claim: Claim { content_delivered: true, ..ctx.claim }, ..ctx }
}

/// The notification of `deliver_content`.
pub open spec fn deliver_content_event(ctx: DeliverContent, encrypted_content: Vec<u8>)
    -> ContentDelivered {
    ContentDelivered {
        prayer_id: ctx.prayer.id,
        requester: ctx.requester,
        claimer: ctx.claim.claimer,
        encrypted_content,
    }
}

/// Records that the requester delivered encrypted content to one claimer.
///
/// Only the requester may deliver, to a claim on this prayer, while the
/// prayer is open or active, and once for each claim. The claim is marked
/// as delivered to. The payload is not looked at: it is relayed in the
/// notification as it was given.
pub fn deliver_content(ctx: &mut DeliverContent, encrypted_content: Vec<u8>) -> (r: Result<
    ContentDelivered,
    PrayerError,
>)
    ensures
        r matches Err(e) ==> deliver_content_error(*old(ctx)) == Some(e) && *final(ctx) == *old(
            ctx,
        ),
        r matches Ok(ev) ==> {
            &&& deliver_content_error(*old(ctx)) is None
            &&& *final(ctx) == deliver_content_result(*old(ctx))
            &&& ev == deliver_content_event(*old(ctx), encrypted_content)
        },
{
    if ctx.prayer.requester != ctx.requester {
        return Err(PrayerError::NotRequester);
    }
    if ctx.claim.prayer_id != ctx.prayer.id {
        return Err(PrayerError::NotClaimed);
    }
    if !(ctx.prayer.status == PrayerStatus::Open || ctx.prayer.status == PrayerStatus::Active) {
        return Err(PrayerError::NotClaimed);
    }
    if ctx.claim.content_delivered {
        return Err(PrayerError::AlreadyDelivered);
    }
    ctx.claim.content_delivered = true;
    Ok(
        ContentDelivered {
            prayer_id: ctx.prayer.id,
            requester: ctx.requester,
            claimer: ctx.claim.claimer,
            encrypted_content,
        },
    )
}

} // verus!
