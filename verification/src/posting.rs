//! Posting a prayer, which puts the reward into escrow, and the two ways
//! in which the requester gets it back: cancelling and closing.

use crate::accounts::{CancelPrayer, ClosePrayer, PostPrayer};
use crate::address::{zeroed, Address, Bytes32};
use crate::error::PrayerError;
use crate::events::{PrayerCancelled, PrayerPosted};
use crate::state::{
    Agent,
    Prayer,
    PrayerChain,
    PrayerStatus,
    PrayerType,
    Wallet,
    MAX_CLAIMERS_LIMIT,
    MAX_TTL_SECONDS,
};
use vstd::prelude::*;

verus! {

/// What is wrong with the terms of a prayer, if anything.
pub open spec fn terms_error(ttl_seconds: i64, max_claimers: u8) -> Option<PrayerError> {
    if !(0 < ttl_seconds <= MAX_TTL_SECONDS) {
        Some(PrayerError::InvalidTTL)
    } else if !(1 <= max_claimers <= MAX_CLAIMERS_LIMIT) {
        Some(PrayerError::InvalidMaxClaimers)
    } else {
        None
    }
}

/// The requester can pay the reward, the deadline is a representable time,
/// and the counters that `post_prayer` raises fit.
pub open spec fn post_prayer_fits(
    ctx: PostPrayer,
    reward_lamports: u64,
    ttl_seconds: i64,
    now: i64,
) -> bool {
    &&& reward_lamports <= ctx.requester.lamports
    &&& now + ttl_seconds <= i64::MAX
    &&& ctx.prayer_chain.total_prayers < u64::MAX
    &&& ctx.requester_agent.prayers_posted < u64::MAX
}

/// Why `post_prayer` rejects, if it does.
pub open spec fn post_prayer_error(
    ctx: PostPrayer,
    reward_lamports: u64,
    ttl_seconds: i64,
    max_claimers: u8,
    now: i64,
) -> Option<PrayerError> {
    if terms_error(ttl_seconds, max_claimers) is Some {
        terms_error(ttl_seconds, max_claimers)
    } else if !post_prayer_fits(ctx, reward_lamports, ttl_seconds, now) {
        Some(PrayerError::ArithmeticOverflow)
    } else {
        None
    }
}

/// The prayer that `post_prayer` creates.
pub open spec fn posted_prayer(
    id: u64,
    requester: Address,
    prayer_type: PrayerType,
    content_hash: Bytes32,
    reward_lamports: u64,
    ttl_seconds: i64,
    max_claimers: u8,
    now: i64,
) -> Prayer {
    Prayer {
        id,
        requester,
        prayer_type,
        content_hash,
        reward_lamports,
        escrow_lamports: reward_lamports,
        status: PrayerStatus::Open,
        max_claimers,
        num_claimers: 0,
        answerer: Address::nobody(),
        answer_hash: zeroed(),
        created_at: now,
        expires_at: (now + ttl_seconds) as i64,
        fulfilled_at: 0,
    }
}

/// The records after `post_prayer` succeeded.
pub open spec fn post_prayer_result(
    ctx: PostPrayer,
    prayer_type: PrayerType,
    content_hash: Bytes32,
    reward_lamports: u64,
    ttl_seconds: i64,
    max_claimers: u8,
    now: i64,
) -> PostPrayer {
    PostPrayer {
        prayer_chain: PrayerChain {
            total_prayers: (ctx.prayer_chain.total_prayers + 1) as u64,
            ..ctx.prayer_chain
        },
        requester_agent: Agent {
            prayers_posted: (ctx.requester_agent.prayers_posted + 1) as u64,
            ..ctx.requester_agent
        },
        prayer: posted_prayer(
            ctx.prayer_chain.total_prayers,
            ctx.requester.key,
            prayer_type,
            content_hash,
            reward_lamports,
            ttl_seconds,
            max_claimers,
            now,
        ),
        requester: Wallet {
            key: ctx.requester.key,
            lamports: (ctx.requester.lamports - reward_lamports) as u64,
        },
    }
}

/// The notification of `post_prayer`.
pub open spec fn post_prayer_event(
    ctx: PostPrayer,
    prayer_type: PrayerType,
    content_hash: Bytes32,
    reward_lamports: u64,
    ttl_seconds: i64,
    max_claimers: u8,
) -> PrayerPosted {
    PrayerPosted {
        id: ctx.prayer_chain.total_prayers,
        requester: ctx.requester.key,
        prayer_type,
        content_hash,
        reward_lamports,
        max_claimers,
        ttl_seconds,
    }
}

/// Posts a prayer at time `now`.
///
/// The time to live must lie within one second and one week, and the number
/// of claimers within one and ten. The new prayer is open, has no claimers,
/// takes the protocol's count of prayers as its id and expires `ttl_seconds`
/// after `now`. The reward moves from the requester's wallet into the
/// prayer's escrow. The protocol counts one more prayer, and so does the
/// requester's agent.
pub fn post_prayer(
    ctx: &mut PostPrayer,
    prayer_type: PrayerType,
    content_hash: Bytes32,
    reward_lamports: u64,
    ttl_seconds: i64,
    max_claimers: u8,
    now: i64,
) -> (r: Result<PrayerPosted, PrayerError>)
    ensures
        r matches Err(e) ==> post_prayer_error(
            *old(ctx),
            reward_lamports,
            ttl_seconds,
            max_claimers,
            now,
        ) == Some(e) && *final(ctx) == *old(ctx),
        r matches Ok(ev) ==> {
            &&& post_prayer_error(*old(ctx), reward_lamports, ttl_seconds, max_claimers, now)
                is None
            &&& *final(ctx) == post_prayer_result(
                *old(ctx),
                prayer_type,
                content_hash,
                reward_lamports,
                ttl_seconds,
                max_claimers,
                now,
            )
            &&& ev == post_prayer_event(
                *old(ctx),
                prayer_type,
                content_hash,
                reward_lamports,
                ttl_seconds,
                max_claimers,
            )
            &&& final(ctx).prayer.well_formed()
            &&& final(ctx).prayer.answerer.is_default()
        },
{
    if !(ttl_seconds > 0 && ttl_seconds <= MAX_TTL_SECONDS) {
        return Err(PrayerError::InvalidTTL);
    }
    if !(max_claimers >= 1 && max_claimers <= MAX_CLAIMERS_LIMIT) {
        return Err(PrayerError::InvalidMaxClaimers);
    }
    let expires_at: i64 = match now.checked_add(ttl_seconds) {
        Some(t) => t,
        None => { return Err(PrayerError::ArithmeticOverflow); },
    };
    let left: u64 = match ctx.requester.lamports.checked_sub(reward_lamports) {
        Some(n) => n,
        None => { return Err(PrayerError::ArithmeticOverflow); },
    };
    let prayer_id: u64 = ctx.prayer_chain.total_prayers;
    let total_prayers: u64 = match prayer_id.checked_add(1) {
        Some(n) => n,
        None => { return Err(PrayerError::ArithmeticOverflow); },
    };
    let prayers_posted: u64 = match ctx.requester_agent.prayers_posted.checked_add(1) {
        Some(n) => n,
        None => { return Err(PrayerError::ArithmeticOverflow); },
    };
    ctx.prayer = Prayer {
        id: prayer_id,
        requester: ctx.requester.key,
        prayer_type,
        content_hash,
        reward_lamports,
        escrow_lamports: reward_lamports,
        status: PrayerStatus::Open,
        max_claimers,
        num_claimers: 0,
        answerer: Address { bytes: [0u8; 32] },
        answer_hash: [0u8; 32],
        created_at: now,
        expires_at,
        fulfilled_at: 0,
    };
    ctx.requester.lamports = left;
    ctx.prayer_chain.total_prayers = total_prayers;
    ctx.requester_agent.prayers_posted = prayers_posted;
    Ok(
        PrayerPosted {
            id: prayer_id,
            requester: ctx.requester.key,
            prayer_type,
            content_hash,
            reward_lamports,
            max_claimers,
            ttl_seconds,
        },
    )
}

/// Why `cancel_prayer` rejects, if it does.
pub open spec fn cancel_prayer_error(ctx: CancelPrayer) -> Option<PrayerError> {
    if ctx.prayer.requester != ctx.requester.key {
        Some(PrayerError::NotRequester)
    } else if ctx.prayer.status != PrayerStatus::Open {
        Some(PrayerError::CannotCancel)
    } else if ctx.prayer.num_claimers != 0 {
        Some(PrayerError::HasClaimers)
    } else if ctx.prayer.escrow_lamports < ctx.prayer.reward_lamports || ctx.requester.lamports
        + ctx.prayer.reward_lamports > u64::MAX {
        Some(PrayerError::ArithmeticOverflow)
    } else {
        None
    }
}

/// The records after `cancel_prayer` succeeded.
pub open spec fn cancel_prayer_result(ctx: CancelPrayer) -> CancelPrayer {
    CancelPrayer {
        prayer: Prayer {
            status: PrayerStatus::Cancelled,
            escrow_lamports: (ctx.prayer.escrow_lamports - ctx.prayer.reward_lamports) as u64,
            ..ctx.prayer
        },
        requester: Wallet {
            key: ctx.requester.key,
            lamports: (ctx.requester.lamports + ctx.prayer.reward_lamports) as u64,
        },
    }
}

/// The notification of `cancel_prayer`.
pub open spec fn cancel_prayer_event(ctx: CancelPrayer) -> PrayerCancelled {
    PrayerCancelled { id: ctx.prayer.id, requester: ctx.requester.key }
}

/// Cancels a prayer that nobody has claimed.
///
/// Only the requester may cancel, and only an open prayer without claimers.
/// The prayer becomes cancelled and the whole reward returns to the
/// requester's wallet.
pub fn cancel_prayer(ctx: &mut CancelPrayer) -> (r: Result<PrayerCancelled, PrayerError>)
    ensures
        r matches Err(e) ==> cancel_prayer_error(*old(ctx)) == Some(e) && *final(ctx) == *old(ctx),
        r matches Ok(ev) ==> {
            &&& cancel_prayer_error(*old(ctx)) is None
            &&& *final(ctx) == cancel_prayer_result(*old(ctx))
            &&& ev == cancel_prayer_event(*old(ctx))
            &&& old(ctx).prayer.well_formed() ==> final(ctx).prayer.well_formed()
        },
{
    if ctx.prayer.requester != ctx.requester.key {
        return Err(PrayerError::NotRequester);
    }
    if ctx.prayer.status != PrayerStatus::Open {
        return Err(PrayerError::CannotCancel);
    }
    if ctx.prayer.num_claimers != 0 {
        return Err(PrayerError::HasClaimers);
    }
    let held: u64 = match ctx.prayer.escrow_lamports.checked_sub(ctx.prayer.reward_lamports) {
        Some(n) => n,
        None => { return Err(PrayerError::ArithmeticOverflow); },
    };
    let refunded: u64 = match ctx.requester.lamports.checked_add(ctx.prayer.reward_lamports) {
        Some(n) => n,
        None => { return Err(PrayerError::ArithmeticOverflow); },
    };
    ctx.prayer.status = PrayerStatus::Cancelled;
    ctx.prayer.escrow_lamports = held;
    ctx.requester.lamports = refunded;
    Ok(PrayerCancelled { id: ctx.prayer.id, requester: ctx.requester.key })
}

/// A prayer can be closed at time `now`: it is settled, or it is still
/// pending and its deadline has passed.
pub open spec fn closable(prayer: Prayer, now: i64) -> bool {
    prayer.status.is_terminal() || (prayer.status.is_pending() && prayer.expired_at(now))
}

/// Why `close_prayer` rejects, if it does.
pub open spec fn close_prayer_error(ctx: ClosePrayer, now: i64) -> Option<PrayerError> {
    if ctx.prayer.requester != ctx.requester.key {
        Some(PrayerError::NotRequester)
    } else if !closable(ctx.prayer, now) {
        Some(PrayerError::CannotClose)
    } else if ctx.requester.lamports + ctx.prayer.escrow_lamports > u64::MAX {
        Some(PrayerError::ArithmeticOverflow)
    } else {
        None
    }
}

/// The records after `close_prayer` succeeded.
pub open spec fn close_prayer_result(ctx: ClosePrayer) -> ClosePrayer {
    ClosePrayer {
        prayer: Prayer { escrow_lamports: 0, ..ctx.prayer },
        requester: Wallet {
            key: ctx.requester.key,
            lamports: (ctx.requester.lamports + ctx.prayer.escrow_lamports) as u64,
        },
    }
}

/// Closes a prayer at time `now`, after which its record is to be dropped.
///
/// Only the requester may close, and only a prayer that is confirmed or
/// cancelled, or one that is still open, active or fulfilled after its
/// deadline. Whatever the prayer still holds returns to the requester's
/// wallet: the whole reward of an expired prayer, the undistributed rest of
/// a confirmed one.
pub fn close_prayer(ctx: &mut ClosePrayer, now: i64) -> (r: Result<(), PrayerError>)
    ensures
        r matches Err(e) ==> close_prayer_error(*old(ctx), now) == Some(e) && *final(ctx) == *old(
            ctx,
        ),
        r is Ok ==> {
            &&& close_prayer_error(*old(ctx), now) is None
            &&& *final(ctx) == close_prayer_result(*old(ctx))
        },
{
    if ctx.prayer.requester != ctx.requester.key {
        return Err(PrayerError::NotRequester);
    }
    let settled: bool = ctx.prayer.status == PrayerStatus::Confirmed || ctx.prayer.status
        == PrayerStatus::Cancelled;
    let pending: bool = ctx.prayer.status == PrayerStatus::Open || ctx.prayer.status
        == PrayerStatus::Active || ctx.prayer.status == PrayerStatus::Fulfilled;
    let lapsed: bool = pending && now > ctx.prayer.expires_at;
    if !(settled || lapsed) {
        return Err(PrayerError::CannotClose);
    }
    let refunded: u64 = match ctx.requester.lamports.checked_add(ctx.prayer.escrow_lamports) {
        Some(n) => n,
        None => { return Err(PrayerError::ArithmeticOverflow); },
    };
    ctx.requester.lamports = refunded;
    ctx.prayer.escrow_lamports = 0;
    Ok(())
}

} // verus!
