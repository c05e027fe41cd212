//! Answering a prayer, and confirming the answer, which distributes the
//! escrowed reward among the claimers.

use crate::accounts::{AnswerPrayer, ConfirmPrayer};
use crate::address::{Address, Bytes32};
use crate::error::PrayerError;
use crate::events::{PrayerAnswered, PrayerConfirmed};
use crate::state::{
    Agent,
    Prayer,
    PrayerChain,
    PrayerStatus,
    Wallet,
    ANSWER_REPUTATION,
    CONFIRM_REPUTATION,
};
use vstd::prelude::*;

verus! {

/// The counters that `answer_prayer` raises fit.
pub open spec fn answer_prayer_fits(ctx: AnswerPrayer) -> bool {
    &&& ctx.answerer_agent.prayers_answered < u64::MAX
    &&& ctx.answerer_agent.reputation + ANSWER_REPUTATION <= u64::MAX
    &&& ctx.prayer_chain.total_answered < u64::MAX
}

/// Why `answer_prayer` rejects, if it does.
pub open spec fn answer_prayer_error(ctx: AnswerPrayer, now: i64) -> Option<PrayerError> {
    if ctx.claim.prayer_id != ctx.prayer.id || ctx.claim.claimer != ctx.answerer {
        Some(PrayerError::NotClaimed)
    } else if !ctx.prayer.status.is_live() {
        Some(PrayerError::NotClaimed)
    } else if !(now < ctx.prayer.expires_at) {
        Some(PrayerError::Expired)
    } else if !answer_prayer_fits(ctx) {
        Some(PrayerError::ArithmeticOverflow)
    } else {
        None
    }
}

/// The records after `answer_prayer` succeeded.
pub open spec fn answer_prayer_result(ctx: AnswerPrayer, answer_hash: Bytes32, now: i64)
    -> AnswerPrayer {
    AnswerPrayer {
        prayer_chain: PrayerChain {
            total_answered: (ctx.prayer_chain.total_answered + 1) as u64,
            ..ctx.prayer_chain
        },
        prayer: Prayer {
            status: PrayerStatus::Fulfilled,
            answerer: ctx.answerer,
            answer_hash,
            fulfilled_at: now,
            ..ctx.prayer
        },
        claim: ctx.claim,
        answerer_agent: Agent {
            prayers_answered: (ctx.answerer_agent.prayers_answered + 1) as u64,
            reputation: (ctx.answerer_agent.reputation + ANSWER_REPUTATION) as u64,
            ..ctx.answerer_agent
        },
        answerer: ctx.answerer,
    }
}

/// The notification of `answer_prayer`.
pub open spec fn answer_prayer_event(
    ctx: AnswerPrayer,
    answer_hash: Bytes32,
    encrypted_answer: Vec<u8>,
) -> PrayerAnswered {
    PrayerAnswered { id: ctx.prayer.id, answerer: ctx.answerer, answer_hash, encrypted_answer }
}

/// Submits the answer to a prayer at time `now`.
///
/// The answerer must hold the claim in `ctx` on this prayer, the prayer must
/// be open or active, and its deadline must lie ahead. The prayer becomes
/// fulfilled and records who answered, the digest of the answer and the
/// time. The answerer's agent gains an answered prayer and reputation, and
/// the protocol counts one more answer. The payload is relayed in the
/// notification as it was given.
pub fn answer_prayer(
    ctx: &mut AnswerPrayer,
    answer_hash: Bytes32,
    encrypted_answer: Vec<u8>,
    now: i64,
) -> (r: Result<PrayerAnswered, PrayerError>)
    ensures
        r matches Err(e) ==> answer_prayer_error(*old(ctx), now) == Some(e) && *final(ctx) == *old(
            ctx,
        ),
        r matches Ok(ev) ==> {
            &&& answer_prayer_error(*old(ctx), now) is None
            &&& *final(ctx) == answer_prayer_result(*old(ctx), answer_hash, now)
            &&& ev == answer_prayer_event(*old(ctx), answer_hash, encrypted_answer)
            &&& old(ctx).prayer.well_formed() ==> final(ctx).prayer.well_formed()
        },
{
    if ctx.claim.prayer_id != ctx.prayer.id || ctx.claim.claimer != ctx.answerer {
        return Err(PrayerError::NotClaimed);
    }
    if !(ctx.prayer.status == PrayerStatus::Open || ctx.prayer.status == PrayerStatus::Active) {
        return Err(PrayerError::NotClaimed);
    }
    if !(now < ctx.prayer.expires_at) {
        return Err(PrayerError::Expired);
    }
    let prayers_answered: u64 = match ctx.answerer_agent.prayers_answered.checked_add(1) {
        Some(n) => n,
        None => { return Err(PrayerError::ArithmeticOverflow); },
    };
    let reputation: u64 = match ctx.answerer_agent.reputation.checked_add(ANSWER_REPUTATION) {
        Some(n) => n,
        None => { return Err(PrayerError::ArithmeticOverflow); },
    };
    let total_answered: u64 = match ctx.prayer_chain.total_answered.checked_add(1) {
        Some(n) => n,
        None => { return Err(PrayerError::ArithmeticOverflow); },
    };
    ctx.prayer.status = PrayerStatus::Fulfilled;
    ctx.prayer.answerer = ctx.answerer;
    ctx.prayer.answer_hash = answer_hash;
    ctx.prayer.fulfilled_at = now;
    ctx.answerer_agent.prayers_answered = prayers_answered;
    ctx.answerer_agent.reputation = reputation;
    ctx.prayer_chain.total_answered = total_answered;
    Ok(
        PrayerAnswered {
            id: ctx.prayer.id,
            answerer: ctx.answerer,
            answer_hash,
            encrypted_answer,
        },
    )
}

/// The share of each claimer: the reward divided by the number of claimers,
/// rounded down; nothing when there is no reward or no claimer.
pub open spec fn reward_per_claimer(reward: u64, num_claimers: u8) -> int {
    if reward > 0 && num_claimers > 0 {
        reward as int / num_claimers as int
    } else {
        0
    }
}

/// How many of `listed` wallets get a share: as many as the reward covers.
pub open spec fn payees_paid(reward: u64, share: int, listed: int) -> int {
    if share <= 0 {
        0
    } else if listed <= reward as int / share {
        listed
    } else {
        reward as int / share
    }
}

/// The wallets after the first `paid` of them got `share` each.
pub open spec fn pay_out(wallets: Seq<Wallet>, share: int, paid: int) -> Seq<Wallet> {
    Seq::new(
        wallets.len(),
        |i: int|
            if i < paid {
                Wallet { key: wallets[i].key, lamports: (wallets[i].lamports + share) as u64 }
            } else {
                wallets[i]
            },
    )
}

/// Whether this caller may confirm this prayer now, and if not, why not.
pub open spec fn confirm_guard(prayer: Prayer, requester: Address) -> Option<PrayerError> {
    if prayer.requester != requester {
        Some(PrayerError::NotRequester)
    } else if prayer.status != PrayerStatus::Fulfilled {
        Some(PrayerError::NotFulfilled)
    } else {
        None
    }
}

/// The share that confirming `prayer` pays to each claimer.
pub open spec fn confirm_share(prayer: Prayer) -> int {
    reward_per_claimer(prayer.reward_lamports, prayer.num_claimers)
}

/// The number of wallets that confirming `prayer` pays, of `listed` ones.
pub open spec fn confirm_paid(prayer: Prayer, listed: int) -> int {
    payees_paid(prayer.reward_lamports, confirm_share(prayer), listed)
}

/// The sum that confirming `prayer` pays out to `listed` wallets.
pub open spec fn confirm_total(prayer: Prayer, listed: int) -> int {
    confirm_share(prayer) * confirm_paid(prayer, listed)
}

/// Every wallet that is paid can take its share, the prayer holds what is
/// paid out, and the counters of the answerer's agent can be raised.
pub open spec fn confirm_fits(prayer: Prayer, agent: Agent, wallets: Seq<Wallet>) -> bool {
    &&& forall|i: int|
        0 <= i < confirm_paid(prayer, wallets.len() as int) ==> (#[trigger] wallets[i]).lamports
            + confirm_share(prayer) <= u64::MAX
    &&& confirm_total(prayer, wallets.len() as int) <= prayer.escrow_lamports
    &&& agent.prayers_confirmed < u64::MAX
    &&& agent.reputation + CONFIRM_REPUTATION <= u64::MAX
}

/// Why confirming `prayer` is rejected, if it is.
pub open spec fn confirm_failure(
    prayer: Prayer,
    agent: Agent,
    requester: Address,
    wallets: Seq<Wallet>,
) -> Option<PrayerError> {
    if confirm_guard(prayer, requester) is Some {
        confirm_guard(prayer, requester)
    } else if !confirm_fits(prayer, agent, wallets) {
        Some(PrayerError::ArithmeticOverflow)
    } else {
        None
    }
}

/// Why `confirm_prayer` rejects, if it does.
pub open spec fn confirm_prayer_error(ctx: ConfirmPrayer) -> Option<PrayerError> {
    confirm_failure(ctx.prayer, ctx.answerer_agent, ctx.requester, ctx.remaining_accounts@)
}

/// The prayer after it was confirmed and `listed` wallets were offered.
pub open spec fn confirmed_prayer(prayer: Prayer, listed: int) -> Prayer {
    Prayer {
        status: PrayerStatus::Confirmed,
        escrow_lamports: (prayer.escrow_lamports - confirm_total(prayer, listed)) as u64,
        ..prayer
    }
}

/// The answerer's agent after the answer was confirmed.
pub open spec fn confirmed_agent(agent: Agent) -> Agent {
    Agent {
        prayers_confirmed: (agent.prayers_confirmed + 1) as u64,
        reputation: (agent.reputation + CONFIRM_REPUTATION) as u64,
        ..agent
    }
}

/// The wallets after `prayer` was confirmed and its reward distributed.
pub open spec fn paid_wallets(prayer: Prayer, wallets: Seq<Wallet>) -> Seq<Wallet> {
    pay_out(wallets, confirm_share(prayer), confirm_paid(prayer, wallets.len() as int))
}

/// The notification of a confirmation.
pub open spec fn confirmation(prayer: Prayer, requester: Address, listed: int) -> PrayerConfirmed {
    PrayerConfirmed {
        id: prayer.id,
        requester,
        answerer: prayer.answerer,
        num_claimers: prayer.num_claimers,
        reward_per_claimer: confirm_share(prayer) as u64,
        reward_total: confirm_total(prayer, listed) as u64,
    }
}

/// `a` shares of `share` fit into `reward` exactly when `a` is at most the
/// quotient.
pub proof fn lemma_shares_fit(reward: int, share: int, a: int)
    requires
        0 <= reward,
        0 < share,
        0 <= a,
    ensures
        (share * a <= reward) <==> (a <= reward / share),
{
    assert((share * a <= reward) <==> (a <= reward / share)) by (nonlinear_arith)
        requires
            0 <= reward,
            0 < share,
            0 <= a,
    ;
}

/// What is paid out never exceeds the reward, however many wallets are
/// offered.
pub proof fn lemma_total_within_reward(prayer: Prayer, listed: int)
    requires
        0 <= listed,
    ensures
        0 <= confirm_share(prayer) <= prayer.reward_lamports,
        0 <= confirm_paid(prayer, listed) <= listed,
        0 <= confirm_total(prayer, listed) <= prayer.reward_lamports,
{
    let reward = prayer.reward_lamports as int;
    let share = confirm_share(prayer);
    let paid = confirm_paid(prayer, listed);
    if prayer.reward_lamports > 0 && prayer.num_claimers > 0 {
        let n = prayer.num_claimers as int;
        assert(0 <= reward / n <= reward) by (nonlinear_arith)
            requires
                0 <= reward,
                0 < n,
        ;
    }
    if share > 0 {
        assert(0 <= reward / share) by (nonlinear_arith)
            requires
                0 <= reward,
                0 < share,
        ;
        lemma_shares_fit(reward, share, paid);
        assert(0 <= share * paid) by (nonlinear_arith)
            requires
                0 < share,
                0 <= paid,
        ;
    } else {
        assert(share * paid == 0) by (nonlinear_arith)
            requires
                share == 0,
        ;
    }
}

/// Reports whether each of the first `paid` wallets can take `share` more.
fn payees_can_take(wallets: &Vec<Wallet>, share: u64, paid: usize) -> (r: bool)
    requires
        paid <= wallets@.len(),
    ensures
        r == (forall|i: int| 0 <= i < paid ==> (#[trigger] wallets@[i]).lamports + share <= u64::MAX),
{
    let mut i: usize = 0;
    while i < paid
        invariant
            0 <= i <= paid <= wallets@.len(),
            forall|j: int| 0 <= j < i ==> (#[trigger] wallets@[j]).lamports + share <= u64::MAX,
        decreases paid - i,
    {
        if wallets[i].lamports.checked_add(share).is_none() {
            return false;
        }
        i += 1;
    }
    true
}

/// Confirms the answer of a fulfilled prayer and pays the claimers.
///
/// Only the requester may confirm, and only a fulfilled prayer. Each wallet
/// in `remaining_accounts` gets the same share, in order, as long as the
/// reward covers it; what the division leaves over stays with the prayer.
/// The answerer's agent gains a confirmed prayer and reputation.
pub fn confirm_prayer(ctx: &mut ConfirmPrayer) -> (r: Result<PrayerConfirmed, PrayerError>)
    ensures
        r matches Err(e) ==> confirm_prayer_error(*old(ctx)) == Some(e) && *final(ctx) == *old(ctx),
        r matches Ok(ev) ==> {
            &&& confirm_prayer_error(*old(ctx)) is None
            &&& final(ctx).requester == old(ctx).requester
            &&& final(ctx).prayer == confirmed_prayer(
                old(ctx).prayer,
                old(ctx).remaining_accounts@.len() as int,
            )
            &&& final(ctx).remaining_accounts@ == paid_wallets(
                old(ctx).prayer,
                old(ctx).remaining_accounts@,
            )
            &&& final(ctx).answerer_agent == confirmed_agent(old(ctx).answerer_agent)
            &&& ev == confirmation(
                old(ctx).prayer,
                old(ctx).requester,
                old(ctx).remaining_accounts@.len() as int,
            )
            &&& ev.reward_total <= old(ctx).prayer.reward_lamports
            &&& old(ctx).prayer.well_formed() ==> final(ctx).prayer.well_formed()
        },
{
    if ctx.prayer.requester != ctx.requester {
        return Err(PrayerError::NotRequester);
    }
    if ctx.prayer.status != PrayerStatus::Fulfilled {
        return Err(PrayerError::NotFulfilled);
    }
    let reward: u64 = ctx.prayer.reward_lamports;
    let num_claimers: u64 = ctx.prayer.num_claimers as u64;
    let share: u64 = if reward > 0 && num_claimers > 0 {
        reward / num_claimers
    } else {
        0
    };
    let listed: usize = ctx.remaining_accounts.len();
    let paid: usize = if share == 0 {
        0
    } else if listed as u64 <= reward / share {
        listed
    } else {
        (reward / share) as usize
    };
    proof {
        lemma_total_within_reward(ctx.prayer, listed as int);
    }
    let total: u64 = share * (paid as u64);
    if !payees_can_take(&ctx.remaining_accounts, share, paid) {
        return Err(PrayerError::ArithmeticOverflow);
    }
    let held: u64 = match ctx.prayer.escrow_lamports.checked_sub(total) {
        Some(n) => n,
        None => { return Err(PrayerError::ArithmeticOverflow); },
    };
    let prayers_confirmed: u64 = match ctx.answerer_agent.prayers_confirmed.checked_add(1) {
        Some(n) => n,
        None => { return Err(PrayerError::ArithmeticOverflow); },
    };
    let reputation: u64 = match ctx.answerer_agent.reputation.checked_add(CONFIRM_REPUTATION) {
        Some(n) => n,
        None => { return Err(PrayerError::ArithmeticOverflow); },
    };
    let ghost before = ctx.remaining_accounts@;
    let mut i: usize = 0;
    while i < paid
        invariant
            0 <= i <= paid <= listed,
            listed == before.len(),
            ctx.remaining_accounts@.len() == listed,
            before == old(ctx).remaining_accounts@,
            forall|j: int| 0 <= j < paid ==> (#[trigger] before[j]).lamports + share <= u64::MAX,
            ctx.remaining_accounts@ == pay_out(before, share as int, i as int),
            ctx.prayer == old(ctx).prayer,
            ctx.answerer_agent == old(ctx).answerer_agent,
            ctx.requester == old(ctx).requester,
        decreases paid - i,
    {
        let wallet: Wallet = ctx.remaining_accounts[i];
        let credited: Wallet = Wallet { key: wallet.key, lamports: wallet.lamports + share };
        ctx.remaining_accounts.set(i, credited);
        i = i + 1;
    }
    ctx.prayer.status = PrayerStatus::Confirmed;
    ctx.prayer.escrow_lamports = held;
    ctx.answerer_agent.prayers_confirmed = prayers_confirmed;
    ctx.answerer_agent.reputation = reputation;
    Ok(
        PrayerConfirmed {
            id: ctx.prayer.id,
            requester: ctx.requester,
            answerer: ctx.prayer.answerer,
            num_claimers: ctx.prayer.num_claimers,
            reward_per_claimer: share,
            reward_total: total,
        },
    )
}

} // verus!
