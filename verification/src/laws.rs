//! What holds of the operations, whatever the records and the ledger are.

use crate::accounts::{CancelPrayer, ClaimPrayer, ClosePrayer, PostPrayer, UnclaimPrayer};
use crate::address::{Address, Bytes32};
use crate::claims::{claim_prayer_error, claim_prayer_result, unclaim_prayer_error};
use crate::error::PrayerError;
use crate::model::{keys_of, lemma_claimed_prayer_counts, LedgerError, LedgerState};
use crate::posting::{
    cancel_prayer_error,
    cancel_prayer_result,
    close_prayer_error,
    close_prayer_result,
    post_prayer_error,
    post_prayer_result,
};
use crate::registry::registered_agent;
use crate::settlement::{
    confirm_failure,
    confirm_paid,
    confirm_share,
    confirm_total,
    confirmed_prayer,
    lemma_shares_fit,
    lemma_total_within_reward,
    paid_wallets,
};
use vstd::set_lib::lemma_len_subset;
use crate::state::{Agent, Prayer, PrayerStatus, PrayerType, Wallet, CLAIM_TIMEOUT_SECONDS};
use vstd::prelude::*;

verus! {

/// Posting a prayer and cancelling it at once, before anyone claimed it,
/// succeeds and leaves the requester's wallet as it was before posting; the
/// cancelled prayer holds nothing.
pub proof fn law_post_then_cancel_refunds(
    ctx: PostPrayer,
    prayer_type: PrayerType,
    content_hash: Bytes32,
    reward_lamports: u64,
    ttl_seconds: i64,
    max_claimers: u8,
    now: i64,
)
    requires
        post_prayer_error(ctx, reward_lamports, ttl_seconds, max_claimers, now) is None,
    ensures
        ({
            let posted = post_prayer_result(
                ctx,
                prayer_type,
                content_hash,
                reward_lamports,
                ttl_seconds,
                max_claimers,
                now,
            );
            let cancel = CancelPrayer { prayer: posted.prayer, requester: posted.requester };
            &&& posted.prayer.well_formed()
            &&& posted.prayer.escrow_lamports == reward_lamports
            &&& posted.requester.lamports + reward_lamports == ctx.requester.lamports
            &&& cancel_prayer_error(cancel) is None
            &&& cancel_prayer_result(cancel).requester == ctx.requester
            &&& cancel_prayer_result(cancel).prayer.escrow_lamports == 0
        }),
{
}

/// On the ledger, a prayer that was just posted can be cancelled by the
/// wallet that posted it, and the wallet then holds what it held before.
pub proof fn law_post_then_cancel_on_ledger(
    state: LedgerState,
    requester: Wallet,
    prayer_type: PrayerType,
    content_hash: Bytes32,
    reward_lamports: u64,
    ttl_seconds: i64,
    max_claimers: u8,
    now: i64,
)
    requires
        state.post_failure(requester, reward_lamports, ttl_seconds, max_claimers, now) is None,
    ensures
        ({
            let id = state.chain.unwrap().total_prayers;
            let posted = state.after_post(
                requester,
                prayer_type,
                content_hash,
                reward_lamports,
                ttl_seconds,
                max_claimers,
                now,
            );
            let wallet = state.post_outcome(
                requester,
                prayer_type,
                content_hash,
                reward_lamports,
                ttl_seconds,
                max_claimers,
                now,
            ).requester;
            &&& posted.cancel_failure(wallet, id) is None
            &&& cancel_prayer_result(posted.cancel_accounts(wallet, id)).requester == requester
            &&& posted.after_cancel(wallet, id).prayers[id].status == PrayerStatus::Cancelled
            &&& posted.after_cancel(wallet, id).prayers[id].escrow_lamports == 0
        }),
{
}

/// Cancelling and closing create and destroy nothing: what leaves the
/// prayer arrives in the requester's wallet.
pub proof fn law_refunds_conserve_value(cancel: CancelPrayer, close: ClosePrayer, now: i64)
    ensures
        cancel_prayer_error(cancel) is None ==> cancel_prayer_result(cancel).requester.lamports
            + cancel_prayer_result(cancel).prayer.escrow_lamports == cancel.requester.lamports
            + cancel.prayer.escrow_lamports,
        close_prayer_error(close, now) is None ==> close_prayer_result(close).requester.lamports
            + close_prayer_result(close).prayer.escrow_lamports == close.requester.lamports
            + close.prayer.escrow_lamports,
{
}

/// Confirming never pays out more than the reward, and what it does not
/// pay out stays with the prayer.
pub proof fn law_confirm_pays_within_reward(
    prayer: Prayer,
    agent: Agent,
    requester: Address,
    wallets: Seq<Wallet>,
)
    requires
        prayer.well_formed(),
        confirm_failure(prayer, agent, requester, wallets) is None,
    ensures
        0 <= confirm_total(prayer, wallets.len() as int) <= prayer.reward_lamports,
        confirmed_prayer(prayer, wallets.len() as int).escrow_lamports + confirm_total(
            prayer,
            wallets.len() as int,
        ) == prayer.reward_lamports,
        paid_wallets(prayer, wallets).len() == wallets.len(),
{
    lemma_total_within_reward(prayer, wallets.len() as int);
}

/// A claim on an active prayer is rejected as not open, whoever claims and
/// whenever.
pub proof fn law_claim_on_active_rejected(ctx: ClaimPrayer, now: i64)
    requires
        ctx.prayer.status == PrayerStatus::Active,
    ensures
        claim_prayer_error(ctx, now) == Some(PrayerError::NotOpen),
{
}

/// The claim that takes the last slot makes the prayer active, so that the
/// next claim on it is rejected as not open.
pub proof fn law_claim_beyond_capacity_rejected(
    last: ClaimPrayer,
    now: i64,
    next: ClaimPrayer,
    later: i64,
)
    requires
        last.prayer.well_formed(),
        claim_prayer_error(last, now) is None,
        last.prayer.num_claimers + 1 == last.prayer.max_claimers,
        next.prayer == claim_prayer_result(last, now).prayer,
    ensures
        next.prayer.status == PrayerStatus::Active,
        next.prayer.num_claimers == next.prayer.max_claimers,
        claim_prayer_error(next, later) == Some(PrayerError::NotOpen),
{
}

/// While a slot stays free after a claim, the prayer stays open.
pub proof fn law_claim_below_capacity_stays_open(ctx: ClaimPrayer, now: i64)
    requires
        ctx.prayer.well_formed(),
        claim_prayer_error(ctx, now) is None,
        ctx.prayer.num_claimers + 1 < ctx.prayer.max_claimers,
    ensures
        claim_prayer_result(ctx, now).prayer.status == PrayerStatus::Open,
{
}

/// Someone who does not hold the claim cannot remove it until more than
/// the timeout has passed since it was made.
pub proof fn law_unclaim_by_other_before_timeout_rejected(ctx: UnclaimPrayer, now: i64)
    requires
        ctx.claim.claimer != ctx.caller,
        now <= ctx.claim.claimed_at + CLAIM_TIMEOUT_SECONDS,
    ensures
        unclaim_prayer_error(ctx, now) is Some,
        ctx.claim.prayer_id == ctx.prayer.id && ctx.prayer.status.is_live()
            ==> unclaim_prayer_error(ctx, now) == Some(PrayerError::NotClaimer),
{
}

/// Once more than the timeout has passed, anyone can remove a claim on an
/// open or active prayer that counts it.
pub proof fn law_unclaim_after_timeout_accepted(ctx: UnclaimPrayer, now: i64)
    requires
        ctx.claim.prayer_id == ctx.prayer.id,
        ctx.prayer.status.is_live(),
        ctx.prayer.num_claimers >= 1,
        now > ctx.claim.claimed_at + CLAIM_TIMEOUT_SECONDS,
    ensures
        unclaim_prayer_error(ctx, now) is None,
{
}

/// The holder of a claim on an open or active prayer that counts it can
/// remove it at any time.
pub proof fn law_unclaim_by_claimer_accepted(ctx: UnclaimPrayer, now: i64)
    requires
        ctx.claim.prayer_id == ctx.prayer.id,
        ctx.prayer.status.is_live(),
        ctx.prayer.num_claimers >= 1,
        ctx.claim.claimer == ctx.caller,
    ensures
        unclaim_prayer_error(ctx, now) is None,
{
}

/// A prayer that is neither confirmed nor cancelled cannot be closed
/// before its deadline has passed.
pub proof fn law_close_before_expiry_rejected(ctx: ClosePrayer, now: i64)
    requires
        !ctx.prayer.status.is_terminal(),
        now <= ctx.prayer.expires_at,
    ensures
        close_prayer_error(ctx, now) is Some,
        ctx.prayer.requester == ctx.requester.key ==> close_prayer_error(ctx, now) == Some(
            PrayerError::CannotClose,
        ),
{
}

/// After the deadline the requester can close a prayer that is still open,
/// active or fulfilled, and gets back all that it holds: the whole reward.
pub proof fn law_close_after_expiry_refunds(ctx: ClosePrayer, now: i64)
    requires
        ctx.prayer.well_formed(),
        ctx.prayer.requester == ctx.requester.key,
        ctx.prayer.status.is_pending(),
        now > ctx.prayer.expires_at,
        ctx.requester.lamports + ctx.prayer.reward_lamports <= u64::MAX,
    ensures
        close_prayer_error(ctx, now) is None,
        close_prayer_result(ctx).prayer.escrow_lamports == 0,
        close_prayer_result(ctx).requester.lamports == ctx.requester.lamports
            + ctx.prayer.reward_lamports,
{
}

/// The requester can close a confirmed or cancelled prayer at any time, and
/// gets back what the distribution left over.
pub proof fn law_close_settled_refunds_rest(ctx: ClosePrayer, now: i64)
    requires
        ctx.prayer.requester == ctx.requester.key,
        ctx.prayer.status.is_terminal(),
        ctx.requester.lamports + ctx.prayer.escrow_lamports <= u64::MAX,
    ensures
        close_prayer_error(ctx, now) is None,
        close_prayer_result(ctx).prayer.escrow_lamports == 0,
        close_prayer_result(ctx).requester.lamports == ctx.requester.lamports
            + ctx.prayer.escrow_lamports,
{
}

/// A wallet registers once: after a registration succeeded, another one
/// for the same wallet fails as a duplicate, whatever it holds.
pub proof fn law_register_twice_rejected(
    state: LedgerState,
    wallet: Address,
    name: String,
    skills: String,
    encryption_key: Option<Bytes32>,
    now: i64,
    other_name: Seq<char>,
    other_skills: Seq<char>,
    other_key: Option<Bytes32>,
)
    requires
        state.register_failure(wallet, name@, skills@, encryption_key) is None,
    ensures
        state.after_register(wallet, name, skills, encryption_key, now).register_failure(
            wallet,
            other_name,
            other_skills,
            other_key,
        ) == Some(LedgerError::AccountInUse),
{
}

/// Two different wallets register without getting in each other's way:
/// if each could register alone, the second still can after the first, each
/// gets the agent that it would have got alone, and the order in which they
/// register makes no difference to the directory.
///
/// The counter of agents must have room for both.
pub proof fn law_registrations_independent(
    state: LedgerState,
    first: Address,
    first_name: String,
    first_skills: String,
    first_key: Option<Bytes32>,
    first_now: i64,
    second: Address,
    second_name: String,
    second_skills: String,
    second_key: Option<Bytes32>,
    second_now: i64,
)
    requires
        first != second,
        state.register_failure(first, first_name@, first_skills@, first_key) is None,
        state.register_failure(second, second_name@, second_skills@, second_key) is None,
        state.chain.unwrap().total_agents + 2 <= u64::MAX,
    ensures
        ({
            let one = state.after_register(first, first_name, first_skills, first_key, first_now);
            let both = one.after_register(
                second,
                second_name,
                second_skills,
                second_key,
                second_now,
            );
            let swapped = state.after_register(
                second,
                second_name,
                second_skills,
                second_key,
                second_now,
            ).after_register(first, first_name, first_skills, first_key, first_now);
            &&& one.register_failure(second, second_name@, second_skills@, second_key) is None
            &&& both.agents[first] == registered_agent(
                first,
                first_name,
                first_skills,
                first_key,
                first_now,
            )
            &&& both.agents[second] == registered_agent(
                second,
                second_name,
                second_skills,
                second_key,
                second_now,
            )
            &&& both.chain.unwrap().total_agents == state.chain.unwrap().total_agents + 2
            &&& both == swapped
        }),
{
    let one = state.after_register(first, first_name, first_skills, first_key, first_now);
    let both = one.after_register(second, second_name, second_skills, second_key, second_now);
    let other = state.after_register(second, second_name, second_skills, second_key, second_now);
    let swapped = other.after_register(first, first_name, first_skills, first_key, first_now);
    assert(both.agents =~= swapped.agents);
}

/// On a well-formed ledger a claim on an active prayer fails: for a
/// registered agent without a claim on it, as not open.
pub proof fn law_ledger_claim_on_active_rejected(
    state: LedgerState,
    claimer: Address,
    prayer_id: u64,
    now: i64,
)
    requires
        state.well_formed(),
        state.prayers.contains_key(prayer_id),
        state.prayers[prayer_id].status == PrayerStatus::Active,
    ensures
        state.prayers[prayer_id].num_claimers == state.prayers[prayer_id].max_claimers,
        state.claim_failure(claimer, prayer_id, now) is Some,
        state.agents.contains_key(claimer) && !state.claims.contains_key((prayer_id, claimer))
            ==> state.claim_failure(claimer, prayer_id, now) == Some(
            LedgerError::Rejected(PrayerError::NotOpen),
        ),
        state.step(crate::history::Operation::Claim { claimer, prayer_id, now }) == state,
{
}

/// On a well-formed ledger the holder of a claim on an open or active
/// prayer can remove it at any time.
pub proof fn law_ledger_claimer_can_leave(
    state: LedgerState,
    prayer_id: u64,
    claimer: Address,
    now: i64,
)
    requires
        state.well_formed(),
        state.prayers.contains_key(prayer_id),
        state.claims.contains_key((prayer_id, claimer)),
        state.prayers[prayer_id].status.is_live(),
    ensures
        state.unclaim_failure(claimer, prayer_id, claimer, now) is None,
        !state.after_unclaim(claimer, prayer_id, claimer).claims.contains_key((prayer_id, claimer)),
        state.after_unclaim(claimer, prayer_id, claimer).prayers[prayer_id].num_claimers + 1
            == state.prayers[prayer_id].num_claimers,
{
    lemma_claimed_prayer_counts(state, prayer_id, claimer);
}

/// On a well-formed ledger anyone can remove a claim on an open or active
/// prayer once more than the timeout has passed since it was made.
pub proof fn law_ledger_stale_claim_can_be_swept(
    state: LedgerState,
    caller: Address,
    prayer_id: u64,
    claimer: Address,
    now: i64,
)
    requires
        state.well_formed(),
        state.prayers.contains_key(prayer_id),
        state.claims.contains_key((prayer_id, claimer)),
        state.prayers[prayer_id].status.is_live(),
        now > state.claims[(prayer_id, claimer)].claimed_at + CLAIM_TIMEOUT_SECONDS,
    ensures
        state.unclaim_failure(caller, prayer_id, claimer, now) is None,
{
    lemma_claimed_prayer_counts(state, prayer_id, claimer);
}

/// On a well-formed ledger nobody but its holder can remove a claim until
/// more than the timeout has passed since it was made.
pub proof fn law_ledger_fresh_claim_is_protected(
    state: LedgerState,
    caller: Address,
    prayer_id: u64,
    claimer: Address,
    now: i64,
)
    requires
        state.well_formed(),
        caller != claimer,
        state.claims.contains_key((prayer_id, claimer)),
        now <= state.claims[(prayer_id, claimer)].claimed_at + CLAIM_TIMEOUT_SECONDS,
    ensures
        state.unclaim_failure(caller, prayer_id, claimer, now) is Some,
        state.prayers.contains_key(prayer_id) && state.prayers[prayer_id].status.is_live()
            ==> state.unclaim_failure(caller, prayer_id, claimer, now) == Some(
            LedgerError::Rejected(PrayerError::NotClaimer),
        ),
{
}

/// On a well-formed ledger a prayer that is neither confirmed nor
/// cancelled stays until its deadline has passed; after that its requester
/// can close it, which takes it off the ledger and hands the whole reward
/// back.
pub proof fn law_ledger_close_follows_the_deadline(
    state: LedgerState,
    requester: Wallet,
    prayer_id: u64,
    now: i64,
)
    requires
        state.well_formed(),
        state.prayers.contains_key(prayer_id),
        state.prayers[prayer_id].status.is_pending(),
    ensures
        now <= state.prayers[prayer_id].expires_at ==> state.close_failure(
            requester,
            prayer_id,
            now,
        ) is Some,
        now > state.prayers[prayer_id].expires_at && requester.key
            == state.prayers[prayer_id].requester && requester.lamports
            + state.prayers[prayer_id].reward_lamports <= u64::MAX ==> {
            &&& state.close_failure(requester, prayer_id, now) is None
            &&& !state.after_close(prayer_id).prayers.contains_key(prayer_id)
            &&& close_prayer_result(state.close_accounts(requester, prayer_id)).requester.lamports
                == requester.lamports + state.prayers[prayer_id].reward_lamports
        },
{
}

/// On a well-formed ledger the distribution never runs out: there are at
/// most as many payees as claimers, each payee gets one full share, and the
/// prayer keeps what is left of the reward.
pub proof fn law_ledger_confirm_pays_every_payee(
    state: LedgerState,
    requester: Address,
    prayer_id: u64,
    payees: Seq<Wallet>,
)
    requires
        state.well_formed(),
        state.confirm_failure(requester, prayer_id, payees) is None,
    ensures
        ({
            let prayer = state.prayers[prayer_id];
            let share = confirm_share(prayer);
            let paid = paid_wallets(prayer, payees);
            &&& payees.len() <= prayer.num_claimers
            &&& paid.len() == payees.len()
            &&& forall|i: int|
                0 <= i < payees.len() ==> (#[trigger] paid[i]).key == payees[i].key && paid[i].lamports
                    == payees[i].lamports + share
            &&& confirm_total(prayer, payees.len() as int) == share * payees.len()
            &&& state.after_confirm(prayer_id, payees.len() as int).prayers[prayer_id].escrow_lamports
                == prayer.reward_lamports - share * payees.len()
        }),
{
    let prayer = state.prayers[prayer_id];
    let share = confirm_share(prayer);
    let listed = payees.len() as int;
    let keys = keys_of(payees);
    assert(keys.to_set().subset_of(state.claimers(prayer_id))) by {
        assert forall|key: Address| keys.to_set().contains(key) implies state.claimers(
            prayer_id,
        ).contains(key) by {
            let i = keys.index_of(key);
            assert(payees[i].key == key);
        }
    }
    keys.unique_seq_to_set();
    lemma_len_subset(keys.to_set(), state.claimers(prayer_id));
    lemma_total_within_reward(prayer, listed);
    if share > 0 {
        let n = prayer.num_claimers as int;
        let reward = prayer.reward_lamports as int;
        assert(share * n <= reward) by (nonlinear_arith)
            requires
                0 < n,
                0 <= reward,
                share == reward / n,
        ;
        lemma_shares_fit(reward, share, n);
        assert(confirm_paid(prayer, listed) == listed);
    } else {
        assert(share * listed == 0) by (nonlinear_arith)
            requires
                share == 0,
        ;
    }
}

/// Without a claim there is nothing to answer on, to deliver to or to
/// remove: each is rejected as not claimed, and the ledger stays as it is.
pub proof fn law_ledger_missing_claim_is_not_claimed(
    state: LedgerState,
    who: Address,
    prayer_id: u64,
    caller: Address,
    answer_hash: Bytes32,
    now: i64,
)
    requires
        state.chain is Some,
        state.prayers.contains_key(prayer_id),
        !state.claims.contains_key((prayer_id, who)),
    ensures
        state.answer_failure(who, prayer_id, now) == Some(
            LedgerError::Rejected(PrayerError::NotClaimed),
        ),
        state.unclaim_failure(caller, prayer_id, who, now) == Some(
            LedgerError::Rejected(PrayerError::NotClaimed),
        ),
        state.deliver_failure(state.prayers[prayer_id].requester, prayer_id, who) == Some(
            LedgerError::Rejected(PrayerError::NotClaimed),
        ),
        state.step(crate::history::Operation::Answer { answerer: who, prayer_id, answer_hash, now })
            == state,
{
}

} // verus!
