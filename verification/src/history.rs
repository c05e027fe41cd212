//! Operations as values, and what a sequence of them does to the ledger.

use crate::address::{Address, Bytes32};
use crate::model::{
    lemma_claim_keeps_invariant,
    lemma_deliver_keeps_invariant,
    lemma_post_keeps_invariant,
    lemma_unclaim_keeps_invariant,
    LedgerError,
    LedgerState,
};
use crate::settlement::lemma_total_within_reward;
use crate::state::{PrayerType, Wallet};
use vstd::prelude::*;

verus! {

/// One call of an operation of the ledger, with its arguments. A `payer` is
/// the wallet of the requester, with what it holds when the call is made.
pub enum Operation {
    Initialize { authority: Address },
    Register {
        wallet: Address,
        name: String,
        skills: String,
        encryption_key: Option<Bytes32>,
        now: i64,
    },
    Post {
        payer: Wallet,
        prayer_type: PrayerType,
        content_hash: Bytes32,
        reward_lamports: u64,
        ttl_seconds: i64,
        max_claimers: u8,
        now: i64,
    },
    Claim { claimer: Address, prayer_id: u64, now: i64 },
    Deliver { requester: Address, prayer_id: u64, claimer: Address },
    Answer { answerer: Address, prayer_id: u64, answer_hash: Bytes32, now: i64 },
    Confirm { requester: Address, prayer_id: u64, payees: Seq<Wallet> },
    Cancel { payer: Wallet, prayer_id: u64 },
    Unclaim { caller: Address, prayer_id: u64, claimer: Address, now: i64 },
    Close { payer: Wallet, prayer_id: u64, now: i64 },
}

impl LedgerState {
    /// Why the operation fails on this ledger, if it does.
    pub open spec fn failure(self, op: Operation) -> Option<LedgerError> {
        match op {
            Operation::Initialize { authority } => self.initialize_failure(),
            Operation::Register { wallet, name, skills, encryption_key, now } => {
                self.register_failure(wallet, name@, skills@, encryption_key)
            },
            Operation::Post {
                payer,
                prayer_type,
                content_hash,
                reward_lamports,
                ttl_seconds,
                max_claimers,
                now,
            } => self.post_failure(payer, reward_lamports, ttl_seconds, max_claimers, now),
            Operation::Claim { claimer, prayer_id, now } => {
                self.claim_failure(claimer, prayer_id, now)
            },
            Operation::Deliver { requester, prayer_id, claimer } => {
                self.deliver_failure(requester, prayer_id, claimer)
            },
            Operation::Answer { answerer, prayer_id, answer_hash, now } => {
                self.answer_failure(answerer, prayer_id, now)
            },
            Operation::Confirm { requester, prayer_id, payees } => {
                self.confirm_failure(requester, prayer_id, payees)
            },
            Operation::Cancel { payer, prayer_id } => self.cancel_failure(payer, prayer_id),
            Operation::Unclaim { caller, prayer_id, claimer, now } => {
                self.unclaim_failure(caller, prayer_id, claimer, now)
            },
            Operation::Close { payer, prayer_id, now } => {
                self.close_failure(payer, prayer_id, now)
            },
        }
    }

    /// The ledger after the operation: changed if it succeeds, the same if
    /// it fails.
    pub open spec fn step(self, op: Operation) -> LedgerState {
        if self.failure(op) is Some {
            self
        } else {
            match op {
                Operation::Initialize { authority } => self.after_initialize(authority),
                Operation::Register { wallet, name, skills, encryption_key, now } => {
                    self.after_register(wallet, name, skills, encryption_key, now)
                },
                Operation::Post {
                    payer,
                    prayer_type,
                    content_hash,
                    reward_lamports,
                    ttl_seconds,
                    max_claimers,
                    now,
                } => self.after_post(
                    payer,
                    prayer_type,
                    content_hash,
                    reward_lamports,
                    ttl_seconds,
                    max_claimers,
                    now,
                ),
                Operation::Claim { claimer, prayer_id, now } => {
                    self.after_claim(claimer, prayer_id, now)
                },
                Operation::Deliver { requester, prayer_id, claimer } => {
                    self.after_deliver(requester, prayer_id, claimer)
                },
                Operation::Answer { answerer, prayer_id, answer_hash, now } => {
                    self.after_answer(answerer, prayer_id, answer_hash, now)
                },
                Operation::Confirm { requester, prayer_id, payees } => {
                    self.after_confirm(prayer_id, payees.len() as int)
                },
                Operation::Cancel { payer, prayer_id } => self.after_cancel(payer, prayer_id),
                Operation::Unclaim { caller, prayer_id, claimer, now } => {
                    self.after_unclaim(caller, prayer_id, claimer)
                },
                Operation::Close { payer, prayer_id, now } => self.after_close(prayer_id),
            }
        }
    }

    /// The ledger after the operations in `ops`, one after the other.
    pub open spec fn run(self, ops: Seq<Operation>) -> LedgerState
        decreases ops.len(),
    {
        if ops.len() == 0 {
            self
        } else {
            self.run(ops.drop_last()).step(ops.last())
        }
    }
}

/// An operation leaves a well-formed ledger well-formed, whether it
/// succeeds or fails.
pub proof fn law_step_preserves_invariant(state: LedgerState, op: Operation)
    requires
        state.well_formed(),
    ensures
        state.step(op).well_formed(),
{
    if state.failure(op) is None {
        match op {
            Operation::Post {
                payer,
                prayer_type,
                content_hash,
                reward_lamports,
                ttl_seconds,
                max_claimers,
                now,
            } => {
                lemma_post_keeps_invariant(
                    state,
                    payer,
                    prayer_type,
                    content_hash,
                    reward_lamports,
                    ttl_seconds,
                    max_claimers,
                    now,
                );
            },
            Operation::Claim { claimer, prayer_id, now } => {
                lemma_claim_keeps_invariant(state, claimer, prayer_id, now);
            },
            Operation::Deliver { requester, prayer_id, claimer } => {
                lemma_deliver_keeps_invariant(state, requester, prayer_id, claimer);
            },
            Operation::Unclaim { caller, prayer_id, claimer, now } => {
                lemma_unclaim_keeps_invariant(state, caller, prayer_id, claimer, now);
            },
            Operation::Confirm { requester, prayer_id, payees } => {
                lemma_total_within_reward(state.prayers[prayer_id], payees.len() as int);
            },
            _ => {},
        }
    }
}

/// Whatever operations are applied to a well-formed ledger, in whatever
/// order and whether they succeed or fail, the ledger stays well-formed: in
/// particular, no prayer ever counts more claimers than it has slots, nor
/// fewer than none.
pub proof fn law_history_preserves_invariant(state: LedgerState, ops: Seq<Operation>)
    requires
        state.well_formed(),
    ensures
        state.run(ops).well_formed(),
        forall|id: u64| #[trigger]
            state.run(ops).prayers.contains_key(id) ==> 0 <= state.run(ops).prayers[id].num_claimers
                <= state.run(ops).prayers[id].max_claimers,
    decreases ops.len(),
{
    if ops.len() > 0 {
        law_history_preserves_invariant(state, ops.drop_last());
        law_step_preserves_invariant(state.run(ops.drop_last()), ops.last());
    }
}

/// The empty ledger is well-formed, so every history that starts from it
/// keeps the invariant.
pub proof fn law_history_from_empty(ops: Seq<Operation>)
    ensures
        LedgerState::empty().run(ops).well_formed(),
{
    law_history_preserves_invariant(LedgerState::empty(), ops);
}

/// A prayer keeps its identity for as long as it exists: no operation
/// changes its id, its requester, its terms or its reward, and none puts
/// anything into its escrow. What the prayer holds only ever goes down.
pub proof fn law_escrow_never_grows(state: LedgerState, op: Operation, id: u64)
    requires
        state.well_formed(),
        state.prayers.contains_key(id),
        state.step(op).prayers.contains_key(id),
    ensures
        ({
            let before = state.prayers[id];
            let after = state.step(op).prayers[id];
            &&& after.id == before.id
            &&& after.requester == before.requester
            &&& after.prayer_type == before.prayer_type
            &&& after.content_hash == before.content_hash
            &&& after.reward_lamports == before.reward_lamports
            &&& after.max_claimers == before.max_claimers
            &&& after.created_at == before.created_at
            &&& after.expires_at == before.expires_at
            &&& after.escrow_lamports <= before.escrow_lamports
            &&& after.paid_out() <= before.reward_lamports
        }),
{
    law_step_preserves_invariant(state, op);
}

/// Only confirming and cancelling take anything out of a prayer that stays
/// on the ledger; closing takes the rest and the prayer with it.
pub proof fn law_escrow_moves_only_at_settlement(state: LedgerState, op: Operation, id: u64)
    requires
        state.well_formed(),
        state.prayers.contains_key(id),
        state.step(op).prayers.contains_key(id),
        !(op is Confirm),
        !(op is Cancel),
    ensures
        state.step(op).prayers[id].escrow_lamports == state.prayers[id].escrow_lamports,
{
}

/// A confirmed or cancelled prayer is final: the only thing that can still
/// happen to it is that it is closed.
pub proof fn law_settled_prayers_are_final(state: LedgerState, op: Operation, id: u64)
    requires
        state.well_formed(),
        state.prayers.contains_key(id),
        state.prayers[id].status.is_terminal(),
    ensures
        state.step(op).prayers.contains_key(id) ==> state.step(op).prayers[id]
            == state.prayers[id],
        !state.step(op).prayers.contains_key(id) ==> op is Close,
{
}

/// Whoever answers a prayer holds a claim on it: after an answer was
/// accepted, the prayer names the answerer, and the answerer's claim is on
/// the ledger.
pub proof fn law_answerer_holds_a_claim(
    state: LedgerState,
    answerer: Address,
    prayer_id: u64,
    answer_hash: Bytes32,
    now: i64,
)
    requires
        state.well_formed(),
        state.answer_failure(answerer, prayer_id, now) is None,
    ensures
        ({
            let after = state.after_answer(answerer, prayer_id, answer_hash, now);
            &&& after.prayers[prayer_id].answerer == answerer
            &&& after.claims.contains_key((prayer_id, answerer))
            &&& after.claims[(prayer_id, answerer)].claimer == answerer
            &&& after.claims[(prayer_id, answerer)].prayer_id == prayer_id
        }),
{
}

/// An agent stays registered and stays who it is, and its counters and its
/// reputation never go down.
pub proof fn law_agents_only_gain(state: LedgerState, op: Operation, wallet: Address)
    requires
        state.well_formed(),
        state.agents.contains_key(wallet),
    ensures
        state.step(op).agents.contains_key(wallet),
        ({
            let before = state.agents[wallet];
            let after = state.step(op).agents[wallet];
            &&& after.wallet == before.wallet
            &&& after.name == before.name
            &&& after.skills == before.skills
            &&& after.encryption_key == before.encryption_key
            &&& after.registered_at == before.registered_at
            &&& after.prayers_posted >= before.prayers_posted
            &&& after.prayers_answered >= before.prayers_answered
            &&& after.prayers_confirmed >= before.prayers_confirmed
            &&& after.reputation >= before.reputation
        }),
{
}

/// The protocol, once initialised, stays so, and its counters never go
/// down. Prayers get their ids from the counter of prayers: a new prayer
/// never takes the id of one that is, or was, on the ledger.
pub proof fn law_counters_only_grow(state: LedgerState, op: Operation)
    requires
        state.well_formed(),
    ensures
        state.chain matches Some(before) ==> (state.step(op).chain matches Some(after)
            && before.total_prayers <= after.total_prayers && before.total_answered
            <= after.total_answered && before.total_agents <= after.total_agents
            && before.authority == after.authority),
        forall|id: u64| #[trigger]
            state.step(op).prayers.contains_key(id) && !state.prayers.contains_key(id) ==> (
            state.chain matches Some(before) && id == before.total_prayers),
{
}

} // verus!
