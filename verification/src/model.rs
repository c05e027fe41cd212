//! The ledger as a mathematical object: four maps of records, and for each
//! operation the condition under which it fails and the state it leaves.
//!
//! Every operation first looks up the records it works on, then runs the
//! operation on records, then stores what changed. A failed operation
//! leaves the state as it was.

use crate::accounts::{
    AnswerPrayer,
    CancelPrayer,
    ClaimPrayer,
    ClosePrayer,
    DeliverContent,
    PostPrayer,
    RegisterAgent,
    UnclaimPrayer,
};
use crate::address::{Address, Bytes32};
use crate::claims::{
    claim_prayer_error,
    claim_prayer_result,
    deliver_content_error,
    deliver_content_result,
    unclaim_prayer_error,
    unclaim_prayer_result,
};
use crate::error::PrayerError;
use crate::posting::{
    cancel_prayer_error,
    cancel_prayer_result,
    close_prayer_error,
    post_prayer_error,
    post_prayer_result,
};
use crate::registry::{initial_chain, register_agent_error, register_agent_result};
use crate::settlement::{
    answer_prayer_error,
    answer_prayer_result,
    confirm_fits,
    confirm_guard,
    confirmed_agent,
    confirmed_prayer,
};
use crate::state::{Agent, Claim, Prayer, PrayerChain, PrayerType, Wallet};
use vstd::prelude::*;

verus! {

/// Why an operation on the ledger failed.
#[derive(Clone, Copy, Debug, PartialEq, Eq, Structural)]
pub enum LedgerError {
    /// A record that the operation creates exists already.
    AccountInUse,
    /// The protocol, a prayer or an agent that the operation works on does
    /// not exist, or a payee holds no claim. A claim that is missing where
    /// one is to be delivered to, answered on or removed is rejected as
    /// [`PrayerError::NotClaimed`] instead.
    AccountNotFound,
    /// A wallet is listed twice where each may be listed once.
    DuplicateAccount,
    /// The records were found, and the operation rejected them.
    Rejected(PrayerError),
}

/// What the ledger holds.
pub struct LedgerState {
    /// The protocol singleton, once it is initialised.
    pub chain: Option<PrayerChain>,
    /// The agent of each registered wallet.
    pub agents: Map<Address, Agent>,
    /// The prayers that were posted and not yet closed, by id.
    pub prayers: Map<u64, Prayer>,
    /// The live claims, by prayer and claimer.
    pub claims: Map<(u64, Address), Claim>,
}

/// The addresses of the wallets, in their order.
pub open spec fn keys_of(wallets: Seq<Wallet>) -> Seq<Address> {
    Seq::new(wallets.len(), |i: int| wallets[i].key)
}

/// The failure that follows from a rejection by the operation on records.
pub open spec fn rejected(error: Option<PrayerError>) -> Option<LedgerError> {
    match error {
        Some(e) => Some(LedgerError::Rejected(e)),
        None => None,
    }
}

impl LedgerState {
    /// The ledger before anything happened.
    pub open spec fn empty() -> LedgerState {
        LedgerState {
            chain: None,
            agents: Map::empty(),
            prayers: Map::empty(),
            claims: Map::empty(),
        }
    }

    /// The agents that hold a claim on the prayer `prayer_id`.
    pub open spec fn claimers(self, prayer_id: u64) -> Set<Address> {
        Set::new(|claimer: Address| self.claims.contains_key((prayer_id, claimer)))
    }

    /// The invariant of the ledger.
    ///
    /// Every record sits under its own key. Every agent and every prayer
    /// meets its own invariant. The id of every prayer, and of every prayer
    /// that a claim is on, is below the protocol's count of prayers, so that
    /// the next id is free. Every prayer counts as many claimers as there are
    /// claims on it.
    pub open spec fn well_formed(self) -> bool {
        &&& forall|wallet: Address| #[trigger]
            self.agents.contains_key(wallet) ==> self.agents[wallet].wallet == wallet
                && self.agents[wallet].well_formed()
        &&& forall|id: u64| #[trigger]
            self.prayers.contains_key(id) ==> {
                &&& self.prayers[id].id == id
                &&& self.prayers[id].well_formed()
                &&& self.chain matches Some(chain) && id < chain.total_prayers
                &&& self.claimers(id).finite()
                &&& self.claimers(id).len() == self.prayers[id].num_claimers
            }
        &&& forall|key: (u64, Address)| #[trigger]
            self.claims.contains_key(key) ==> {
                &&& self.claims[key].prayer_id == key.0
                &&& self.claims[key].claimer == key.1
                &&& self.chain matches Some(chain) && key.0 < chain.total_prayers
            }
    }

    /// Why `initialize` fails, if it does.
    pub open spec fn initialize_failure(self) -> Option<LedgerError> {
        if self.chain is Some {
            Some(LedgerError::AccountInUse)
        } else {
            None
        }
    }

    /// The ledger after `initialize`.
    pub open spec fn after_initialize(self, authority: Address) -> LedgerState {
        LedgerState { chain: Some(initial_chain(authority)), ..self }
    }

    /// The records that `register_agent` works on.
    pub open spec fn register_accounts(self, wallet: Address) -> RegisterAgent {
        RegisterAgent { prayer_chain: self.chain.unwrap(), agent: arbitrary(), wallet }
    }

    /// Why `register_agent` fails, if it does.
    pub open spec fn register_failure(
        self,
        wallet: Address,
        name: Seq<char>,
        skills: Seq<char>,
        encryption_key: Option<Bytes32>,
    ) -> Option<LedgerError> {
        if self.chain is None {
            Some(LedgerError::AccountNotFound)
        } else if self.agents.contains_key(wallet) {
            Some(LedgerError::AccountInUse)
        } else {
            rejected(
                register_agent_error(self.register_accounts(wallet), name, skills, encryption_key),
            )
        }
    }

    /// The ledger after `register_agent`.
    pub open spec fn after_register(
        self,
        wallet: Address,
        name: String,
        skills: String,
        encryption_key: Option<Bytes32>,
        now: i64,
    ) -> LedgerState {
        let out = register_agent_result(
            self.register_accounts(wallet),
            name,
            skills,
            encryption_key,
            now,
        );
        LedgerState {
            chain: Some(out.prayer_chain),
            agents: self.agents.insert(wallet, out.agent),
            ..self
        }
    }

    /// The records that `post_prayer` works on.
    pub open spec fn post_accounts(self, requester: Wallet) -> PostPrayer {
        PostPrayer {
            prayer_chain: self.chain.unwrap(),
            requester_agent: self.agents[requester.key],
            prayer: arbitrary(),
            requester,
        }
    }

    /// Why `post_prayer` fails, if it does.
    pub open spec fn post_failure(
        self,
        requester: Wallet,
        reward_lamports: u64,
        ttl_seconds: i64,
        max_claimers: u8,
        now: i64,
    ) -> Option<LedgerError> {
        if self.chain is None {
            Some(LedgerError::AccountNotFound)
        } else if !self.agents.contains_key(requester.key) {
            Some(LedgerError::AccountNotFound)
        } else {
            rejected(
                post_prayer_error(
                    self.post_accounts(requester),
                    reward_lamports,
                    ttl_seconds,
                    max_claimers,
                    now,
                ),
            )
        }
    }

    /// The records as `post_prayer` leaves them.
    pub open spec fn post_outcome(
        self,
        requester: Wallet,
        prayer_type: PrayerType,
        content_hash: Bytes32,
        reward_lamports: u64,
        ttl_seconds: i64,
        max_claimers: u8,
        now: i64,
    ) -> PostPrayer {
        post_prayer_result(
            self.post_accounts(requester),
            prayer_type,
            content_hash,
            reward_lamports,
            ttl_seconds,
            max_claimers,
            now,
        )
    }

    /// The ledger after `post_prayer`.
    pub open spec fn after_post(
        self,
        requester: Wallet,
        prayer_type: PrayerType,
        content_hash: Bytes32,
        reward_lamports: u64,
        ttl_seconds: i64,
        max_claimers: u8,
        now: i64,
    ) -> LedgerState {
        let out = self.post_outcome(
            requester,
            prayer_type,
            content_hash,
            reward_lamports,
            ttl_seconds,
            max_claimers,
            now,
        );
        LedgerState {
            chain: Some(out.prayer_chain),
            agents: self.agents.insert(requester.key, out.requester_agent),
            prayers: self.prayers.insert(out.prayer.id, out.prayer),
            ..self
        }
    }

    /// The records that `claim_prayer` works on.
    pub open spec fn claim_accounts(self, claimer: Address, prayer_id: u64) -> ClaimPrayer {
        ClaimPrayer { prayer: self.prayers[prayer_id], claim: arbitrary(), claimer }
    }

    /// Why `claim_prayer` fails, if it does.
    pub open spec fn claim_failure(self, claimer: Address, prayer_id: u64, now: i64) -> Option<
        LedgerError,
    > {
        if !self.prayers.contains_key(prayer_id) {
            Some(LedgerError::AccountNotFound)
        } else if self.claims.contains_key((prayer_id, claimer)) {
            Some(LedgerError::AccountInUse)
        } else if !self.agents.contains_key(claimer) {
            Some(LedgerError::AccountNotFound)
        } else {
            rejected(claim_prayer_error(self.claim_accounts(claimer, prayer_id), now))
        }
    }

    /// The ledger after `claim_prayer`.
    pub open spec fn after_claim(self, claimer: Address, prayer_id: u64, now: i64) -> LedgerState {
        let out = claim_prayer_result(self.claim_accounts(claimer, prayer_id), now);
        LedgerState {
            prayers: self.prayers.insert(prayer_id, out.prayer),
            claims: self.claims.insert((prayer_id, claimer), out.claim),
            ..self
        }
    }

    /// The records that `deliver_content` works on.
    pub open spec fn deliver_accounts(self, requester: Address, prayer_id: u64, claimer: Address)
        -> DeliverContent {
        DeliverContent {
            prayer: self.prayers[prayer_id],
            claim: self.claims[(prayer_id, claimer)],
            requester,
        }
    }

    /// Why `deliver_content` fails, if it does.
    ///
    /// Where `claimer` holds no claim on the prayer, the prayer is not
    /// claimed by them; a caller who is not the requester is told so first.
    pub open spec fn deliver_failure(self, requester: Address, prayer_id: u64, claimer: Address)
        -> Option<LedgerError> {
        if !self.prayers.contains_key(prayer_id) {
            Some(LedgerError::AccountNotFound)
        } else if !self.claims.contains_key((prayer_id, claimer)) {
            if self.prayers[prayer_id].requester != requester {
                Some(LedgerError::Rejected(PrayerError::NotRequester))
            } else {
                Some(LedgerError::Rejected(PrayerError::NotClaimed))
            }
        } else {
            rejected(deliver_content_error(self.deliver_accounts(requester, prayer_id, claimer)))
        }
    }

    /// The ledger after `deliver_content`.
    pub open spec fn after_deliver(self, requester: Address, prayer_id: u64, claimer: Address)
        -> LedgerState {
        let out = deliver_content_result(self.deliver_accounts(requester, prayer_id, claimer));
        LedgerState { claims: self.claims.insert((prayer_id, claimer), out.claim), ..self }
    }

    /// The records that `answer_prayer` works on.
    pub open spec fn answer_accounts(self, answerer: Address, prayer_id: u64) -> AnswerPrayer {
        AnswerPrayer {
            prayer_chain: self.chain.unwrap(),
            prayer: self.prayers[prayer_id],
            claim: self.claims[(prayer_id, answerer)],
            answerer_agent: self.agents[answerer],
            answerer,
        }
    }

    /// Why `answer_prayer` fails, if it does.
    ///
    /// Where `answerer` holds no claim on the prayer, the prayer is not
    /// claimed by them.
    pub open spec fn answer_failure(self, answerer: Address, prayer_id: u64, now: i64) -> Option<
        LedgerError,
    > {
        if self.chain is None {
            Some(LedgerError::AccountNotFound)
        } else if !self.prayers.contains_key(prayer_id) {
            Some(LedgerError::AccountNotFound)
        } else if !self.claims.contains_key((prayer_id, answerer)) {
            Some(LedgerError::Rejected(PrayerError::NotClaimed))
        } else if !self.agents.contains_key(answerer) {
            Some(LedgerError::AccountNotFound)
        } else {
            rejected(answer_prayer_error(self.answer_accounts(answerer, prayer_id), now))
        }
    }

    /// The ledger after `answer_prayer`.
    pub open spec fn after_answer(
        self,
        answerer: Address,
        prayer_id: u64,
        answer_hash: Bytes32,
        now: i64,
    ) -> LedgerState {
        let out = answer_prayer_result(self.answer_accounts(answerer, prayer_id), answer_hash, now);
        LedgerState {
            chain: Some(out.prayer_chain),
            agents: self.agents.insert(answerer, out.answerer_agent),
            prayers: self.prayers.insert(prayer_id, out.prayer),
            ..self
        }
    }

    /// Every wallet in `payees` belongs to an agent that holds a claim on the
    /// prayer `prayer_id`.
    pub open spec fn all_claimers(self, prayer_id: u64, payees: Seq<Wallet>) -> bool {
        forall|i: int|
            0 <= i < payees.len() ==> self.claims.contains_key(
                (prayer_id, (#[trigger] payees[i]).key),
            )
    }

    /// Why `confirm_prayer` fails, if it does.
    ///
    /// Who may confirm, and when, is decided on the prayer alone, before the
    /// answerer's agent and the claims of the payees are looked up.
    pub open spec fn confirm_failure(self, requester: Address, prayer_id: u64, payees: Seq<Wallet>)
        -> Option<LedgerError> {
        if !self.prayers.contains_key(prayer_id) {
            Some(LedgerError::AccountNotFound)
        } else if confirm_guard(self.prayers[prayer_id], requester) is Some {
            rejected(confirm_guard(self.prayers[prayer_id], requester))
        } else if !self.agents.contains_key(self.prayers[prayer_id].answerer) {
            Some(LedgerError::AccountNotFound)
        } else if !self.all_claimers(prayer_id, payees) {
            Some(LedgerError::AccountNotFound)
        } else if !keys_of(payees).no_duplicates() {
            Some(LedgerError::DuplicateAccount)
        } else if !confirm_fits(
            self.prayers[prayer_id],
            self.agents[self.prayers[prayer_id].answerer],
            payees,
        ) {
            Some(LedgerError::Rejected(PrayerError::ArithmeticOverflow))
        } else {
            None
        }
    }

    /// The ledger after `confirm_prayer` with `listed` payees.
    pub open spec fn after_confirm(self, prayer_id: u64, listed: int) -> LedgerState {
        let prayer = self.prayers[prayer_id];
        LedgerState {
            agents: self.agents.insert(prayer.answerer, confirmed_agent(self.agents[prayer.answerer])),
            prayers: self.prayers.insert(prayer_id, confirmed_prayer(prayer, listed)),
            ..self
        }
    }

    /// The records that `cancel_prayer` works on.
    pub open spec fn cancel_accounts(self, requester: Wallet, prayer_id: u64) -> CancelPrayer {
        CancelPrayer { prayer: self.prayers[prayer_id], requester }
    }

    /// Why `cancel_prayer` fails, if it does.
    pub open spec fn cancel_failure(self, requester: Wallet, prayer_id: u64) -> Option<
        LedgerError,
    > {
        if !self.prayers.contains_key(prayer_id) {
            Some(LedgerError::AccountNotFound)
        } else {
            rejected(cancel_prayer_error(self.cancel_accounts(requester, prayer_id)))
        }
    }

    /// The ledger after `cancel_prayer`.
    pub open spec fn after_cancel(self, requester: Wallet, prayer_id: u64) -> LedgerState {
        let out = cancel_prayer_result(self.cancel_accounts(requester, prayer_id));
        LedgerState { prayers: self.prayers.insert(prayer_id, out.prayer), ..self }
    }

    /// The records that `unclaim_prayer` works on.
    pub open spec fn unclaim_accounts(self, caller: Address, prayer_id: u64, claimer: Address)
        -> UnclaimPrayer {
        UnclaimPrayer {
            prayer: self.prayers[prayer_id],
            claim: self.claims[(prayer_id, claimer)],
            caller,
        }
    }

    /// Why `unclaim_prayer` fails, if it does.
    ///
    /// Where `claimer` holds no claim on the prayer, the prayer is not
    /// claimed by them.
    pub open spec fn unclaim_failure(
        self,
        caller: Address,
        prayer_id: u64,
        claimer: Address,
        now: i64,
    ) -> Option<LedgerError> {
        if !self.prayers.contains_key(prayer_id) {
            Some(LedgerError::AccountNotFound)
        } else if !self.claims.contains_key((prayer_id, claimer)) {
            Some(LedgerError::Rejected(PrayerError::NotClaimed))
        } else {
            rejected(unclaim_prayer_error(self.unclaim_accounts(caller, prayer_id, claimer), now))
        }
    }

    /// The ledger after `unclaim_prayer`.
    pub open spec fn after_unclaim(self, caller: Address, prayer_id: u64, claimer: Address)
        -> LedgerState {
        let out = unclaim_prayer_result(self.unclaim_accounts(caller, prayer_id, claimer));
        LedgerState {
            prayers: self.prayers.insert(prayer_id, out.prayer),
            claims: self.claims.remove((prayer_id, claimer)),
            ..self
        }
    }

    /// The records that `close_prayer` works on.
    pub open spec fn close_accounts(self, requester: Wallet, prayer_id: u64) -> ClosePrayer {
        ClosePrayer { prayer: self.prayers[prayer_id], requester }
    }

    /// Why `close_prayer` fails, if it does.
    pub open spec fn close_failure(self, requester: Wallet, prayer_id: u64, now: i64) -> Option<
        LedgerError,
    > {
        if !self.prayers.contains_key(prayer_id) {
            Some(LedgerError::AccountNotFound)
        } else {
            rejected(close_prayer_error(self.close_accounts(requester, prayer_id), now))
        }
    }

    /// The ledger after `close_prayer`.
    pub open spec fn after_close(self, prayer_id: u64) -> LedgerState {
        LedgerState { prayers: self.prayers.remove(prayer_id), ..self }
    }
}

/// Posting keeps the invariant: nobody holds a claim on the new prayer.
pub proof fn lemma_post_keeps_invariant(
    state: LedgerState,
    requester: Wallet,
    prayer_type: PrayerType,
    content_hash: Bytes32,
    reward_lamports: u64,
    ttl_seconds: i64,
    max_claimers: u8,
    now: i64,
)
    requires
        state.well_formed(),
        state.post_failure(requester, reward_lamports, ttl_seconds, max_claimers, now) is None,
    ensures
        state.after_post(
            requester,
            prayer_type,
            content_hash,
            reward_lamports,
            ttl_seconds,
            max_claimers,
            now,
        ).well_formed(),
{
    let after = state.after_post(
        requester,
        prayer_type,
        content_hash,
        reward_lamports,
        ttl_seconds,
        max_claimers,
        now,
    );
    let new_id = state.chain.unwrap().total_prayers;
    // Every claim is on a prayer with a smaller id than the new one.
    assert(after.claimers(new_id) =~= Set::<Address>::empty());
    assert forall|id: u64| #[trigger] after.prayers.contains_key(id) && id != new_id implies {
        &&& after.claimers(id).finite()
        &&& after.claimers(id).len() == after.prayers[id].num_claimers
    } by {
        assert(after.claimers(id) =~= state.claimers(id));
    }
}

/// Claiming keeps the invariant: the prayer counts one claimer more, and
/// one more agent holds a claim on it.
pub proof fn lemma_claim_keeps_invariant(
    state: LedgerState,
    claimer: Address,
    prayer_id: u64,
    now: i64,
)
    requires
        state.well_formed(),
        state.claim_failure(claimer, prayer_id, now) is None,
    ensures
        state.after_claim(claimer, prayer_id, now).well_formed(),
{
    let after = state.after_claim(claimer, prayer_id, now);
    assert(after.claimers(prayer_id) =~= state.claimers(prayer_id).insert(claimer));
    assert forall|id: u64| #[trigger] after.prayers.contains_key(id) && id != prayer_id implies {
        &&& after.claimers(id).finite()
        &&& after.claimers(id).len() == after.prayers[id].num_claimers
    } by {
        assert(after.claimers(id) =~= state.claimers(id));
    }
}

/// Delivering keeps the invariant: it changes a claim, not who holds one.
pub proof fn lemma_deliver_keeps_invariant(
    state: LedgerState,
    requester: Address,
    prayer_id: u64,
    claimer: Address,
)
    requires
        state.well_formed(),
        state.deliver_failure(requester, prayer_id, claimer) is None,
    ensures
        state.after_deliver(requester, prayer_id, claimer).well_formed(),
{
    let after = state.after_deliver(requester, prayer_id, claimer);
    assert forall|id: u64| #[trigger] after.prayers.contains_key(id) implies {
        &&& after.claimers(id).finite()
        &&& after.claimers(id).len() == after.prayers[id].num_claimers
    } by {
        assert(after.claimers(id) =~= state.claimers(id));
    }
}

/// A prayer with a claim on it counts at least one claimer.
pub proof fn lemma_claimed_prayer_counts(state: LedgerState, prayer_id: u64, claimer: Address)
    requires
        state.well_formed(),
        state.prayers.contains_key(prayer_id),
        state.claims.contains_key((prayer_id, claimer)),
    ensures
        state.prayers[prayer_id].num_claimers >= 1,
{
    assert(state.claimers(prayer_id).contains(claimer));
}

/// Removing a claim keeps the invariant: the prayer counts one claimer
/// less, and one agent less holds a claim on it.
pub proof fn lemma_unclaim_keeps_invariant(
    state: LedgerState,
    caller: Address,
    prayer_id: u64,
    claimer: Address,
    now: i64,
)
    requires
        state.well_formed(),
        state.unclaim_failure(caller, prayer_id, claimer, now) is None,
    ensures
        state.after_unclaim(caller, prayer_id, claimer).well_formed(),
{
    let after = state.after_unclaim(caller, prayer_id, claimer);
    assert(after.claimers(prayer_id) =~= state.claimers(prayer_id).remove(claimer));
    assert forall|id: u64| #[trigger] after.prayers.contains_key(id) && id != prayer_id implies {
        &&& after.claimers(id).finite()
        &&& after.claimers(id).len() == after.prayers[id].num_claimers
    } by {
        assert(after.claimers(id) =~= state.claimers(id));
    }
}

} // verus!
