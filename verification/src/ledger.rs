//! The ledger: the protocol singleton, the agent directory, the prayers and
//! the claims, kept under their keys.
//!
//! Each operation looks up the records it works on, runs the operation on
//! records, and stores what changed. It either takes effect as a whole or
//! leaves the ledger, and the wallets handed to it, as they were.

use crate::accounts::{
    AnswerPrayer,
    CancelPrayer,
    ClaimPrayer,
    ClosePrayer,
    ConfirmPrayer,
    DeliverContent,
    Initialize,
    PostPrayer,
    RegisterAgent,
    UnclaimPrayer,
};
use crate::address::{Address, Bytes32};
use crate::claims::{claim_prayer_event, deliver_content_event, unclaim_prayer_event};
use crate::error::PrayerError;
use crate::events::{
    ClaimRemoved,
    ContentDelivered,
    PrayerAnswered,
    PrayerCancelled,
    PrayerClaimed,
    PrayerConfirmed,
    PrayerPosted,
};
use crate::model::{
    keys_of,
    lemma_claim_keeps_invariant,
    lemma_deliver_keeps_invariant,
    lemma_post_keeps_invariant,
    lemma_unclaim_keeps_invariant,
    LedgerError,
    LedgerState,
};
use crate::posting::{cancel_prayer_event, post_prayer_event};
use crate::settlement::{answer_prayer_event, confirmation, paid_wallets};
use crate::state::{Agent, Claim, Prayer, PrayerChain, PrayerStatus, PrayerType, Wallet};
use crate::table::{distinct, holds, place_of, Keyed, Table};
use vstd::prelude::*;

verus! {

/// Reports whether no two of the wallets have the same address.
fn distinct_wallets(wallets: &Vec<Wallet>) -> (r: bool)
    ensures
        r == keys_of(wallets@).no_duplicates(),
{
    let ghost keys = keys_of(wallets@);
    let mut i: usize = 0;
    while i < wallets.len()
        invariant
            keys == keys_of(wallets@),
            0 <= i <= wallets@.len(),
            forall|a: int, b: int| 0 <= a < b < i ==> keys[a] != keys[b],
        decreases wallets@.len() - i,
    {
        let mut j: usize = 0;
        while j < i
            invariant
                keys == keys_of(wallets@),
                0 <= j <= i < wallets@.len(),
                forall|a: int| 0 <= a < j ==> keys[a] != keys[i as int],
            decreases i - j,
        {
            if wallets[j].key == wallets[i].key {
                assert(keys[j as int] == keys[i as int]);
                return false;
            }
            j += 1;
        }
        i += 1;
    }
    true
}

/// The records of the protocol, each under its key.
pub struct Ledger {
    chain: Option<PrayerChain>,
    agents: Table<Agent>,
    prayers: Table<Prayer>,
    claims: Table<Claim>,
}

impl View for Ledger {
    type V = LedgerState;

    closed spec fn view(&self) -> LedgerState {
        LedgerState {
            chain: self.chain,
            agents: self.agents@,
            prayers: self.prayers@,
            claims: self.claims@,
        }
    }
}

impl Ledger {
    /// The invariant of the ledger: no key occurs twice in a table, and the
    /// records meet the invariant of [`LedgerState`].
    pub closed spec fn well_formed(&self) -> bool {
        &&& self.agents.well_formed()
        &&& self.prayers.well_formed()
        &&& self.claims.well_formed()
        &&& self@.well_formed()
    }

    /// A well-formed ledger holds a well-formed state: in particular, no
    /// prayer in it counts more claimers than it has slots, and each counts
    /// as many as there are claims on it.
    pub proof fn lemma_state_well_formed(&self)
        requires
            self.well_formed(),
        ensures
            self@.well_formed(),
            forall|id: u64| #[trigger]
                self@.prayers.contains_key(id) ==> 0 <= self@.prayers[id].num_claimers
                    <= self@.prayers[id].max_claimers && self@.claimers(id).len()
                    == self@.prayers[id].num_claimers,
    {
    }

    /// A ledger that holds nothing.
    pub fn new() -> (r: Ledger)
        ensures
            r.well_formed(),
            r@ == LedgerState::empty(),
    {
        Ledger { chain: None, agents: Table::new(), prayers: Table::new(), claims: Table::new() }
    }

    /// The protocol singleton, once it is initialised.
    pub fn chain(&self) -> (r: Option<PrayerChain>)
        ensures
            r == self@.chain,
    {
        self.chain
    }

    /// The agent of `wallet`, if it is registered.
    pub fn agent(&self, wallet: &Address) -> (r: Option<Agent>)
        requires
            self.well_formed(),
        ensures
            r == if self@.agents.contains_key(*wallet) {
                Some(self@.agents[*wallet])
            } else {
                None
            },
    {
        match self.agents.get(wallet) {
            Some(agent) => Some(agent.duplicate()),
            None => None,
        }
    }

    /// The prayer with the id `prayer_id`, if it was posted and not closed.
    pub fn prayer(&self, prayer_id: u64) -> (r: Option<Prayer>)
        requires
            self.well_formed(),
        ensures
            r == if self@.prayers.contains_key(prayer_id) {
                Some(self@.prayers[prayer_id])
            } else {
                None
            },
            r matches Some(prayer) ==> prayer.well_formed(),
    {
        match self.prayers.get(&prayer_id) {
            Some(prayer) => Some(*prayer),
            None => None,
        }
    }

    /// The claim of `claimer` on the prayer `prayer_id`, if there is one.
    pub fn claim(&self, prayer_id: u64, claimer: &Address) -> (r: Option<Claim>)
        requires
            self.well_formed(),
        ensures
            r == if self@.claims.contains_key((prayer_id, *claimer)) {
                Some(self@.claims[(prayer_id, *claimer)])
            } else {
                None
            },
    {
        match self.claims.get(&(prayer_id, *claimer)) {
            Some(claim) => Some(*claim),
            None => None,
        }
    }

    /// The agents that hold a claim on the prayer `prayer_id`, each once: the
    /// list of payees for [`Ledger::confirm_prayer`].
    pub fn claimers(&self, prayer_id: u64) -> (r: Vec<Address>)
        requires
            self.well_formed(),
        ensures
            r@.to_set() == self@.claimers(prayer_id),
            r@.no_duplicates(),
            self@.prayers.contains_key(prayer_id) ==> r@.len()
                == self@.prayers[prayer_id].num_claimers,
    {
        let ghost rows = self.claims.rows();
        proof {
            self.claims.lemma_rows();
        }
        let mut found: Vec<Address> = Vec::new();
        let ghost mut places: Seq<int> = Seq::empty();
        let mut i: usize = 0;
        while i < self.claims.len()
            invariant
                rows == self.claims.rows(),
                distinct(rows),
                0 <= i <= rows.len(),
                places.len() == found@.len(),
                forall|n: int|
                    0 <= n < places.len() ==> 0 <= #[trigger] places[n] < i && rows[places[n]].prayer_id
                        == prayer_id && rows[places[n]].claimer == found@[n],
                forall|n: int, m: int| 0 <= n < m < places.len() ==> places[n] < places[m],
                forall|j: int|
                    0 <= j < i && (#[trigger] rows[j]).prayer_id == prayer_id ==> found@.contains(
                        rows[j].claimer,
                    ),
            decreases rows.len() - i,
        {
            let claim: &Claim = self.claims.row(i);
            if claim.prayer_id == prayer_id {
                let ghost before = found@;
                found.push(claim.claimer);
                proof {
                    places = places.push(i as int);
                    assert(found@[before.len() as int] == claim.claimer);
                    assert forall|j: int|
                        0 <= j < i + 1 && (#[trigger] rows[j]).prayer_id == prayer_id implies found@.contains(
                        rows[j].claimer,
                    ) by {
                        if j < i {
                            let n = before.index_of(rows[j].claimer);
                            assert(found@[n] == rows[j].claimer);
                        }
                    }
                }
            }
            i += 1;
        }
        proof {
            assert forall|claimer: Address| found@.contains(claimer) <==> self@.claims.contains_key(
                (prayer_id, claimer),
            ) by {
                if found@.contains(claimer) {
                    let n = found@.index_of(claimer);
                    assert(rows[places[n]].key() == (prayer_id, claimer));
                    assert(holds(rows, (prayer_id, claimer)));
                }
                if self@.claims.contains_key((prayer_id, claimer)) {
                    let j = place_of(rows, (prayer_id, claimer));
                    assert(holds(rows, (prayer_id, claimer)));
                    assert(rows[j].key() == (prayer_id, claimer));
                }
            }
            assert forall|n: int, m: int| 0 <= n < m < found@.len() implies found@[n] != found@[m] by {
                assert(places[n] < places[m]);
                assert(rows[places[n]].key() != rows[places[m]].key());
            }
            assert(found@.to_set() =~= self@.claimers(prayer_id));
            found@.unique_seq_to_set();
        }
        found
    }

    /// Reports whether every wallet in `wallets` belongs to an agent that
    /// holds a claim on the prayer `prayer_id`.
    fn holds_claims(&self, prayer_id: u64, wallets: &Vec<Wallet>) -> (r: bool)
        requires
            self.well_formed(),
        ensures
            r == self@.all_claimers(prayer_id, wallets@),
    {
        let mut i: usize = 0;
        while i < wallets.len()
            invariant
                self.well_formed(),
                0 <= i <= wallets@.len(),
                forall|j: int|
                    0 <= j < i ==> self@.claims.contains_key((prayer_id, (#[trigger] wallets@[j]).key)),
            decreases wallets@.len() - i,
        {
            if !self.claims.contains(&(prayer_id, wallets[i].key)) {
                return false;
            }
            i += 1;
        }
        true
    }

    /// Creates the protocol singleton, once.
    pub fn initialize(&mut self, authority: Address) -> (r: Result<(), LedgerError>)
        requires
            old(self).well_formed(),
        ensures
            final(self).well_formed(),
            r matches Err(e) ==> old(self)@.initialize_failure() == Some(e) && final(self)@ == old(
                self,
            )@,
            r is Ok ==> old(self)@.initialize_failure() is None && final(self)@ == old(
                self,
            )@.after_initialize(authority),
    {
        if self.chain.is_some() {
            return Err(LedgerError::AccountInUse);
        }
        let mut ctx = Initialize { prayer_chain: PrayerChain::default(), authority };
        match crate::registry::initialize(&mut ctx) {
            Ok(()) => {
                self.chain = Some(ctx.prayer_chain);
                Ok(())
            },
            Err(e) => Err(LedgerError::Rejected(e)),
        }
    }

    /// Registers the agent of `wallet` at time `now`.
    ///
    /// There is one agent for each wallet: a second registration fails,
    /// whatever it holds.
    pub fn register_agent(
        &mut self,
        wallet: Address,
        name: String,
        skills: String,
        encryption_key: Option<Bytes32>,
        now: i64,
    ) -> (r: Result<(), LedgerError>)
        requires
            old(self).well_formed(),
        ensures
            final(self).well_formed(),
            r matches Err(e) ==> old(self)@.register_failure(wallet, name@, skills@, encryption_key)
                == Some(e) && final(self)@ == old(self)@,
            r is Ok ==> old(self)@.register_failure(wallet, name@, skills@, encryption_key) is None
                && final(self)@ == old(self)@.after_register(
                wallet,
                name,
                skills,
                encryption_key,
                now,
            ),
    {
        let chain: PrayerChain = match self.chain {
            Some(chain) => chain,
            None => { return Err(LedgerError::AccountNotFound); },
        };
        if self.agents.contains(&wallet) {
            return Err(LedgerError::AccountInUse);
        }
        let mut ctx = RegisterAgent { prayer_chain: chain, agent: Agent::default(), wallet };
        match crate::registry::register_agent(&mut ctx, name, skills, encryption_key, now) {
            Ok(()) => {
                self.chain = Some(ctx.prayer_chain);
                self.agents.insert(ctx.agent);
                Ok(())
            },
            Err(e) => Err(LedgerError::Rejected(e)),
        }
    }

    /// Posts a prayer of the wallet `requester` at time `now`.
    ///
    /// The requester must be registered. The reward leaves the wallet and is
    /// held by the new prayer.
    pub fn post_prayer(
        &mut self,
        requester: &mut Wallet,
        prayer_type: PrayerType,
        content_hash: Bytes32,
        reward_lamports: u64,
        ttl_seconds: i64,
        max_claimers: u8,
        now: i64,
    ) -> (r: Result<PrayerPosted, LedgerError>)
        requires
            old(self).well_formed(),
        ensures
            final(self).well_formed(),
            r matches Err(e) ==> {
                &&& old(self)@.post_failure(
                    *old(requester),
                    reward_lamports,
                    ttl_seconds,
                    max_claimers,
                    now,
                ) == Some(e)
                &&& final(self)@ == old(self)@
                &&& *final(requester) == *old(requester)
            },
            r matches Ok(ev) ==> {
                &&& old(self)@.post_failure(
                    *old(requester),
                    reward_lamports,
                    ttl_seconds,
                    max_claimers,
                    now,
                ) is None
                &&& final(self)@ == old(self)@.after_post(
                    *old(requester),
                    prayer_type,
                    content_hash,
                    reward_lamports,
                    ttl_seconds,
                    max_claimers,
                    now,
                )
                &&& *final(requester) == old(self)@.post_outcome(
                    *old(requester),
                    prayer_type,
                    content_hash,
                    reward_lamports,
                    ttl_seconds,
                    max_claimers,
                    now,
                ).requester
                &&& ev == post_prayer_event(
                    old(self)@.post_accounts(*old(requester)),
                    prayer_type,
                    content_hash,
                    reward_lamports,
                    ttl_seconds,
                    max_claimers,
                )
            },
    {
        let chain: PrayerChain = match self.chain {
            Some(chain) => chain,
            None => { return Err(LedgerError::AccountNotFound); },
        };
        let agent: Agent = match self.agents.get(&requester.key) {
            Some(agent) => agent.duplicate(),
            None => { return Err(LedgerError::AccountNotFound); },
        };
        let mut ctx = PostPrayer {
            prayer_chain: chain,
            requester_agent: agent,
            prayer: Prayer::default(),
            requester: *requester,
        };
        match crate::posting::post_prayer(
            &mut ctx,
            prayer_type,
            content_hash,
            reward_lamports,
            ttl_seconds,
            max_claimers,
            now,
        ) {
            Ok(ev) => {
                proof {
                    lemma_post_keeps_invariant(
                        self@,
                        *requester,
                        prayer_type,
                        content_hash,
                        reward_lamports,
                        ttl_seconds,
                        max_claimers,
                        now,
                    );
                }
                self.chain = Some(ctx.prayer_chain);
                self.agents.replace(&requester.key, ctx.requester_agent);
                self.prayers.insert(ctx.prayer);
                *requester = ctx.requester;
                Ok(ev)
            },
            Err(e) => Err(LedgerError::Rejected(e)),
        }
    }

    /// Claims a slot on the prayer `prayer_id` for `claimer` at time `now`.
    ///
    /// The claimer must be registered and must not hold a claim on this
    /// prayer already.
    pub fn claim_prayer(&mut self, claimer: Address, prayer_id: u64, now: i64) -> (r: Result<
        PrayerClaimed,
        LedgerError,
    >)
        requires
            old(self).well_formed(),
        ensures
            final(self).well_formed(),
            r matches Err(e) ==> old(self)@.claim_failure(claimer, prayer_id, now) == Some(e)
                && final(self)@ == old(self)@,
            r matches Ok(ev) ==> {
                &&& old(self)@.claim_failure(claimer, prayer_id, now) is None
                &&& final(self)@ == old(self)@.after_claim(claimer, prayer_id, now)
                &&& ev == claim_prayer_event(old(self)@.claim_accounts(claimer, prayer_id))
            },
    {
        let prayer: Prayer = match self.prayers.get(&prayer_id) {
            Some(prayer) => *prayer,
            None => { return Err(LedgerError::AccountNotFound); },
        };
        if self.claims.contains(&(prayer_id, claimer)) {
            return Err(LedgerError::AccountInUse);
        }
        if !self.agents.contains(&claimer) {
            return Err(LedgerError::AccountNotFound);
        }
        let mut ctx = ClaimPrayer { prayer, claim: Claim::default(), claimer };
        match crate::claims::claim_prayer(&mut ctx, now) {
            Ok(ev) => {
                proof {
                    lemma_claim_keeps_invariant(self@, claimer, prayer_id, now);
                }
                self.prayers.replace(&prayer_id, ctx.prayer);
                self.claims.insert(ctx.claim);
                Ok(ev)
            },
            Err(e) => Err(LedgerError::Rejected(e)),
        }
    }

    /// Records that `requester` delivered content to the claim of `claimer`
    /// on the prayer `prayer_id`.
    pub fn deliver_content(
        &mut self,
        requester: Address,
        prayer_id: u64,
        claimer: Address,
        encrypted_content: Vec<u8>,
    ) -> (r: Result<ContentDelivered, LedgerError>)
        requires
            old(self).well_formed(),
        ensures
            final(self).well_formed(),
            r matches Err(e) ==> old(self)@.deliver_failure(requester, prayer_id, claimer) == Some(e)
                && final(self)@ == old(self)@,
            r matches Ok(ev) ==> {
                &&& old(self)@.deliver_failure(requester, prayer_id, claimer) is None
                &&& final(self)@ == old(self)@.after_deliver(requester, prayer_id, claimer)
                &&& ev == deliver_content_event(
                    old(self)@.deliver_accounts(requester, prayer_id, claimer),
                    encrypted_content,
                )
            },
    {
        let prayer: Prayer = match self.prayers.get(&prayer_id) {
            Some(prayer) => *prayer,
            None => { return Err(LedgerError::AccountNotFound); },
        };
        let claim: Claim = match self.claims.get(&(prayer_id, claimer)) {
            Some(claim) => *claim,
            None => {
                if prayer.requester != requester {
                    return Err(LedgerError::Rejected(PrayerError::NotRequester));
                }
                return Err(LedgerError::Rejected(PrayerError::NotClaimed));
            },
        };
        let mut ctx = DeliverContent { prayer, claim, requester };
        match crate::claims::deliver_content(&mut ctx, encrypted_content) {
            Ok(ev) => {
                proof {
                    lemma_deliver_keeps_invariant(self@, requester, prayer_id, claimer);
                }
                self.claims.replace(&(prayer_id, claimer), ctx.claim);
                Ok(ev)
            },
            Err(e) => Err(LedgerError::Rejected(e)),
        }
    }

    /// Submits the answer of `answerer` to the prayer `prayer_id` at time
    /// `now`.
    ///
    /// The answerer must be registered and hold a claim on the prayer:
    /// without a claim the answer is rejected as not claimed.
    pub fn answer_prayer(
        &mut self,
        answerer: Address,
        prayer_id: u64,
        answer_hash: Bytes32,
        encrypted_answer: Vec<u8>,
        now: i64,
    ) -> (r: Result<PrayerAnswered, LedgerError>)
        requires
            old(self).well_formed(),
        ensures
            final(self).well_formed(),
            r matches Err(e) ==> old(self)@.answer_failure(answerer, prayer_id, now) == Some(e)
                && final(self)@ == old(self)@,
            r matches Ok(ev) ==> {
                &&& old(self)@.answer_failure(answerer, prayer_id, now) is None
                &&& final(self)@ == old(self)@.after_answer(answerer, prayer_id, answer_hash, now)
                &&& ev == answer_prayer_event(
                    old(self)@.answer_accounts(answerer, prayer_id),
                    answer_hash,
                    encrypted_answer,
                )
            },
    {
        let chain: PrayerChain = match self.chain {
            Some(chain) => chain,
            None => { return Err(LedgerError::AccountNotFound); },
        };
        let prayer: Prayer = match self.prayers.get(&prayer_id) {
            Some(prayer) => *prayer,
            None => { return Err(LedgerError::AccountNotFound); },
        };
        let claim: Claim = match self.claims.get(&(prayer_id, answerer)) {
            Some(claim) => *claim,
            None => { return Err(LedgerError::Rejected(PrayerError::NotClaimed)); },
        };
        let agent: Agent = match self.agents.get(&answerer) {
            Some(agent) => agent.duplicate(),
            None => { return Err(LedgerError::AccountNotFound); },
        };
        let mut ctx = AnswerPrayer {
            prayer_chain: chain,
            prayer,
            claim,
            answerer_agent: agent,
            answerer,
        };
        match crate::settlement::answer_prayer(&mut ctx, answer_hash, encrypted_answer, now) {
            Ok(ev) => {
                self.chain = Some(ctx.prayer_chain);
                self.prayers.replace(&prayer_id, ctx.prayer);
                self.agents.replace(&answerer, ctx.answerer_agent);
                Ok(ev)
            },
            Err(e) => Err(LedgerError::Rejected(e)),
        }
    }

    /// Confirms the answer to the prayer `prayer_id` for `requester` and pays
    /// a share of the reward to each wallet in `payees`.
    ///
    /// The caller lists wallets of agents that hold a claim on the prayer,
    /// each at most once; [`Ledger::claimers`] names them all.
    pub fn confirm_prayer(&mut self, requester: Address, prayer_id: u64, payees: &mut Vec<Wallet>)
        -> (r: Result<PrayerConfirmed, LedgerError>)
        requires
            old(self).well_formed(),
        ensures
            final(self).well_formed(),
            r matches Err(e) ==> {
                &&& old(self)@.confirm_failure(requester, prayer_id, old(payees)@) == Some(e)
                &&& final(self)@ == old(self)@
                &&& final(payees)@ == old(payees)@
            },
            r matches Ok(ev) ==> {
                &&& old(self)@.confirm_failure(requester, prayer_id, old(payees)@) is None
                &&& final(self)@ == old(self)@.after_confirm(prayer_id, old(payees)@.len() as int)
                &&& final(payees)@ == paid_wallets(old(self)@.prayers[prayer_id], old(payees)@)
                &&& ev == confirmation(
                    old(self)@.prayers[prayer_id],
                    requester,
                    old(payees)@.len() as int,
                )
                &&& ev.reward_total <= old(self)@.prayers[prayer_id].reward_lamports
            },
    {
        let prayer: Prayer = match self.prayers.get(&prayer_id) {
            Some(prayer) => *prayer,
            None => { return Err(LedgerError::AccountNotFound); },
        };
        if prayer.requester != requester {
            return Err(LedgerError::Rejected(PrayerError::NotRequester));
        }
        if prayer.status != PrayerStatus::Fulfilled {
            return Err(LedgerError::Rejected(PrayerError::NotFulfilled));
        }
        let agent: Agent = match self.agents.get(&prayer.answerer) {
            Some(agent) => agent.duplicate(),
            None => { return Err(LedgerError::AccountNotFound); },
        };
        if !self.holds_claims(prayer_id, payees) {
            return Err(LedgerError::AccountNotFound);
        }
        if !distinct_wallets(payees) {
            return Err(LedgerError::DuplicateAccount);
        }
        let mut ctx = ConfirmPrayer {
            prayer,
            answerer_agent: agent,
            requester,
            remaining_accounts: Vec::new(),
        };
        std::mem::swap(payees, &mut ctx.remaining_accounts);
        let outcome = crate::settlement::confirm_prayer(&mut ctx);
        std::mem::swap(payees, &mut ctx.remaining_accounts);
        match outcome {
            Ok(ev) => {
                self.prayers.replace(&prayer_id, ctx.prayer);
                self.agents.replace(&prayer.answerer, ctx.answerer_agent);
                Ok(ev)
            },
            Err(e) => Err(LedgerError::Rejected(e)),
        }
    }

    /// Cancels the prayer `prayer_id` for the wallet `requester`, which gets
    /// the reward back.
    pub fn cancel_prayer(&mut self, requester: &mut Wallet, prayer_id: u64) -> (r: Result<
        PrayerCancelled,
        LedgerError,
    >)
        requires
            old(self).well_formed(),
        ensures
            final(self).well_formed(),
            r matches Err(e) ==> {
                &&& old(self)@.cancel_failure(*old(requester), prayer_id) == Some(e)
                &&& final(self)@ == old(self)@
                &&& *final(requester) == *old(requester)
            },
            r matches Ok(ev) ==> {
                &&& old(self)@.cancel_failure(*old(requester), prayer_id) is None
                &&& final(self)@ == old(self)@.after_cancel(*old(requester), prayer_id)
                &&& *final(requester) == crate::posting::cancel_prayer_result(
                    old(self)@.cancel_accounts(*old(requester), prayer_id),
                ).requester
                &&& ev == cancel_prayer_event(old(self)@.cancel_accounts(*old(requester), prayer_id))
            },
    {
        let prayer: Prayer = match self.prayers.get(&prayer_id) {
            Some(prayer) => *prayer,
            None => { return Err(LedgerError::AccountNotFound); },
        };
        let mut ctx = CancelPrayer { prayer, requester: *requester };
        match crate::posting::cancel_prayer(&mut ctx) {
            Ok(ev) => {
                self.prayers.replace(&prayer_id, ctx.prayer);
                *requester = ctx.requester;
                Ok(ev)
            },
            Err(e) => Err(LedgerError::Rejected(e)),
        }
    }

    /// Removes the claim of `claimer` on the prayer `prayer_id` at time
    /// `now`, on behalf of `caller`.
    pub fn unclaim_prayer(&mut self, caller: Address, prayer_id: u64, claimer: Address, now: i64)
        -> (r: Result<ClaimRemoved, LedgerError>)
        requires
            old(self).well_formed(),
        ensures
            final(self).well_formed(),
            r matches Err(e) ==> old(self)@.unclaim_failure(caller, prayer_id, claimer, now) == Some(
                e,
            ) && final(self)@ == old(self)@,
            r matches Ok(ev) ==> {
                &&& old(self)@.unclaim_failure(caller, prayer_id, claimer, now) is None
                &&& final(self)@ == old(self)@.after_unclaim(caller, prayer_id, claimer)
                &&& ev == unclaim_prayer_event(
                    old(self)@.unclaim_accounts(caller, prayer_id, claimer),
                )
            },
    {
        let prayer: Prayer = match self.prayers.get(&prayer_id) {
            Some(prayer) => *prayer,
            None => { return Err(LedgerError::AccountNotFound); },
        };
        let claim: Claim = match self.claims.get(&(prayer_id, claimer)) {
            Some(claim) => *claim,
            None => { return Err(LedgerError::Rejected(PrayerError::NotClaimed)); },
        };
        let mut ctx = UnclaimPrayer { prayer, claim, caller };
        match crate::claims::unclaim_prayer(&mut ctx, now) {
            Ok(ev) => {
                proof {
                    lemma_unclaim_keeps_invariant(self@, caller, prayer_id, claimer, now);
                }
                self.prayers.replace(&prayer_id, ctx.prayer);
                let _ = self.claims.remove(&(prayer_id, claimer));
                Ok(ev)
            },
            Err(e) => Err(LedgerError::Rejected(e)),
        }
    }

    /// Closes the prayer `prayer_id` at time `now` for the wallet
    /// `requester`, which gets what the prayer still holds. The record of
    /// the prayer is dropped.
    pub fn close_prayer(&mut self, requester: &mut Wallet, prayer_id: u64, now: i64) -> (r: Result<
        (),
        LedgerError,
    >)
        requires
            old(self).well_formed(),
        ensures
            final(self).well_formed(),
            r matches Err(e) ==> {
                &&& old(self)@.close_failure(*old(requester), prayer_id, now) == Some(e)
                &&& final(self)@ == old(self)@
                &&& *final(requester) == *old(requester)
            },
            r is Ok ==> {
                &&& old(self)@.close_failure(*old(requester), prayer_id, now) is None
                &&& final(self)@ == old(self)@.after_close(prayer_id)
                &&& *final(requester) == crate::posting::close_prayer_result(
                    old(self)@.close_accounts(*old(requester), prayer_id),
                ).requester
            },
    {
        let prayer: Prayer = match self.prayers.get(&prayer_id) {
            Some(prayer) => *prayer,
            None => { return Err(LedgerError::AccountNotFound); },
        };
        let mut ctx = ClosePrayer { prayer, requester: *requester };
        match crate::posting::close_prayer(&mut ctx, now) {
            Ok(()) => {
                let _ = self.prayers.remove(&prayer_id);
                *requester = ctx.requester;
                Ok(())
            },
            Err(e) => Err(LedgerError::Rejected(e)),
        }
    }
}

} // verus!
