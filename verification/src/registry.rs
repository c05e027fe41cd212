//! The protocol singleton and the agent directory.

use crate::accounts::{Initialize, RegisterAgent};
use crate::address::{all_zero, is_all_zero, Address, Bytes32};
use crate::error::PrayerError;
use crate::state::{Agent, PrayerChain, MAX_NAME, MAX_SKILLS};
use vstd::string::StrSliceExecFns;
use vstd::prelude::*;

verus! {

/// The number of characters of `text`, however many bytes each takes.
pub fn char_len(text: &String) -> (r: usize)
    ensures
        r == text@.len(),
{
    text.as_str().unicode_len()
}

/// The protocol singleton as `initialize` creates it.
pub open spec fn initial_chain(authority: Address) -> PrayerChain {
    PrayerChain { authority, total_prayers: 0, total_answered: 0, total_agents: 0 }
}

/// Creates the protocol singleton: the authority is recorded and every
/// counter starts at zero.
pub fn initialize(ctx: &mut Initialize) -> (r: Result<(), PrayerError>)
    ensures
        r is Ok,
        *final(ctx) == (Initialize {
            prayer_chain: initial_chain(old(ctx).authority),
            authority: old(ctx).authority,
        }),
{
    ctx.prayer_chain = PrayerChain {
        authority: ctx.authority,
        total_prayers: 0,
        total_answered: 0,
        total_agents: 0,
    };
    Ok(())
}

/// What is wrong with the data of a registration, if anything.
pub open spec fn registration_error(
    name: Seq<char>,
    skills: Seq<char>,
    encryption_key: Option<Bytes32>,
) -> Option<PrayerError> {
    if name.len() > MAX_NAME {
        Some(PrayerError::NameTooLong)
    } else if skills.len() > MAX_SKILLS {
        Some(PrayerError::SkillsTooLong)
    } else if encryption_key matches Some(key) && all_zero(key) {
        Some(PrayerError::InvalidEncryptionKey)
    } else {
        None
    }
}

/// Why `register_agent` rejects, if it does.
pub open spec fn register_agent_error(
    ctx: RegisterAgent,
    name: Seq<char>,
    skills: Seq<char>,
    encryption_key: Option<Bytes32>,
) -> Option<PrayerError> {
    if registration_error(name, skills, encryption_key) is Some {
        registration_error(name, skills, encryption_key)
    } else if ctx.prayer_chain.total_agents == u64::MAX {
        Some(PrayerError::ArithmeticOverflow)
    } else {
        None
    }
}

/// The agent as `register_agent` creates it.
pub open spec fn registered_agent(
    wallet: Address,
    name: String,
    skills: String,
    encryption_key: Option<Bytes32>,
    now: i64,
) -> Agent {
    Agent {
        wallet,
        name,
        skills,
        encryption_key,
        prayers_posted: 0,
        prayers_answered: 0,
        prayers_confirmed: 0,
        reputation: 0,
        registered_at: now,
    }
}

/// The records after `register_agent` succeeded.
pub open spec fn register_agent_result(
    ctx: RegisterAgent,
    name: String,
    skills: String,
    encryption_key: Option<Bytes32>,
    now: i64,
) -> RegisterAgent {
    RegisterAgent {
        prayer_chain: PrayerChain {
            total_agents: (ctx.prayer_chain.total_agents + 1) as u64,
            ..ctx.prayer_chain
        },
        agent: registered_agent(ctx.wallet, name, skills, encryption_key, now),
        wallet: ctx.wallet,
    }
}

/// Registers an agent at time `now`.
///
/// The name may have up to [`MAX_NAME`] characters and the skills text up
/// to [`MAX_SKILLS`]; an encryption key, if one is given, must not be all
/// zeros. The agent record is filled for the wallet that registers, with no
/// activity and no reputation, and the protocol counts one more agent.
pub fn register_agent(
    ctx: &mut RegisterAgent,
    name: String,
    skills: String,
    encryption_key: Option<Bytes32>,
    now: i64,
) -> (r: Result<(), PrayerError>)
    ensures
        r matches Err(e) ==> register_agent_error(*old(ctx), name@, skills@, encryption_key)
            == Some(e) && *final(ctx) == *old(ctx),
        r is Ok ==> {
            &&& register_agent_error(*old(ctx), name@, skills@, encryption_key) is None
            &&& *final(ctx) == register_agent_result(*old(ctx), name, skills, encryption_key, now)
            &&& final(ctx).agent.well_formed()
        },
{
    if char_len(&name) > MAX_NAME {
        return Err(PrayerError::NameTooLong);
    }
    if char_len(&skills) > MAX_SKILLS {
        return Err(PrayerError::SkillsTooLong);
    }
    let zero_key: bool = match &encryption_key {
        Some(key) => is_all_zero(key),
        None => false,
    };
    if zero_key {
        return Err(PrayerError::InvalidEncryptionKey);
    }
    let total_agents: u64 = match ctx.prayer_chain.total_agents.checked_add(1) {
        Some(n) => n,
        None => { return Err(PrayerError::ArithmeticOverflow); },
    };
    ctx.agent = Agent {
        wallet: ctx.wallet,
        name,
        skills,
        encryption_key,
        prayers_posted: 0,
        prayers_answered: 0,
        prayers_confirmed: 0,
        reputation: 0,
        registered_at: now,
    };
    ctx.prayer_chain.total_agents = total_agents;
    Ok(())
}

} // verus!
