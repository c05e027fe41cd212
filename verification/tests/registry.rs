use chorus_prayers::accounts::{Initialize, RegisterAgent};
use chorus_prayers::address::Address;
use chorus_prayers::error::PrayerError;
use chorus_prayers::registry::{char_len, initialize, register_agent};
use chorus_prayers::state::{Agent, PrayerChain};

fn wallet_of(n: u8) -> Address {
    Address::new([n; 32])
}

fn chain_with_agents(total_agents: u64) -> PrayerChain {
    PrayerChain { authority: wallet_of(1), total_prayers: 4, total_answered: 2, total_agents }
}

fn registration(total_agents: u64) -> RegisterAgent {
    RegisterAgent {
        prayer_chain: chain_with_agents(total_agents),
        agent: Agent::default(),
        wallet: wallet_of(9),
    }
}

#[test]
fn initialize_records_authority_and_zeroes_counters() {
    let mut ctx = Initialize {
        prayer_chain: PrayerChain {
            authority: wallet_of(0),
            total_prayers: 5,
            total_answered: 6,
            total_agents: 7,
        },
        authority: wallet_of(3),
    };
    assert_eq!(initialize(&mut ctx), Ok(()));
    assert_eq!(
        ctx.prayer_chain,
        PrayerChain { authority: wallet_of(3), total_prayers: 0, total_answered: 0, total_agents: 0 }
    );
    assert_eq!(ctx.authority, wallet_of(3));
}

#[test]
fn register_fills_the_agent_and_counts_it() {
    let mut ctx = registration(11);
    let r = register_agent(
        &mut ctx,
        String::from("oracle"),
        String::from("search, summarise"),
        Some([5; 32]),
        1_700_000_000,
    );
    assert_eq!(r, Ok(()));
    assert_eq!(
        ctx.agent,
        Agent {
            wallet: wallet_of(9),
            name: String::from("oracle"),
            skills: String::from("search, summarise"),
            encryption_key: Some([5; 32]),
            prayers_posted: 0,
            prayers_answered: 0,
            prayers_confirmed: 0,
            reputation: 0,
            registered_at: 1_700_000_000,
        }
    );
    assert_eq!(ctx.prayer_chain, chain_with_agents(12));
}

#[test]
fn register_accepts_an_agent_without_a_key() {
    let mut ctx = registration(0);
    let r = register_agent(&mut ctx, String::from("plain"), String::new(), None, 5);
    assert_eq!(r, Ok(()));
    assert_eq!(ctx.agent.encryption_key, None);
    assert_eq!(ctx.prayer_chain.total_agents, 1);
}

#[test]
fn register_accepts_a_name_of_exactly_32_characters() {
    let mut ctx = registration(0);
    let name = "a".repeat(32);
    assert_eq!(register_agent(&mut ctx, name.clone(), String::new(), None, 0), Ok(()));
    assert_eq!(ctx.agent.name, name);
}

#[test]
fn register_rejects_a_name_of_33_characters() {
    let mut ctx = registration(3);
    let r = register_agent(&mut ctx, "a".repeat(33), String::new(), None, 0);
    assert_eq!(r, Err(PrayerError::NameTooLong));
    assert_eq!(ctx.prayer_chain, chain_with_agents(3));
    assert_eq!(ctx.agent, Agent::default());
}

#[test]
fn register_counts_characters_not_bytes() {
    // Twenty letters of two bytes each: 20 characters in 40 bytes.
    let name = "\u{e9}".repeat(20);
    assert_eq!(name.len(), 40);
    assert_eq!(char_len(&name), 20);
    let mut ctx = registration(4);
    assert_eq!(register_agent(&mut ctx, name.clone(), String::new(), Some([1; 32]), 9), Ok(()));
    assert_eq!(ctx.agent.name, name);
    assert_eq!(ctx.agent.encryption_key, Some([1; 32]));
    assert_eq!(ctx.prayer_chain.total_agents, 5);
}

#[test]
fn register_measures_the_name_in_characters_of_any_width() {
    // Thirty-two characters of three bytes each: 96 bytes, and within the bound.
    let fits = "\u{20ac}".repeat(32);
    assert_eq!(fits.len(), 96);
    assert_eq!(char_len(&fits), 32);
    let mut ctx = registration(0);
    assert_eq!(register_agent(&mut ctx, fits, String::new(), None, 0), Ok(()));
    // Thirty-three of them are one too many, as thirty-three of four bytes are.
    let mut ctx = registration(0);
    assert_eq!(
        register_agent(&mut ctx, "\u{20ac}".repeat(33), String::new(), None, 0),
        Err(PrayerError::NameTooLong)
    );
    assert_eq!(
        register_agent(&mut ctx, "\u{1f64f}".repeat(33), String::new(), None, 0),
        Err(PrayerError::NameTooLong)
    );
    assert_eq!(
        register_agent(&mut ctx, "\u{1f64f}".repeat(32), String::new(), None, 0),
        Ok(())
    );
}

#[test]
fn the_length_of_a_text_is_its_number_of_characters() {
    assert_eq!(char_len(&String::new()), 0);
    assert_eq!(char_len(&String::from("abc")), 3);
    assert_eq!(char_len(&String::from("a\u{e9}\u{20ac}\u{1f64f}")), 4);
}

#[test]
fn register_accepts_skills_of_exactly_256_characters() {
    let mut ctx = registration(0);
    assert_eq!(
        register_agent(&mut ctx, String::from("n"), "s".repeat(256), None, 0),
        Ok(())
    );
    let mut ctx = registration(0);
    let wide = "\u{e9}".repeat(256);
    assert_eq!(wide.len(), 512);
    assert_eq!(register_agent(&mut ctx, String::from("n"), wide.clone(), None, 0), Ok(()));
    assert_eq!(ctx.agent.skills, wide);
}

#[test]
fn register_rejects_skills_of_257_characters() {
    let mut ctx = registration(0);
    assert_eq!(
        register_agent(&mut ctx, String::from("n"), "s".repeat(257), None, 0),
        Err(PrayerError::SkillsTooLong)
    );
    assert_eq!(
        register_agent(&mut ctx, String::from("n"), "\u{e9}".repeat(257), None, 0),
        Err(PrayerError::SkillsTooLong)
    );
    assert_eq!(ctx.prayer_chain.total_agents, 0);
}

#[test]
fn register_rejects_an_all_zero_key() {
    let mut ctx = registration(0);
    assert_eq!(
        register_agent(&mut ctx, String::from("n"), String::from("s"), Some([0; 32]), 0),
        Err(PrayerError::InvalidEncryptionKey)
    );
    assert_eq!(ctx.prayer_chain.total_agents, 0);
}

#[test]
fn register_accepts_a_key_with_one_bit_set() {
    let mut key = [0u8; 32];
    key[31] = 1;
    let mut ctx = registration(0);
    assert_eq!(
        register_agent(&mut ctx, String::from("n"), String::from("s"), Some(key), 0),
        Ok(())
    );
    assert_eq!(ctx.agent.encryption_key, Some(key));
}

#[test]
fn register_checks_name_then_skills_then_key() {
    let mut ctx = registration(0);
    assert_eq!(
        register_agent(&mut ctx, "a".repeat(40), "s".repeat(300), Some([0; 32]), 0),
        Err(PrayerError::NameTooLong)
    );
    assert_eq!(
        register_agent(&mut ctx, "a".repeat(4), "s".repeat(300), Some([0; 32]), 0),
        Err(PrayerError::SkillsTooLong)
    );
}

#[test]
fn register_fails_when_the_agent_counter_is_full() {
    let mut ctx = registration(u64::MAX);
    assert_eq!(
        register_agent(&mut ctx, String::from("n"), String::from("s"), None, 0),
        Err(PrayerError::ArithmeticOverflow)
    );
    assert_eq!(ctx.prayer_chain.total_agents, u64::MAX);
    assert_eq!(ctx.agent, Agent::default());
}

#[test]
fn register_reports_bad_data_before_a_full_counter() {
    let mut ctx = registration(u64::MAX);
    assert_eq!(
        register_agent(&mut ctx, String::from("n"), String::from("s"), Some([0; 32]), 0),
        Err(PrayerError::InvalidEncryptionKey)
    );
}

#[test]
fn a_duplicate_is_the_same_record() {
    let mut ctx = registration(0);
    register_agent(&mut ctx, String::from("copy me"), String::from("x, y"), Some([9; 32]), 77)
        .unwrap();
    let copy = ctx.agent.duplicate();
    assert_eq!(copy, ctx.agent);
    assert_eq!(copy.name, "copy me");
    assert_eq!(copy.registered_at, 77);
}

#[test]
fn vacant_records_are_zeroed() {
    assert_eq!(
        PrayerChain::default(),
        PrayerChain {
            authority: Address::default(),
            total_prayers: 0,
            total_answered: 0,
            total_agents: 0,
        }
    );
    let agent = Agent::default();
    assert_eq!(agent.wallet, Address::default());
    assert_eq!(agent.name, "");
    assert_eq!(agent.skills, "");
    assert_eq!(agent.encryption_key, None);
    assert_eq!(agent.reputation, 0);
}
