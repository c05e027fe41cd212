use chorus_prayers::accounts::{CancelPrayer, ClosePrayer, PostPrayer};
use chorus_prayers::address::Address;
use chorus_prayers::error::PrayerError;
use chorus_prayers::events::{PrayerCancelled, PrayerPosted};
use chorus_prayers::posting::{cancel_prayer, close_prayer, post_prayer};
use chorus_prayers::state::{Agent, Prayer, PrayerChain, PrayerStatus, PrayerType, Wallet};

fn key(n: u8) -> Address {
    Address::new([n; 32])
}

fn poster(posted: u64) -> Agent {
    Agent {
        wallet: key(1),
        name: String::from("asker"),
        skills: String::from("asking"),
        encryption_key: Some([3; 32]),
        prayers_posted: posted,
        prayers_answered: 0,
        prayers_confirmed: 0,
        reputation: 20,
        registered_at: 50,
    }
}

fn posting(lamports: u64) -> PostPrayer {
    PostPrayer {
        prayer_chain: PrayerChain {
            authority: key(200),
            total_prayers: 41,
            total_answered: 7,
            total_agents: 9,
        },
        requester_agent: poster(2),
        prayer: Prayer::default(),
        requester: Wallet { key: key(1), lamports },
    }
}

fn prayer_in(status: PrayerStatus, claimers: u8, reward: u64, held: u64) -> Prayer {
    Prayer {
        id: 41,
        requester: key(1),
        prayer_type: PrayerType::Review,
        content_hash: [6; 32],
        reward_lamports: reward,
        escrow_lamports: held,
        status,
        max_claimers: 3,
        num_claimers: claimers,
        answerer: Address::default(),
        answer_hash: [0; 32],
        created_at: 1_000,
        expires_at: 4_600,
        fulfilled_at: 0,
    }
}

#[test]
fn post_creates_an_open_prayer_and_escrows_the_reward() {
    let mut ctx = posting(1_000);
    let ev = post_prayer(&mut ctx, PrayerType::Compute, [6; 32], 250, 3_600, 3, 1_000).unwrap();
    assert_eq!(
        ev,
        PrayerPosted {
            id: 41,
            requester: key(1),
            prayer_type: PrayerType::Compute,
            content_hash: [6; 32],
            reward_lamports: 250,
            max_claimers: 3,
            ttl_seconds: 3_600,
        }
    );
    assert_eq!(
        ctx.prayer,
        Prayer {
            id: 41,
            requester: key(1),
            prayer_type: PrayerType::Compute,
            content_hash: [6; 32],
            reward_lamports: 250,
            escrow_lamports: 250,
            status: PrayerStatus::Open,
            max_claimers: 3,
            num_claimers: 0,
            answerer: Address::default(),
            answer_hash: [0; 32],
            created_at: 1_000,
            expires_at: 4_600,
            fulfilled_at: 0,
        }
    );
    assert!(ctx.prayer.is_well_formed());
    assert_eq!(ctx.requester, Wallet { key: key(1), lamports: 750 });
    assert_eq!(ctx.prayer_chain.total_prayers, 42);
    assert_eq!(ctx.prayer_chain.total_answered, 7);
    assert_eq!(ctx.prayer_chain.total_agents, 9);
    assert_eq!(ctx.requester_agent, poster(3));
}

#[test]
fn post_accepts_a_prayer_without_reward() {
    let mut ctx = posting(0);
    let ev = post_prayer(&mut ctx, PrayerType::Signal, [1; 32], 0, 1, 1, 10).unwrap();
    assert_eq!(ev.reward_lamports, 0);
    assert_eq!(ctx.prayer.escrow_lamports, 0);
    assert_eq!(ctx.prayer.expires_at, 11);
    assert_eq!(ctx.requester.lamports, 0);
}

#[test]
fn post_accepts_the_whole_balance_as_reward() {
    let mut ctx = posting(500);
    assert!(post_prayer(&mut ctx, PrayerType::Knowledge, [1; 32], 500, 60, 2, 0).is_ok());
    assert_eq!(ctx.requester.lamports, 0);
    assert_eq!(ctx.prayer.escrow_lamports, 500);
}

#[test]
fn post_rejects_a_ttl_of_zero() {
    let mut ctx = posting(1_000);
    assert_eq!(
        post_prayer(&mut ctx, PrayerType::Knowledge, [1; 32], 10, 0, 1, 0),
        Err(PrayerError::InvalidTTL)
    );
    assert_eq!(ctx.requester.lamports, 1_000);
    assert_eq!(ctx.prayer_chain.total_prayers, 41);
    assert_eq!(ctx.requester_agent, poster(2));
    assert_eq!(ctx.prayer, Prayer::default());
}

#[test]
fn post_rejects_a_negative_ttl() {
    let mut ctx = posting(1_000);
    assert_eq!(
        post_prayer(&mut ctx, PrayerType::Knowledge, [1; 32], 10, -1, 1, 0),
        Err(PrayerError::InvalidTTL)
    );
}

#[test]
fn post_accepts_a_ttl_of_one_week() {
    let mut ctx = posting(1_000);
    assert!(post_prayer(&mut ctx, PrayerType::Knowledge, [1; 32], 10, 604_800, 1, 5).is_ok());
    assert_eq!(ctx.prayer.expires_at, 604_805);
}

#[test]
fn post_rejects_a_ttl_over_one_week() {
    let mut ctx = posting(1_000);
    assert_eq!(
        post_prayer(&mut ctx, PrayerType::Knowledge, [1; 32], 10, 604_801, 1, 0),
        Err(PrayerError::InvalidTTL)
    );
}

#[test]
fn post_rejects_no_claimers() {
    let mut ctx = posting(1_000);
    assert_eq!(
        post_prayer(&mut ctx, PrayerType::Knowledge, [1; 32], 10, 60, 0, 0),
        Err(PrayerError::InvalidMaxClaimers)
    );
}

#[test]
fn post_accepts_ten_claimers_and_rejects_eleven() {
    let mut ctx = posting(1_000);
    assert!(post_prayer(&mut ctx, PrayerType::Collaboration, [1; 32], 10, 60, 10, 0).is_ok());
    assert_eq!(ctx.prayer.max_claimers, 10);
    let mut ctx = posting(1_000);
    assert_eq!(
        post_prayer(&mut ctx, PrayerType::Collaboration, [1; 32], 10, 60, 11, 0),
        Err(PrayerError::InvalidMaxClaimers)
    );
}

#[test]
fn post_checks_the_ttl_before_the_claimers() {
    let mut ctx = posting(1_000);
    assert_eq!(
        post_prayer(&mut ctx, PrayerType::Knowledge, [1; 32], 10, 0, 0, 0),
        Err(PrayerError::InvalidTTL)
    );
}

#[test]
fn post_fails_when_the_wallet_cannot_pay_the_reward() {
    let mut ctx = posting(99);
    assert_eq!(
        post_prayer(&mut ctx, PrayerType::Knowledge, [1; 32], 100, 60, 1, 0),
        Err(PrayerError::ArithmeticOverflow)
    );
    assert_eq!(ctx.requester.lamports, 99);
    assert_eq!(ctx.prayer_chain.total_prayers, 41);
}

#[test]
fn post_fails_when_the_deadline_is_not_a_time() {
    let mut ctx = posting(1_000);
    assert_eq!(
        post_prayer(&mut ctx, PrayerType::Knowledge, [1; 32], 100, 60, 1, i64::MAX - 59),
        Err(PrayerError::ArithmeticOverflow)
    );
    let mut ctx = posting(1_000);
    assert!(post_prayer(&mut ctx, PrayerType::Knowledge, [1; 32], 100, 60, 1, i64::MAX - 60)
        .is_ok());
    assert_eq!(ctx.prayer.expires_at, i64::MAX);
}

#[test]
fn post_fails_when_a_counter_is_full() {
    let mut ctx = posting(1_000);
    ctx.prayer_chain.total_prayers = u64::MAX;
    assert_eq!(
        post_prayer(&mut ctx, PrayerType::Knowledge, [1; 32], 100, 60, 1, 0),
        Err(PrayerError::ArithmeticOverflow)
    );
    let mut ctx = posting(1_000);
    ctx.requester_agent.prayers_posted = u64::MAX;
    assert_eq!(
        post_prayer(&mut ctx, PrayerType::Knowledge, [1; 32], 100, 60, 1, 0),
        Err(PrayerError::ArithmeticOverflow)
    );
    assert_eq!(ctx.requester.lamports, 1_000);
}

#[test]
fn cancel_refunds_the_whole_reward() {
    let mut ctx = CancelPrayer {
        prayer: prayer_in(PrayerStatus::Open, 0, 250, 250),
        requester: Wallet { key: key(1), lamports: 750 },
    };
    let ev = cancel_prayer(&mut ctx).unwrap();
    assert_eq!(ev, PrayerCancelled { id: 41, requester: key(1) });
    assert_eq!(ctx.prayer.status, PrayerStatus::Cancelled);
    assert_eq!(ctx.prayer.escrow_lamports, 0);
    assert_eq!(ctx.prayer.reward_lamports, 250);
    assert_eq!(ctx.requester.lamports, 1_000);
    assert!(ctx.prayer.is_well_formed());
}

#[test]
fn post_then_cancel_leaves_the_balance_as_it_was() {
    let mut post = posting(12_345);
    post_prayer(&mut post, PrayerType::Knowledge, [1; 32], 2_345, 600, 4, 77).unwrap();
    assert_eq!(post.requester.lamports, 10_000);
    let mut cancel = CancelPrayer { prayer: post.prayer, requester: post.requester };
    cancel_prayer(&mut cancel).unwrap();
    assert_eq!(cancel.requester, Wallet { key: key(1), lamports: 12_345 });
    assert_eq!(cancel.prayer.escrow_lamports, 0);
}

#[test]
fn cancel_is_for_the_requester_only() {
    let before = prayer_in(PrayerStatus::Open, 0, 250, 250);
    let mut ctx = CancelPrayer { prayer: before, requester: Wallet { key: key(2), lamports: 5 } };
    assert_eq!(cancel_prayer(&mut ctx), Err(PrayerError::NotRequester));
    assert_eq!(ctx.prayer, before);
    assert_eq!(ctx.requester.lamports, 5);
}

#[test]
fn cancel_rejects_a_prayer_with_claimers() {
    let before = prayer_in(PrayerStatus::Open, 1, 250, 250);
    let mut ctx = CancelPrayer { prayer: before, requester: Wallet { key: key(1), lamports: 5 } };
    assert_eq!(cancel_prayer(&mut ctx), Err(PrayerError::HasClaimers));
    assert_eq!(ctx.prayer, before);
    assert_eq!(ctx.requester.lamports, 5);
}

#[test]
fn cancel_rejects_a_prayer_that_is_not_open() {
    for status in [
        PrayerStatus::Active,
        PrayerStatus::Fulfilled,
        PrayerStatus::Confirmed,
        PrayerStatus::Expired,
        PrayerStatus::Cancelled,
    ] {
        let mut ctx = CancelPrayer {
            prayer: prayer_in(status, 3, 250, 250),
            requester: Wallet { key: key(1), lamports: 5 },
        };
        assert_eq!(cancel_prayer(&mut ctx), Err(PrayerError::CannotCancel));
    }
}

#[test]
fn cancel_checks_the_requester_first() {
    let mut ctx = CancelPrayer {
        prayer: prayer_in(PrayerStatus::Active, 3, 250, 250),
        requester: Wallet { key: key(2), lamports: 5 },
    };
    assert_eq!(cancel_prayer(&mut ctx), Err(PrayerError::NotRequester));
}

#[test]
fn cancel_fails_when_the_refund_does_not_fit() {
    let mut ctx = CancelPrayer {
        prayer: prayer_in(PrayerStatus::Open, 0, 250, 250),
        requester: Wallet { key: key(1), lamports: u64::MAX - 249 },
    };
    assert_eq!(cancel_prayer(&mut ctx), Err(PrayerError::ArithmeticOverflow));
    assert_eq!(ctx.prayer.status, PrayerStatus::Open);
    assert_eq!(ctx.prayer.escrow_lamports, 250);
    let mut ctx = CancelPrayer {
        prayer: prayer_in(PrayerStatus::Open, 0, 250, 250),
        requester: Wallet { key: key(1), lamports: u64::MAX - 250 },
    };
    assert!(cancel_prayer(&mut ctx).is_ok());
    assert_eq!(ctx.requester.lamports, u64::MAX);
}

#[test]
fn close_fails_before_the_deadline_of_a_pending_prayer() {
    for status in [PrayerStatus::Open, PrayerStatus::Active, PrayerStatus::Fulfilled] {
        let claimers = if status == PrayerStatus::Open { 1 } else { 3 };
        let before = prayer_in(status, claimers, 250, 250);
        let mut ctx = ClosePrayer { prayer: before, requester: Wallet { key: key(1), lamports: 5 } };
        assert_eq!(close_prayer(&mut ctx, 4_599), Err(PrayerError::CannotClose));
        assert_eq!(close_prayer(&mut ctx, 4_600), Err(PrayerError::CannotClose));
        assert_eq!(ctx.prayer, before);
        assert_eq!(ctx.requester.lamports, 5);
    }
}

#[test]
fn close_after_the_deadline_refunds_the_reward() {
    for status in [PrayerStatus::Open, PrayerStatus::Active, PrayerStatus::Fulfilled] {
        let claimers = if status == PrayerStatus::Open { 1 } else { 3 };
        let mut ctx = ClosePrayer {
            prayer: prayer_in(status, claimers, 250, 250),
            requester: Wallet { key: key(1), lamports: 5 },
        };
        assert_eq!(close_prayer(&mut ctx, 4_601), Ok(()));
        assert_eq!(ctx.requester.lamports, 255);
        assert_eq!(ctx.prayer.escrow_lamports, 0);
        assert_eq!(ctx.prayer.status, status);
    }
}

#[test]
fn close_of_a_confirmed_prayer_refunds_what_was_left_over() {
    let mut ctx = ClosePrayer {
        prayer: prayer_in(PrayerStatus::Confirmed, 3, 100, 1),
        requester: Wallet { key: key(1), lamports: 5 },
    };
    assert_eq!(close_prayer(&mut ctx, 0), Ok(()));
    assert_eq!(ctx.requester.lamports, 6);
    assert_eq!(ctx.prayer.escrow_lamports, 0);
}

#[test]
fn close_of_a_cancelled_prayer_succeeds_at_any_time() {
    let mut ctx = ClosePrayer {
        prayer: prayer_in(PrayerStatus::Cancelled, 0, 100, 0),
        requester: Wallet { key: key(1), lamports: 5 },
    };
    assert_eq!(close_prayer(&mut ctx, i64::MIN), Ok(()));
    assert_eq!(ctx.requester.lamports, 5);
}

#[test]
fn close_is_for_the_requester_only() {
    let mut ctx = ClosePrayer {
        prayer: prayer_in(PrayerStatus::Confirmed, 3, 100, 1),
        requester: Wallet { key: key(2), lamports: 5 },
    };
    assert_eq!(close_prayer(&mut ctx, 9_999), Err(PrayerError::NotRequester));
    assert_eq!(ctx.requester.lamports, 5);
    assert_eq!(ctx.prayer.escrow_lamports, 1);
}

#[test]
fn close_rejects_the_reserved_status() {
    let mut ctx = ClosePrayer {
        prayer: prayer_in(PrayerStatus::Expired, 0, 100, 0),
        requester: Wallet { key: key(1), lamports: 5 },
    };
    assert_eq!(close_prayer(&mut ctx, 9_999), Err(PrayerError::CannotClose));
}

#[test]
fn close_fails_when_the_refund_does_not_fit() {
    let mut ctx = ClosePrayer {
        prayer: prayer_in(PrayerStatus::Open, 0, 250, 250),
        requester: Wallet { key: key(1), lamports: u64::MAX - 249 },
    };
    assert_eq!(close_prayer(&mut ctx, 5_000), Err(PrayerError::ArithmeticOverflow));
    assert_eq!(ctx.prayer.escrow_lamports, 250);
}

#[test]
fn well_formed_prayers_are_recognised() {
    assert!(prayer_in(PrayerStatus::Open, 2, 10, 10).is_well_formed());
    assert!(prayer_in(PrayerStatus::Active, 3, 10, 10).is_well_formed());
    assert!(prayer_in(PrayerStatus::Confirmed, 3, 10, 1).is_well_formed());
    assert!(prayer_in(PrayerStatus::Cancelled, 0, 10, 0).is_well_formed());
    // An open prayer has a free slot.
    assert!(!prayer_in(PrayerStatus::Open, 3, 10, 10).is_well_formed());
    // An active prayer has none.
    assert!(!prayer_in(PrayerStatus::Active, 2, 10, 10).is_well_formed());
    // A pending prayer holds its whole reward.
    assert!(!prayer_in(PrayerStatus::Fulfilled, 3, 10, 9).is_well_formed());
    // No prayer holds more than its reward.
    assert!(!prayer_in(PrayerStatus::Confirmed, 3, 10, 11).is_well_formed());
    // A cancelled prayer holds nothing.
    assert!(!prayer_in(PrayerStatus::Cancelled, 0, 10, 10).is_well_formed());
    let mut crowded = prayer_in(PrayerStatus::Fulfilled, 3, 10, 10);
    crowded.num_claimers = 4;
    assert!(!crowded.is_well_formed());
    let mut wide = prayer_in(PrayerStatus::Open, 2, 10, 10);
    wide.max_claimers = 11;
    assert!(!wide.is_well_formed());
    let mut late = prayer_in(PrayerStatus::Open, 2, 10, 10);
    late.expires_at = late.created_at + 604_801;
    assert!(!late.is_well_formed());
    late.expires_at = late.created_at;
    assert!(!late.is_well_formed());
    assert!(!Prayer::default().is_well_formed());
}
