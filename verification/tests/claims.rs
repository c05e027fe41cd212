use chorus_prayers::accounts::{ClaimPrayer, DeliverContent, UnclaimPrayer};
use chorus_prayers::address::Address;
use chorus_prayers::claims::{claim_prayer, deliver_content, unclaim_prayer};
use chorus_prayers::error::PrayerError;
use chorus_prayers::events::{ClaimRemoved, ContentDelivered, PrayerClaimed};
use chorus_prayers::state::{Claim, Prayer, PrayerStatus, PrayerType};

fn who(n: u8) -> Address {
    Address::new([n; 32])
}

fn prayer_with(status: PrayerStatus, claimers: u8, slots: u8) -> Prayer {
    Prayer {
        id: 12,
        requester: who(1),
        prayer_type: PrayerType::Collaboration,
        content_hash: [4; 32],
        reward_lamports: 90,
        escrow_lamports: 90,
        status,
        max_claimers: slots,
        num_claimers: claimers,
        answerer: Address::default(),
        answer_hash: [0; 32],
        created_at: 10_000,
        expires_at: 20_000,
        fulfilled_at: 0,
    }
}

fn claim_of(claimer: u8, claimed_at: i64) -> Claim {
    Claim { prayer_id: 12, claimer: who(claimer), content_delivered: false, claimed_at }
}

#[test]
fn claim_takes_a_slot_and_leaves_the_prayer_open() {
    let mut ctx = ClaimPrayer {
        prayer: prayer_with(PrayerStatus::Open, 0, 3),
        claim: Claim::default(),
        claimer: who(2),
    };
    let ev = claim_prayer(&mut ctx, 10_500).unwrap();
    assert_eq!(ev, PrayerClaimed { id: 12, claimer: who(2), num_claimers: 1, max_claimers: 3 });
    assert_eq!(ctx.prayer, prayer_with(PrayerStatus::Open, 1, 3));
    assert_eq!(ctx.claim, claim_of(2, 10_500));
}

#[test]
fn claim_of_the_last_slot_makes_the_prayer_active() {
    let mut ctx = ClaimPrayer {
        prayer: prayer_with(PrayerStatus::Open, 2, 3),
        claim: Claim::default(),
        claimer: who(4),
    };
    let ev = claim_prayer(&mut ctx, 10_500).unwrap();
    assert_eq!(ev.num_claimers, 3);
    assert_eq!(ctx.prayer, prayer_with(PrayerStatus::Active, 3, 3));
}

#[test]
fn claim_of_the_only_slot_makes_the_prayer_active() {
    let mut ctx = ClaimPrayer {
        prayer: prayer_with(PrayerStatus::Open, 0, 1),
        claim: Claim::default(),
        claimer: who(4),
    };
    claim_prayer(&mut ctx, 10_500).unwrap();
    assert_eq!(ctx.prayer.status, PrayerStatus::Active);
    assert_eq!(ctx.prayer.num_claimers, 1);
}

#[test]
fn claim_on_an_active_prayer_is_not_open() {
    let before = prayer_with(PrayerStatus::Active, 3, 3);
    let mut ctx = ClaimPrayer { prayer: before, claim: Claim::default(), claimer: who(5) };
    assert_eq!(claim_prayer(&mut ctx, 10_500), Err(PrayerError::NotOpen));
    assert_eq!(ctx.prayer, before);
    assert_eq!(ctx.claim, Claim::default());
}

#[test]
fn the_claimer_after_the_last_slot_is_turned_away() {
    let mut prayer = prayer_with(PrayerStatus::Open, 0, 4);
    for n in 0..4u8 {
        let mut ctx = ClaimPrayer { prayer, claim: Claim::default(), claimer: who(10 + n) };
        assert!(claim_prayer(&mut ctx, 10_001).is_ok());
        prayer = ctx.prayer;
        assert_eq!(prayer.num_claimers, n + 1);
    }
    assert_eq!(prayer.status, PrayerStatus::Active);
    let mut ctx = ClaimPrayer { prayer, claim: Claim::default(), claimer: who(14) };
    assert_eq!(claim_prayer(&mut ctx, 10_001), Err(PrayerError::NotOpen));
    assert_eq!(ctx.prayer.num_claimers, 4);
}

#[test]
fn claim_is_rejected_in_every_status_but_open() {
    for status in [
        PrayerStatus::Active,
        PrayerStatus::Fulfilled,
        PrayerStatus::Confirmed,
        PrayerStatus::Expired,
        PrayerStatus::Cancelled,
    ] {
        let mut ctx = ClaimPrayer {
            prayer: prayer_with(status, 3, 3),
            claim: Claim::default(),
            claimer: who(5),
        };
        assert_eq!(claim_prayer(&mut ctx, 10_500), Err(PrayerError::NotOpen));
    }
}

#[test]
fn claim_at_the_deadline_is_too_late() {
    let mut ctx = ClaimPrayer {
        prayer: prayer_with(PrayerStatus::Open, 0, 3),
        claim: Claim::default(),
        claimer: who(2),
    };
    assert_eq!(claim_prayer(&mut ctx, 20_000), Err(PrayerError::Expired));
    assert_eq!(claim_prayer(&mut ctx, 20_001), Err(PrayerError::Expired));
    assert!(claim_prayer(&mut ctx, 19_999).is_ok());
}

#[test]
fn a_requester_cannot_claim_their_own_prayer() {
    let mut ctx = ClaimPrayer {
        prayer: prayer_with(PrayerStatus::Open, 0, 3),
        claim: Claim::default(),
        claimer: who(1),
    };
    assert_eq!(claim_prayer(&mut ctx, 10_500), Err(PrayerError::CannotClaimOwn));
    assert_eq!(ctx.prayer.num_claimers, 0);
}

#[test]
fn claim_checks_status_then_deadline_then_claimer() {
    let mut ctx = ClaimPrayer {
        prayer: prayer_with(PrayerStatus::Active, 3, 3),
        claim: Claim::default(),
        claimer: who(1),
    };
    assert_eq!(claim_prayer(&mut ctx, 30_000), Err(PrayerError::NotOpen));
    ctx.prayer = prayer_with(PrayerStatus::Open, 0, 3);
    assert_eq!(claim_prayer(&mut ctx, 30_000), Err(PrayerError::Expired));
}

#[test]
fn claim_fails_when_the_count_is_full() {
    let mut prayer = prayer_with(PrayerStatus::Open, 0, 3);
    prayer.num_claimers = 255;
    let mut ctx = ClaimPrayer { prayer, claim: Claim::default(), claimer: who(2) };
    assert_eq!(claim_prayer(&mut ctx, 10_500), Err(PrayerError::ArithmeticOverflow));
    assert_eq!(ctx.prayer.num_claimers, 255);
}

#[test]
fn the_claimer_can_unclaim_at_once() {
    let mut ctx = UnclaimPrayer {
        prayer: prayer_with(PrayerStatus::Open, 2, 3),
        claim: claim_of(2, 10_500),
        caller: who(2),
    };
    let ev = unclaim_prayer(&mut ctx, 10_500).unwrap();
    assert_eq!(ev, ClaimRemoved { prayer_id: 12, claimer: who(2), num_claimers: 1 });
    assert_eq!(ctx.prayer, prayer_with(PrayerStatus::Open, 1, 3));
}

#[test]
fn the_claimer_can_unclaim_long_after() {
    let mut ctx = UnclaimPrayer {
        prayer: prayer_with(PrayerStatus::Open, 1, 3),
        claim: claim_of(2, 10_500),
        caller: who(2),
    };
    assert!(unclaim_prayer(&mut ctx, 1_000_000).is_ok());
    assert_eq!(ctx.prayer.num_claimers, 0);
}

#[test]
fn unclaim_reopens_an_active_prayer() {
    let mut ctx = UnclaimPrayer {
        prayer: prayer_with(PrayerStatus::Active, 3, 3),
        claim: claim_of(2, 10_500),
        caller: who(2),
    };
    let ev = unclaim_prayer(&mut ctx, 10_600).unwrap();
    assert_eq!(ev.num_claimers, 2);
    assert_eq!(ctx.prayer, prayer_with(PrayerStatus::Open, 2, 3));
}

#[test]
fn another_caller_cannot_unclaim_within_the_hour() {
    let before = prayer_with(PrayerStatus::Open, 1, 3);
    let mut ctx = UnclaimPrayer { prayer: before, claim: claim_of(2, 10_500), caller: who(7) };
    assert_eq!(unclaim_prayer(&mut ctx, 10_500), Err(PrayerError::NotClaimer));
    assert_eq!(unclaim_prayer(&mut ctx, 14_099), Err(PrayerError::NotClaimer));
    // Exactly 3600 seconds after the claim is not yet later than that.
    assert_eq!(unclaim_prayer(&mut ctx, 14_100), Err(PrayerError::NotClaimer));
    assert_eq!(ctx.prayer, before);
}

#[test]
fn another_caller_can_unclaim_after_the_hour() {
    let mut ctx = UnclaimPrayer {
        prayer: prayer_with(PrayerStatus::Active, 3, 3),
        claim: claim_of(2, 10_500),
        caller: who(7),
    };
    let ev = unclaim_prayer(&mut ctx, 14_101).unwrap();
    assert_eq!(ev, ClaimRemoved { prayer_id: 12, claimer: who(2), num_claimers: 2 });
    assert_eq!(ctx.prayer.status, PrayerStatus::Open);
}

#[test]
fn even_the_requester_waits_for_the_hour() {
    let mut ctx = UnclaimPrayer {
        prayer: prayer_with(PrayerStatus::Open, 1, 3),
        claim: claim_of(2, 10_500),
        caller: who(1),
    };
    assert_eq!(unclaim_prayer(&mut ctx, 12_000), Err(PrayerError::NotClaimer));
    assert!(unclaim_prayer(&mut ctx, 14_101).is_ok());
}

#[test]
fn a_claim_made_at_the_end_of_time_never_goes_stale() {
    let mut ctx = UnclaimPrayer {
        prayer: prayer_with(PrayerStatus::Open, 1, 3),
        claim: claim_of(2, i64::MAX - 100),
        caller: who(7),
    };
    assert_eq!(unclaim_prayer(&mut ctx, i64::MAX), Err(PrayerError::NotClaimer));
}

#[test]
fn unclaim_needs_an_open_or_active_prayer() {
    for status in [
        PrayerStatus::Fulfilled,
        PrayerStatus::Confirmed,
        PrayerStatus::Expired,
        PrayerStatus::Cancelled,
    ] {
        let mut ctx = UnclaimPrayer {
            prayer: prayer_with(status, 3, 3),
            claim: claim_of(2, 10_500),
            caller: who(2),
        };
        assert_eq!(unclaim_prayer(&mut ctx, 10_600), Err(PrayerError::NotClaimed));
        assert_eq!(ctx.prayer.num_claimers, 3);
    }
}

#[test]
fn unclaim_needs_a_claim_on_this_prayer() {
    let mut claim = claim_of(2, 10_500);
    claim.prayer_id = 13;
    let mut ctx = UnclaimPrayer {
        prayer: prayer_with(PrayerStatus::Open, 1, 3),
        claim,
        caller: who(2),
    };
    assert_eq!(unclaim_prayer(&mut ctx, 10_600), Err(PrayerError::NotClaimed));
}

#[test]
fn unclaim_fails_when_the_prayer_counts_no_claimers() {
    let mut ctx = UnclaimPrayer {
        prayer: prayer_with(PrayerStatus::Open, 0, 3),
        claim: claim_of(2, 10_500),
        caller: who(2),
    };
    assert_eq!(unclaim_prayer(&mut ctx, 10_600), Err(PrayerError::ArithmeticOverflow));
    assert_eq!(ctx.prayer.num_claimers, 0);
}

#[test]
fn deliver_marks_the_claim_and_relays_the_payload() {
    let mut ctx = DeliverContent {
        prayer: prayer_with(PrayerStatus::Open, 1, 3),
        claim: claim_of(2, 10_500),
        requester: who(1),
    };
    let ev = deliver_content(&mut ctx, vec![1, 2, 3, 255]).unwrap();
    assert_eq!(
        ev,
        ContentDelivered {
            prayer_id: 12,
            requester: who(1),
            claimer: who(2),
            encrypted_content: vec![1, 2, 3, 255],
        }
    );
    assert!(ctx.claim.content_delivered);
    assert_eq!(ctx.claim.claimed_at, 10_500);
    assert_eq!(ctx.prayer, prayer_with(PrayerStatus::Open, 1, 3));
}

#[test]
fn deliver_works_on_an_active_prayer_and_with_an_empty_payload() {
    let mut ctx = DeliverContent {
        prayer: prayer_with(PrayerStatus::Active, 3, 3),
        claim: claim_of(2, 10_500),
        requester: who(1),
    };
    let ev = deliver_content(&mut ctx, Vec::new()).unwrap();
    assert_eq!(ev.encrypted_content, Vec::<u8>::new());
    assert!(ctx.claim.content_delivered);
}

#[test]
fn deliver_happens_once_for_each_claim() {
    let mut ctx = DeliverContent {
        prayer: prayer_with(PrayerStatus::Open, 1, 3),
        claim: claim_of(2, 10_500),
        requester: who(1),
    };
    assert!(deliver_content(&mut ctx, vec![1]).is_ok());
    assert_eq!(deliver_content(&mut ctx, vec![1]), Err(PrayerError::AlreadyDelivered));
    assert!(ctx.claim.content_delivered);
}

#[test]
fn deliver_is_for_the_requester_only() {
    let mut ctx = DeliverContent {
        prayer: prayer_with(PrayerStatus::Open, 1, 3),
        claim: claim_of(2, 10_500),
        requester: who(2),
    };
    assert_eq!(deliver_content(&mut ctx, vec![1]), Err(PrayerError::NotRequester));
    assert!(!ctx.claim.content_delivered);
}

#[test]
fn deliver_needs_an_open_or_active_prayer() {
    for status in [
        PrayerStatus::Fulfilled,
        PrayerStatus::Confirmed,
        PrayerStatus::Expired,
        PrayerStatus::Cancelled,
    ] {
        let mut ctx = DeliverContent {
            prayer: prayer_with(status, 3, 3),
            claim: claim_of(2, 10_500),
            requester: who(1),
        };
        assert_eq!(deliver_content(&mut ctx, vec![1]), Err(PrayerError::NotClaimed));
        assert!(!ctx.claim.content_delivered);
    }
}

#[test]
fn deliver_needs_a_claim_on_this_prayer() {
    let mut claim = claim_of(2, 10_500);
    claim.prayer_id = 99;
    let mut ctx = DeliverContent {
        prayer: prayer_with(PrayerStatus::Open, 1, 3),
        claim,
        requester: who(1),
    };
    assert_eq!(deliver_content(&mut ctx, vec![1]), Err(PrayerError::NotClaimed));
}
