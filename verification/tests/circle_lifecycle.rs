use halo_protocol::errors::HaloError;
use halo_protocol::instructions::{
    claim_penalty, contribute, distribute_pot, initialize_circle, join_circle, leave_circle,
};
use halo_protocol::keys::Pubkey;
use halo_protocol::state::{Circle, CircleEscrow, CircleStatus, Member, MemberStatus};
use halo_protocol::transfer::{TransferKind, TransferOrder};
use halo_protocol::trust::{TrustLookup, TrustTier};

const DAY: i64 = 86_400;
const MONTH: i64 = 30 * DAY;
const T0: i64 = 1_700_000_000;

fn key(n: u8) -> Pubkey {
    Pubkey::new([n; 32])
}

fn small_circle() -> (Circle, CircleEscrow) {
    initialize_circle(key(1), key(2), 100, 3, 2, 500, T0, 254, 253).unwrap()
}

fn join_newcomer(circle: &mut Circle, escrow: &mut CircleEscrow, who: Pubkey, stake: u64) -> Member {
    let (member, _) =
        join_circle(circle, key(2), escrow, who, &TrustLookup::Absent, stake, T0 + 10, 7).unwrap();
    member
}

#[test]
fn first_member_joins_with_twice_the_contribution() {
    let (mut circle, mut escrow) = small_circle();
    assert_eq!(circle.contribution_amount, 100);
    assert_eq!(circle.duration_months, 3);
    assert_eq!(circle.max_members, 2);
    assert_eq!(circle.penalty_rate, 500);
    assert_eq!(circle.status, CircleStatus::Active);
    assert_eq!(circle.id, T0 as u64);
    assert_eq!(escrow.monthly_pots, vec![0, 0, 0]);
    assert_eq!(escrow.circle, key(2));

    let (m1, order) = join_circle(
        &mut circle,
        key(2),
        &mut escrow,
        key(10),
        &TrustLookup::Absent,
        200,
        T0 + 10,
        7,
    )
    .unwrap();
    assert_eq!(circle.current_members, 1);
    assert_eq!(circle.members, vec![key(10)]);
    assert_eq!(escrow.total_amount, 200);
    assert_eq!(order, Some(TransferOrder { kind: TransferKind::Deposit, amount: 200 }));
    assert_eq!(m1.authority, key(10));
    assert_eq!(m1.circle, key(2));
    assert_eq!(m1.stake_amount, 200);
    assert_eq!(m1.contribution_history, vec![0, 0, 0]);
    assert_eq!(m1.status, MemberStatus::Active);
    assert_eq!(m1.trust_tier, TrustTier::Newcomer);
    assert_eq!(m1.trust_score, 0);
    assert_eq!(m1.joined_at, T0 + 10);
    assert!(!m1.has_received_pot);
}

#[test]
fn member_contributes_once_per_month() {
    let (mut circle, mut escrow) = small_circle();
    let mut m1 = join_newcomer(&mut circle, &mut escrow, key(10), 200);
    let mut trust = TrustLookup::Absent;

    let order = contribute(&mut circle, &mut m1, &mut escrow, &mut trust, 100, T0 + DAY).unwrap();
    assert_eq!(order, TransferOrder { kind: TransferKind::Deposit, amount: 100 });
    assert_eq!(m1.contribution_history[0], 100);
    assert_eq!(circle.total_pot, 100);
    assert_eq!(circle.monthly_contributions.len(), 1);
    assert_eq!(circle.monthly_contributions[0].total_collected, 100);
    assert_eq!(circle.monthly_contributions[0].month, 0);
    assert_eq!(circle.monthly_contributions[0].contributions.len(), 1);
    assert_eq!(circle.monthly_contributions[0].contributions[0].member, key(10));
    assert_eq!(circle.monthly_contributions[0].contributions[0].amount, 100);
    assert_eq!(circle.monthly_contributions[0].contributions[0].timestamp, T0 + DAY);
    assert_eq!(escrow.total_amount, 300);
    assert_eq!(escrow.monthly_pots, vec![100, 0, 0]);

    let again = contribute(&mut circle, &mut m1, &mut escrow, &mut trust, 100, T0 + 2 * DAY);
    assert_eq!(again, Err(HaloError::ContributionAlreadyMade));
    assert_eq!(circle.total_pot, 100);
    assert_eq!(escrow.total_amount, 300);
    assert_eq!(escrow.monthly_pots, vec![100, 0, 0]);
    assert_eq!(circle.monthly_contributions[0].total_collected, 100);
    assert_eq!(circle.monthly_contributions[0].contributions.len(), 1);
}

#[test]
fn pot_is_distributed_once_per_month() {
    let (mut circle, mut escrow) = small_circle();
    let mut m1 = join_newcomer(&mut circle, &mut escrow, key(10), 200);
    let mut trust = TrustLookup::Absent;
    contribute(&mut circle, &mut m1, &mut escrow, &mut trust, 100, T0 + DAY).unwrap();
    assert_eq!(circle.monthly_contributions[0].total_collected, 100);
    let before = escrow.total_amount;

    let order = distribute_pot(&mut circle, &mut m1, &mut escrow, T0 + 3 * DAY).unwrap();
    assert_eq!(order, TransferOrder { kind: TransferKind::Payout, amount: 100 });
    assert_eq!(escrow.total_amount, before - 100);
    assert_eq!(circle.monthly_contributions[0].distributed_to, Some(key(10)));
    assert_eq!(circle.monthly_contributions[0].total_collected, 100);
    assert_eq!(circle.total_pot, 0);
    assert!(m1.has_received_pot);
    assert_eq!(circle.status, CircleStatus::Active);

    let again = distribute_pot(&mut circle, &mut m1, &mut escrow, T0 + 3 * DAY);
    assert_eq!(again, Err(HaloError::PotAlreadyDistributed));
    assert_eq!(escrow.total_amount, before - 100);
    assert_eq!(circle.total_pot, 0);
}

fn known(tier: TrustTier, score: u16) -> TrustLookup {
    let mut ts = halo_protocol::trust::initialize_trust_score(key(10), T0, 1);
    ts.tier = tier;
    ts.score = score;
    TrustLookup::Known(ts)
}

#[test]
fn initialize_rejects_parameters_out_of_bounds() {
    let init = |amount, duration, max, rate| {
        initialize_circle(key(1), key(2), amount, duration, max, rate, T0, 0, 0).map(|_| ())
    };
    assert_eq!(init(100, 0, 2, 500), Err(HaloError::InvalidDuration));
    assert_eq!(init(100, 25, 2, 500), Err(HaloError::InvalidDuration));
    assert_eq!(init(100, 24, 0, 500), Err(HaloError::InvalidMaxMembers));
    assert_eq!(init(100, 24, 21, 500), Err(HaloError::InvalidMaxMembers));
    assert_eq!(init(0, 24, 20, 500), Err(HaloError::InvalidContributionAmount));
    assert_eq!(init(100, 24, 20, 10001), Err(HaloError::InvalidPenaltyRate));
    assert_eq!(init(0, 0, 0, 10001), Err(HaloError::InvalidDuration));
    assert_eq!(init(0, 1, 0, 10001), Err(HaloError::InvalidMaxMembers));
    assert_eq!(init(0, 1, 1, 10001), Err(HaloError::InvalidContributionAmount));
    assert_eq!(init(1, 1, 1, 10000), Ok(()));
    assert_eq!(init(u64::MAX, 24, 20, 0), Ok(()));
}

#[test]
fn initialize_starts_with_empty_records() {
    let (circle, escrow) = initialize_circle(key(1), key(2), 100, 3, 2, 500, T0, 254, 253).unwrap();
    assert_eq!(circle.creator, key(1));
    assert_eq!(circle.current_members, 0);
    assert_eq!(circle.current_month, 0);
    assert_eq!(circle.created_at, T0);
    assert!(circle.members.is_empty());
    assert!(circle.monthly_contributions.is_empty());
    assert_eq!(circle.total_pot, 0);
    assert_eq!(circle.bump, 254);
    assert!(circle.payout_queue.is_empty());
    assert_eq!(circle.insurance_pool, Pubkey::zero());
    assert_eq!(circle.escrow_account, Pubkey::new([0; 32]));
    assert_eq!(circle.invite_code, None);
    assert_eq!(circle.next_payout_recipient, None);
    assert!(!circle.is_public);
    assert_eq!(escrow.total_amount, 0);
    assert_eq!(escrow.bump, 253);
    assert_eq!(escrow.solend_c_token_balance, 0);
    assert!(escrow.member_yield_shares.is_empty());
    assert_eq!(escrow.reflect_token_type, None);
}

#[test]
fn circle_id_is_creation_time_as_unsigned() {
    let (circle, _) = initialize_circle(key(1), key(2), 100, 3, 2, 500, -1, 0, 0).unwrap();
    assert_eq!(circle.id, u64::MAX);
    assert_eq!(circle.created_at, -1);
}

#[test]
fn join_stake_boundary_without_trust_record() {
    let (mut circle, mut escrow) = small_circle();
    let low = join_circle(&mut circle, key(2), &mut escrow, key(10), &TrustLookup::Absent, 199, T0, 7);
    assert_eq!(low.map(|_| ()), Err(HaloError::InsufficientStake));
    assert_eq!(circle.current_members, 0);
    assert!(circle.members.is_empty());
    assert_eq!(escrow.total_amount, 0);
    let exact = join_circle(&mut circle, key(2), &mut escrow, key(10), &TrustLookup::Absent, 200, T0, 7);
    assert!(exact.is_ok());
    assert_eq!(circle.current_members, 1);
    assert_eq!(escrow.total_amount, 200);
}

#[test]
fn join_stake_boundary_for_each_tier() {
    let cases = [
        (TrustTier::Newcomer, 200u64),
        (TrustTier::Silver, 150),
        (TrustTier::Gold, 100),
        (TrustTier::Platinum, 75),
    ];
    for (tier, least) in cases {
        let (mut circle, mut escrow) = small_circle();
        let trust = known(tier, 600);
        let low = join_circle(&mut circle, key(2), &mut escrow, key(10), &trust, least - 1, T0, 7);
        assert_eq!(low.map(|_| ()), Err(HaloError::InsufficientStake));
        assert_eq!(escrow.total_amount, 0);
        let (member, order) =
            join_circle(&mut circle, key(2), &mut escrow, key(10), &trust, least, T0, 7).unwrap();
        assert_eq!(order, Some(TransferOrder { kind: TransferKind::Deposit, amount: least }));
        assert_eq!(member.trust_tier, tier);
        assert_eq!(member.trust_score, 600);
        assert_eq!(escrow.total_amount, least);
    }
}

#[test]
fn join_minimum_rounds_down() {
    let (mut circle, mut escrow) = initialize_circle(key(1), key(2), 1, 3, 2, 0, T0, 0, 0).unwrap();
    let trust = known(TrustTier::Platinum, 800);
    let (member, order) =
        join_circle(&mut circle, key(2), &mut escrow, key(10), &trust, 0, T0, 7).unwrap();
    assert_eq!(order, None);
    assert_eq!(member.stake_amount, 0);
    assert_eq!(escrow.total_amount, 0);
    assert_eq!(circle.current_members, 1);
}

#[test]
fn join_refusals_in_order() {
    let (mut circle, mut escrow) = small_circle();
    join_newcomer(&mut circle, &mut escrow, key(10), 200);
    let again =
        join_circle(&mut circle, key(2), &mut escrow, key(10), &TrustLookup::Absent, 200, T0, 7);
    assert_eq!(again.map(|_| ()), Err(HaloError::MemberAlreadyExists));
    join_newcomer(&mut circle, &mut escrow, key(11), 250);
    assert_eq!(circle.members, vec![key(10), key(11)]);
    assert_eq!(circle.current_members, 2);
    assert_eq!(escrow.total_amount, 450);
    let full =
        join_circle(&mut circle, key(2), &mut escrow, key(12), &TrustLookup::Absent, 200, T0, 7);
    assert_eq!(full.map(|_| ()), Err(HaloError::CircleFull));
    let full_and_known =
        join_circle(&mut circle, key(2), &mut escrow, key(10), &TrustLookup::Absent, 0, T0, 7);
    assert_eq!(full_and_known.map(|_| ()), Err(HaloError::CircleFull));
    circle.status = CircleStatus::Completed;
    let closed =
        join_circle(&mut circle, key(2), &mut escrow, key(12), &TrustLookup::Absent, 200, T0, 7);
    assert_eq!(closed.map(|_| ()), Err(HaloError::CircleNotActive));
    assert_eq!(circle.current_members, 2);
    assert_eq!(escrow.total_amount, 450);
}

#[test]
fn join_refuses_what_does_not_fit() {
    let (mut circle, mut escrow) =
        initialize_circle(key(1), key(2), u64::MAX / 2 + 1, 3, 2, 0, T0, 0, 0).unwrap();
    let r = join_circle(&mut circle, key(2), &mut escrow, key(10), &TrustLookup::Absent, u64::MAX, T0, 7);
    assert_eq!(r.map(|_| ()), Err(HaloError::ArithmeticOverflow));
    let (mut circle, mut escrow) = small_circle();
    escrow.total_amount = u64::MAX - 199;
    let r = join_circle(&mut circle, key(2), &mut escrow, key(10), &TrustLookup::Absent, 200, T0, 7);
    assert_eq!(r.map(|_| ()), Err(HaloError::ArithmeticOverflow));
    assert_eq!(escrow.total_amount, u64::MAX - 199);
    assert!(circle.members.is_empty());
    let r = join_circle(&mut circle, key(2), &mut escrow, key(10), &TrustLookup::Absent, 199, T0, 7);
    assert_eq!(r.map(|_| ()), Err(HaloError::InsufficientStake));
}

#[test]
fn contribute_refusals_in_order() {
    let (mut circle, mut escrow) = small_circle();
    let mut m1 = join_newcomer(&mut circle, &mut escrow, key(10), 200);
    let mut trust = TrustLookup::Absent;

    assert_eq!(
        contribute(&mut circle, &mut m1, &mut escrow, &mut trust, 99, T0),
        Err(HaloError::InvalidContributionAmount)
    );
    m1.status = MemberStatus::Defaulted;
    assert_eq!(
        contribute(&mut circle, &mut m1, &mut escrow, &mut trust, 99, T0),
        Err(HaloError::MemberInDefault)
    );
    m1.status = MemberStatus::Exited;
    assert_eq!(
        contribute(&mut circle, &mut m1, &mut escrow, &mut trust, 100, T0),
        Err(HaloError::MemberInDefault)
    );
    circle.status = CircleStatus::Terminated;
    assert_eq!(
        contribute(&mut circle, &mut m1, &mut escrow, &mut trust, 99, T0),
        Err(HaloError::CircleNotActive)
    );
    circle.status = CircleStatus::Active;
    m1.status = MemberStatus::Active;
    assert_eq!(
        contribute(&mut circle, &mut m1, &mut escrow, &mut trust, 100, T0 - MONTH),
        Err(HaloError::ArithmeticOverflow)
    );
    circle.created_at = -10;
    assert_eq!(
        contribute(&mut circle, &mut m1, &mut escrow, &mut trust, 100, i64::MAX),
        Err(HaloError::ArithmeticOverflow)
    );
    circle.created_at = T0;
    escrow.monthly_pots.truncate(1);
    assert_eq!(
        contribute(&mut circle, &mut m1, &mut escrow, &mut trust, 100, T0 + MONTH),
        Err(HaloError::InvalidContributionMonth)
    );
    m1.contribution_history.truncate(1);
    assert_eq!(
        contribute(&mut circle, &mut m1, &mut escrow, &mut trust, 100, T0 + MONTH),
        Err(HaloError::ContributionAlreadyMade)
    );
    assert_eq!(circle.total_pot, 0);
    assert_eq!(circle.current_month, 0);
    assert!(circle.monthly_contributions.is_empty());
    assert_eq!(escrow.total_amount, 200);
}

#[test]
fn contribute_refuses_totals_that_do_not_fit() {
    let (mut circle, mut escrow) = small_circle();
    let mut m1 = join_newcomer(&mut circle, &mut escrow, key(10), 200);
    let mut trust = TrustLookup::Absent;
    escrow.total_amount = u64::MAX - 99;
    assert_eq!(
        contribute(&mut circle, &mut m1, &mut escrow, &mut trust, 100, T0),
        Err(HaloError::ArithmeticOverflow)
    );
    assert_eq!(m1.contribution_history, vec![0, 0, 0]);
    assert_eq!(circle.total_pot, 0);
    assert!(circle.monthly_contributions.is_empty());
    escrow.total_amount = u64::MAX - 100;
    assert!(contribute(&mut circle, &mut m1, &mut escrow, &mut trust, 100, T0).is_ok());
    assert_eq!(escrow.total_amount, u64::MAX);

    let mut known_trust = known(TrustTier::Newcomer, 0);
    if let TrustLookup::Known(ts) = &mut known_trust {
        ts.total_contributions = u64::MAX;
    }
    let (mut circle, mut escrow) = small_circle();
    let mut m1 = join_newcomer(&mut circle, &mut escrow, key(10), 200);
    assert_eq!(
        contribute(&mut circle, &mut m1, &mut escrow, &mut known_trust, 100, T0),
        Err(HaloError::ArithmeticOverflow)
    );
    assert_eq!(escrow.total_amount, 200);
}

#[test]
fn contribute_accepts_clock_slightly_behind_creation() {
    let (mut circle, mut escrow) = small_circle();
    let mut m1 = join_newcomer(&mut circle, &mut escrow, key(10), 200);
    let mut trust = TrustLookup::Absent;
    assert!(contribute(&mut circle, &mut m1, &mut escrow, &mut trust, 100, T0 - MONTH + 1).is_ok());
    assert_eq!(m1.contribution_history, vec![100, 0, 0]);
}

#[test]
fn contribute_later_month_adds_blank_months() {
    let (mut circle, mut escrow) = small_circle();
    let mut m1 = join_newcomer(&mut circle, &mut escrow, key(10), 200);
    let mut m2 = join_newcomer(&mut circle, &mut escrow, key(11), 200);
    let mut trust = TrustLookup::Absent;
    let now = T0 + 2 * MONTH + 5;
    contribute(&mut circle, &mut m1, &mut escrow, &mut trust, 100, now).unwrap();
    assert_eq!(circle.current_month, 2);
    assert_eq!(circle.monthly_contributions.len(), 3);
    for (i, month) in circle.monthly_contributions.iter().enumerate() {
        assert_eq!(month.month as usize, i);
        assert_eq!(month.distributed_to, None);
    }
    assert_eq!(circle.monthly_contributions[0].total_collected, 0);
    assert!(circle.monthly_contributions[0].contributions.is_empty());
    assert_eq!(circle.monthly_contributions[1].total_collected, 0);
    assert!(circle.monthly_contributions[1].contributions.is_empty());
    assert_eq!(circle.monthly_contributions[2].total_collected, 100);
    assert_eq!(m1.contribution_history, vec![0, 0, 100]);
    assert_eq!(escrow.monthly_pots, vec![0, 0, 100]);

    contribute(&mut circle, &mut m2, &mut escrow, &mut trust, 100, now + 1).unwrap();
    assert_eq!(circle.monthly_contributions.len(), 3);
    assert_eq!(circle.monthly_contributions[2].total_collected, 200);
    assert_eq!(circle.monthly_contributions[2].contributions.len(), 2);
    assert_eq!(circle.monthly_contributions[2].contributions[1].member, key(11));
    assert_eq!(circle.total_pot, 200);
    assert_eq!(escrow.monthly_pots, vec![0, 0, 200]);
    assert_eq!(escrow.total_amount, 600);
}

#[test]
fn contribute_month_is_capped_at_the_last() {
    let (mut circle, mut escrow) = small_circle();
    let mut m1 = join_newcomer(&mut circle, &mut escrow, key(10), 200);
    let mut trust = TrustLookup::Absent;
    contribute(&mut circle, &mut m1, &mut escrow, &mut trust, 100, T0 + 300 * MONTH).unwrap();
    assert_eq!(circle.current_month, 2);
    assert_eq!(m1.contribution_history, vec![0, 0, 100]);
    assert_eq!(
        contribute(&mut circle, &mut m1, &mut escrow, &mut trust, 100, T0 + 2 * MONTH),
        Err(HaloError::ContributionAlreadyMade)
    );
    contribute(&mut circle, &mut m1, &mut escrow, &mut trust, 100, T0 + 2 * MONTH - 1).unwrap();
    assert_eq!(circle.current_month, 1);
    assert_eq!(m1.contribution_history, vec![0, 100, 100]);
}

#[test]
fn contribute_with_trust_record_rescoring() {
    let (mut circle, mut escrow) = small_circle();
    let mut m1 = join_newcomer(&mut circle, &mut escrow, key(10), 200);
    let mut trust = known(TrustTier::Newcomer, 0);
    if let TrustLookup::Known(ts) = &mut trust {
        ts.circles_joined = 2;
        ts.circles_completed = 1;
        ts.missed_contributions = 3;
        ts.defi_activity_score = 150;
        ts.total_contributions = 40;
    }
    contribute(&mut circle, &mut m1, &mut escrow, &mut trust, 100, T0 + DAY).unwrap();
    match &trust {
        TrustLookup::Known(ts) => {
            assert_eq!(ts.total_contributions, 140);
            assert_eq!(ts.last_updated, T0 + DAY);
            assert_eq!(ts.payment_history_score, 348);
            assert_eq!(ts.completion_score, 150);
            assert_eq!(ts.defi_activity_score, 150);
            assert_eq!(ts.social_proof_score, 0);
            assert_eq!(ts.score, 648);
            assert_eq!(ts.tier, TrustTier::Gold);
        }
        TrustLookup::Absent => panic!("the record is gone"),
    }
    assert_eq!(m1.trust_score, 648);
    assert_eq!(m1.trust_tier, TrustTier::Gold);
}

#[test]
fn total_pot_is_the_sum_of_recorded_entries() {
    let (mut circle, mut escrow) = initialize_circle(key(1), key(2), 70, 4, 3, 0, T0, 0, 0).unwrap();
    let mut members: Vec<Member> = (0..3u8)
        .map(|i| join_newcomer(&mut circle, &mut escrow, key(20 + i), 140))
        .collect();
    let mut trust = TrustLookup::Absent;
    let times = [T0, T0 + MONTH, T0 + 3 * MONTH];
    let mut paid = 0u64;
    for (round, now) in times.iter().enumerate() {
        for (i, member) in members.iter_mut().enumerate() {
            if (round + i) % 2 == 0 {
                contribute(&mut circle, member, &mut escrow, &mut trust, 70, *now).unwrap();
                paid += 70;
            }
            let recorded: u64 = circle
                .monthly_contributions
                .iter()
                .flat_map(|m| m.contributions.iter())
                .map(|c| c.amount)
                .sum();
            assert_eq!(circle.total_pot, recorded);
            assert_eq!(circle.total_pot, paid);
            for month in &circle.monthly_contributions {
                let sum: u64 = month.contributions.iter().map(|c| c.amount).sum();
                assert_eq!(month.total_collected, sum);
            }
        }
    }
    assert_eq!(paid, 5 * 70);
    assert_eq!(escrow.total_amount, 3 * 140 + 5 * 70);
    let mut recipient = members.remove(0);
    let order = distribute_pot(&mut circle, &mut recipient, &mut escrow, T0 + 3 * MONTH).unwrap();
    assert_eq!(order.amount, 2 * 70);
    assert_eq!(circle.total_pot, 5 * 70 - 2 * 70);
    assert_eq!(escrow.total_amount, 3 * 140 + 5 * 70 - 2 * 70);
    let recorded: u64 = circle
        .monthly_contributions
        .iter()
        .flat_map(|m| m.contributions.iter())
        .map(|c| c.amount)
        .sum();
    let distributed: u64 = circle
        .monthly_contributions
        .iter()
        .filter(|m| m.distributed_to.is_some())
        .map(|m| m.total_collected)
        .sum();
    assert_eq!(recorded, 5 * 70);
    assert_eq!(distributed, 2 * 70);
    assert_eq!(circle.total_pot, recorded - distributed);
}

#[test]
fn distribute_refusals_and_completion() {
    let (mut circle, mut escrow) = small_circle();
    let mut m1 = join_newcomer(&mut circle, &mut escrow, key(10), 200);
    let mut m2 = join_newcomer(&mut circle, &mut escrow, key(11), 200);
    let mut trust = TrustLookup::Absent;

    assert_eq!(
        distribute_pot(&mut circle, &mut m1, &mut escrow, T0),
        Err(HaloError::NoContributionsToDistribute)
    );
    contribute(&mut circle, &mut m1, &mut escrow, &mut trust, 100, T0 + 2 * MONTH).unwrap();
    assert_eq!(
        distribute_pot(&mut circle, &mut m1, &mut escrow, T0 + MONTH),
        Err(HaloError::NoContributionsToDistribute)
    );
    assert_eq!(
        distribute_pot(&mut circle, &mut m1, &mut escrow, T0 - 2 * MONTH),
        Err(HaloError::ArithmeticOverflow)
    );
    m2.has_received_pot = true;
    assert_eq!(
        distribute_pot(&mut circle, &mut m2, &mut escrow, T0 + 2 * MONTH),
        Err(HaloError::MemberAlreadyReceivedPot)
    );
    m2.has_received_pot = false;
    let held = escrow.total_amount;
    escrow.total_amount = 99;
    assert_eq!(
        distribute_pot(&mut circle, &mut m2, &mut escrow, T0 + 2 * MONTH),
        Err(HaloError::ArithmeticOverflow)
    );
    assert_eq!(escrow.total_amount, 99);
    assert!(!m2.has_received_pot);
    assert_eq!(circle.monthly_contributions[2].distributed_to, None);
    assert_eq!(circle.status, CircleStatus::Active);
    escrow.total_amount = held;
    circle.total_pot = 99;
    assert_eq!(
        distribute_pot(&mut circle, &mut m2, &mut escrow, T0 + 2 * MONTH),
        Err(HaloError::ArithmeticOverflow)
    );
    assert_eq!(circle.total_pot, 99);
    assert_eq!(escrow.total_amount, held);
    assert!(!m2.has_received_pot);
    assert_eq!(circle.monthly_contributions[2].distributed_to, None);
    circle.total_pot = 100;

    let order = distribute_pot(&mut circle, &mut m2, &mut escrow, T0 + 2 * MONTH).unwrap();
    assert_eq!(order, TransferOrder { kind: TransferKind::Payout, amount: 100 });
    assert_eq!(circle.total_pot, 0);
    assert_eq!(circle.status, CircleStatus::Completed);
    assert_eq!(circle.monthly_contributions[2].distributed_to, Some(key(11)));
    assert_eq!(escrow.total_amount, held - 100);
    assert!(m2.has_received_pot);
    assert_eq!(
        distribute_pot(&mut circle, &mut m1, &mut escrow, T0 + 2 * MONTH),
        Err(HaloError::CircleNotActive)
    );
}

#[test]
fn distribute_to_a_second_recipient_in_the_same_month_is_refused() {
    let (mut circle, mut escrow) = small_circle();
    let mut m1 = join_newcomer(&mut circle, &mut escrow, key(10), 200);
    let mut m2 = join_newcomer(&mut circle, &mut escrow, key(11), 200);
    let mut trust = TrustLookup::Absent;
    contribute(&mut circle, &mut m1, &mut escrow, &mut trust, 100, T0).unwrap();
    contribute(&mut circle, &mut m2, &mut escrow, &mut trust, 100, T0).unwrap();
    let order = distribute_pot(&mut circle, &mut m1, &mut escrow, T0 + DAY).unwrap();
    assert_eq!(order.amount, 200);
    assert_eq!(
        distribute_pot(&mut circle, &mut m2, &mut escrow, T0 + DAY),
        Err(HaloError::PotAlreadyDistributed)
    );
    assert!(!m2.has_received_pot);
    assert_eq!(escrow.total_amount, 400);
    assert_eq!(circle.total_pot, 0);
}

#[test]
fn distribute_refusals_take_precedence_in_order() {
    let (mut circle, mut escrow) = small_circle();
    let mut m1 = join_newcomer(&mut circle, &mut escrow, key(10), 200);
    let mut m2 = join_newcomer(&mut circle, &mut escrow, key(11), 200);
    let mut trust = TrustLookup::Absent;
    contribute(&mut circle, &mut m1, &mut escrow, &mut trust, 100, T0).unwrap();
    distribute_pot(&mut circle, &mut m1, &mut escrow, T0 + DAY).unwrap();
    assert!(m1.has_received_pot);

    // the recipient has received a pot and the month has no record
    assert_eq!(
        distribute_pot(&mut circle, &mut m1, &mut escrow, T0 + MONTH),
        Err(HaloError::MemberAlreadyReceivedPot)
    );
    // the recipient has received a pot and the clock yields no month
    assert_eq!(
        distribute_pot(&mut circle, &mut m1, &mut escrow, T0 - 2 * MONTH),
        Err(HaloError::MemberAlreadyReceivedPot)
    );
    // the recipient has received a pot and the month is distributed
    assert_eq!(
        distribute_pot(&mut circle, &mut m1, &mut escrow, T0 + 2 * DAY),
        Err(HaloError::PotAlreadyDistributed)
    );
    // another recipient: the month is distributed, the next has no record
    assert_eq!(
        distribute_pot(&mut circle, &mut m2, &mut escrow, T0 + 2 * DAY),
        Err(HaloError::PotAlreadyDistributed)
    );
    assert_eq!(
        distribute_pot(&mut circle, &mut m2, &mut escrow, T0 + MONTH),
        Err(HaloError::NoContributionsToDistribute)
    );
    assert_eq!(
        distribute_pot(&mut circle, &mut m2, &mut escrow, T0 - 2 * MONTH),
        Err(HaloError::ArithmeticOverflow)
    );
    // a month with a record and nothing collected
    contribute(&mut circle, &mut m2, &mut escrow, &mut trust, 100, T0 + 2 * MONTH).unwrap();
    assert_eq!(
        distribute_pot(&mut circle, &mut m2, &mut escrow, T0 + MONTH),
        Err(HaloError::NoContributionsToDistribute)
    );
    assert_eq!(
        distribute_pot(&mut circle, &mut m1, &mut escrow, T0 + MONTH),
        Err(HaloError::MemberAlreadyReceivedPot)
    );
    // a circle that is not active is refused before anything else
    circle.status = CircleStatus::Terminated;
    assert_eq!(
        distribute_pot(&mut circle, &mut m1, &mut escrow, T0 + 2 * DAY),
        Err(HaloError::CircleNotActive)
    );
    assert_eq!(circle.total_pot, 100);
    assert_eq!(escrow.total_amount, 500);
    assert!(!m2.has_received_pot);
}

#[test]
fn payment_after_the_distribution_of_its_month_stays_in_the_pot() {
    let (mut circle, mut escrow) = small_circle();
    let mut m1 = join_newcomer(&mut circle, &mut escrow, key(10), 200);
    let mut m2 = join_newcomer(&mut circle, &mut escrow, key(11), 200);
    let mut trust = TrustLookup::Absent;
    contribute(&mut circle, &mut m1, &mut escrow, &mut trust, 100, T0).unwrap();
    distribute_pot(&mut circle, &mut m1, &mut escrow, T0 + DAY).unwrap();
    assert_eq!(circle.total_pot, 0);
    assert_eq!(escrow.total_amount, 400);
    contribute(&mut circle, &mut m2, &mut escrow, &mut trust, 100, T0 + 2 * DAY).unwrap();
    assert_eq!(circle.total_pot, 100);
    assert_eq!(escrow.total_amount, 500);
    assert_eq!(circle.monthly_contributions[0].total_collected, 200);
    assert_eq!(circle.monthly_contributions[0].distributed_to, Some(key(10)));
    assert_eq!(
        distribute_pot(&mut circle, &mut m2, &mut escrow, T0 + 3 * DAY),
        Err(HaloError::PotAlreadyDistributed)
    );
    assert_eq!(circle.total_pot, 100);
}

#[test]
fn claim_penalty_settles_the_whole_balance() {
    let (mut circle, mut escrow) = small_circle();
    let mut m1 = join_newcomer(&mut circle, &mut escrow, key(10), 200);
    assert_eq!(claim_penalty(&circle, &mut m1, &mut escrow), Err(HaloError::MemberNotFound));
    m1.status = MemberStatus::Defaulted;
    assert_eq!(
        claim_penalty(&circle, &mut m1, &mut escrow),
        Err(HaloError::NoContributionsToDistribute)
    );
    m1.penalties = 201;
    assert_eq!(claim_penalty(&circle, &mut m1, &mut escrow), Err(HaloError::ArithmeticOverflow));
    assert_eq!(m1.penalties, 201);
    assert_eq!(escrow.total_amount, 200);
    m1.penalties = 50;
    circle.status = CircleStatus::Completed;
    assert_eq!(claim_penalty(&circle, &mut m1, &mut escrow), Err(HaloError::CircleNotActive));
    circle.status = CircleStatus::Active;
    let order = claim_penalty(&circle, &mut m1, &mut escrow).unwrap();
    assert_eq!(order, TransferOrder { kind: TransferKind::Payout, amount: 50 });
    assert_eq!(m1.penalties, 0);
    assert_eq!(escrow.total_amount, 150);
    assert_eq!(
        claim_penalty(&circle, &mut m1, &mut escrow),
        Err(HaloError::NoContributionsToDistribute)
    );
}

#[test]
fn leave_in_month_zero_returns_the_stake() {
    let (mut circle, mut escrow) = small_circle();
    let mut m1 = join_newcomer(&mut circle, &mut escrow, key(10), 200);
    let m2 = join_newcomer(&mut circle, &mut escrow, key(11), 300);
    let order = leave_circle(&mut circle, &mut m1, &mut escrow, T0 + MONTH - 1).unwrap();
    assert_eq!(order, Some(TransferOrder { kind: TransferKind::Payout, amount: 200 }));
    assert_eq!(m1.status, MemberStatus::Exited);
    assert_eq!(circle.members, vec![key(11)]);
    assert_eq!(circle.current_members, 1);
    assert_eq!(escrow.total_amount, 300);
    assert_eq!(m2.status, MemberStatus::Active);
}

#[test]
fn leave_refusals_in_order() {
    let (mut circle, mut escrow) = small_circle();
    let mut m1 = join_newcomer(&mut circle, &mut escrow, key(10), 200);
    assert_eq!(
        leave_circle(&mut circle, &mut m1, &mut escrow, T0 + MONTH),
        Err(HaloError::CannotLeaveActivePeriod)
    );
    assert_eq!(
        leave_circle(&mut circle, &mut m1, &mut escrow, T0 - MONTH),
        Err(HaloError::ArithmeticOverflow)
    );
    escrow.total_amount = 199;
    assert_eq!(
        leave_circle(&mut circle, &mut m1, &mut escrow, T0),
        Err(HaloError::ArithmeticOverflow)
    );
    assert_eq!(m1.status, MemberStatus::Active);
    assert_eq!(circle.members, vec![key(10)]);
    assert_eq!(escrow.total_amount, 199);
    circle.status = CircleStatus::Completed;
    assert_eq!(leave_circle(&mut circle, &mut m1, &mut escrow, T0), Err(HaloError::CircleEnded));
    circle.status = CircleStatus::Terminated;
    escrow.total_amount = 200;
    m1.status = MemberStatus::Defaulted;
    let order = leave_circle(&mut circle, &mut m1, &mut escrow, T0 + 2 * MONTH).unwrap();
    assert_eq!(order, Some(TransferOrder { kind: TransferKind::Payout, amount: 200 }));
    assert_eq!(escrow.total_amount, 0);
    assert!(circle.members.is_empty());
    assert_eq!(circle.current_members, 0);
}

#[test]
fn leave_without_stake_or_roster_entry() {
    let (mut circle, mut escrow) = initialize_circle(key(1), key(2), 1, 3, 2, 0, T0, 0, 0).unwrap();
    let trust = known(TrustTier::Platinum, 800);
    let (mut m1, _) = join_circle(&mut circle, key(2), &mut escrow, key(10), &trust, 0, T0, 7).unwrap();
    let order = leave_circle(&mut circle, &mut m1, &mut escrow, T0).unwrap();
    assert_eq!(order, None);
    assert!(circle.members.is_empty());
    let order = leave_circle(&mut circle, &mut m1, &mut escrow, T0).unwrap();
    assert_eq!(order, None);
    assert_eq!(circle.current_members, 0);
    assert_eq!(m1.status, MemberStatus::Exited);
}
