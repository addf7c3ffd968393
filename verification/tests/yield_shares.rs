use halo_protocol::instructions::{initialize_circle, join_circle};
use halo_protocol::keys::Pubkey;
use halo_protocol::state::{Circle, CircleEscrow, MemberYieldShare, ReflectTokenType};
use halo_protocol::transfer::{TransferKind, TransferOrder};
use halo_protocol::trust::TrustLookup;
use halo_protocol::yield_integration::{
    calculate_yield_share, deposit_to_solend, distribute_yield, find_share, withdraw_from_solend,
    ErrorCode, ReflectYieldTracking,
};

const HALF_YEAR: i64 = 15_768_000;

fn key(n: u8) -> Pubkey {
    Pubkey::new([n; 32])
}

fn setup(members: u8) -> (Circle, CircleEscrow) {
    let (mut circle, mut escrow) = initialize_circle(key(1), key(2), 100, 3, 5, 0, 0, 0, 0).unwrap();
    for i in 0..members {
        join_circle(&mut circle, key(2), &mut escrow, key(10 + i), &TrustLookup::Absent, 200, 0, 0)
            .unwrap();
    }
    (circle, escrow)
}

fn shares(escrow: &CircleEscrow) -> Vec<(Pubkey, u64, u64)> {
    escrow.member_yield_shares.iter().map(|s| (s.member, s.yield_earned, s.yield_claimed)).collect()
}

#[test]
fn deposit_and_withdraw_move_the_pot() {
    let (mut circle, mut escrow) = setup(0);
    escrow.total_amount = 500_000_000;
    circle.total_pot = 400_000_000;
    assert_eq!(
        deposit_to_solend(&mut escrow, &mut circle, 99_999_999),
        Err(ErrorCode::BelowMinimumDeposit)
    );
    assert_eq!(
        deposit_to_solend(&mut escrow, &mut circle, 400_000_001),
        Err(ErrorCode::ArithmeticOverflow)
    );
    assert_eq!(
        deposit_to_solend(&mut escrow, &mut circle, 500_000_001),
        Err(ErrorCode::ArithmeticOverflow)
    );
    assert_eq!(escrow.total_amount, 500_000_000);
    assert_eq!(circle.total_pot, 400_000_000);
    let order = deposit_to_solend(&mut escrow, &mut circle, 100_000_000).unwrap();
    assert_eq!(order, TransferOrder { kind: TransferKind::Payout, amount: 100_000_000 });
    assert_eq!(escrow.total_amount, 400_000_000);
    assert_eq!(escrow.solend_c_token_balance, 100_000_000);
    assert_eq!(circle.total_pot, 300_000_000);

    assert_eq!(
        withdraw_from_solend(&mut escrow, &mut circle, 100_000_001),
        Err(ErrorCode::InsufficientSolendBalance)
    );
    let order = withdraw_from_solend(&mut escrow, &mut circle, 40_000_000).unwrap();
    assert_eq!(order, TransferOrder { kind: TransferKind::Deposit, amount: 40_000_000 });
    assert_eq!(escrow.total_amount, 440_000_000);
    assert_eq!(escrow.solend_c_token_balance, 60_000_000);
    assert_eq!(circle.total_pot, 340_000_000);
    escrow.total_amount = u64::MAX;
    assert_eq!(withdraw_from_solend(&mut escrow, &mut circle, 1), Err(ErrorCode::ArithmeticOverflow));
    assert_eq!(escrow.solend_c_token_balance, 60_000_000);
    assert_eq!(circle.total_pot, 340_000_000);
    escrow.total_amount = 0;
    escrow.solend_c_token_balance = u64::MAX;
    assert_eq!(
        deposit_to_solend(&mut escrow, &mut circle, 100_000_000),
        Err(ErrorCode::ArithmeticOverflow)
    );
}

#[test]
fn yield_is_shared_equally() {
    let (mut circle, mut escrow) = setup(3);
    circle.total_pot = 400;
    escrow.solend_c_token_balance = 1_000;
    escrow.member_yield_shares.push(MemberYieldShare { member: key(11), yield_earned: 5, yield_claimed: 50 });
    escrow.member_yield_shares.push(MemberYieldShare { member: key(99), yield_earned: 1, yield_claimed: 2 });
    let result = calculate_yield_share(&mut escrow, &circle, 777);
    assert_eq!(result, vec![(key(10), 200), (key(11), 200), (key(12), 200)]);
    assert_eq!(escrow.total_yield_earned, 600);
    assert_eq!(escrow.last_yield_calculation, 777);
    assert_eq!(
        shares(&escrow),
        vec![(key(11), 200, 50), (key(99), 1, 2), (key(10), 200, 0), (key(12), 200, 0)]
    );
    assert_eq!(escrow.total_amount, 600);
    escrow.solend_c_token_balance = 401;
    let result = calculate_yield_share(&mut escrow, &circle, 778);
    assert_eq!(result, vec![(key(10), 0), (key(11), 0), (key(12), 0)]);
    assert_eq!(escrow.total_yield_earned, 1);
    assert_eq!(shares(&escrow), vec![(key(11), 0, 50), (key(99), 1, 2), (key(10), 0, 0), (key(12), 0, 0)]);
    escrow.solend_c_token_balance = 0;
    calculate_yield_share(&mut escrow, &circle, 779);
    assert_eq!(escrow.total_yield_earned, 0);
}

#[test]
fn yield_share_without_members() {
    let (mut circle, mut escrow) = setup(0);
    circle.total_pot = 1;
    escrow.solend_c_token_balance = 10;
    escrow.member_yield_shares.push(MemberYieldShare { member: key(11), yield_earned: 5, yield_claimed: 0 });
    let result = calculate_yield_share(&mut escrow, &circle, 5);
    assert!(result.is_empty());
    assert_eq!(escrow.total_yield_earned, 9);
    assert_eq!(escrow.last_yield_calculation, 5);
    assert_eq!(shares(&escrow), vec![(key(11), 5, 0)]);
}

#[test]
fn claim_of_unclaimed_yield() {
    let (_, mut escrow) = setup(1);
    escrow.member_yield_shares.push(MemberYieldShare { member: key(10), yield_earned: 70, yield_claimed: 20 });
    escrow.member_yield_shares.push(MemberYieldShare { member: key(11), yield_earned: 10, yield_claimed: 20 });
    escrow.member_yield_shares.push(MemberYieldShare { member: key(12), yield_earned: 300, yield_claimed: 0 });
    assert_eq!(find_share(&escrow.member_yield_shares, key(12)), Some(2));
    assert_eq!(distribute_yield(&mut escrow, key(13), key(13)), Err(ErrorCode::MemberNotFound));
    assert_eq!(distribute_yield(&mut escrow, key(11), key(11)), Err(ErrorCode::ArithmeticOverflow));
    assert_eq!(distribute_yield(&mut escrow, key(10), key(11)), Err(ErrorCode::UnauthorizedMember));
    assert_eq!(distribute_yield(&mut escrow, key(12), key(12)), Err(ErrorCode::ArithmeticOverflow));
    assert_eq!(escrow.total_amount, 200);
    let order = distribute_yield(&mut escrow, key(10), key(10)).unwrap();
    assert_eq!(order, TransferOrder { kind: TransferKind::Payout, amount: 50 });
    assert_eq!(escrow.total_amount, 150);
    assert_eq!(shares(&escrow), vec![(key(10), 70, 70), (key(11), 10, 20), (key(12), 300, 0)]);
    assert_eq!(distribute_yield(&mut escrow, key(10), key(10)), Err(ErrorCode::NoClaimableYield));
    assert_eq!(distribute_yield(&mut escrow, key(10), key(11)), Err(ErrorCode::NoClaimableYield));
}

#[test]
fn escrow_yearly_return() {
    let (_, mut escrow) = setup(0);
    escrow.total_amount = 10_000;
    escrow.reflect_yield_earned = 300;
    escrow.solend_yield_earned = 200;
    assert_eq!(escrow.calculate_total_dual_yield(), 500);
    assert_eq!(escrow.get_combined_apy(HALF_YEAR), 0);
    escrow.last_yield_calculation = 1_000;
    assert_eq!(escrow.get_combined_apy(1_000 + HALF_YEAR), 1_000);
    assert_eq!(escrow.get_reflect_apy(1_000 + HALF_YEAR), 600);
    assert_eq!(escrow.get_solend_apy(1_000 + HALF_YEAR), 400);
    assert_eq!(escrow.get_combined_apy(1_000), 0);
    assert_eq!(escrow.get_reflect_apy(999), 0);
    assert_eq!(escrow.get_solend_apy(-5), 0);
    escrow.total_amount = 0;
    assert_eq!(escrow.get_combined_apy(1_000 + HALF_YEAR), 0);
    escrow.total_amount = 7;
    escrow.last_yield_calculation = -1;
    escrow.reflect_yield_earned = 1 << 63;
    assert_eq!(escrow.get_reflect_apy(0), 0);
    escrow.reflect_yield_earned = (1 << 63) + 12_345;
    assert_eq!(escrow.get_reflect_apy(2), 185_386_628_571_428);
    escrow.total_amount = 3;
    escrow.solend_yield_earned = 1_000_000_000_000_000;
    assert_eq!(escrow.get_solend_apy(0), 6_148_914_691_236_517_205);
    escrow.reflect_yield_earned = u64::MAX;
    assert_eq!(escrow.calculate_total_dual_yield(), u64::MAX);
    escrow.last_yield_calculation = i64::MIN;
    escrow.reflect_yield_earned = 1;
    assert_eq!(escrow.get_reflect_apy(i64::MAX), 0);
}

fn tracking() -> ReflectYieldTracking {
    ReflectYieldTracking {
        circle: key(2),
        usdc_plus_deposited: 6_000,
        usdj_deposited: 4_000,
        reflect_yield_earned: 300,
        solend_yield_earned: 200,
        last_yield_calculation: 0,
        reflect_price_at_deposit: 100,
        current_reflect_price: 110,
        token_type: ReflectTokenType::USDJ,
        bump: 0,
    }
}

#[test]
fn tracked_yearly_return() {
    let mut t = tracking();
    assert_eq!(t.calculate_total_yield(), 500);
    assert_eq!(t.get_combined_apy(HALF_YEAR), 1_000);
    assert_eq!(t.get_solend_apy(HALF_YEAR), 400);
    assert_eq!(t.get_reflect_apy(HALF_YEAR), 2_000);
    assert_eq!(t.get_combined_apy(0), 0);
    assert_eq!(t.get_solend_apy(-1), 0);
    assert_eq!(t.get_reflect_apy(0), 0);
    t.current_reflect_price = 99;
    assert_eq!(t.get_reflect_apy(HALF_YEAR), 0);
    t.reflect_price_at_deposit = 0;
    assert_eq!(t.get_reflect_apy(HALF_YEAR), 0);
    t.reflect_price_at_deposit = 1;
    t.current_reflect_price = 1 + (1 << 60);
    assert_eq!(t.get_reflect_apy(1_000), 18_446_744_073_709_551);
    t.usdc_plus_deposited = 0;
    t.usdj_deposited = 0;
    assert_eq!(t.get_combined_apy(HALF_YEAR), 0);
    assert_eq!(t.get_solend_apy(HALF_YEAR), 0);
    t.usdc_plus_deposited = u64::MAX;
    t.usdj_deposited = 5;
    t.solend_yield_earned = u64::MAX;
    t.reflect_yield_earned = u64::MAX;
    assert_eq!(t.calculate_total_yield(), u64::MAX);
    assert_eq!(ReflectTokenType::default(), ReflectTokenType::USDCPlus);
}
