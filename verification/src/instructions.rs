//! The life of a circle: creation, admission of members, monthly
//! contributions, distribution of the pot, penalty claims and exit.
//!
//! Each operation comes with a function that says whether, and why, it is
//! refused. A refused operation changes none of the records it was given.

use vstd::prelude::*;
use crate::errors::HaloError;
use crate::keys::{Pubkey, contains_key, lemma_remove_keeps_distinct, position};
use crate::ledger::{
    blank_month, books_balance, entries_unique, has_entry, ledger_step, lemma_entries_total_push,
    lemma_months_distribute_totals, lemma_months_record_distributed, lemma_months_record_total,
    months_distribute, months_record,
};
use crate::state::{
    Circle, CircleEscrow, CircleStatus, CircleType, Member, MemberContribution, MemberStatus,
    MonthlyContribution, PayoutMethod, current_month_index, month_index,
};
use crate::transfer::{TransferKind, TransferOrder, delta_of};
use crate::trust::{TrustLookup, TrustScore, TrustTier, rescored, stake_multiplier};

verus! {

/// Records `entry` for month `m`, adding the months up to `m` that the
/// list does not hold yet.
fn record_entry(months: &mut Vec<MonthlyContribution>, m: u8, entry: MemberContribution)
    requires
        m < old(months)@.len() ==> old(months)@[m as int].total_collected + entry.amount <= u64::MAX,
    ensures
        months_record(old(months)@, final(months)@, m as int, entry),
{
    let len: usize = months.len();
    let at: usize = m as usize;
    if at < len {
        let total: u64 = months[at].total_collected + entry.amount;
        months[at].contributions.push(entry);
        months[at].total_collected = total;
    } else {
        let mut k: usize = len;
        while k < at
            invariant
                len <= k <= at,
                at == m,
                len == old(months)@.len(),
                months@.len() == k,
                forall|i: int| 0 <= i < len ==> #[trigger] months@[i] == old(months)@[i],
                forall|i: int| len <= i < k ==> blank_month(#[trigger] months@[i], i),
            decreases at - k,
        {
            months.push(
                MonthlyContribution {
                    month: k as u8,
                    contributions: Vec::new(),
                    total_collected: 0,
                    distributed_to: None,
                },
            );
            k += 1;
        }
        let mut entries: Vec<MemberContribution> = Vec::new();
        entries.push(entry);
        months.push(
            MonthlyContribution {
                month: m,
                contributions: entries,
                total_collected: entry.amount,
                distributed_to: None,
            },
        );
    }
}

/// Why a contribution is refused, if it is; the first reason that applies,
/// in this order.
pub open spec fn contribute_refusal(
    circle: &Circle,
    member: &Member,
    escrow: &CircleEscrow,
    trust: &TrustLookup,
    amount: u64,
    now: i64,
) -> Option<HaloError> {
    if circle.status != CircleStatus::Active {
        Some(HaloError::CircleNotActive)
    } else if member.status != MemberStatus::Active {
        Some(HaloError::MemberInDefault)
    } else if amount != circle.contribution_amount {
        Some(HaloError::InvalidContributionAmount)
    } else {
        match month_index(circle.created_at, now, circle.duration_months) {
            None => Some(HaloError::ArithmeticOverflow),
            Some(m) => {
                if m >= member.contribution_history@.len() || member.contribution_history@[m as int]
                    != 0 {
                    Some(HaloError::ContributionAlreadyMade)
                } else if m >= escrow.monthly_pots@.len() {
                    Some(HaloError::InvalidContributionMonth)
                } else if (trust matches TrustLookup::Known(ts) && ts.total_contributions + amount
                    > u64::MAX) || (m < circle.monthly_contributions@.len()
                    && circle.monthly_contributions@[m as int].total_collected + amount > u64::MAX)
                    || circle.total_pot + amount > u64::MAX || escrow.total_amount + amount
                    > u64::MAX || escrow.monthly_pots@[m as int] + amount > u64::MAX {
                    Some(HaloError::ArithmeticOverflow)
                } else {
                    None
                }
            },
        }
    }
}

/// What an accepted contribution of `amount` at `now` into month `m`
/// changes in the four records.
pub open spec fn contribute_applied(
    circle0: &Circle,
    member0: &Member,
    escrow0: &CircleEscrow,
    trust0: &TrustLookup,
    circle1: &Circle,
    member1: &Member,
    escrow1: &CircleEscrow,
    trust1: &TrustLookup,
    amount: u64,
    now: i64,
    m: u8,
) -> bool {
    &&& *circle1 == (Circle {
        current_month: m,
        monthly_contributions: circle1.monthly_contributions,
        total_pot: (circle0.total_pot + amount) as u64,
        ..*circle0
    })
    &&& months_record(
        circle0.monthly_contributions@,
        circle1.monthly_contributions@,
        m as int,
        MemberContribution { member: member0.authority, amount, timestamp: now },
    )
    &&& *escrow1 == (CircleEscrow {
        total_amount: (escrow0.total_amount + amount) as u64,
        monthly_pots: escrow1.monthly_pots,
        ..*escrow0
    })
    &&& escrow1.monthly_pots@ == escrow0.monthly_pots@.update(
        m as int,
        (escrow0.monthly_pots@[m as int] + amount) as u64,
    )
    &&& member1.contribution_history@ == member0.contribution_history@.update(m as int, amount)
    &&& match *trust0 {
        TrustLookup::Absent => {
            &&& *trust1 == TrustLookup::Absent
            &&& *member1 == (Member { contribution_history: member1.contribution_history, ..*member0 })
        },
        TrustLookup::Known(ts0) => {
            &&& *trust1 matches TrustLookup::Known(ts1)
            &&& rescored(
                TrustScore {
                    total_contributions: (ts0.total_contributions + amount) as u64,
                    last_updated: now,
                    ..ts0
                },
                ts1,
            )
            &&& *member1 == (Member {
                contribution_history: member1.contribution_history,
                trust_score: ts1.score,
                trust_tier: ts1.tier,
                ..*member0
            })
        },
    }
}

/// An accepted contribution keeps the circle well formed, keeps the
/// member's history in step with the ledger, keeps the books balanced and
/// raises the recorded total by the amount paid.
pub proof fn lemma_contribution_keeps_books(
    circle0: &Circle,
    member0: &Member,
    escrow0: &CircleEscrow,
    trust0: &TrustLookup,
    circle1: &Circle,
    member1: &Member,
    escrow1: &CircleEscrow,
    trust1: &TrustLookup,
    amount: u64,
    now: i64,
)
    requires
        contribute_refusal(circle0, member0, escrow0, trust0, amount, now) is None,
        contribute_applied(
            circle0,
            member0,
            escrow0,
            trust0,
            circle1,
            member1,
            escrow1,
            trust1,
            amount,
            now,
            month_index(circle0.created_at, now, circle0.duration_months).unwrap(),
        ),
    ensures
        circle1.recorded_total() == circle0.recorded_total() + amount,
        circle1.total_pot == circle0.total_pot + amount,
        escrow1.total_amount == escrow0.total_amount + amount,
        books_balance(circle0, escrow0) && !month_is_distributed(circle0, now) ==> books_balance(
            circle1,
            escrow1,
        ),
        escrow0.fits(circle0) ==> escrow1.fits(circle1),
        circle0.wf() && member0.agrees_with(circle0) ==> circle1.wf() && member1.agrees_with(
            circle1,
        ),
        ledger_step(circle0, escrow0, circle1, escrow1, 0),
{
    let m = month_index(circle0.created_at, now, circle0.duration_months).unwrap() as int;
    let entry = MemberContribution { member: member0.authority, amount, timestamp: now };
    let before = circle0.monthly_contributions@;
    let after = circle1.monthly_contributions@;
    lemma_months_record_total(before, after, m, entry);
    if !month_is_distributed(circle0, now) {
        lemma_months_record_distributed(before, after, m, entry);
    }
    if circle0.wf() && member0.agrees_with(circle0) {
        assert(!circle0.paid_in(member0.authority, m));
        assert forall|i: int| 0 <= i < after.len() implies {
            &&& (#[trigger] after[i]).month == i
            &&& after[i].wf()
        } by {
            if i == m {
                if m < before.len() {
                    let old_entries = before[m].contributions@;
                    lemma_entries_total_push(old_entries, entry);
                    assert(!has_entry(old_entries, member0.authority));
                    assert(entries_unique(old_entries));
                    assert(entries_unique(old_entries.push(entry)));
                } else {
                    assert(seq![entry] =~= Seq::<MemberContribution>::empty().push(entry));
                    lemma_entries_total_push(Seq::<MemberContribution>::empty(), entry);
                }
            } else if i < before.len() {
                assert(after[i] == before[i]);
            } else {
                assert(blank_month(after[i], i));
            }
        }
        assert(circle1.wf());
        assert forall|k: int| 0 <= k < member1.contribution_history@.len() implies ((
        #[trigger] member1.contribution_history@[k]) != 0 <==> circle1.paid_in(
            member1.authority,
            k,
        )) by {
            if k == m {
                let entries = after[m].contributions@;
                assert(entries[entries.len() - 1].member == member1.authority);
                assert(has_entry(entries, member1.authority));
            } else if k < before.len() {
                assert(after[k] == before[k]);
                assert(member0.contribution_history@[k] != 0 <==> circle0.paid_in(
                    member0.authority,
                    k,
                ));
            } else if k < m {
                assert(blank_month(after[k], k));
                assert(member0.contribution_history@[k] != 0 <==> circle0.paid_in(
                    member0.authority,
                    k,
                ));
            } else {
                assert(member0.contribution_history@[k] != 0 <==> circle0.paid_in(
                    member0.authority,
                    k,
                ));
            }
        }
    }
}

/// Records the monthly contribution of `member` into `circle` at time `now`.
///
/// The caller moves `amount` from the member's token account into escrow;
/// the returned order says so. A refused contribution changes nothing.
pub fn contribute(
    circle: &mut Circle,
    member: &mut Member,
    escrow: &mut CircleEscrow,
    trust: &mut TrustLookup,
    amount: u64,
    now: i64,
) -> (r: Result<TransferOrder, HaloError>)
    ensures
        match contribute_refusal(old(circle), old(member), old(escrow), old(trust), amount, now) {
            Some(e) => {
                &&& r == Err::<TransferOrder, HaloError>(e)
                &&& *final(circle) == *old(circle)
                &&& *final(member) == *old(member)
                &&& *final(escrow) == *old(escrow)
                &&& *final(trust) == *old(trust)
            },
            None => {
                &&& r == Ok::<TransferOrder, HaloError>(
                    TransferOrder { kind: TransferKind::Deposit, amount },
                )
                &&& contribute_applied(
                    old(circle),
                    old(member),
                    old(escrow),
                    old(trust),
                    final(circle),
                    final(member),
                    final(escrow),
                    final(trust),
                    amount,
                    now,
                    month_index(old(circle).created_at, now, old(circle).duration_months).unwrap(),
                )
            },
        },
        old(circle).wf() && old(member).agrees_with(old(circle)) ==> final(circle).wf()
            && final(member).agrees_with(final(circle)),
        books_balance(old(circle), old(escrow)) && !month_is_distributed(old(circle), now)
            ==> books_balance(final(circle), final(escrow)),
        old(escrow).fits(old(circle)) ==> final(escrow).fits(final(circle)),
        ledger_step(old(circle), old(escrow), final(circle), final(escrow), 0),
        r is Ok ==> (*final(trust) matches TrustLookup::Known(ts) ==> ts.consistent()),
        r matches Ok(order) ==> final(escrow).total_amount == old(escrow).total_amount + order.delta(),
{
    if circle.status != CircleStatus::Active {
        return Err(HaloError::CircleNotActive);
    }
    if member.status != MemberStatus::Active {
        return Err(HaloError::MemberInDefault);
    }
    if amount != circle.contribution_amount {
        return Err(HaloError::InvalidContributionAmount);
    }
    let m: u8 = match current_month_index(circle.created_at, now, circle.duration_months) {
        None => {
            return Err(HaloError::ArithmeticOverflow);
        },
        Some(m) => m,
    };
    let at: usize = m as usize;
    if at >= member.contribution_history.len() || member.contribution_history[at] != 0 {
        return Err(HaloError::ContributionAlreadyMade);
    }
    if at >= escrow.monthly_pots.len() {
        return Err(HaloError::InvalidContributionMonth);
    }
    if let TrustLookup::Known(ts) = &*trust {
        if ts.total_contributions.checked_add(amount).is_none() {
            return Err(HaloError::ArithmeticOverflow);
        }
    }
    if at < circle.monthly_contributions.len()
        && circle.monthly_contributions[at].total_collected.checked_add(amount).is_none() {
        return Err(HaloError::ArithmeticOverflow);
    }
    if circle.total_pot.checked_add(amount).is_none() || escrow.total_amount.checked_add(
        amount,
    ).is_none() || escrow.monthly_pots[at].checked_add(amount).is_none() {
        return Err(HaloError::ArithmeticOverflow);
    }
    member.contribution_history[at] = amount;
    match trust {
        TrustLookup::Known(ts) => {
            ts.total_contributions = ts.total_contributions + amount;
            ts.last_updated = now;
            ts.calculate_score();
            member.trust_score = ts.score;
            member.trust_tier = ts.tier;
        },
        TrustLookup::Absent => {},
    }
    circle.current_month = m;
    record_entry(
        &mut circle.monthly_contributions,
        m,
        MemberContribution { member: member.authority, amount, timestamp: now },
    );
    circle.total_pot = circle.total_pot + amount;
    escrow.total_amount = escrow.total_amount + amount;
    escrow.monthly_pots[at] = escrow.monthly_pots[at] + amount;
    proof {
        lemma_contribution_keeps_books(
            old(circle),
            old(member),
            old(escrow),
            old(trust),
            circle,
            member,
            escrow,
            trust,
            amount,
            now,
        );
    }
    Ok(TransferOrder::deposit(amount))
}

/// Why a circle with these parameters is refused, if it is.
pub open spec fn initialize_circle_refusal(
    contribution_amount: u64,
    duration_months: u8,
    max_members: u8,
    penalty_rate: u16,
) -> Option<HaloError> {
    if !(0 < duration_months <= Circle::MAX_DURATION) {
        Some(HaloError::InvalidDuration)
    } else if !(0 < max_members <= Circle::MAX_MEMBERS) {
        Some(HaloError::InvalidMaxMembers)
    } else if contribution_amount == 0 {
        Some(HaloError::InvalidContributionAmount)
    } else if penalty_rate > 10000 {
        Some(HaloError::InvalidPenaltyRate)
    } else {
        None
    }
}

/// A list of `n` zeros.
pub fn zeros(n: usize) -> (v: Vec<u64>)
    ensures
        v@.len() == n,
        forall|i: int| 0 <= i < n ==> v@[i] == 0,
{
    let mut v: Vec<u64> = Vec::new();
    let mut i: usize = 0;
    while i < n
        invariant
            i <= n,
            v@.len() == i,
            forall|j: int| 0 <= j < i ==> v@[j] == 0,
        decreases n - i,
    {
        v.push(0);
        i += 1;
    }
    v
}

/// Creates a circle and the escrow bound to it.
///
/// `circle_key` is the address under which the circle is stored; the escrow
/// refers to it. The circle's id is the creation time. Every field that no
/// parameter sets starts empty, zero or at its first variant.
pub fn initialize_circle(
    creator: Pubkey,
    circle_key: Pubkey,
    contribution_amount: u64,
    duration_months: u8,
    max_members: u8,
    penalty_rate: u16,
    now: i64,
    circle_bump: u8,
    escrow_bump: u8,
) -> (r: Result<(Circle, CircleEscrow), HaloError>)
    ensures
        match initialize_circle_refusal(contribution_amount, duration_months, max_members, penalty_rate) {
            Some(e) => r == Err::<(Circle, CircleEscrow), HaloError>(e),
            None => {
                &&& r matches Ok((circle, escrow))
                &&& circle == (Circle {
                    creator,
                    id: now as u64,
                    contribution_amount,
                    duration_months,
                    max_members,
                    current_members: 0,
                    current_month: 0,
                    penalty_rate,
                    status: CircleStatus::Active,
                    created_at: now,
                    members: circle.members,
                    monthly_contributions: circle.monthly_contributions,
                    total_pot: 0,
                    bump: circle_bump,
                    payout_method: PayoutMethod::FixedRotation,
                    payout_queue: circle.payout_queue,
                    min_trust_tier: 0,
                    insurance_pool: Pubkey::spec_zero(),
                    circle_type: CircleType::Standard,
                    invite_code: None,
                    is_public: false,
                    escrow_account: Pubkey::spec_zero(),
                    total_yield_earned: 0,
                    next_payout_recipient: None,
                })
                &&& circle.members@.len() == 0
                &&& circle.monthly_contributions@.len() == 0
                &&& circle.payout_queue@.len() == 0
                &&& escrow == (CircleEscrow {
                    circle: circle_key,
                    total_amount: 0,
                    monthly_pots: escrow.monthly_pots,
                    bump: escrow_bump,
                    total_yield_earned: 0,
                    solend_c_token_balance: 0,
                    last_yield_calculation: 0,
                    member_yield_shares: escrow.member_yield_shares,
                    reflect_yield_earned: 0,
                    solend_yield_earned: 0,
                    reflect_token_type: None,
                    reflect_initial_price: 0,
                })
                &&& escrow.monthly_pots@.len() == duration_months
                &&& (forall|i: int| 0 <= i < duration_months ==> escrow.monthly_pots@[i] == 0)
                &&& escrow.member_yield_shares@.len() == 0
                &&& circle.wf()
                &&& escrow.fits(&circle)
                &&& books_balance(&circle, &escrow)
            },
        },
{
    if !(duration_months > 0 && duration_months <= Circle::MAX_DURATION) {
        return Err(HaloError::InvalidDuration);
    }
    if !(max_members > 0 && max_members as usize <= Circle::MAX_MEMBERS) {
        return Err(HaloError::InvalidMaxMembers);
    }
    if contribution_amount == 0 {
        return Err(HaloError::InvalidContributionAmount);
    }
    if penalty_rate > 10000 {
        return Err(HaloError::InvalidPenaltyRate);
    }
    let circle = Circle {
        creator,
        id: #[verifier::truncate] (now as u64),
        contribution_amount,
        duration_months,
        max_members,
        current_members: 0,
        current_month: 0,
        penalty_rate,
        status: CircleStatus::Active,
        created_at: now,
        members: Vec::new(),
        monthly_contributions: Vec::new(),
        total_pot: 0,
        bump: circle_bump,
        payout_method: PayoutMethod::FixedRotation,
        payout_queue: Vec::new(),
        min_trust_tier: 0,
        insurance_pool: Pubkey::zero(),
        circle_type: CircleType::Standard,
        invite_code: None,
        is_public: false,
        escrow_account: Pubkey::zero(),
        total_yield_earned: 0,
        next_payout_recipient: None,
    };
    let escrow = CircleEscrow {
        circle: circle_key,
        total_amount: 0,
        monthly_pots: zeros(duration_months as usize),
        bump: escrow_bump,
        total_yield_earned: 0,
        solend_c_token_balance: 0,
        last_yield_calculation: 0,
        member_yield_shares: Vec::new(),
        reflect_yield_earned: 0,
        solend_yield_earned: 0,
        reflect_token_type: None,
        reflect_initial_price: 0,
    };
    Ok((circle, escrow))
}

/// The least stake that admits a caller with this reputation: the tier's
/// percentage of the base contribution, or twice the base contribution
/// where no record exists. There is none where the product does not fit in
/// 64 bits.
pub open spec fn minimum_stake(circle: &Circle, trust: &TrustLookup) -> Option<u64> {
    match *trust {
        TrustLookup::Known(ts) => {
            if circle.contribution_amount * stake_multiplier(ts.tier) > u64::MAX {
                None
            } else {
                Some(((circle.contribution_amount * stake_multiplier(ts.tier)) / 100) as u64)
            }
        },
        TrustLookup::Absent => {
            if circle.contribution_amount * 2 > u64::MAX {
                None
            } else {
                Some((circle.contribution_amount * 2) as u64)
            }
        },
    }
}

/// Computes `minimum_stake`.
pub fn minimum_stake_for(circle: &Circle, trust: &TrustLookup) -> (r: Option<u64>)
    ensures
        r == minimum_stake(circle, trust),
{
    match trust {
        TrustLookup::Known(ts) => {
            match circle.contribution_amount.checked_mul(ts.get_minimum_stake_multiplier()) {
                None => None,
                Some(scaled) => Some(scaled / 100),
            }
        },
        TrustLookup::Absent => circle.contribution_amount.checked_mul(2),
    }
}

/// Why a request to join is refused, if it is; the first reason that
/// applies, in this order.
pub open spec fn join_circle_refusal(
    circle: &Circle,
    escrow: &CircleEscrow,
    authority: Pubkey,
    trust: &TrustLookup,
    stake_amount: u64,
) -> Option<HaloError> {
    if circle.status != CircleStatus::Active {
        Some(HaloError::CircleNotActive)
    } else if circle.current_members >= circle.max_members {
        Some(HaloError::CircleFull)
    } else if circle.members@.contains(authority) {
        Some(HaloError::MemberAlreadyExists)
    } else {
        match minimum_stake(circle, trust) {
            None => Some(HaloError::ArithmeticOverflow),
            Some(least) => {
                if stake_amount < least {
                    Some(HaloError::InsufficientStake)
                } else if escrow.total_amount + stake_amount > u64::MAX {
                    Some(HaloError::ArithmeticOverflow)
                } else {
                    None
                }
            },
        }
    }
}

/// The member record that an accepted join creates.
pub open spec fn joined_member(
    member: &Member,
    circle: &Circle,
    circle_key: Pubkey,
    authority: Pubkey,
    trust: &TrustLookup,
    stake_amount: u64,
    now: i64,
    bump: u8,
) -> bool {
    &&& *member == (Member {
        authority,
        circle: circle_key,
        stake_amount,
        contribution_history: member.contribution_history,
        status: MemberStatus::Active,
        has_received_pot: false,
        penalties: 0,
        joined_at: now,
        trust_score: match *trust {
            TrustLookup::Known(ts) => ts.score,
            TrustLookup::Absent => 0,
        },
        trust_tier: match *trust {
            TrustLookup::Known(ts) => ts.tier,
            TrustLookup::Absent => TrustTier::Newcomer,
        },
        contributions_missed: 0,
        bump,
        payout_claimed: false,
        payout_position: 0,
        insurance_staked: 0,
        contribution_records: member.contribution_records,
    })
    &&& member.contribution_history@.len() == circle.duration_months
    &&& (forall|i: int| 0 <= i < member.contribution_history@.len() ==> member.contribution_history@[i] == 0)
    &&& member.contribution_records@.len() == 0
}

/// Admits `authority` to `circle` with the stake offered.
///
/// The caller moves the stake from the member's token account into escrow
/// if the returned order is present; a stake of zero needs no transfer. A
/// refused request changes nothing.
pub fn join_circle(
    circle: &mut Circle,
    circle_key: Pubkey,
    escrow: &mut CircleEscrow,
    authority: Pubkey,
    trust: &TrustLookup,
    stake_amount: u64,
    now: i64,
    bump: u8,
) -> (r: Result<(Member, Option<TransferOrder>), HaloError>)
    ensures
        match join_circle_refusal(old(circle), old(escrow), authority, trust, stake_amount) {
            Some(e) => {
                &&& r == Err::<(Member, Option<TransferOrder>), HaloError>(e)
                &&& *final(circle) == *old(circle)
                &&& *final(escrow) == *old(escrow)
            },
            None => {
                &&& r matches Ok((member, order))
                &&& joined_member(&member, old(circle), circle_key, authority, trust, stake_amount, now, bump)
                &&& order == if stake_amount > 0 {
                    Some(TransferOrder { kind: TransferKind::Deposit, amount: stake_amount })
                } else {
                    None::<TransferOrder>
                }
                &&& *final(circle) == (Circle {
                    members: final(circle).members,
                    current_members: (old(circle).current_members + 1) as u8,
                    ..*old(circle)
                })
                &&& final(circle).members@ == old(circle).members@.push(authority)
                &&& *final(escrow) == (CircleEscrow {
                    total_amount: (old(escrow).total_amount + stake_amount) as u64,
                    ..*old(escrow)
                })
                &&& (forall|m: int| !(#[trigger] old(circle).paid_in(authority, m)))
                    ==> member.agrees_with(final(circle))
            },
        },
        old(circle).wf() ==> final(circle).wf(),
        books_balance(old(circle), old(escrow)) ==> books_balance(final(circle), final(escrow)),
        old(escrow).fits(old(circle)) ==> final(escrow).fits(final(circle)),
        ledger_step(old(circle), old(escrow), final(circle), final(escrow), 0),
        r matches Ok((_, order)) ==> final(escrow).total_amount == old(escrow).total_amount + delta_of(
            order,
        ),
{
    if circle.status != CircleStatus::Active {
        return Err(HaloError::CircleNotActive);
    }
    if circle.current_members >= circle.max_members {
        return Err(HaloError::CircleFull);
    }
    if contains_key(&circle.members, authority) {
        return Err(HaloError::MemberAlreadyExists);
    }
    let least: u64 = match minimum_stake_for(circle, trust) {
        None => {
            return Err(HaloError::ArithmeticOverflow);
        },
        Some(least) => least,
    };
    if stake_amount < least {
        return Err(HaloError::InsufficientStake);
    }
    let total: u64 = match escrow.total_amount.checked_add(stake_amount) {
        None => {
            return Err(HaloError::ArithmeticOverflow);
        },
        Some(total) => total,
    };
    let (trust_score, trust_tier) = match trust {
        TrustLookup::Known(ts) => (ts.score, ts.tier),
        TrustLookup::Absent => (0u16, TrustTier::Newcomer),
    };
    let member = Member {
        authority,
        circle: circle_key,
        stake_amount,
        contribution_history: zeros(circle.duration_months as usize),
        status: MemberStatus::Active,
        has_received_pot: false,
        penalties: 0,
        joined_at: now,
        trust_score,
        trust_tier,
        contributions_missed: 0,
        bump,
        payout_claimed: false,
        payout_position: 0,
        insurance_staked: 0,
        contribution_records: Vec::new(),
    };
    circle.members.push(authority);
    circle.current_members = circle.current_members + 1;
    escrow.total_amount = total;
    let order = if stake_amount > 0 {
        Some(TransferOrder::deposit(stake_amount))
    } else {
        None
    };
    proof {
        if forall|m: int| !(#[trigger] old(circle).paid_in(authority, m)) {
            assert forall|m: int| 0 <= m < member.contribution_history@.len() implies ((
            #[trigger] member.contribution_history@[m]) != 0 <==> circle.paid_in(
                member.authority,
                m,
            )) by {
                assert(!old(circle).paid_in(authority, m));
            }
        }
        if old(circle).wf() {
            let before = old(circle).members@;
            let after = circle.members@;
            assert forall|a: int, b: int| 0 <= a < after.len() && 0 <= b < after.len() && a != b implies after[a]
                != after[b] by {
                if a == before.len() {
                    assert(before.contains(after[b]));
                } else if b == before.len() {
                    assert(before.contains(after[a]));
                }
            }
        }
    }
    Ok((member, order))
}

/// Whether the pot of the month in which `now` falls has been distributed.
pub open spec fn month_is_distributed(circle: &Circle, now: i64) -> bool {
    month_index(circle.created_at, now, circle.duration_months) matches Some(m) && m
        < circle.monthly_contributions@.len()
        && circle.monthly_contributions@[m as int].distributed_to is Some
}

/// Why a distribution is refused, if it is; the first reason that applies,
/// in this order.
pub open spec fn distribute_pot_refusal(
    circle: &Circle,
    recipient: &Member,
    escrow: &CircleEscrow,
    now: i64,
) -> Option<HaloError> {
    if circle.status != CircleStatus::Active {
        Some(HaloError::CircleNotActive)
    } else if month_is_distributed(circle, now) {
        Some(HaloError::PotAlreadyDistributed)
    } else if recipient.has_received_pot {
        Some(HaloError::MemberAlreadyReceivedPot)
    } else {
        match month_index(circle.created_at, now, circle.duration_months) {
            None => Some(HaloError::ArithmeticOverflow),
            Some(m) => {
                if m >= circle.monthly_contributions@.len()
                    || circle.monthly_contributions@[m as int].total_collected == 0 {
                    Some(HaloError::NoContributionsToDistribute)
                } else if circle.monthly_contributions@[m as int].total_collected
                    > escrow.total_amount
                    || circle.monthly_contributions@[m as int].total_collected > circle.total_pot {
                    Some(HaloError::ArithmeticOverflow)
                } else {
                    None
                }
            },
        }
    }
}

/// Pays the pot of the current month to `recipient`.
///
/// The caller moves the amount of the returned order from escrow to the
/// recipient's token account. The amount leaves the escrow balance and the
/// circle's pot. Paying the pot of the last month completes the circle. A
/// refused distribution changes nothing.
pub fn distribute_pot(
    circle: &mut Circle,
    recipient: &mut Member,
    escrow: &mut CircleEscrow,
    now: i64,
) -> (r: Result<TransferOrder, HaloError>)
    ensures
        match distribute_pot_refusal(old(circle), old(recipient), old(escrow), now) {
            Some(e) => {
                &&& r == Err::<TransferOrder, HaloError>(e)
                &&& *final(circle) == *old(circle)
                &&& *final(recipient) == *old(recipient)
                &&& *final(escrow) == *old(escrow)
            },
            None => {
                let m = month_index(old(circle).created_at, now, old(circle).duration_months).unwrap();
                let pot = old(circle).monthly_contributions@[m as int].total_collected;
                &&& r == Ok::<TransferOrder, HaloError>(
                    TransferOrder { kind: TransferKind::Payout, amount: pot },
                )
                &&& pot > 0
                &&& *final(circle) == (Circle {
                    monthly_contributions: final(circle).monthly_contributions,
                    total_pot: (old(circle).total_pot - pot) as u64,
                    status: if m == old(circle).duration_months - 1 {
                        CircleStatus::Completed
                    } else {
                        CircleStatus::Active
                    },
                    ..*old(circle)
                })
                &&& final(circle).total_pot == old(circle).total_pot - pot
                &&& final(circle).monthly_contributions@ == old(circle).monthly_contributions@.update(
                    m as int,
                    MonthlyContribution {
                        distributed_to: Some(old(recipient).authority),
                        ..old(circle).monthly_contributions@[m as int]
                    },
                )
                &&& *final(recipient) == (Member { has_received_pot: true, ..*old(recipient) })
                &&& *final(escrow) == (CircleEscrow {
                    total_amount: (old(escrow).total_amount - pot) as u64,
                    ..*old(escrow)
                })
            },
        },
        old(circle).wf() ==> final(circle).wf(),
        final(circle).recorded_total() == old(circle).recorded_total(),
        books_balance(old(circle), old(escrow)) ==> books_balance(final(circle), final(escrow)),
        old(escrow).fits(old(circle)) ==> final(escrow).fits(final(circle)),
        ledger_step(
            old(circle),
            old(escrow),
            final(circle),
            final(escrow),
            match r {
                Ok(order) => order.amount as int,
                Err(_) => 0,
            },
        ),
        forall|who: Pubkey, k: int| #[trigger]
            final(circle).paid_in(who, k) == old(circle).paid_in(who, k),
        r matches Ok(order) ==> final(escrow).total_amount == old(escrow).total_amount + order.delta(),
        r matches Ok(order) ==> final(circle).total_pot == old(circle).total_pot + order.delta(),
{
    if circle.status != CircleStatus::Active {
        return Err(HaloError::CircleNotActive);
    }
    let month: Option<u8> = current_month_index(circle.created_at, now, circle.duration_months);
    if let Some(m) = month {
        if (m as usize) < circle.monthly_contributions.len() && circle.monthly_contributions[m
            as usize].distributed_to.is_some() {
            return Err(HaloError::PotAlreadyDistributed);
        }
    }
    if recipient.has_received_pot {
        return Err(HaloError::MemberAlreadyReceivedPot);
    }
    let m: u8 = match month {
        None => {
            return Err(HaloError::ArithmeticOverflow);
        },
        Some(m) => m,
    };
    let at: usize = m as usize;
    if at >= circle.monthly_contributions.len() {
        return Err(HaloError::NoContributionsToDistribute);
    }
    let pot: u64 = circle.monthly_contributions[at].total_collected;
    if pot == 0 {
        return Err(HaloError::NoContributionsToDistribute);
    }
    if pot > escrow.total_amount || pot > circle.total_pot {
        return Err(HaloError::ArithmeticOverflow);
    }
    circle.monthly_contributions[at].distributed_to = Some(recipient.authority);
    circle.total_pot = circle.total_pot - pot;
    recipient.has_received_pot = true;
    escrow.total_amount = escrow.total_amount - pot;
    if m >= circle.duration_months - 1 {
        circle.status = CircleStatus::Completed;
    }
    proof {
        let before = old(circle).monthly_contributions@;
        let after = circle.monthly_contributions@;
        assert(months_distribute(before, after, m as int));
        lemma_months_distribute_totals(before, after, m as int);
        assert forall|who: Pubkey, k: int| #[trigger]
            circle.paid_in(who, k) == old(circle).paid_in(who, k) by {
            if 0 <= k < before.len() {
                assert(after[k].contributions@ == before[k].contributions@);
            }
        }
    }
    Ok(TransferOrder::payout(pot))
}

/// Why a penalty claim is refused, if it is; the first reason that
/// applies, in this order.
pub open spec fn claim_penalty_refusal(
    circle: &Circle,
    defaulted_member: &Member,
    escrow: &CircleEscrow,
) -> Option<HaloError> {
    if circle.status != CircleStatus::Active {
        Some(HaloError::CircleNotActive)
    } else if defaulted_member.status != MemberStatus::Defaulted {
        Some(HaloError::MemberNotFound)
    } else if defaulted_member.penalties == 0 {
        Some(HaloError::NoContributionsToDistribute)
    } else if defaulted_member.penalties > escrow.total_amount {
        Some(HaloError::ArithmeticOverflow)
    } else {
        None
    }
}

/// Settles the whole penalty balance of a defaulted member.
///
/// The caller moves the amount of the returned order from escrow to the
/// claimer's token account. A refused claim changes nothing.
pub fn claim_penalty(circle: &Circle, defaulted_member: &mut Member, escrow: &mut CircleEscrow) -> (r:
    Result<TransferOrder, HaloError>)
    ensures
        match claim_penalty_refusal(circle, old(defaulted_member), old(escrow)) {
            Some(e) => {
                &&& r == Err::<TransferOrder, HaloError>(e)
                &&& *final(defaulted_member) == *old(defaulted_member)
                &&& *final(escrow) == *old(escrow)
            },
            None => {
                &&& r == Ok::<TransferOrder, HaloError>(
                    TransferOrder {
                        kind: TransferKind::Payout,
                        amount: old(defaulted_member).penalties,
                    },
                )
                &&& *final(defaulted_member) == (Member { penalties: 0, ..*old(defaulted_member) })
                &&& *final(escrow) == (CircleEscrow {
                    total_amount: (old(escrow).total_amount - old(defaulted_member).penalties) as u64,
                    ..*old(escrow)
                })
            },
        },
        books_balance(circle, old(escrow)) ==> books_balance(circle, final(escrow)),
        old(escrow).fits(circle) ==> final(escrow).fits(circle),
        ledger_step(circle, old(escrow), circle, final(escrow), 0),
        r matches Ok(order) ==> final(escrow).total_amount == old(escrow).total_amount + order.delta(),
{
    if circle.status != CircleStatus::Active {
        return Err(HaloError::CircleNotActive);
    }
    if defaulted_member.status != MemberStatus::Defaulted {
        return Err(HaloError::MemberNotFound);
    }
    let penalty: u64 = defaulted_member.penalties;
    if penalty == 0 {
        return Err(HaloError::NoContributionsToDistribute);
    }
    if penalty > escrow.total_amount {
        return Err(HaloError::ArithmeticOverflow);
    }
    defaulted_member.penalties = 0;
    escrow.total_amount = escrow.total_amount - penalty;
    Ok(TransferOrder::payout(penalty))
}

/// Why a request to leave is refused, if it is; the first reason that
/// applies, in this order.
pub open spec fn leave_circle_refusal(
    circle: &Circle,
    member: &Member,
    escrow: &CircleEscrow,
    now: i64,
) -> Option<HaloError> {
    if circle.status == CircleStatus::Completed {
        Some(HaloError::CircleEnded)
    } else {
        match month_index(circle.created_at, now, circle.duration_months) {
            None => Some(HaloError::ArithmeticOverflow),
            Some(m) => {
                if m != 0 && member.status != MemberStatus::Defaulted {
                    Some(HaloError::CannotLeaveActivePeriod)
                } else if member.stake_amount > escrow.total_amount {
                    Some(HaloError::ArithmeticOverflow)
                } else if circle.members@.contains(member.authority) && circle.current_members == 0 {
                    Some(HaloError::ArithmeticOverflow)
                } else {
                    None
                }
            },
        }
    }
}

/// Lets `member` leave `circle`, in month 0 or while in default, and
/// returns the whole stake.
///
/// The caller moves the stake from escrow back to the member's token
/// account if the returned order is present; a stake of zero needs no
/// transfer. The member is taken off the roster where it stands on it. A
/// refused request changes nothing.
pub fn leave_circle(circle: &mut Circle, member: &mut Member, escrow: &mut CircleEscrow, now: i64) -> (r:
    Result<Option<TransferOrder>, HaloError>)
    ensures
        match leave_circle_refusal(old(circle), old(member), old(escrow), now) {
            Some(e) => {
                &&& r == Err::<Option<TransferOrder>, HaloError>(e)
                &&& *final(circle) == *old(circle)
                &&& *final(member) == *old(member)
                &&& *final(escrow) == *old(escrow)
            },
            None => {
                let listed = old(circle).members@.contains(old(member).authority);
                &&& r == Ok::<Option<TransferOrder>, HaloError>(
                    if old(member).stake_amount > 0 {
                        Some(
                            TransferOrder {
                                kind: TransferKind::Payout,
                                amount: old(member).stake_amount,
                            },
                        )
                    } else {
                        None
                    },
                )
                &&& *final(member) == (Member { status: MemberStatus::Exited, ..*old(member) })
                &&& *final(escrow) == (CircleEscrow {
                    total_amount: (old(escrow).total_amount - old(member).stake_amount) as u64,
                    ..*old(escrow)
                })
                &&& *final(circle) == (Circle {
                    members: final(circle).members,
                    current_members: if listed {
                        (old(circle).current_members - 1) as u8
                    } else {
                        old(circle).current_members
                    },
                    ..*old(circle)
                })
                &&& final(circle).members@ == old(circle).members@.remove_value(old(member).authority)
            },
        },
        old(circle).wf() ==> final(circle).wf(),
        old(circle).wf() && r is Ok ==> !final(circle).members@.contains(old(member).authority),
        books_balance(old(circle), old(escrow)) ==> books_balance(final(circle), final(escrow)),
        old(escrow).fits(old(circle)) ==> final(escrow).fits(final(circle)),
        ledger_step(old(circle), old(escrow), final(circle), final(escrow), 0),
        r matches Ok(order) ==> final(escrow).total_amount == old(escrow).total_amount + delta_of(order),
{
    if circle.status == CircleStatus::Completed {
        return Err(HaloError::CircleEnded);
    }
    let m: u8 = match current_month_index(circle.created_at, now, circle.duration_months) {
        None => {
            return Err(HaloError::ArithmeticOverflow);
        },
        Some(m) => m,
    };
    if m != 0 && member.status != MemberStatus::Defaulted {
        return Err(HaloError::CannotLeaveActivePeriod);
    }
    let stake: u64 = member.stake_amount;
    if stake > escrow.total_amount {
        return Err(HaloError::ArithmeticOverflow);
    }
    let place: Option<usize> = position(&circle.members, member.authority);
    if place.is_some() && circle.current_members == 0 {
        return Err(HaloError::ArithmeticOverflow);
    }
    escrow.total_amount = escrow.total_amount - stake;
    member.status = MemberStatus::Exited;
    match place {
        Some(i) => {
            proof {
                if old(circle).wf() {
                    lemma_remove_keeps_distinct(old(circle).members@, i as int);
                }
            }
            circle.members.remove(i);
            circle.current_members = circle.current_members - 1;
        },
        None => {},
    }
    Ok(if stake > 0 {
        Some(TransferOrder::payout(stake))
    } else {
        None
    })
}

/// A second contribution of the same member for the same month is refused
/// as already made, whenever the first was accepted.
pub proof fn lemma_second_contribution_refused(
    circle0: &Circle,
    member0: &Member,
    escrow0: &CircleEscrow,
    trust0: &TrustLookup,
    circle1: &Circle,
    member1: &Member,
    escrow1: &CircleEscrow,
    trust1: &TrustLookup,
    amount: u64,
    now: i64,
    later: i64,
)
    requires
        circle0.wf(),
        contribute_refusal(circle0, member0, escrow0, trust0, amount, now) is None,
        contribute_applied(
            circle0,
            member0,
            escrow0,
            trust0,
            circle1,
            member1,
            escrow1,
            trust1,
            amount,
            now,
            month_index(circle0.created_at, now, circle0.duration_months).unwrap(),
        ),
        month_index(circle0.created_at, later, circle0.duration_months) == month_index(
            circle0.created_at,
            now,
            circle0.duration_months,
        ),
    ensures
        contribute_refusal(circle1, member1, escrow1, trust1, amount, later) == Some(
            HaloError::ContributionAlreadyMade,
        ),
{
}

/// A contribution for a month that the member has paid is refused as
/// already made, whatever else the records hold.
pub proof fn lemma_paid_month_is_refused(
    circle: &Circle,
    member: &Member,
    escrow: &CircleEscrow,
    trust: &TrustLookup,
    amount: u64,
    now: i64,
)
    requires
        circle.status == CircleStatus::Active,
        member.status == MemberStatus::Active,
        amount == circle.contribution_amount,
        month_index(circle.created_at, now, circle.duration_months) matches Some(m) && m
            < member.contribution_history@.len() && member.contribution_history@[m as int] != 0,
    ensures
        contribute_refusal(circle, member, escrow, trust, amount, now) == Some(
            HaloError::ContributionAlreadyMade,
        ),
{
}

/// A contribution of one member leaves the history of every other member
/// in step with the ledger.
pub proof fn lemma_contribution_keeps_others(
    circle0: &Circle,
    circle1: &Circle,
    m: int,
    entry: MemberContribution,
    other: &Member,
)
    requires
        0 <= m,
        circle1.duration_months == circle0.duration_months,
        months_record(circle0.monthly_contributions@, circle1.monthly_contributions@, m, entry),
        other.authority != entry.member,
        other.agrees_with(circle0),
    ensures
        other.agrees_with(circle1),
{
    let before = circle0.monthly_contributions@;
    let after = circle1.monthly_contributions@;
    assert forall|k: int| 0 <= k < other.contribution_history@.len() implies ((
    #[trigger] other.contribution_history@[k]) != 0 <==> circle1.paid_in(other.authority, k)) by {
        assert(other.contribution_history@[k] != 0 <==> circle0.paid_in(other.authority, k));
        if k == m {
            if m < before.len() {
                let old_entries = before[m].contributions@;
                let new_entries = after[m].contributions@;
                if has_entry(old_entries, other.authority) {
                    let j = choose|j: int|
                        0 <= j < old_entries.len() && (#[trigger] old_entries[j]).member
                            == other.authority;
                    assert(new_entries[j].member == other.authority);
                }
                if has_entry(new_entries, other.authority) {
                    let j = choose|j: int|
                        0 <= j < new_entries.len() && (#[trigger] new_entries[j]).member
                            == other.authority;
                    assert(old_entries[j].member == other.authority);
                }
            } else {
                assert(!has_entry(after[m].contributions@, other.authority));
            }
        } else if k < before.len() {
            assert(after[k] == before[k]);
        } else if k < m {
            assert(blank_month(after[k], k));
        }
    }
}

/// The least accepted stake is exactly the computed minimum: that stake is
/// accepted, and one unit less is refused as insufficient.
pub proof fn lemma_join_stake_boundary(
    circle: &Circle,
    escrow: &CircleEscrow,
    authority: Pubkey,
    trust: &TrustLookup,
)
    requires
        circle.status == CircleStatus::Active,
        circle.current_members < circle.max_members,
        !circle.members@.contains(authority),
        minimum_stake(circle, trust) matches Some(least) && escrow.total_amount + least <= u64::MAX,
    ensures
        join_circle_refusal(circle, escrow, authority, trust, minimum_stake(circle, trust).unwrap())
            is None,
        forall|stake: u64|
            stake < minimum_stake(circle, trust).unwrap() ==> #[trigger] join_circle_refusal(
                circle,
                escrow,
                authority,
                trust,
                stake,
            ) == Some(HaloError::InsufficientStake),
{
}

/// No accepted payout takes more out of escrow than escrow holds: where
/// the balance would not cover the amount, the operation is refused.
pub proof fn lemma_payouts_are_covered(
    circle: &Circle,
    member: &Member,
    escrow: &CircleEscrow,
    now: i64,
)
    ensures
        distribute_pot_refusal(circle, member, escrow, now) is None ==> {
            let pot = circle.monthly_contributions@[month_index(
                circle.created_at,
                now,
                circle.duration_months,
            ).unwrap() as int].total_collected;
            pot <= escrow.total_amount && pot <= circle.total_pot
        },
        claim_penalty_refusal(circle, member, escrow) is None ==> member.penalties
            <= escrow.total_amount,
        leave_circle_refusal(circle, member, escrow, now) is None ==> member.stake_amount
            <= escrow.total_amount,
{
}

} // verus!
