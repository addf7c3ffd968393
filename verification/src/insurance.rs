//! The insurance pool of a circle: stakes, claims against the stake of a
//! defaulting member, return with bonus, and slashing.

use vstd::prelude::*;
use crate::keys::Pubkey;
use crate::state::{Circle, Member, MemberStatus};
use crate::transfer::{TransferKind, TransferOrder};

verus! {

/// Why an insurance operation was refused.
#[derive(Clone, Copy, Debug, PartialEq, Eq, Structural)]
pub enum ErrorCode {
    InsufficientInsurance,
    ExcessiveInsurance,
    MemberNotFound,
    NoClaimableInsurance,
    InsufficientCoverage,
    /// A sum, difference, product or quotient cannot be represented.
    ArithmeticOverflow,
}

impl ErrorCode {
    /// The text that describes the error to a user.
    pub open spec fn message_text(&self) -> Seq<char> {
        match *self {
            ErrorCode::InsufficientInsurance => "Insufficient insurance amount"@,
            ErrorCode::ExcessiveInsurance => "Excessive insurance amount"@,
            ErrorCode::MemberNotFound => "Member not found"@,
            ErrorCode::NoClaimableInsurance => "No claimable insurance"@,
            ErrorCode::InsufficientCoverage => "Insufficient coverage"@,
            ErrorCode::ArithmeticOverflow => "Arithmetic overflow"@,
        }
    }

    /// The text that describes the error to a user.
    pub fn message(&self) -> (text: &'static str)
        ensures
            text@ == self.message_text(),
    {
        match *self {
            ErrorCode::InsufficientInsurance => "Insufficient insurance amount",
            ErrorCode::ExcessiveInsurance => "Excessive insurance amount",
            ErrorCode::MemberNotFound => "Member not found",
            ErrorCode::NoClaimableInsurance => "No claimable insurance",
            ErrorCode::InsufficientCoverage => "Insufficient coverage",
            ErrorCode::ArithmeticOverflow => "Arithmetic overflow",
        }
    }
}

/// What one member has staked in an insurance pool.
#[derive(Clone, Copy, Debug)]
pub struct MemberStake {
    pub member: Pubkey,
    pub amount_staked: u64,
    pub can_claim: bool,
}

/// The insurance pool of one circle.
#[derive(Clone, Debug)]
pub struct InsurancePool {
    pub circle: Pubkey,
    pub total_staked: u64,
    pub available_coverage: u64,
    pub claims_paid: u64,
    pub member_stakes: Vec<MemberStake>,
    pub bump: u8,
}

/// The members of a list of stakes, in order.
pub open spec fn stake_owners(stakes: Seq<MemberStake>) -> Seq<Pubkey> {
    stakes.map_values(|s: MemberStake| s.member)
}

/// The test that keeps every stake but those of `who`.
pub open spec fn not_owned_by(who: Pubkey) -> spec_fn(MemberStake) -> bool {
    |s: MemberStake| s.member != who
}

/// Position of the first stake of `who`, if there is one.
pub fn find_stake(stakes: &Vec<MemberStake>, who: Pubkey) -> (r: Option<usize>)
    ensures
        match r {
            Some(i) => stake_owners(stakes@).index_of_first(who) == Some(i as int) && i < stakes@.len(),
            None => stake_owners(stakes@).index_of_first(who) is None,
        },
{
    let mut i: usize = 0;
    while i < stakes.len()
        invariant
            i <= stakes.len(),
            forall|j: int| 0 <= j < i ==> stake_owners(stakes@)[j] != who,
        decreases stakes.len() - i,
    {
        if stakes[i].member == who {
            proof {
                assert(stake_owners(stakes@)[i as int] == who);
                stake_owners(stakes@).index_of_first_ensures(who);
            }
            return Some(i);
        }
        i += 1;
    }
    proof {
        stake_owners(stakes@).index_of_first_ensures(who);
    }
    None
}

/// The stakes of everyone but `who`, in order.
pub fn without_stakes_of(stakes: &Vec<MemberStake>, who: Pubkey) -> (kept: Vec<MemberStake>)
    ensures
        kept@ == stakes@.filter(not_owned_by(who)),
{
    let mut kept: Vec<MemberStake> = Vec::new();
    let mut i: usize = 0;
    proof {
        reveal(Seq::filter);
    }
    while i < stakes.len()
        invariant
            i <= stakes.len(),
            kept@ == stakes@.take(i as int).filter(not_owned_by(who)),
        decreases stakes.len() - i,
    {
        if stakes[i].member != who {
            kept.push(stakes[i]);
        }
        proof {
            reveal(Seq::filter);
            let next = stakes@.take(i + 1);
            assert(next.drop_last() =~= stakes@.take(i as int));
            assert(next.last() == stakes@[i as int]);
            assert(not_owned_by(who)(next.last()) == (stakes@[i as int].member != who));
        }
        i += 1;
    }
    proof {
        assert(stakes@.take(i as int) =~= stakes@);
    }
    kept
}

impl InsurancePool {
    /// Bytes reserved for a stored pool.
    pub fn space() -> (n: usize)
        ensures
            n == 989,
    {
        8 + 32 + 8 + 8 + 8 + 4 + (32 + 8 + 1) * 20 + 1 + 100
    }
}

/// Why a stake is refused, if it is; the first reason that applies, in
/// this order.
pub open spec fn stake_insurance_refusal(pool: &InsurancePool, circle: &Circle, amount: u64) -> Option<
    ErrorCode,
> {
    if circle.contribution_amount * 20 > u64::MAX {
        Some(ErrorCode::ArithmeticOverflow)
    } else if amount < (circle.contribution_amount * 10) / 100 {
        Some(ErrorCode::InsufficientInsurance)
    } else if amount > (circle.contribution_amount * 20) / 100 {
        Some(ErrorCode::ExcessiveInsurance)
    } else if pool.total_staked + amount > u64::MAX || pool.available_coverage + amount > u64::MAX {
        Some(ErrorCode::ArithmeticOverflow)
    } else {
        None
    }
}

/// Stakes insurance for `member`: between 10% and 20% of the circle's
/// contribution amount.
///
/// The caller moves `amount` from the member's token account into the
/// pool; the returned order says so. A refused stake changes nothing.
pub fn stake_insurance(
    pool: &mut InsurancePool,
    member: &mut Member,
    circle: &Circle,
    circle_key: Pubkey,
    amount: u64,
) -> (r: Result<TransferOrder, ErrorCode>)
    ensures
        match stake_insurance_refusal(old(pool), circle, amount) {
            Some(e) => {
                &&& r == Err::<TransferOrder, ErrorCode>(e)
                &&& *final(pool) == *old(pool)
                &&& *final(member) == *old(member)
            },
            None => {
                &&& r == Ok::<TransferOrder, ErrorCode>(
                    TransferOrder { kind: TransferKind::Deposit, amount },
                )
                &&& *final(pool) == (InsurancePool {
                    circle: circle_key,
                    total_staked: (old(pool).total_staked + amount) as u64,
                    available_coverage: (old(pool).available_coverage + amount) as u64,
                    member_stakes: final(pool).member_stakes,
                    ..*old(pool)
                })
                &&& final(pool).member_stakes@ == old(pool).member_stakes@.push(
                    MemberStake {
                        member: old(member).authority,
                        amount_staked: amount,
                        can_claim: false,
                    },
                )
                &&& *final(member) == (Member { insurance_staked: amount, ..*old(member) })
            },
        },
{
    let least: u64 = match circle.contribution_amount.checked_mul(10) {
        None => {
            return Err(ErrorCode::ArithmeticOverflow);
        },
        Some(scaled) => scaled / 100,
    };
    let most: u64 = match circle.contribution_amount.checked_mul(20) {
        None => {
            return Err(ErrorCode::ArithmeticOverflow);
        },
        Some(scaled) => scaled / 100,
    };
    if amount < least {
        return Err(ErrorCode::InsufficientInsurance);
    }
    if amount > most {
        return Err(ErrorCode::ExcessiveInsurance);
    }
    let staked = pool.total_staked.checked_add(amount);
    let coverage = pool.available_coverage.checked_add(amount);
    if staked.is_none() || coverage.is_none() {
        return Err(ErrorCode::ArithmeticOverflow);
    }
    pool.circle = circle_key;
    pool.total_staked = staked.unwrap();
    pool.available_coverage = coverage.unwrap();
    pool.member_stakes.push(
        MemberStake { member: member.authority, amount_staked: amount, can_claim: false },
    );
    member.insurance_staked = amount;
    Ok(TransferOrder::deposit(amount))
}

/// What `member` can claim against the stake of a defaulting member: that
/// stake, in proportion to the member's own share of all stakes, rounded
/// down; or the reason for which the claim is refused, the first that
/// applies, in this order.
pub open spec fn insurance_claim_due(pool: &InsurancePool, member: &Member, defaulting_member: Pubkey) -> Result<
    u64,
    ErrorCode,
> {
    match stake_owners(pool.member_stakes@).index_of_first(defaulting_member) {
        None => Err(ErrorCode::MemberNotFound),
        Some(i) => {
            let product = pool.member_stakes@[i].amount_staked * member.insurance_staked;
            if product > u64::MAX || pool.total_staked == 0 {
                Err(ErrorCode::ArithmeticOverflow)
            } else if product / (pool.total_staked as int) == 0 {
                Err(ErrorCode::NoClaimableInsurance)
            } else if pool.available_coverage < product / (pool.total_staked as int) {
                Err(ErrorCode::InsufficientCoverage)
            } else if pool.claims_paid + product / (pool.total_staked as int) > u64::MAX {
                Err(ErrorCode::ArithmeticOverflow)
            } else {
                Ok((product / (pool.total_staked as int)) as u64)
            }
        },
    }
}

/// The stakes after `who` has claimed: the first stake of `who`, if there
/// is one, can no longer claim.
pub open spec fn stakes_after_claim(stakes: Seq<MemberStake>, who: Pubkey) -> Seq<MemberStake> {
    match stake_owners(stakes).index_of_first(who) {
        Some(i) => stakes.update(i, MemberStake { can_claim: false, ..stakes[i] }),
        None => stakes,
    }
}

/// Pays `member` its share of the stake of a defaulting member out of the
/// pool.
///
/// The caller moves the amount of the returned order from the pool to the
/// member's token account. A refused claim changes nothing.
pub fn claim_insurance(pool: &mut InsurancePool, member: &Member, defaulting_member: Pubkey) -> (r:
    Result<TransferOrder, ErrorCode>)
    ensures
        match insurance_claim_due(old(pool), member, defaulting_member) {
            Err(e) => r == Err::<TransferOrder, ErrorCode>(e) && *final(pool) == *old(pool),
            Ok(claim) => {
                &&& r == Ok::<TransferOrder, ErrorCode>(
                    TransferOrder { kind: TransferKind::Payout, amount: claim },
                )
                &&& *final(pool) == (InsurancePool {
                    available_coverage: (old(pool).available_coverage - claim) as u64,
                    claims_paid: (old(pool).claims_paid + claim) as u64,
                    member_stakes: final(pool).member_stakes,
                    ..*old(pool)
                })
                &&& final(pool).member_stakes@ == stakes_after_claim(
                    old(pool).member_stakes@,
                    member.authority,
                )
            },
        },
{
    let at: usize = match find_stake(&pool.member_stakes, defaulting_member) {
        None => {
            return Err(ErrorCode::MemberNotFound);
        },
        Some(at) => at,
    };
    let product: u64 = match pool.member_stakes[at].amount_staked.checked_mul(member.insurance_staked) {
        None => {
            return Err(ErrorCode::ArithmeticOverflow);
        },
        Some(product) => product,
    };
    if pool.total_staked == 0 {
        return Err(ErrorCode::ArithmeticOverflow);
    }
    let claim: u64 = product / pool.total_staked;
    if claim == 0 {
        return Err(ErrorCode::NoClaimableInsurance);
    }
    if pool.available_coverage < claim {
        return Err(ErrorCode::InsufficientCoverage);
    }
    let paid: u64 = match pool.claims_paid.checked_add(claim) {
        None => {
            return Err(ErrorCode::ArithmeticOverflow);
        },
        Some(paid) => paid,
    };
    pool.available_coverage = pool.available_coverage - claim;
    pool.claims_paid = paid;
    match find_stake(&pool.member_stakes, member.authority) {
        Some(own) => {
            pool.member_stakes[own].can_claim = false;
        },
        None => {},
    }
    Ok(TransferOrder::payout(claim))
}

/// What `member` gets back from the pool: its first stake and a bonus of
/// 5% of it, rounded down; or the reason for which the return is refused,
/// the first that applies, in this order.
pub open spec fn insurance_return_due(pool: &InsurancePool, member: &Member) -> Result<u64, ErrorCode> {
    match stake_owners(pool.member_stakes@).index_of_first(member.authority) {
        None => Err(ErrorCode::MemberNotFound),
        Some(i) => {
            let staked = pool.member_stakes@[i].amount_staked;
            if staked * 5 > u64::MAX || staked + (staked * 5) / 100 > u64::MAX {
                Err(ErrorCode::ArithmeticOverflow)
            } else if pool.available_coverage < staked + (staked * 5) / 100 {
                Err(ErrorCode::InsufficientCoverage)
            } else if pool.total_staked < staked {
                Err(ErrorCode::ArithmeticOverflow)
            } else {
                Ok((staked + (staked * 5) / 100) as u64)
            }
        },
    }
}

/// Returns `member`'s stake with its bonus and takes every stake of the
/// member out of the pool.
///
/// The caller moves the amount of the returned order from the pool to the
/// member's token account. A refused return changes nothing.
pub fn return_insurance_with_bonus(pool: &mut InsurancePool, member: &mut Member) -> (r: Result<
    TransferOrder,
    ErrorCode,
>)
    ensures
        match insurance_return_due(old(pool), old(member)) {
            Err(e) => {
                &&& r == Err::<TransferOrder, ErrorCode>(e)
                &&& *final(pool) == *old(pool)
                &&& *final(member) == *old(member)
            },
            Ok(total_return) => {
                let i = stake_owners(old(pool).member_stakes@).index_of_first(
                    old(member).authority,
                ).unwrap();
                &&& r == Ok::<TransferOrder, ErrorCode>(
                    TransferOrder { kind: TransferKind::Payout, amount: total_return },
                )
                &&& *final(pool) == (InsurancePool {
                    available_coverage: (old(pool).available_coverage - total_return) as u64,
                    total_staked: (old(pool).total_staked - old(pool).member_stakes@[i].amount_staked) as u64,
                    member_stakes: final(pool).member_stakes,
                    ..*old(pool)
                })
                &&& final(pool).member_stakes@ == old(pool).member_stakes@.filter(
                    not_owned_by(old(member).authority),
                )
                &&& *final(member) == (Member { insurance_staked: 0, ..*old(member) })
            },
        },
{
    let at: usize = match find_stake(&pool.member_stakes, member.authority) {
        None => {
            return Err(ErrorCode::MemberNotFound);
        },
        Some(at) => at,
    };
    let staked: u64 = pool.member_stakes[at].amount_staked;
    let bonus: u64 = match staked.checked_mul(5) {
        None => {
            return Err(ErrorCode::ArithmeticOverflow);
        },
        Some(scaled) => scaled / 100,
    };
    let total_return: u64 = match staked.checked_add(bonus) {
        None => {
            return Err(ErrorCode::ArithmeticOverflow);
        },
        Some(total) => total,
    };
    if pool.available_coverage < total_return {
        return Err(ErrorCode::InsufficientCoverage);
    }
    if pool.total_staked < staked {
        return Err(ErrorCode::ArithmeticOverflow);
    }
    pool.available_coverage = pool.available_coverage - total_return;
    pool.total_staked = pool.total_staked - staked;
    pool.member_stakes = without_stakes_of(&pool.member_stakes, member.authority);
    member.insurance_staked = 0;
    Ok(TransferOrder::payout(total_return))
}

/// What is slashed when `member` defaults: its first stake; or the reason
/// for which the slashing is refused, the first that applies, in this
/// order.
pub open spec fn insurance_slash_due(pool: &InsurancePool, member: &Member) -> Result<u64, ErrorCode> {
    match stake_owners(pool.member_stakes@).index_of_first(member.authority) {
        None => Err(ErrorCode::MemberNotFound),
        Some(i) => {
            let staked = pool.member_stakes@[i].amount_staked;
            if pool.total_staked < staked || pool.available_coverage < staked {
                Err(ErrorCode::ArithmeticOverflow)
            } else {
                Ok(staked)
            }
        },
    }
}

/// Forfeits `member`'s stake: the pool no longer counts it, every stake of
/// the member leaves the pool, and the member is in default. Nothing is to
/// be transferred. A refused slashing changes nothing.
pub fn slash_insurance(pool: &mut InsurancePool, member: &mut Member) -> (r: Result<(), ErrorCode>)
    ensures
        match insurance_slash_due(old(pool), old(member)) {
            Err(e) => {
                &&& r == Err::<(), ErrorCode>(e)
                &&& *final(pool) == *old(pool)
                &&& *final(member) == *old(member)
            },
            Ok(slashed) => {
                &&& r == Ok::<(), ErrorCode>(())
                &&& *final(pool) == (InsurancePool {
                    total_staked: (old(pool).total_staked - slashed) as u64,
                    available_coverage: (old(pool).available_coverage - slashed) as u64,
                    member_stakes: final(pool).member_stakes,
                    ..*old(pool)
                })
                &&& final(pool).member_stakes@ == old(pool).member_stakes@.filter(
                    not_owned_by(old(member).authority),
                )
                &&& *final(member) == (Member {
                    insurance_staked: 0,
                    status: MemberStatus::Defaulted,
                    ..*old(member)
                })
            },
        },
{
    let at: usize = match find_stake(&pool.member_stakes, member.authority) {
        None => {
            return Err(ErrorCode::MemberNotFound);
        },
        Some(at) => at,
    };
    let slashed: u64 = pool.member_stakes[at].amount_staked;
    if pool.total_staked < slashed || pool.available_coverage < slashed {
        return Err(ErrorCode::ArithmeticOverflow);
    }
    pool.total_staked = pool.total_staked - slashed;
    pool.available_coverage = pool.available_coverage - slashed;
    pool.member_stakes = without_stakes_of(&pool.member_stakes, member.authority);
    member.insurance_staked = 0;
    member.status = MemberStatus::Defaulted;
    Ok(())
}

} // verus!
