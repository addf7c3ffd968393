//! Placing pooled funds with a lending venue, sharing the yield among the
//! members, and yearly return figures.

use vstd::prelude::*;
use crate::keys::Pubkey;
use crate::state::{
    Circle, CircleEscrow, MemberYieldShare, ReflectTokenType, SECONDS_PER_YEAR, annual_return_bps,
    apy_bps, saturating_mul, saturating_product,
};
use crate::ledger::{books_balance, ledger_step};
use crate::transfer::{TransferKind, TransferOrder};

verus! {

/// Least amount that can be placed with the lending venue at once.
pub const MIN_DEPOSIT: u64 = 100_000_000;

/// Why a yield operation was refused.
#[derive(Clone, Copy, Debug, PartialEq, Eq, Structural)]
pub enum ErrorCode {
    BelowMinimumDeposit,
    InsufficientSolendBalance,
    MemberNotFound,
    NoClaimableYield,
    UnauthorizedMember,
    /// A sum or difference cannot be represented.
    ArithmeticOverflow,
}

impl ErrorCode {
    /// The text that describes the error to a user.
    pub open spec fn message_text(&self) -> Seq<char> {
        match *self {
            ErrorCode::BelowMinimumDeposit => "Deposit amount below minimum threshold"@,
            ErrorCode::InsufficientSolendBalance => "Insufficient Solend balance"@,
            ErrorCode::MemberNotFound => "Member not found"@,
            ErrorCode::NoClaimableYield => "No claimable yield"@,
            ErrorCode::UnauthorizedMember => "Unauthorized member"@,
            ErrorCode::ArithmeticOverflow => "Arithmetic overflow"@,
        }
    }

    /// The text that describes the error to a user.
    pub fn message(&self) -> (text: &'static str)
        ensures
            text@ == self.message_text(),
    {
        match *self {
            ErrorCode::BelowMinimumDeposit => "Deposit amount below minimum threshold",
            ErrorCode::InsufficientSolendBalance => "Insufficient Solend balance",
            ErrorCode::MemberNotFound => "Member not found",
            ErrorCode::NoClaimableYield => "No claimable yield",
            ErrorCode::UnauthorizedMember => "Unauthorized member",
            ErrorCode::ArithmeticOverflow => "Arithmetic overflow",
        }
    }
}

/// Why a deposit is refused, if it is; the first reason that applies, in
/// this order.
pub open spec fn deposit_to_solend_refusal(escrow: &CircleEscrow, circle: &Circle, amount: u64) -> Option<
    ErrorCode,
> {
    if amount < MIN_DEPOSIT {
        Some(ErrorCode::BelowMinimumDeposit)
    } else if escrow.total_amount < amount || escrow.solend_c_token_balance + amount > u64::MAX
        || circle.total_pot < amount {
        Some(ErrorCode::ArithmeticOverflow)
    } else {
        None
    }
}

/// Places `amount` of the pooled funds with the lending venue. The amount
/// leaves the escrow balance and the circle's pot and is counted as placed.
///
/// The caller moves `amount` from escrow to the venue; the returned order
/// says so. A refused deposit changes nothing.
pub fn deposit_to_solend(escrow: &mut CircleEscrow, circle: &mut Circle, amount: u64) -> (r: Result<
    TransferOrder,
    ErrorCode,
>)
    ensures
        match deposit_to_solend_refusal(old(escrow), old(circle), amount) {
            Some(e) => {
                &&& r == Err::<TransferOrder, ErrorCode>(e)
                &&& *final(escrow) == *old(escrow)
                &&& *final(circle) == *old(circle)
            },
            None => {
                &&& r == Ok::<TransferOrder, ErrorCode>(
                    TransferOrder { kind: TransferKind::Payout, amount },
                )
                &&& *final(escrow) == (CircleEscrow {
                    total_amount: (old(escrow).total_amount - amount) as u64,
                    solend_c_token_balance: (old(escrow).solend_c_token_balance + amount) as u64,
                    ..*old(escrow)
                })
                &&& *final(circle) == (Circle {
                    total_pot: (old(circle).total_pot - amount) as u64,
                    ..*old(circle)
                })
            },
        },
        old(circle).wf() ==> final(circle).wf(),
        books_balance(old(circle), old(escrow)) ==> books_balance(final(circle), final(escrow)),
        ledger_step(old(circle), old(escrow), final(circle), final(escrow), 0),
{
    if amount < MIN_DEPOSIT {
        return Err(ErrorCode::BelowMinimumDeposit);
    }
    if escrow.total_amount < amount || circle.total_pot < amount {
        return Err(ErrorCode::ArithmeticOverflow);
    }
    let placed: u64 = match escrow.solend_c_token_balance.checked_add(amount) {
        None => {
            return Err(ErrorCode::ArithmeticOverflow);
        },
        Some(placed) => placed,
    };
    escrow.total_amount = escrow.total_amount - amount;
    escrow.solend_c_token_balance = placed;
    circle.total_pot = circle.total_pot - amount;
    Ok(TransferOrder::payout(amount))
}

/// Why a withdrawal is refused, if it is; the first reason that applies,
/// in this order.
pub open spec fn withdraw_from_solend_refusal(escrow: &CircleEscrow, circle: &Circle, amount: u64) -> Option<
    ErrorCode,
> {
    if escrow.solend_c_token_balance < amount {
        Some(ErrorCode::InsufficientSolendBalance)
    } else if escrow.total_amount + amount > u64::MAX || circle.total_pot + amount > u64::MAX {
        Some(ErrorCode::ArithmeticOverflow)
    } else {
        None
    }
}

/// Takes `amount` back from the lending venue into escrow and into the
/// circle's pot.
///
/// The caller moves `amount` from the venue to escrow; the returned order
/// says so. A refused withdrawal changes nothing.
pub fn withdraw_from_solend(escrow: &mut CircleEscrow, circle: &mut Circle, amount: u64) -> (r: Result<
    TransferOrder,
    ErrorCode,
>)
    ensures
        match withdraw_from_solend_refusal(old(escrow), old(circle), amount) {
            Some(e) => {
                &&& r == Err::<TransferOrder, ErrorCode>(e)
                &&& *final(escrow) == *old(escrow)
                &&& *final(circle) == *old(circle)
            },
            None => {
                &&& r == Ok::<TransferOrder, ErrorCode>(
                    TransferOrder { kind: TransferKind::Deposit, amount },
                )
                &&& *final(escrow) == (CircleEscrow {
                    total_amount: (old(escrow).total_amount + amount) as u64,
                    solend_c_token_balance: (old(escrow).solend_c_token_balance - amount) as u64,
                    ..*old(escrow)
                })
                &&& *final(circle) == (Circle {
                    total_pot: (old(circle).total_pot + amount) as u64,
                    ..*old(circle)
                })
            },
        },
        old(circle).wf() ==> final(circle).wf(),
        books_balance(old(circle), old(escrow)) ==> books_balance(final(circle), final(escrow)),
        ledger_step(old(circle), old(escrow), final(circle), final(escrow), 0),
{
    if escrow.solend_c_token_balance < amount {
        return Err(ErrorCode::InsufficientSolendBalance);
    }
    let held = escrow.total_amount.checked_add(amount);
    let pot = circle.total_pot.checked_add(amount);
    if held.is_none() || pot.is_none() {
        return Err(ErrorCode::ArithmeticOverflow);
    }
    escrow.total_amount = held.unwrap();
    escrow.solend_c_token_balance = escrow.solend_c_token_balance - amount;
    circle.total_pot = pot.unwrap();
    Ok(TransferOrder::deposit(amount))
}

/// The members of a list of yield shares, in order.
pub open spec fn share_owners(shares: Seq<MemberYieldShare>) -> Seq<Pubkey> {
    shares.map_values(|s: MemberYieldShare| s.member)
}

/// `shares` with the earned yield of `who` set to `earned`: in the first
/// share of `who`, or in a new share at the end where `who` has none.
pub open spec fn with_share(shares: Seq<MemberYieldShare>, who: Pubkey, earned: u64) -> Seq<
    MemberYieldShare,
> {
    match share_owners(shares).index_of_first(who) {
        Some(i) => shares.update(i, MemberYieldShare { yield_earned: earned, ..shares[i] }),
        None => shares.push(MemberYieldShare { member: who, yield_earned: earned, yield_claimed: 0 }),
    }
}

/// `shares` with the earned yield of every one of `members` set to
/// `earned`, taking the members in order.
pub open spec fn with_shares(shares: Seq<MemberYieldShare>, members: Seq<Pubkey>, earned: u64) -> Seq<
    MemberYieldShare,
>
    decreases members.len(),
{
    if members.len() == 0 {
        shares
    } else {
        with_share(with_shares(shares, members.drop_last(), earned), members.last(), earned)
    }
}

/// The yield earned so far: what the venue holds beyond the circle's pot.
pub open spec fn yield_earned(escrow: &CircleEscrow, circle: &Circle) -> u64 {
    if escrow.solend_c_token_balance > circle.total_pot {
        (escrow.solend_c_token_balance - circle.total_pot) as u64
    } else {
        0
    }
}

/// Position of the first share of `who`, if there is one.
pub fn find_share(shares: &Vec<MemberYieldShare>, who: Pubkey) -> (r: Option<usize>)
    ensures
        match r {
            Some(i) => share_owners(shares@).index_of_first(who) == Some(i as int) && i < shares@.len(),
            None => share_owners(shares@).index_of_first(who) is None,
        },
{
    let mut i: usize = 0;
    while i < shares.len()
        invariant
            i <= shares.len(),
            forall|j: int| 0 <= j < i ==> share_owners(shares@)[j] != who,
        decreases shares.len() - i,
    {
        if shares[i].member == who {
            proof {
                assert(share_owners(shares@)[i as int] == who);
                share_owners(shares@).index_of_first_ensures(who);
            }
            return Some(i);
        }
        i += 1;
    }
    proof {
        share_owners(shares@).index_of_first_ensures(who);
    }
    None
}

/// Works out the yield earned so far and credits every member of the
/// circle with an equal share of it, rounded down. Returns the members
/// with their shares, in roster order.
pub fn calculate_yield_share(escrow: &mut CircleEscrow, circle: &Circle, now: i64) -> (shares: Vec<
    (Pubkey, u64),
>)
    ensures
        shares@.len() == circle.members@.len(),
        forall|i: int|
            0 <= i < shares@.len() ==> #[trigger] shares@[i] == (
                circle.members@[i],
                (yield_earned(old(escrow), circle) / (circle.members@.len() as u64)) as u64,
            ),
        *final(escrow) == (CircleEscrow {
            total_yield_earned: yield_earned(old(escrow), circle),
            last_yield_calculation: now,
            member_yield_shares: final(escrow).member_yield_shares,
            ..*old(escrow)
        }),
        final(escrow).member_yield_shares@ == if circle.members@.len() == 0 {
            old(escrow).member_yield_shares@
        } else {
            with_shares(
                old(escrow).member_yield_shares@,
                circle.members@,
                (yield_earned(old(escrow), circle) / (circle.members@.len() as u64)) as u64,
            )
        },
{
    let earned: u64 = escrow.solend_c_token_balance.saturating_sub(circle.total_pot);
    escrow.total_yield_earned = earned;
    escrow.last_yield_calculation = now;
    let mut shares: Vec<(Pubkey, u64)> = Vec::new();
    let count: usize = circle.members.len();
    if count == 0 {
        return shares;
    }
    let each: u64 = earned / (count as u64);
    let mut i: usize = 0;
    while i < count
        invariant
            i <= count,
            count == circle.members@.len(),
            shares@.len() == i,
            forall|j: int| 0 <= j < i ==> #[trigger] shares@[j] == (circle.members@[j], each),
            *escrow == (CircleEscrow {
                total_yield_earned: earned,
                last_yield_calculation: now,
                member_yield_shares: escrow.member_yield_shares,
                ..*old(escrow)
            }),
            escrow.member_yield_shares@ == with_shares(
                old(escrow).member_yield_shares@,
                circle.members@.take(i as int),
                each,
            ),
        decreases count - i,
    {
        let who: Pubkey = circle.members[i];
        shares.push((who, each));
        proof {
            assert(circle.members@.take(i + 1).drop_last() =~= circle.members@.take(i as int));
            assert(circle.members@.take(i + 1).last() == who);
        }
        match find_share(&escrow.member_yield_shares, who) {
            Some(at) => {
                escrow.member_yield_shares[at].yield_earned = each;
            },
            None => {
                escrow.member_yield_shares.push(
                    MemberYieldShare { member: who, yield_earned: each, yield_claimed: 0 },
                );
            },
        }
        i += 1;
    }
    proof {
        assert(circle.members@.take(count as int) =~= circle.members@);
    }
    shares
}

/// What `member` can claim of its yield: what was earned and not yet
/// claimed; or the reason for which the claim is refused, the first that
/// applies, in this order.
pub open spec fn yield_claim_due(escrow: &CircleEscrow, member: Pubkey, member_authority: Pubkey) -> Result<
    u64,
    ErrorCode,
> {
    match share_owners(escrow.member_yield_shares@).index_of_first(member) {
        None => Err(ErrorCode::MemberNotFound),
        Some(i) => {
            let share = escrow.member_yield_shares@[i];
            if share.yield_earned < share.yield_claimed {
                Err(ErrorCode::ArithmeticOverflow)
            } else if share.yield_earned == share.yield_claimed {
                Err(ErrorCode::NoClaimableYield)
            } else if member_authority != member {
                Err(ErrorCode::UnauthorizedMember)
            } else if escrow.total_amount < share.yield_earned - share.yield_claimed {
                Err(ErrorCode::ArithmeticOverflow)
            } else {
                Ok((share.yield_earned - share.yield_claimed) as u64)
            }
        },
    }
}

/// Pays `member` the yield it has earned and not yet claimed, on the
/// member's own request.
///
/// The caller moves the amount of the returned order from escrow to the
/// member's token account. A refused claim changes nothing.
pub fn distribute_yield(escrow: &mut CircleEscrow, member: Pubkey, member_authority: Pubkey) -> (r:
    Result<TransferOrder, ErrorCode>)
    ensures
        match yield_claim_due(old(escrow), member, member_authority) {
            Err(e) => r == Err::<TransferOrder, ErrorCode>(e) && *final(escrow) == *old(escrow),
            Ok(claim) => {
                let i = share_owners(old(escrow).member_yield_shares@).index_of_first(member).unwrap();
                &&& r == Ok::<TransferOrder, ErrorCode>(
                    TransferOrder { kind: TransferKind::Payout, amount: claim },
                )
                &&& *final(escrow) == (CircleEscrow {
                    total_amount: (old(escrow).total_amount - claim) as u64,
                    member_yield_shares: final(escrow).member_yield_shares,
                    ..*old(escrow)
                })
                &&& final(escrow).member_yield_shares@ == old(escrow).member_yield_shares@.update(
                    i,
                    MemberYieldShare {
                        yield_claimed: old(escrow).member_yield_shares@[i].yield_earned,
                        ..old(escrow).member_yield_shares@[i]
                    },
                )
            },
        },
{
    let at: usize = match find_share(&escrow.member_yield_shares, member) {
        None => {
            return Err(ErrorCode::MemberNotFound);
        },
        Some(at) => at,
    };
    let earned: u64 = escrow.member_yield_shares[at].yield_earned;
    let claimed: u64 = escrow.member_yield_shares[at].yield_claimed;
    if earned < claimed {
        return Err(ErrorCode::ArithmeticOverflow);
    }
    let claim: u64 = earned - claimed;
    if claim == 0 {
        return Err(ErrorCode::NoClaimableYield);
    }
    if member_authority != member {
        return Err(ErrorCode::UnauthorizedMember);
    }
    if escrow.total_amount < claim {
        return Err(ErrorCode::ArithmeticOverflow);
    }
    escrow.member_yield_shares[at].yield_claimed = earned;
    escrow.total_amount = escrow.total_amount - claim;
    Ok(TransferOrder::payout(claim))
}

/// Yield of one circle from two sources: price appreciation of the
/// deposited token, and lending.
#[derive(Clone, Copy, Debug)]
pub struct ReflectYieldTracking {
    pub circle: Pubkey,
    pub usdc_plus_deposited: u64,
    pub usdj_deposited: u64,
    pub reflect_yield_earned: u64,
    pub solend_yield_earned: u64,
    pub last_yield_calculation: i64,
    pub reflect_price_at_deposit: u64,
    pub current_reflect_price: u64,
    pub token_type: ReflectTokenType,
    pub bump: u8,
}

/// The sum of two amounts, capped at the largest amount.
pub open spec fn saturating_sum(a: u64, b: u64) -> u64 {
    if a + b > u64::MAX {
        u64::MAX
    } else {
        (a + b) as u64
    }
}

impl ReflectYieldTracking {
    /// Bytes reserved for a stored record.
    pub fn space() -> (n: usize)
        ensures
            n == 148,
    {
        8 + 32 + 8 + 8 + 8 + 8 + 8 + 8 + 8 + 1 + 1 + 50
    }

    /// The yield from both sources together, capped at the largest amount.
    pub fn calculate_total_yield(&self) -> (y: u64)
        ensures
            y == saturating_sum(self.reflect_yield_earned, self.solend_yield_earned),
    {
        self.reflect_yield_earned.saturating_add(self.solend_yield_earned)
    }

    /// The yearly return of `amount` on everything deposited, in basis
    /// points, over a period of `time_elapsed_seconds`: zero for a period
    /// that is not positive and where nothing is deposited.
    pub open spec fn apy_of(&self, amount: u64, time_elapsed_seconds: i64) -> u64 {
        if time_elapsed_seconds <= 0 || saturating_sum(self.usdc_plus_deposited, self.usdj_deposited)
            == 0 {
            0
        } else {
            apy_bps(
                amount,
                time_elapsed_seconds as int,
                saturating_sum(self.usdc_plus_deposited, self.usdj_deposited),
            )
        }
    }

    fn apy(&self, amount: u64, time_elapsed_seconds: i64) -> (r: u64)
        ensures
            r == self.apy_of(amount, time_elapsed_seconds),
    {
        if time_elapsed_seconds <= 0 {
            return 0;
        }
        let deposited: u64 = self.usdc_plus_deposited.saturating_add(self.usdj_deposited);
        if deposited == 0 {
            return 0;
        }
        annual_return_bps(amount, time_elapsed_seconds as u64, deposited)
    }

    /// Yearly return of the yield from both sources, in basis points.
    pub fn get_combined_apy(&self, time_elapsed_seconds: i64) -> (r: u64)
        ensures
            r == self.apy_of(
                saturating_sum(self.reflect_yield_earned, self.solend_yield_earned),
                time_elapsed_seconds,
            ),
    {
        self.apy(self.calculate_total_yield(), time_elapsed_seconds)
    }

    /// The price gain since the deposit, in basis points of the price at
    /// deposit, capped at the largest amount.
    pub open spec fn appreciation_bps(&self) -> u64 {
        saturating_product(
            if self.current_reflect_price > self.reflect_price_at_deposit {
                (self.current_reflect_price - self.reflect_price_at_deposit) as u64
            } else {
                0
            },
            10_000,
        ) / self.reflect_price_at_deposit
    }

    /// Yearly return from price appreciation, in basis points: the price
    /// gain scaled from the period to a year, capped at the largest amount
    /// before the division. Zero for a period that is not positive and
    /// where no price at deposit is known.
    pub fn get_reflect_apy(&self, time_elapsed_seconds: i64) -> (r: u64)
        ensures
            r == if time_elapsed_seconds <= 0 || self.reflect_price_at_deposit == 0 {
                0
            } else {
                saturating_product(self.appreciation_bps(), SECONDS_PER_YEAR) / (
                time_elapsed_seconds as u64)
            },
    {
        if time_elapsed_seconds <= 0 || self.reflect_price_at_deposit == 0 {
            return 0;
        }
        let gain: u64 = self.current_reflect_price.saturating_sub(self.reflect_price_at_deposit);
        let appreciation: u64 = saturating_mul(gain, 10_000) / self.reflect_price_at_deposit;
        saturating_mul(appreciation, SECONDS_PER_YEAR) / (time_elapsed_seconds as u64)
    }

    /// Yearly return of the yield from lending, in basis points.
    pub fn get_solend_apy(&self, time_elapsed_seconds: i64) -> (r: u64)
        ensures
            r == self.apy_of(self.solend_yield_earned, time_elapsed_seconds),
    {
        self.apy(self.solend_yield_earned, time_elapsed_seconds)
    }
}

} // verus!
