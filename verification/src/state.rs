//! The records of a circle, its members and its escrow, the payments
//! ledger with its totals, and the month arithmetic.

use vstd::prelude::*;
use crate::keys::Pubkey;
use crate::ledger::{entries_total, entries_unique, has_entry, ledger_total};
use crate::trust::TrustTier;

verus! {

/// Length of one contribution period: thirty days, in seconds.
pub const SECONDS_PER_MONTH: i64 = 2_592_000;

/// Length of the year used to annualise yield: 365 days, in seconds.
pub const SECONDS_PER_YEAR: u64 = 31_536_000;

#[derive(Clone, Copy, Debug, PartialEq, Eq, Structural)]
pub enum CircleStatus {
    Forming,
    Active,
    Completed,
    Terminated,
}

impl Default for CircleStatus {
    fn default() -> (s: Self)
        ensures
            s == CircleStatus::Active,
    {
        CircleStatus::Active
    }
}

#[derive(Clone, Copy, Debug, PartialEq, Eq, Structural)]
pub enum PayoutMethod {
    FixedRotation,
    Auction,
    Random,
}

#[derive(Clone, Copy, Debug, PartialEq, Eq, Structural)]
pub enum CircleType {
    Standard,
    AuctionBased,
    RandomRotation,
    Hybrid,
}

#[derive(Clone, Copy, Debug, PartialEq, Eq, Structural)]
pub enum MemberStatus {
    Active,
    Defaulted,
    Exited,
}

impl Default for MemberStatus {
    fn default() -> (s: Self)
        ensures
            s == MemberStatus::Active,
    {
        MemberStatus::Active
    }
}

#[derive(Clone, Copy, Debug, PartialEq, Eq, Structural)]
pub enum ReflectTokenType {
    USDCPlus,
    USDJ,
}

impl Default for ReflectTokenType {
    fn default() -> (t: Self)
        ensures
            t == ReflectTokenType::USDCPlus,
    {
        ReflectTokenType::USDCPlus
    }
}

/// One payment of one member into one month's pot.
#[derive(Clone, Copy, Debug)]
pub struct MemberContribution {
    pub member: Pubkey,
    pub amount: u64,
    pub timestamp: i64,
}

/// Roll-up of one month: who paid, how much was collected, and who
/// received the pot once it was distributed.
#[derive(Clone, Debug)]
pub struct MonthlyContribution {
    pub month: u8,
    pub contributions: Vec<MemberContribution>,
    pub total_collected: u64,
    pub distributed_to: Option<Pubkey>,
}

#[derive(Clone, Copy, Debug)]
pub struct ContributionRecord {
    pub month: u8,
    pub amount: u64,
    pub timestamp: i64,
    pub on_time: bool,
    pub days_late: u8,
}

/// One savings group.
#[derive(Clone, Debug)]
pub struct Circle {
    pub creator: Pubkey,
    pub id: u64,
    pub contribution_amount: u64,
    pub duration_months: u8,
    pub max_members: u8,
    pub current_members: u8,
    pub current_month: u8,
    pub penalty_rate: u16,
    pub status: CircleStatus,
    pub created_at: i64,
    pub members: Vec<Pubkey>,
    pub monthly_contributions: Vec<MonthlyContribution>,
    pub total_pot: u64,
    pub bump: u8,
    pub payout_method: PayoutMethod,
    pub payout_queue: Vec<Pubkey>,
    pub min_trust_tier: u8,
    pub insurance_pool: Pubkey,
    pub circle_type: CircleType,
    pub invite_code: Option<String>,
    pub is_public: bool,
    pub escrow_account: Pubkey,
    pub total_yield_earned: u64,
    pub next_payout_recipient: Option<Pubkey>,
}

/// One participant's stake in one circle.
#[derive(Clone, Debug)]
pub struct Member {
    pub authority: Pubkey,
    pub circle: Pubkey,
    pub stake_amount: u64,
    pub contribution_history: Vec<u64>,
    pub status: MemberStatus,
    pub has_received_pot: bool,
    pub penalties: u64,
    pub joined_at: i64,
    pub trust_score: u16,
    pub trust_tier: TrustTier,
    pub contributions_missed: u8,
    pub bump: u8,
    pub payout_claimed: bool,
    pub payout_position: u8,
    pub insurance_staked: u64,
    pub contribution_records: Vec<ContributionRecord>,
}

#[derive(Clone, Copy, Debug)]
pub struct MemberYieldShare {
    pub member: Pubkey,
    pub yield_earned: u64,
    pub yield_claimed: u64,
}

/// Custodial record that shadows the funds pooled by one circle.
#[derive(Clone, Debug)]
pub struct CircleEscrow {
    pub circle: Pubkey,
    pub total_amount: u64,
    pub monthly_pots: Vec<u64>,
    pub bump: u8,
    pub total_yield_earned: u64,
    pub solend_c_token_balance: u64,
    pub last_yield_calculation: i64,
    pub member_yield_shares: Vec<MemberYieldShare>,
    pub reflect_yield_earned: u64,
    pub solend_yield_earned: u64,
    pub reflect_token_type: Option<ReflectTokenType>,
    pub reflect_initial_price: u64,
}

/// The month in which `now` falls for a circle created at `created_at` that
/// runs for `duration` months: whole thirty-day periods elapsed, capped at
/// the last month. There is none where the elapsed time does not fit in 64
/// bits, where the clock stands a whole period or more before the creation
/// time, or where the circle has no month at all.
pub open spec fn month_index(created_at: i64, now: i64, duration: u8) -> Option<u8> {
    let elapsed = now - created_at;
    if duration < 1 || elapsed > i64::MAX || elapsed <= -SECONDS_PER_MONTH {
        None
    } else if elapsed < 0 {
        Some(0u8)
    } else if elapsed / (SECONDS_PER_MONTH as int) >= duration - 1 {
        Some((duration - 1) as u8)
    } else {
        Some((elapsed / (SECONDS_PER_MONTH as int)) as u8)
    }
}

/// Computes `month_index`.
pub fn current_month_index(created_at: i64, now: i64, duration_months: u8) -> (m: Option<u8>)
    ensures
        m == month_index(created_at, now, duration_months),
        m matches Some(k) ==> k < duration_months,
{
    if duration_months == 0 {
        return None;
    }
    match now.checked_sub(created_at) {
        None => {
            assert(now - created_at > i64::MAX || now - created_at < i64::MIN);
            None
        },
        Some(elapsed) => {
            if elapsed <= -SECONDS_PER_MONTH {
                None
            } else if elapsed < 0 {
                Some(0)
            } else {
                let q: i64 = elapsed / SECONDS_PER_MONTH;
                let last: u8 = duration_months - 1;
                if q >= last as i64 {
                    Some(last)
                } else {
                    Some(q as u8)
                }
            }
        },
    }
}

impl MonthlyContribution {
    /// The collected total is the sum of the payments, and no member paid
    /// twice.
    pub open spec fn wf(&self) -> bool {
        &&& self.total_collected == entries_total(self.contributions@)
        &&& entries_unique(self.contributions@)
    }
}

impl Circle {
    pub const MAX_MEMBERS: usize = 20;

    pub const MAX_DURATION: u8 = 24;

    /// Bytes reserved for a stored circle.
    pub fn space() -> (n: usize)
        ensures
            n == 24972,
    {
        let roster: usize = 4 + 32 * Self::MAX_MEMBERS;
        let month: usize = 1 + 4 + (32 + 8 + 8) * Self::MAX_MEMBERS + 8 + 33;
        assert(month * 24 == 24144);
        let ledger: usize = 4 + month * (Self::MAX_DURATION as usize);
        8 + 32 + 8 + 8 + 1 + 1 + 1 + 1 + 2 + 1 + 8 + roster + ledger + 8 + 1 + 100
    }

    /// Sum of every payment recorded so far.
    pub open spec fn recorded_total(&self) -> int {
        ledger_total(self.monthly_contributions@)
    }

    /// Whether `who` has a payment recorded for `month`.
    pub open spec fn paid_in(&self, who: Pubkey, month: int) -> bool {
        0 <= month < self.monthly_contributions@.len() && has_entry(
            self.monthly_contributions@[month].contributions@,
            who,
        )
    }

    /// The configuration is within its bounds, the roster matches the member
    /// count and holds nobody twice, and the month records are numbered by
    /// position, each with a total that is the sum of its payments and with
    /// at most one payment per member.
    pub open spec fn wf(&self) -> bool {
        &&& 1 <= self.duration_months <= Self::MAX_DURATION
        &&& 1 <= self.max_members <= Self::MAX_MEMBERS
        &&& self.contribution_amount > 0
        &&& self.penalty_rate <= 10000
        &&& self.current_members == self.members@.len()
        &&& self.current_members <= self.max_members
        &&& self.members@.no_duplicates()
        &&& self.current_month < self.duration_months
        &&& self.monthly_contributions@.len() <= self.duration_months
        &&& forall|i: int|
            0 <= i < self.monthly_contributions@.len() ==> {
                &&& (#[trigger] self.monthly_contributions@[i]).month == i
                &&& self.monthly_contributions@[i].wf()
            }
    }
}

impl Member {
    /// Bytes reserved for a stored member.
    pub fn space() -> (n: usize)
        ensures
            n == 349,
    {
        8 + 32 + 32 + 8 + 4 + 8 * (Circle::MAX_DURATION as usize) + 1 + 1 + 8 + 8 + 2 + 1 + 1 + 1 + 50
    }

    /// The member's history has one slot for each month of the circle, and
    /// a slot is non-zero exactly when the circle's ledger holds a payment
    /// of this member for that month.
    pub open spec fn agrees_with(&self, circle: &Circle) -> bool {
        &&& self.contribution_history@.len() == circle.duration_months
        &&& forall|m: int|
            0 <= m < self.contribution_history@.len() ==> ((#[trigger] self.contribution_history@[m])
                != 0 <==> circle.paid_in(self.authority, m))
    }
}

/// The product of two amounts, or the largest amount where the product
/// does not fit in 64 bits.
pub open spec fn saturating_product(a: u64, b: u64) -> u64 {
    if a * b > u64::MAX {
        u64::MAX
    } else {
        (a * b) as u64
    }
}

/// Computes `saturating_product`.
pub fn saturating_mul(a: u64, b: u64) -> (p: u64)
    ensures
        p == saturating_product(a, b),
{
    match a.checked_mul(b) {
        Some(p) => p,
        None => u64::MAX,
    }
}

/// What `amount`, earned over `elapsed` seconds, comes to in a year,
/// rounded down and cut to its low 64 bits.
pub open spec fn annualized(amount: u64, elapsed: int) -> u64 {
    ((amount * SECONDS_PER_YEAR) / elapsed) as u64
}

/// The yearly return on `principal`, in basis points, of `amount` earned
/// over `elapsed` seconds.
pub open spec fn apy_bps(amount: u64, elapsed: int, principal: u64) -> u64 {
    saturating_product(annualized(amount, elapsed), 10_000) / principal
}

/// Computes `apy_bps` for a positive time and a positive principal.
pub fn annual_return_bps(amount: u64, elapsed: u64, principal: u64) -> (r: u64)
    requires
        elapsed > 0,
        principal > 0,
    ensures
        r == apy_bps(amount, elapsed as int, principal),
{
    assert(amount * SECONDS_PER_YEAR <= u128::MAX) by (nonlinear_arith)
        requires
            amount <= u64::MAX,
            SECONDS_PER_YEAR == 31_536_000,
    ;
    let scaled: u128 = amount as u128 * SECONDS_PER_YEAR as u128;
    let yearly: u64 = #[verifier::truncate] ((scaled / elapsed as u128) as u64);
    saturating_mul(yearly, 10_000) / principal
}

impl CircleEscrow {
    /// Bytes reserved for a stored escrow.
    pub fn space() -> (n: usize)
        ensures
            n == 1359,
    {
        8 + 32 + 8 + 4 + 8 * 24 + 1 + 8 + 8 + 8 + 4 + (32 + 8 + 8) * 20 + 8 + 8 + 2 + 8 + 100
    }

    /// The yield from both sources together, capped at the largest amount.
    pub open spec fn total_dual_yield(&self) -> u64 {
        if self.reflect_yield_earned + self.solend_yield_earned > u64::MAX {
            u64::MAX
        } else {
            (self.reflect_yield_earned + self.solend_yield_earned) as u64
        }
    }

    /// The yield from both sources together, capped at the largest amount.
    pub fn calculate_total_dual_yield(&self) -> (y: u64)
        ensures
            y == self.total_dual_yield(),
    {
        self.reflect_yield_earned.saturating_add(self.solend_yield_earned)
    }

    /// The yearly return of `amount` on the escrow balance at
    /// `current_time`, in basis points: zero before the first yield
    /// calculation, at or before the time of the last one, and on an empty
    /// escrow.
    pub open spec fn apy_of(&self, amount: u64, current_time: i64) -> u64 {
        if self.last_yield_calculation == 0 || current_time <= self.last_yield_calculation
            || self.total_amount == 0 {
            0
        } else {
            apy_bps(amount, current_time - self.last_yield_calculation, self.total_amount)
        }
    }

    fn apy(&self, amount: u64, current_time: i64) -> (r: u64)
        ensures
            r == self.apy_of(amount, current_time),
    {
        if self.last_yield_calculation == 0 || current_time <= self.last_yield_calculation {
            return 0;
        }
        if self.total_amount == 0 {
            return 0;
        }
        let elapsed: u64 = (current_time as i128 - self.last_yield_calculation as i128) as u64;
        annual_return_bps(amount, elapsed, self.total_amount)
    }

    /// Yearly return of the yield from both sources, in basis points.
    pub fn get_combined_apy(&self, current_time: i64) -> (r: u64)
        ensures
            r == self.apy_of(self.total_dual_yield(), current_time),
    {
        self.apy(self.calculate_total_dual_yield(), current_time)
    }

    /// Yearly return of the yield from price appreciation, in basis points.
    pub fn get_reflect_apy(&self, current_time: i64) -> (r: u64)
        ensures
            r == self.apy_of(self.reflect_yield_earned, current_time),
    {
        self.apy(self.reflect_yield_earned, current_time)
    }

    /// Yearly return of the yield from lending, in basis points.
    pub fn get_solend_apy(&self, current_time: i64) -> (r: u64)
        ensures
            r == self.apy_of(self.solend_yield_earned, current_time),
    {
        self.apy(self.solend_yield_earned, current_time)
    }

    /// The escrow has one pot slot for each month of the circle.
    pub open spec fn fits(&self, circle: &Circle) -> bool {
        self.monthly_pots@.len() == circle.duration_months
    }
}

} // verus!
