//! Protocol revenue: fee rates, fee formulas, and the treasury that books
//! the fees collected.

use vstd::prelude::*;
use crate::errors::HaloError;
use crate::keys::Pubkey;
use crate::state::SECONDS_PER_YEAR;
use crate::transfer::{TransferKind, TransferOrder};

verus! {

/// Least interval between two collections of the management fee that can
/// be configured: one day, in seconds.
pub const MIN_FEE_INTERVAL: i64 = 86_400;

/// Highest fee rate that can be configured: 10%, in basis points.
pub const MAX_FEE_RATE: u16 = 1000;

/// The protocol's treasury: running totals of the fees collected.
#[derive(Clone, Copy, Debug)]
pub struct Treasury {
    pub authority: Pubkey,
    pub total_fees_collected: u64,
    pub distribution_fees: u64,
    pub yield_fees: u64,
    pub management_fees: u64,
    pub last_management_fee_collection: i64,
    pub bump: u8,
}

/// Fee rates, in basis points, and the collection interval.
#[derive(Clone, Copy, Debug)]
pub struct RevenueParams {
    pub authority: Pubkey,
    pub distribution_fee_rate: u16,
    pub yield_fee_rate: u16,
    pub management_fee_rate: u16,
    pub management_fee_interval: i64,
    pub last_updated: i64,
    pub bump: u8,
}

/// Fee totals reported for one period.
#[derive(Clone, Copy, Debug)]
pub struct RevenueReport {
    pub period_start: i64,
    pub period_end: i64,
    pub total_period_fees: u64,
    pub period_distribution_fees: u64,
    pub period_yield_fees: u64,
    pub period_management_fees: u64,
    pub active_circles: u32,
    pub total_distributions: u64,
    pub total_yield: u64,
    pub total_managed_stake: u64,
    pub bump: u8,
}

/// The fee on `amount` at `rate` basis points, rounded down. There is none
/// where the product does not fit in 64 bits.
pub open spec fn fee_of(amount: u64, rate: u16) -> Option<u64> {
    if amount * rate > u64::MAX {
        None
    } else {
        Some(((amount * rate) / 10000) as u64)
    }
}

/// The management fee on `stake` for a period: the yearly fee at `rate`
/// basis points, times the seconds elapsed, over the seconds of a year,
/// rounded down at both steps. The elapsed time counts as an unsigned
/// 64-bit number. There is none where a product does not fit in 64 bits.
pub open spec fn management_fee_of(stake: u64, rate: u16, time_elapsed_seconds: i64) -> Option<u64> {
    match fee_of(stake, rate) {
        None => None,
        Some(annual) => {
            if annual * (time_elapsed_seconds as u64) > u64::MAX {
                None
            } else {
                Some(((annual * (time_elapsed_seconds as u64)) / (SECONDS_PER_YEAR as int)) as u64)
            }
        },
    }
}

fn fee(amount: u64, rate: u16) -> (r: Option<u64>)
    ensures
        r == fee_of(amount, rate),
{
    match amount.checked_mul(rate as u64) {
        None => None,
        Some(scaled) => Some(scaled / 10000),
    }
}

/// The order for a fee: none for a fee of zero.
pub open spec fn fee_order(f: u64) -> Option<TransferOrder> {
    if f > 0 {
        Some(TransferOrder { kind: TransferKind::Payout, amount: f })
    } else {
        None
    }
}

fn order_for(f: u64) -> (o: Option<TransferOrder>)
    ensures
        o == fee_order(f),
{
    if f > 0 {
        Some(TransferOrder::payout(f))
    } else {
        None
    }
}

impl Treasury {
    /// Bytes reserved for the stored treasury.
    pub const SPACE: usize = 8 + 32 + 8 + 8 + 8 + 8 + 8 + 1 + 100;

    /// The total is the sum of the fees of the three kinds.
    pub open spec fn balanced(&self) -> bool {
        self.total_fees_collected == self.distribution_fees + self.yield_fees + self.management_fees
    }
}

impl RevenueReport {
    /// Bytes reserved for a stored report.
    pub const SPACE: usize = 8 + 8 + 8 + 8 + 8 + 8 + 8 + 4 + 8 + 8 + 8 + 1 + 50;
}

impl RevenueParams {
    /// Bytes reserved for the stored parameters.
    pub const SPACE: usize = 8 + 32 + 2 + 2 + 2 + 8 + 8 + 1 + 50;

    /// The rates and the interval that new parameters start with: 0.5% on
    /// distributions, 0.25% on yield, 2% a year on stakes, collected every
    /// thirty days.
    pub fn default_params() -> (d: (u16, u16, u16, i64))
        ensures
            d == (50u16, 25u16, 200u16, 2_592_000i64),
    {
        (50, 25, 200, 30 * 24 * 60 * 60)
    }

    /// The fee on a distribution of `amount`.
    pub fn calculate_distribution_fee(&self, amount: u64) -> (r: Result<u64, HaloError>)
        ensures
            r == match fee_of(amount, self.distribution_fee_rate) {
                Some(f) => Ok::<u64, HaloError>(f),
                None => Err::<u64, HaloError>(HaloError::ArithmeticOverflow),
            },
    {
        match fee(amount, self.distribution_fee_rate) {
            Some(f) => Ok(f),
            None => Err(HaloError::ArithmeticOverflow),
        }
    }

    /// The fee on a yield of `amount`.
    pub fn calculate_yield_fee(&self, amount: u64) -> (r: Result<u64, HaloError>)
        ensures
            r == match fee_of(amount, self.yield_fee_rate) {
                Some(f) => Ok::<u64, HaloError>(f),
                None => Err::<u64, HaloError>(HaloError::ArithmeticOverflow),
            },
    {
        match fee(amount, self.yield_fee_rate) {
            Some(f) => Ok(f),
            None => Err(HaloError::ArithmeticOverflow),
        }
    }

    /// The management fee on `stake_amount` for the time elapsed.
    pub fn calculate_management_fee(&self, stake_amount: u64, time_elapsed_seconds: i64) -> (r: Result<
        u64,
        HaloError,
    >)
        ensures
            r == match management_fee_of(stake_amount, self.management_fee_rate, time_elapsed_seconds) {
                Some(f) => Ok::<u64, HaloError>(f),
                None => Err::<u64, HaloError>(HaloError::ArithmeticOverflow),
            },
    {
        let annual: u64 = match fee(stake_amount, self.management_fee_rate) {
            Some(f) => f,
            None => {
                return Err(HaloError::ArithmeticOverflow);
            },
        };
        let elapsed: u64 = #[verifier::truncate] (time_elapsed_seconds as u64);
        match annual.checked_mul(elapsed) {
            None => Err(HaloError::ArithmeticOverflow),
            Some(scaled) => Ok(scaled / SECONDS_PER_YEAR),
        }
    }
}

/// Creates the treasury: no fees collected, the collection clock started
/// at `now`.
pub fn initialize_treasury(authority: Pubkey, now: i64, bump: u8) -> (t: Treasury)
    ensures
        t == (Treasury {
            authority,
            total_fees_collected: 0,
            distribution_fees: 0,
            yield_fees: 0,
            management_fees: 0,
            last_management_fee_collection: now,
            bump,
        }),
        t.balanced(),
{
    Treasury {
        authority,
        total_fees_collected: 0,
        distribution_fees: 0,
        yield_fees: 0,
        management_fees: 0,
        last_management_fee_collection: now,
        bump,
    }
}

/// Creates the revenue parameters with their default rates and interval.
pub fn initialize_revenue_params(authority: Pubkey, now: i64, bump: u8) -> (p: RevenueParams)
    ensures
        p == (RevenueParams {
            authority,
            distribution_fee_rate: 50,
            yield_fee_rate: 25,
            management_fee_rate: 200,
            management_fee_interval: 2_592_000,
            last_updated: now,
            bump,
        }),
{
    let (distribution_fee_rate, yield_fee_rate, management_fee_rate, management_fee_interval) =
        RevenueParams::default_params();
    RevenueParams {
        authority,
        distribution_fee_rate,
        yield_fee_rate,
        management_fee_rate,
        management_fee_interval,
        last_updated: now,
        bump,
    }
}

/// Why an update of the parameters is refused, if it is; the first reason
/// that applies, in this order.
pub open spec fn update_revenue_params_refusal(
    params: &RevenueParams,
    authority: Pubkey,
    distribution_fee_rate: Option<u16>,
    yield_fee_rate: Option<u16>,
    management_fee_rate: Option<u16>,
    management_fee_interval: Option<i64>,
) -> Option<HaloError> {
    if authority != params.authority {
        Some(HaloError::UnauthorizedRevenueOperation)
    } else if distribution_fee_rate matches Some(rate) && rate > MAX_FEE_RATE {
        Some(HaloError::InvalidFeeRate)
    } else if yield_fee_rate matches Some(rate) && rate > MAX_FEE_RATE {
        Some(HaloError::InvalidFeeRate)
    } else if management_fee_rate matches Some(rate) && rate > MAX_FEE_RATE {
        Some(HaloError::InvalidFeeRate)
    } else if management_fee_interval matches Some(interval) && interval < MIN_FEE_INTERVAL {
        Some(HaloError::InvalidFeeRate)
    } else {
        None
    }
}

pub open spec fn or_keep<T>(new: Option<T>, current: T) -> T {
    match new {
        Some(value) => value,
        None => current,
    }
}

/// Overwrites the parameters that are given, on behalf of the authority
/// that owns them. No rate may exceed 10% and the interval is at least one
/// day. A refused update changes nothing.
pub fn update_revenue_params(
    params: &mut RevenueParams,
    authority: Pubkey,
    distribution_fee_rate: Option<u16>,
    yield_fee_rate: Option<u16>,
    management_fee_rate: Option<u16>,
    management_fee_interval: Option<i64>,
    now: i64,
) -> (r: Result<(), HaloError>)
    ensures
        match update_revenue_params_refusal(
            old(params),
            authority,
            distribution_fee_rate,
            yield_fee_rate,
            management_fee_rate,
            management_fee_interval,
        ) {
            Some(e) => r == Err::<(), HaloError>(e) && *final(params) == *old(params),
            None => {
                &&& r == Ok::<(), HaloError>(())
                &&& *final(params) == (RevenueParams {
                    distribution_fee_rate: or_keep(
                        distribution_fee_rate,
                        old(params).distribution_fee_rate,
                    ),
                    yield_fee_rate: or_keep(yield_fee_rate, old(params).yield_fee_rate),
                    management_fee_rate: or_keep(management_fee_rate, old(params).management_fee_rate),
                    management_fee_interval: or_keep(
                        management_fee_interval,
                        old(params).management_fee_interval,
                    ),
                    last_updated: now,
                    ..*old(params)
                })
            },
        },
{
    if authority != params.authority {
        return Err(HaloError::UnauthorizedRevenueOperation);
    }
    if let Some(rate) = distribution_fee_rate {
        if rate > MAX_FEE_RATE {
            return Err(HaloError::InvalidFeeRate);
        }
    }
    if let Some(rate) = yield_fee_rate {
        if rate > MAX_FEE_RATE {
            return Err(HaloError::InvalidFeeRate);
        }
    }
    if let Some(rate) = management_fee_rate {
        if rate > MAX_FEE_RATE {
            return Err(HaloError::InvalidFeeRate);
        }
    }
    if let Some(interval) = management_fee_interval {
        if interval < MIN_FEE_INTERVAL {
            return Err(HaloError::InvalidFeeRate);
        }
    }
    if let Some(rate) = distribution_fee_rate {
        params.distribution_fee_rate = rate;
    }
    if let Some(rate) = yield_fee_rate {
        params.yield_fee_rate = rate;
    }
    if let Some(rate) = management_fee_rate {
        params.management_fee_rate = rate;
    }
    if let Some(interval) = management_fee_interval {
        params.management_fee_interval = interval;
    }
    params.last_updated = now;
    Ok(())
}

/// What a collection of the management fee at `now` comes to: the fee, or
/// the reason for which the collection is refused; the first reason that
/// applies, in this order.
pub open spec fn management_fee_due(
    treasury: &Treasury,
    params: &RevenueParams,
    escrow_balance: u64,
    now: i64,
) -> Result<u64, HaloError> {
    let elapsed = now - treasury.last_management_fee_collection;
    if elapsed > i64::MAX || elapsed < i64::MIN {
        Err(HaloError::ArithmeticOverflow)
    } else if elapsed < params.management_fee_interval {
        Err(HaloError::RevenueCollectionTooFrequent)
    } else {
        match management_fee_of(escrow_balance, params.management_fee_rate, elapsed as i64) {
            None => Err(HaloError::ArithmeticOverflow),
            Some(f) => {
                if treasury.management_fees + f > u64::MAX || treasury.total_fees_collected + f
                    > u64::MAX {
                    Err(HaloError::ArithmeticOverflow)
                } else {
                    Ok(f)
                }
            },
        }
    }
}

/// Collects the management fee on the balance held in escrow for the time
/// since the last collection, once the configured interval has passed.
///
/// The caller moves the fee from escrow to the treasury's token account if
/// the returned order is present; a fee of zero needs no transfer. A
/// refused collection changes nothing.
pub fn collect_management_fees(
    treasury: &mut Treasury,
    params: &RevenueParams,
    escrow_balance: u64,
    now: i64,
) -> (r: Result<Option<TransferOrder>, HaloError>)
    ensures
        match management_fee_due(old(treasury), params, escrow_balance, now) {
            Err(e) => {
                &&& r == Err::<Option<TransferOrder>, HaloError>(e)
                &&& *final(treasury) == *old(treasury)
            },
            Ok(f) => {
                &&& r == Ok::<Option<TransferOrder>, HaloError>(fee_order(f))
                &&& *final(treasury) == (Treasury {
                    management_fees: (old(treasury).management_fees + f) as u64,
                    total_fees_collected: (old(treasury).total_fees_collected + f) as u64,
                    last_management_fee_collection: now,
                    ..*old(treasury)
                })
            },
        },
        old(treasury).balanced() ==> final(treasury).balanced(),
{
    let elapsed: i64 = match now.checked_sub(treasury.last_management_fee_collection) {
        None => {
            return Err(HaloError::ArithmeticOverflow);
        },
        Some(elapsed) => elapsed,
    };
    if elapsed < params.management_fee_interval {
        return Err(HaloError::RevenueCollectionTooFrequent);
    }
    let f: u64 = match params.calculate_management_fee(escrow_balance, elapsed) {
        Err(e) => {
            return Err(e);
        },
        Ok(f) => f,
    };
    let management = treasury.management_fees.checked_add(f);
    let total = treasury.total_fees_collected.checked_add(f);
    if management.is_none() || total.is_none() {
        return Err(HaloError::ArithmeticOverflow);
    }
    treasury.management_fees = management.unwrap();
    treasury.total_fees_collected = total.unwrap();
    treasury.last_management_fee_collection = now;
    Ok(order_for(f))
}

/// What booking a fee comes to: the fee, where it could be computed and
/// fits on top of the running total of its kind and of the overall total.
pub open spec fn booked_fee(fee: Option<u64>, kind_total: u64, overall_total: u64) -> Result<
    u64,
    HaloError,
> {
    match fee {
        None => Err(HaloError::ArithmeticOverflow),
        Some(f) => {
            if kind_total + f > u64::MAX || overall_total + f > u64::MAX {
                Err(HaloError::ArithmeticOverflow)
            } else {
                Ok(f)
            }
        },
    }
}

/// Books the fee on a distribution of `distribution_amount` in the
/// treasury.
///
/// The caller moves the fee from the paying account to the treasury's
/// token account if the returned order is present; a fee of zero needs no
/// transfer. A refused collection changes nothing.
pub fn collect_distribution_fee(
    distribution_amount: u64,
    params: &RevenueParams,
    treasury: &mut Treasury,
) -> (r: Result<Option<TransferOrder>, HaloError>)
    ensures
        match booked_fee(
            fee_of(distribution_amount, params.distribution_fee_rate),
            old(treasury).distribution_fees,
            old(treasury).total_fees_collected,
        ) {
            Ok(f) => {
                &&& r == Ok::<Option<TransferOrder>, HaloError>(fee_order(f))
                &&& *final(treasury) == (Treasury {
                    distribution_fees: (old(treasury).distribution_fees + f) as u64,
                    total_fees_collected: (old(treasury).total_fees_collected + f) as u64,
                    ..*old(treasury)
                })
            },
            Err(e) => {
                &&& r == Err::<Option<TransferOrder>, HaloError>(e)
                &&& *final(treasury) == *old(treasury)
            },
        },
        old(treasury).balanced() ==> final(treasury).balanced(),
{
    let f: u64 = match params.calculate_distribution_fee(distribution_amount) {
        Err(e) => {
            return Err(e);
        },
        Ok(f) => f,
    };
    let category = treasury.distribution_fees.checked_add(f);
    let total = treasury.total_fees_collected.checked_add(f);
    if category.is_none() || total.is_none() {
        return Err(HaloError::ArithmeticOverflow);
    }
    treasury.distribution_fees = category.unwrap();
    treasury.total_fees_collected = total.unwrap();
    Ok(order_for(f))
}

/// Books the fee on a yield of `yield_amount` in the treasury.
///
/// The caller moves the fee from the paying account to the treasury's
/// token account if the returned order is present; a fee of zero needs no
/// transfer. A refused collection changes nothing.
pub fn collect_yield_fee(yield_amount: u64, params: &RevenueParams, treasury: &mut Treasury) -> (r:
    Result<Option<TransferOrder>, HaloError>)
    ensures
        match booked_fee(
            fee_of(yield_amount, params.yield_fee_rate),
            old(treasury).yield_fees,
            old(treasury).total_fees_collected,
        ) {
            Ok(f) => {
                &&& r == Ok::<Option<TransferOrder>, HaloError>(fee_order(f))
                &&& *final(treasury) == (Treasury {
                    yield_fees: (old(treasury).yield_fees + f) as u64,
                    total_fees_collected: (old(treasury).total_fees_collected + f) as u64,
                    ..*old(treasury)
                })
            },
            Err(e) => {
                &&& r == Err::<Option<TransferOrder>, HaloError>(e)
                &&& *final(treasury) == *old(treasury)
            },
        },
        old(treasury).balanced() ==> final(treasury).balanced(),
{
    let f: u64 = match params.calculate_yield_fee(yield_amount) {
        Err(e) => {
            return Err(e);
        },
        Ok(f) => f,
    };
    let category = treasury.yield_fees.checked_add(f);
    let total = treasury.total_fees_collected.checked_add(f);
    if category.is_none() || total.is_none() {
        return Err(HaloError::ArithmeticOverflow);
    }
    treasury.yield_fees = category.unwrap();
    treasury.total_fees_collected = total.unwrap();
    Ok(order_for(f))
}

/// How a yield of `yield_amount` is split: the fee, or the reason for
/// which the distribution is refused; the first reason that applies, in
/// this order.
pub open spec fn yield_fee_due(treasury: &Treasury, params: &RevenueParams, yield_amount: u64) -> Result<
    u64,
    HaloError,
> {
    if yield_amount == 0 {
        Err(HaloError::InvalidContributionAmount)
    } else {
        match fee_of(yield_amount, params.yield_fee_rate) {
            None => Err(HaloError::ArithmeticOverflow),
            Some(f) => {
                if f > yield_amount || treasury.yield_fees + f > u64::MAX
                    || treasury.total_fees_collected + f > u64::MAX {
                    Err(HaloError::ArithmeticOverflow)
                } else {
                    Ok(f)
                }
            },
        }
    }
}

/// Splits a yield into the fee and the net amount and books the fee in
/// the treasury.
///
/// The caller moves the first order, if present, from the source account
/// to the treasury's token account, and the second from the source account
/// to the recipient. The two amounts add up to `yield_amount`. A refused
/// distribution changes nothing.
pub fn distribute_yield(treasury: &mut Treasury, params: &RevenueParams, yield_amount: u64) -> (r: Result<
    (Option<TransferOrder>, TransferOrder),
    HaloError,
>)
    ensures
        match yield_fee_due(old(treasury), params, yield_amount) {
            Err(e) => {
                &&& r == Err::<(Option<TransferOrder>, TransferOrder), HaloError>(e)
                &&& *final(treasury) == *old(treasury)
            },
            Ok(f) => {
                &&& r == Ok::<(Option<TransferOrder>, TransferOrder), HaloError>(
                    (
                        fee_order(f),
                        TransferOrder {
                            kind: TransferKind::Payout,
                            amount: (yield_amount - f) as u64,
                        },
                    ),
                )
                &&& *final(treasury) == (Treasury {
                    yield_fees: (old(treasury).yield_fees + f) as u64,
                    total_fees_collected: (old(treasury).total_fees_collected + f) as u64,
                    ..*old(treasury)
                })
            },
        },
        old(treasury).balanced() ==> final(treasury).balanced(),
{
    if yield_amount == 0 {
        return Err(HaloError::InvalidContributionAmount);
    }
    let f: u64 = match params.calculate_yield_fee(yield_amount) {
        Err(e) => {
            return Err(e);
        },
        Ok(f) => f,
    };
    if f > yield_amount {
        return Err(HaloError::ArithmeticOverflow);
    }
    let net: u64 = yield_amount - f;
    match collect_yield_fee(yield_amount, params, treasury) {
        Err(e) => Err(e),
        Ok(fee_order) => Ok((fee_order, TransferOrder::payout(net))),
    }
}

/// Reports the treasury's totals for the period from `period_start` to
/// `period_end`. The period has to be non-empty.
pub fn create_revenue_report(treasury: &Treasury, period_start: i64, period_end: i64, bump: u8) -> (r:
    Result<RevenueReport, HaloError>)
    ensures
        r == if period_start < period_end {
            Ok::<RevenueReport, HaloError>(
                RevenueReport {
                    period_start,
                    period_end,
                    total_period_fees: treasury.total_fees_collected,
                    period_distribution_fees: treasury.distribution_fees,
                    period_yield_fees: treasury.yield_fees,
                    period_management_fees: treasury.management_fees,
                    active_circles: 0,
                    total_distributions: 0,
                    total_yield: 0,
                    total_managed_stake: 0,
                    bump,
                },
            )
        } else {
            Err::<RevenueReport, HaloError>(HaloError::InvalidRevenueReportPeriod)
        },
{
    if !(period_start < period_end) {
        return Err(HaloError::InvalidRevenueReportPeriod);
    }
    Ok(
        RevenueReport {
            period_start,
            period_end,
            total_period_fees: treasury.total_fees_collected,
            period_distribution_fees: treasury.distribution_fees,
            period_yield_fees: treasury.yield_fees,
            period_management_fees: treasury.management_fees,
            active_circles: 0,
            total_distributions: 0,
            total_yield: 0,
            total_managed_stake: 0,
            bump,
        },
    )
}

} // verus!
