//! Schedules of the jobs that an outside scheduler runs for a circle, and
//! the test whether a job is due.

use vstd::prelude::*;
use crate::errors::HaloError;
use crate::keys::Pubkey;
use crate::state::SECONDS_PER_MONTH;

verus! {

/// Seconds in one day.
pub const SECONDS_PER_DAY: i64 = 86_400;

/// Day of each month, counted from zero, on which the pot is distributed.
pub const DISTRIBUTION_DAY: i64 = 25;

/// Day of each month, counted from zero, on which penalties are checked.
pub const PENALTY_DAY: i64 = 27;

/// Settings of the scheduler for all circles.
#[derive(Clone, Copy, Debug)]
pub struct AutomationState {
    pub authority: Pubkey,
    pub switchboard_queue: Pubkey,
    pub enabled: bool,
    pub active_jobs: u32,
    pub min_interval: i64,
    pub last_check: i64,
    pub bump: u8,
}

/// Schedules of one circle and the time each kind of job last ran.
#[derive(Clone, Debug)]
pub struct CircleAutomation {
    pub circle: Pubkey,
    pub job_account: Pubkey,
    pub auto_collect_enabled: bool,
    pub auto_distribute_enabled: bool,
    pub auto_penalty_enabled: bool,
    pub contribution_schedule: Vec<i64>,
    pub distribution_schedule: Vec<i64>,
    pub penalty_schedule: Vec<i64>,
    pub last_contribution_check: i64,
    pub last_distribution_check: i64,
    pub last_penalty_check: i64,
    pub circle_created_at: i64,
    pub bump: u8,
}

#[derive(Clone, Copy, Debug, PartialEq, Eq, Structural)]
pub enum AutomationEventType {
    ContributionCollection,
    PayoutDistribution,
    PenaltyEnforcement,
    ScheduleUpdate,
}

/// Record of one run of a job.
#[derive(Clone, Debug)]
pub struct AutomationEvent {
    pub circle: Pubkey,
    pub event_type: AutomationEventType,
    pub timestamp: i64,
    pub data: Vec<u8>,
    pub success: bool,
    pub error_message: Option<String>,
    pub bump: u8,
}

impl AutomationState {
    /// Bytes reserved for the stored settings.
    pub const SPACE: usize = 8 + 32 + 32 + 1 + 4 + 8 + 8 + 1 + 50;
}

impl AutomationEvent {
    /// Bytes reserved for a stored event.
    pub const SPACE: usize = 8 + 32 + 1 + 8 + 4 + 100 + 1 + 4 + 100 + 1 + 50;
}

/// The time of the event of month `month`: the start of that month, moved
/// by `offset` seconds.
pub open spec fn scheduled_time(created_at: i64, month: int, offset: int) -> int {
    created_at + month * SECONDS_PER_MONTH + offset
}

/// The schedule of a circle: one event for each month.
pub open spec fn schedule_of(created_at: i64, duration_months: u8, offset: int) -> Seq<int> {
    Seq::new(duration_months as nat, |month: int| scheduled_time(created_at, month, offset))
}

/// Whether every time of the schedule fits in a signed 64-bit number.
pub open spec fn schedule_fits(created_at: i64, duration_months: u8, offset: int) -> bool {
    duration_months == 0 || scheduled_time(created_at, duration_months - 1, offset) <= i64::MAX
}

/// Whether a job is due at `current_time`: some scheduled time has come
/// and lies after the last run.
pub open spec fn is_due(schedule: Seq<i64>, last_check: i64, current_time: i64) -> bool {
    exists|i: int|
        0 <= i < schedule.len() && current_time >= (#[trigger] schedule[i]) && last_check
            < schedule[i]
}

fn generate_schedule(created_at: i64, duration_months: u8, offset: i64) -> (r: Result<
    Vec<i64>,
    HaloError,
>)
    requires
        0 <= offset < SECONDS_PER_MONTH,
    ensures
        match r {
            Ok(schedule) => {
                &&& schedule_fits(created_at, duration_months, offset as int)
                &&& schedule@.len() == duration_months
                &&& forall|i: int|
                    0 <= i < duration_months ==> #[trigger] schedule@[i] == scheduled_time(
                        created_at,
                        i,
                        offset as int,
                    )
            },
            Err(e) => e == HaloError::ArithmeticOverflow && !schedule_fits(
                created_at,
                duration_months,
                offset as int,
            ),
        },
{
    let mut schedule: Vec<i64> = Vec::new();
    let mut month: u8 = 0;
    while month < duration_months
        invariant
            month <= duration_months,
            0 <= offset < SECONDS_PER_MONTH,
            schedule@.len() == month,
            forall|i: int|
                0 <= i < month ==> #[trigger] schedule@[i] == scheduled_time(
                    created_at,
                    i,
                    offset as int,
                ),
        decreases duration_months - month,
    {
        let shift: i64 = month as i64 * SECONDS_PER_MONTH + offset;
        match created_at.checked_add(shift) {
            None => {
                proof {
                    assert(scheduled_time(created_at, month as int, offset as int) > i64::MAX);
                    assert(scheduled_time(created_at, duration_months - 1, offset as int)
                        >= scheduled_time(created_at, month as int, offset as int)) by (nonlinear_arith)
                        requires
                            month <= duration_months - 1,
                    ;
                }
                return Err(HaloError::ArithmeticOverflow);
            },
            Some(time) => {
                schedule.push(time);
            },
        }
        month += 1;
    }
    proof {
        if duration_months > 0 {
            assert(schedule@[duration_months - 1] == scheduled_time(
                created_at,
                duration_months - 1,
                offset as int,
            ));
        }
    }
    Ok(schedule)
}

fn due(schedule: &Vec<i64>, last_check: i64, current_time: i64) -> (r: bool)
    ensures
        r == is_due(schedule@, last_check, current_time),
{
    let mut i: usize = 0;
    while i < schedule.len()
        invariant
            i <= schedule.len(),
            forall|j: int|
                0 <= j < i ==> !(current_time >= (#[trigger] schedule@[j]) && last_check
                    < schedule@[j]),
        decreases schedule.len() - i,
    {
        if current_time >= schedule[i] && last_check < schedule[i] {
            return true;
        }
        i += 1;
    }
    false
}

impl CircleAutomation {
    pub const MAX_SCHEDULE_ITEMS: usize = 36;

    /// Bytes reserved for a stored record.
    pub const SPACE: usize = 8 + 32 + 32 + 1 + 1 + 1 + 4 + (8 * 36) + 4 + (8 * 36) + 4 + (8 * 36) + 8
        + 8 + 8 + 8 + 1 + 100;

    /// The times at which contributions are collected: the start of each
    /// month. Refused where a time does not fit in 64 bits.
    pub fn generate_contribution_schedule(created_at: i64, duration_months: u8) -> (r: Result<
        Vec<i64>,
        HaloError,
    >)
        ensures
            match r {
                Ok(schedule) => {
                    &&& schedule_fits(created_at, duration_months, 0)
                    &&& schedule@.len() == duration_months
                    &&& forall|i: int|
                        0 <= i < duration_months ==> #[trigger] schedule@[i] == scheduled_time(
                            created_at,
                            i,
                            0,
                        )
                },
                Err(e) => e == HaloError::ArithmeticOverflow && !schedule_fits(
                    created_at,
                    duration_months,
                    0,
                ),
            },
    {
        generate_schedule(created_at, duration_months, 0)
    }

    /// The times at which pots are distributed: 25 days into each month.
    /// Refused where a time does not fit in 64 bits.
    pub fn generate_distribution_schedule(created_at: i64, duration_months: u8) -> (r: Result<
        Vec<i64>,
        HaloError,
    >)
        ensures
            match r {
                Ok(schedule) => {
                    &&& schedule_fits(created_at, duration_months, DISTRIBUTION_DAY * SECONDS_PER_DAY)
                    &&& schedule@.len() == duration_months
                    &&& forall|i: int|
                        0 <= i < duration_months ==> #[trigger] schedule@[i] == scheduled_time(
                            created_at,
                            i,
                            DISTRIBUTION_DAY * SECONDS_PER_DAY,
                        )
                },
                Err(e) => e == HaloError::ArithmeticOverflow && !schedule_fits(
                    created_at,
                    duration_months,
                    DISTRIBUTION_DAY * SECONDS_PER_DAY,
                ),
            },
    {
        generate_schedule(created_at, duration_months, DISTRIBUTION_DAY * SECONDS_PER_DAY)
    }

    /// The times at which penalties are checked: 27 days into each month.
    /// Refused where a time does not fit in 64 bits.
    pub fn generate_penalty_schedule(created_at: i64, duration_months: u8) -> (r: Result<
        Vec<i64>,
        HaloError,
    >)
        ensures
            match r {
                Ok(schedule) => {
                    &&& schedule_fits(created_at, duration_months, PENALTY_DAY * SECONDS_PER_DAY)
                    &&& schedule@.len() == duration_months
                    &&& forall|i: int|
                        0 <= i < duration_months ==> #[trigger] schedule@[i] == scheduled_time(
                            created_at,
                            i,
                            PENALTY_DAY * SECONDS_PER_DAY,
                        )
                },
                Err(e) => e == HaloError::ArithmeticOverflow && !schedule_fits(
                    created_at,
                    duration_months,
                    PENALTY_DAY * SECONDS_PER_DAY,
                ),
            },
    {
        generate_schedule(created_at, duration_months, PENALTY_DAY * SECONDS_PER_DAY)
    }

    /// Whether contributions are to be collected at `current_time`.
    pub fn should_collect_contributions(&self, current_time: i64) -> (r: bool)
        ensures
            r == (self.auto_collect_enabled && is_due(
                self.contribution_schedule@,
                self.last_contribution_check,
                current_time,
            )),
    {
        self.auto_collect_enabled && due(
            &self.contribution_schedule,
            self.last_contribution_check,
            current_time,
        )
    }

    /// Whether a pot is to be distributed at `current_time`.
    pub fn should_distribute_payouts(&self, current_time: i64) -> (r: bool)
        ensures
            r == (self.auto_distribute_enabled && is_due(
                self.distribution_schedule@,
                self.last_distribution_check,
                current_time,
            )),
    {
        self.auto_distribute_enabled && due(
            &self.distribution_schedule,
            self.last_distribution_check,
            current_time,
        )
    }

    /// Whether penalties are to be enforced at `current_time`.
    pub fn should_enforce_penalties(&self, current_time: i64) -> (r: bool)
        ensures
            r == (self.auto_penalty_enabled && is_due(
                self.penalty_schedule@,
                self.last_penalty_check,
                current_time,
            )),
    {
        self.auto_penalty_enabled && due(&self.penalty_schedule, self.last_penalty_check, current_time)
    }
}

} // verus!
