//! Proposals of the members of a circle: creation, quadratic voting and
//! execution.

use vstd::prelude::*;
use crate::errors::HaloError;
use crate::keys::{Pubkey, contains_key};
use crate::math::{floor_sqrt, isqrt};
use crate::state::Circle;
use crate::trust::{byte_len, utf8_len};

verus! {

#[derive(Clone, Copy, Debug, PartialEq, Eq, Structural)]
pub enum ProposalType {
    InterestRateChange,
    CircleParameter,
    Emergency,
}

#[derive(Clone, Copy, Debug, PartialEq, Eq, Structural)]
pub enum ProposalStatus {
    Active,
    Succeeded,
    Defeated,
    Executed,
    Cancelled,
}

impl Default for ProposalStatus {
    fn default() -> (s: Self)
        ensures
            s == ProposalStatus::Active,
    {
        ProposalStatus::Active
    }
}

/// A proposal put to the members of one circle.
#[derive(Clone, Debug)]
pub struct GovernanceProposal {
    pub id: u64,
    pub circle: Pubkey,
    pub proposer: Pubkey,
    pub title: String,
    pub description: String,
    pub proposal_type: ProposalType,
    pub status: ProposalStatus,
    pub voting_start: i64,
    pub voting_end: i64,
    pub execution_threshold: u64,
    pub total_voting_power: u64,
    pub votes_for: u64,
    pub votes_against: u64,
    pub quadratic_votes_for: u64,
    pub quadratic_votes_against: u64,
    pub executed: bool,
    pub executed_at: Option<i64>,
    pub new_interest_rate: Option<u16>,
    pub bump: u8,
}

/// One voter's vote on one proposal.
#[derive(Clone, Copy, Debug)]
pub struct Vote {
    pub proposal: Pubkey,
    pub voter: Pubkey,
    pub voting_power: u64,
    pub quadratic_weight: u64,
    pub support: bool,
    pub timestamp: i64,
    pub bump: u8,
}

/// Notice that a proposal was created.
#[derive(Clone, Copy, Debug)]
pub struct ProposalCreated {
    pub proposal_id: u64,
    pub circle: Pubkey,
    pub proposer: Pubkey,
    pub proposal_type: u8,
    pub voting_end: i64,
}

/// Notice that a vote was cast.
#[derive(Clone, Copy, Debug)]
pub struct VoteCast {
    pub proposal_id: u64,
    pub voter: Pubkey,
    pub support: bool,
    pub voting_power: u64,
    pub quadratic_weight: u64,
}

/// Notice that a proposal was executed.
#[derive(Clone, Copy, Debug)]
pub struct ProposalExecuted {
    pub proposal_id: u64,
    pub circle: Pubkey,
    pub executed_at: i64,
}

/// The proposal type that a type number stands for.
pub open spec fn proposal_type_of(number: u8) -> Option<ProposalType> {
    if number == 0 {
        Some(ProposalType::InterestRateChange)
    } else if number == 1 {
        Some(ProposalType::CircleParameter)
    } else if number == 2 {
        Some(ProposalType::Emergency)
    } else {
        None
    }
}

impl GovernanceProposal {
    pub const MAX_TITLE_LENGTH: usize = 200;

    pub const MAX_DESCRIPTION_LENGTH: usize = 1000;

    /// Bytes reserved for a stored proposal.
    pub fn space() -> (n: usize)
        ensures
            n == 1468,
    {
        8 + 8 + 32 + 32 + 4 + Self::MAX_TITLE_LENGTH + 4 + Self::MAX_DESCRIPTION_LENGTH + 1 + 1 + 8
            + 8 + 8 + 8 + 8 + 8 + 8 + 8 + 1 + 1 + 8 + 1 + 2 + 1 + 100
    }

    pub open spec fn spec_is_active(&self) -> bool {
        self.status == ProposalStatus::Active
    }

    /// Whether the proposal is open for voting or execution.
    #[verifier::when_used_as_spec(spec_is_active)]
    pub fn is_active(&self) -> (b: bool)
        ensures
            b == self.spec_is_active(),
    {
        self.status == ProposalStatus::Active
    }

    pub open spec fn spec_voting_ended(&self, current_time: i64) -> bool {
        current_time >= self.voting_end
    }

    /// Whether the voting window has closed at `current_time`.
    #[verifier::when_used_as_spec(spec_voting_ended)]
    pub fn voting_ended(&self, current_time: i64) -> (b: bool)
        ensures
            b == self.spec_voting_ended(current_time),
    {
        current_time >= self.voting_end
    }

    pub open spec fn spec_has_passed(&self) -> bool {
        self.quadratic_votes_for > self.quadratic_votes_against && self.total_voting_power
            >= self.execution_threshold
    }

    /// Whether the quadratic tally is in favour and enough raw voting power
    /// took part.
    #[verifier::when_used_as_spec(spec_has_passed)]
    pub fn has_passed(&self) -> (b: bool)
        ensures
            b == self.spec_has_passed(),
    {
        self.quadratic_votes_for > self.quadratic_votes_against && self.total_voting_power
            >= self.execution_threshold
    }

    /// A proposal to change the rate carries a rate of at most 100%.
    pub open spec fn wf(&self) -> bool {
        self.proposal_type == ProposalType::InterestRateChange ==> (self.new_interest_rate matches Some(
            rate,
        ) && rate <= 10000)
    }

    /// The raw voting power that took part is the power for and against
    /// together, and on neither side the quadratic tally exceeds the raw
    /// one.
    pub open spec fn tallied(&self) -> bool {
        &&& self.total_voting_power == self.votes_for + self.votes_against
        &&& self.quadratic_votes_for <= self.votes_for
        &&& self.quadratic_votes_against <= self.votes_against
    }
}

impl Vote {
    /// Bytes reserved for a stored vote.
    pub fn space() -> (n: usize)
        ensures
            n == 148,
    {
        8 + 32 + 32 + 8 + 8 + 1 + 8 + 1 + 50
    }
}

/// Why a proposal is refused, if it is; the first reason that applies, in
/// this order.
pub open spec fn create_proposal_refusal(
    circle: &Circle,
    proposer: Pubkey,
    title: Seq<char>,
    description: Seq<char>,
    proposal_type: u8,
    voting_duration_hours: u16,
    new_interest_rate: Option<u16>,
    now: i64,
) -> Option<HaloError> {
    if utf8_len(title) > GovernanceProposal::MAX_TITLE_LENGTH {
        Some(HaloError::InvalidProposalType)
    } else if utf8_len(description) > GovernanceProposal::MAX_DESCRIPTION_LENGTH {
        Some(HaloError::InvalidProposalType)
    } else if !(0 < voting_duration_hours <= 7 * 24) {
        Some(HaloError::InvalidVotingPeriod)
    } else if proposal_type > 2 {
        Some(HaloError::InvalidProposalType)
    } else if !circle.members@.contains(proposer) {
        Some(HaloError::MemberNotFound)
    } else if proposal_type == 0 && !(new_interest_rate matches Some(rate) && rate <= 10000) {
        Some(HaloError::InvalidProposalType)
    } else if now + voting_duration_hours * 3600 > i64::MAX {
        Some(HaloError::ArithmeticOverflow)
    } else {
        None
    }
}

/// Opens a proposal of a member of `circle`, with a voting window of at
/// most seven days that starts at `now`. The proposal's id is the creation
/// time.
pub fn create_proposal(
    circle: &Circle,
    circle_key: Pubkey,
    proposer: Pubkey,
    title: String,
    description: String,
    proposal_type: u8,
    voting_duration_hours: u16,
    execution_threshold: u64,
    new_interest_rate: Option<u16>,
    now: i64,
    bump: u8,
) -> (r: Result<(GovernanceProposal, ProposalCreated), HaloError>)
    ensures
        match create_proposal_refusal(
            circle,
            proposer,
            title@,
            description@,
            proposal_type,
            voting_duration_hours,
            new_interest_rate,
            now,
        ) {
            Some(e) => r == Err::<(GovernanceProposal, ProposalCreated), HaloError>(e),
            None => {
                &&& r matches Ok((proposal, event))
                &&& proposal == (GovernanceProposal {
                    id: now as u64,
                    circle: circle_key,
                    proposer,
                    title,
                    description,
                    proposal_type: proposal_type_of(proposal_type).unwrap(),
                    status: ProposalStatus::Active,
                    voting_start: now,
                    voting_end: (now + voting_duration_hours * 3600) as i64,
                    execution_threshold,
                    total_voting_power: 0,
                    votes_for: 0,
                    votes_against: 0,
                    quadratic_votes_for: 0,
                    quadratic_votes_against: 0,
                    executed: false,
                    executed_at: None,
                    new_interest_rate,
                    bump,
                })
                &&& event == (ProposalCreated {
                    proposal_id: now as u64,
                    circle: circle_key,
                    proposer,
                    proposal_type,
                    voting_end: (now + voting_duration_hours * 3600) as i64,
                })
                &&& proposal.wf()
                &&& proposal.tallied()
            },
        },
{
    if byte_len(&title) > GovernanceProposal::MAX_TITLE_LENGTH {
        return Err(HaloError::InvalidProposalType);
    }
    if byte_len(&description) > GovernanceProposal::MAX_DESCRIPTION_LENGTH {
        return Err(HaloError::InvalidProposalType);
    }
    if !(voting_duration_hours > 0 && voting_duration_hours <= 7 * 24) {
        return Err(HaloError::InvalidVotingPeriod);
    }
    if proposal_type > 2 {
        return Err(HaloError::InvalidProposalType);
    }
    if !contains_key(&circle.members, proposer) {
        return Err(HaloError::MemberNotFound);
    }
    let kind = if proposal_type == 0 {
        ProposalType::InterestRateChange
    } else if proposal_type == 1 {
        ProposalType::CircleParameter
    } else {
        ProposalType::Emergency
    };
    if proposal_type == 0 {
        match new_interest_rate {
            None => {
                return Err(HaloError::InvalidProposalType);
            },
            Some(rate) => {
                if rate > 10000 {
                    return Err(HaloError::InvalidProposalType);
                }
            },
        }
    }
    let voting_end: i64 = match now.checked_add(voting_duration_hours as i64 * 3600) {
        None => {
            return Err(HaloError::ArithmeticOverflow);
        },
        Some(end) => end,
    };
    let id: u64 = #[verifier::truncate] (now as u64);
    let proposal = GovernanceProposal {
        id,
        circle: circle_key,
        proposer,
        title,
        description,
        proposal_type: kind,
        status: ProposalStatus::Active,
        voting_start: now,
        voting_end,
        execution_threshold,
        total_voting_power: 0,
        votes_for: 0,
        votes_against: 0,
        quadratic_votes_for: 0,
        quadratic_votes_against: 0,
        executed: false,
        executed_at: None,
        new_interest_rate,
        bump,
    };
    let event = ProposalCreated { proposal_id: id, circle: circle_key, proposer, proposal_type, voting_end };
    Ok((proposal, event))
}

/// Why a vote is refused, if it is; the first reason that applies, in this
/// order.
pub open spec fn cast_vote_refusal(
    proposal: &GovernanceProposal,
    prior: Option<&Vote>,
    support: bool,
    voting_power: u64,
    now: i64,
) -> Option<HaloError> {
    if prior is Some {
        Some(HaloError::AlreadyVoted)
    } else if !proposal.is_active() {
        Some(HaloError::ProposalNotActive)
    } else if now < proposal.voting_start {
        Some(HaloError::VotingPeriodNotStarted)
    } else if proposal.voting_ended(now) {
        Some(HaloError::VotingPeriodEnded)
    } else if voting_power == 0 {
        Some(HaloError::InsufficientVotingPower)
    } else if proposal.total_voting_power + voting_power > u64::MAX {
        Some(HaloError::ArithmeticOverflow)
    } else if support && (proposal.votes_for + voting_power > u64::MAX
        || proposal.quadratic_votes_for + floor_sqrt(voting_power as int) > u64::MAX) {
        Some(HaloError::ArithmeticOverflow)
    } else if !support && (proposal.votes_against + voting_power > u64::MAX
        || proposal.quadratic_votes_against + floor_sqrt(voting_power as int) > u64::MAX) {
        Some(HaloError::ArithmeticOverflow)
    } else {
        None
    }
}

/// Casts `voter`'s vote with the given voting power while the voting
/// window is open. The vote weighs in with its raw power and with the
/// integer square root of it.
///
/// `prior` is the vote that is on record for this proposal and this voter,
/// if there is one: a voter votes once. A refused vote changes nothing.
pub fn cast_vote(
    proposal: &mut GovernanceProposal,
    proposal_key: Pubkey,
    voter: Pubkey,
    prior: Option<&Vote>,
    support: bool,
    voting_power: u64,
    now: i64,
    bump: u8,
) -> (r: Result<(Vote, VoteCast), HaloError>)
    ensures
        match cast_vote_refusal(old(proposal), prior, support, voting_power, now) {
            Some(e) => r == Err::<(Vote, VoteCast), HaloError>(e) && *final(proposal) == *old(proposal),
            None => {
                let weight = floor_sqrt(voting_power as int) as u64;
                &&& r matches Ok((vote, event))
                &&& vote == (Vote {
                    proposal: proposal_key,
                    voter,
                    voting_power,
                    quadratic_weight: weight,
                    support,
                    timestamp: now,
                    bump,
                })
                &&& event == (VoteCast {
                    proposal_id: old(proposal).id,
                    voter,
                    support,
                    voting_power,
                    quadratic_weight: weight,
                })
                &&& weight * weight <= voting_power < (weight + 1) * (weight + 1)
                &&& *final(proposal) == if support {
                    GovernanceProposal {
                        total_voting_power: (old(proposal).total_voting_power + voting_power) as u64,
                        votes_for: (old(proposal).votes_for + voting_power) as u64,
                        quadratic_votes_for: (old(proposal).quadratic_votes_for + weight) as u64,
                        ..*old(proposal)
                    }
                } else {
                    GovernanceProposal {
                        total_voting_power: (old(proposal).total_voting_power + voting_power) as u64,
                        votes_against: (old(proposal).votes_against + voting_power) as u64,
                        quadratic_votes_against: (old(proposal).quadratic_votes_against + weight) as u64,
                        ..*old(proposal)
                    }
                }
            },
        },
        old(proposal).wf() ==> final(proposal).wf(),
        old(proposal).tallied() ==> final(proposal).tallied(),
{
    if prior.is_some() {
        return Err(HaloError::AlreadyVoted);
    }
    if !proposal.is_active() {
        return Err(HaloError::ProposalNotActive);
    }
    if now < proposal.voting_start {
        return Err(HaloError::VotingPeriodNotStarted);
    }
    if proposal.voting_ended(now) {
        return Err(HaloError::VotingPeriodEnded);
    }
    if voting_power == 0 {
        return Err(HaloError::InsufficientVotingPower);
    }
    let weight: u64 = isqrt(voting_power);
    assert(weight <= voting_power) by (nonlinear_arith)
        requires
            weight * weight <= voting_power,
            0 <= weight,
    ;
    let total: u64 = match proposal.total_voting_power.checked_add(voting_power) {
        None => {
            return Err(HaloError::ArithmeticOverflow);
        },
        Some(total) => total,
    };
    if support {
        let raw = proposal.votes_for.checked_add(voting_power);
        let quadratic = proposal.quadratic_votes_for.checked_add(weight);
        if raw.is_none() || quadratic.is_none() {
            return Err(HaloError::ArithmeticOverflow);
        }
        proposal.votes_for = raw.unwrap();
        proposal.quadratic_votes_for = quadratic.unwrap();
    } else {
        let raw = proposal.votes_against.checked_add(voting_power);
        let quadratic = proposal.quadratic_votes_against.checked_add(weight);
        if raw.is_none() || quadratic.is_none() {
            return Err(HaloError::ArithmeticOverflow);
        }
        proposal.votes_against = raw.unwrap();
        proposal.quadratic_votes_against = quadratic.unwrap();
    }
    proposal.total_voting_power = total;
    let vote = Vote {
        proposal: proposal_key,
        voter,
        voting_power,
        quadratic_weight: weight,
        support,
        timestamp: now,
        bump,
    };
    let event = VoteCast {
        proposal_id: proposal.id,
        voter,
        support,
        voting_power,
        quadratic_weight: weight,
    };
    Ok((vote, event))
}

/// Why an execution is refused, if it is; the first reason that applies,
/// in this order.
pub open spec fn execute_proposal_refusal(proposal: &GovernanceProposal, now: i64) -> Option<
    HaloError,
> {
    if !proposal.is_active() {
        Some(HaloError::ProposalNotActive)
    } else if !proposal.voting_ended(now) {
        Some(HaloError::VotingPeriodEnded)
    } else if proposal.executed {
        Some(HaloError::ProposalAlreadyExecuted)
    } else if !proposal.has_passed() {
        Some(HaloError::ExecutionThresholdNotMet)
    } else {
        None
    }
}

/// Executes a proposal that has passed, once its voting window has closed.
/// A rate change overwrites the penalty rate of `circle`; the other types
/// change nothing in the circle. A refused execution changes nothing.
pub fn execute_proposal(
    proposal: &mut GovernanceProposal,
    circle: &mut Circle,
    circle_key: Pubkey,
    now: i64,
) -> (r: Result<ProposalExecuted, HaloError>)
    ensures
        match execute_proposal_refusal(old(proposal), now) {
            Some(e) => {
                &&& r == Err::<ProposalExecuted, HaloError>(e)
                &&& *final(proposal) == *old(proposal)
                &&& *final(circle) == *old(circle)
            },
            None => {
                &&& r == Ok::<ProposalExecuted, HaloError>(
                    ProposalExecuted {
                        proposal_id: old(proposal).id,
                        circle: circle_key,
                        executed_at: now,
                    },
                )
                &&& *final(proposal) == (GovernanceProposal {
                    status: ProposalStatus::Executed,
                    executed: true,
                    executed_at: Some(now),
                    ..*old(proposal)
                })
                &&& *final(circle) == (Circle {
                    penalty_rate: if old(proposal).proposal_type == ProposalType::InterestRateChange
                        && old(proposal).new_interest_rate is Some {
                        old(proposal).new_interest_rate.unwrap()
                    } else {
                        old(circle).penalty_rate
                    },
                    ..*old(circle)
                })
            },
        },
        old(circle).wf() && old(proposal).wf() ==> final(circle).wf(),
        old(proposal).wf() ==> final(proposal).wf(),
        old(proposal).tallied() ==> final(proposal).tallied(),
{
    if !proposal.is_active() {
        return Err(HaloError::ProposalNotActive);
    }
    if !proposal.voting_ended(now) {
        return Err(HaloError::VotingPeriodEnded);
    }
    if proposal.executed {
        return Err(HaloError::ProposalAlreadyExecuted);
    }
    if !proposal.has_passed() {
        return Err(HaloError::ExecutionThresholdNotMet);
    }
    match proposal.proposal_type {
        ProposalType::InterestRateChange => {
            if let Some(rate) = proposal.new_interest_rate {
                circle.penalty_rate = rate;
            }
        },
        ProposalType::CircleParameter => {},
        ProposalType::Emergency => {},
    }
    proposal.status = ProposalStatus::Executed;
    proposal.executed = true;
    proposal.executed_at = Some(now);
    Ok(ProposalExecuted { proposal_id: proposal.id, circle: circle_key, executed_at: now })
}

} // verus!
