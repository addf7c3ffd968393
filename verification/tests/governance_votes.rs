use halo_protocol::errors::HaloError;
use halo_protocol::governance::{
    cast_vote, create_proposal, execute_proposal, GovernanceProposal, ProposalStatus, ProposalType,
};
use halo_protocol::instructions::initialize_circle;
use halo_protocol::keys::Pubkey;
use halo_protocol::math::isqrt;
use halo_protocol::state::Circle;

const T0: i64 = 1_700_000_000;

fn key(n: u8) -> Pubkey {
    Pubkey::new([n; 32])
}

fn circle_with_member() -> Circle {
    let (mut circle, _) = initialize_circle(key(1), key(2), 100, 3, 2, 500, T0, 0, 0).unwrap();
    circle.members.push(key(10));
    circle.current_members = 1;
    circle
}

fn rate_proposal(circle: &Circle, rate: u16) -> GovernanceProposal {
    let (proposal, _) = create_proposal(
        circle,
        key(2),
        key(10),
        "rate".to_string(),
        "change the rate".to_string(),
        0,
        24,
        100,
        Some(rate),
        T0,
        9,
    )
    .unwrap();
    proposal
}

#[test]
fn vote_weighs_with_the_square_root_of_its_power() {
    let circle = circle_with_member();
    let mut proposal = rate_proposal(&circle, 700);
    let (vote, event) = cast_vote(&mut proposal, key(3), key(10), None, true, 100, T0 + 1, 4).unwrap();
    assert_eq!(vote.quadratic_weight, 10);
    assert_eq!(event.quadratic_weight, 10);
    let (vote, event) = cast_vote(&mut proposal, key(3), key(11), None, false, 99, T0 + 1, 4).unwrap();
    assert_eq!(vote.quadratic_weight, 9);
    assert_eq!(event.quadratic_weight, 9);
    assert_eq!(proposal.quadratic_votes_for, 10);
    assert_eq!(proposal.quadratic_votes_against, 9);
    assert_eq!(proposal.votes_for, 100);
    assert_eq!(proposal.votes_against, 99);
    assert_eq!(proposal.total_voting_power, 199);
}

#[test]
fn integer_square_root_rounds_down() {
    assert_eq!(isqrt(0), 0);
    assert_eq!(isqrt(1), 1);
    assert_eq!(isqrt(2), 1);
    assert_eq!(isqrt(3), 1);
    assert_eq!(isqrt(4), 2);
    assert_eq!(isqrt(99), 9);
    assert_eq!(isqrt(100), 10);
    assert_eq!(isqrt(101), 10);
    assert_eq!(isqrt(1_000_000_000_000_000_000), 1_000_000_000);
    assert_eq!(isqrt((1 << 53) + 1), 94_906_265);
    assert_eq!(isqrt(u64::MAX), 4_294_967_295);
    assert_eq!(isqrt(4_294_967_295 * 4_294_967_295), 4_294_967_295);
    assert_eq!(isqrt(4_294_967_295 * 4_294_967_295 - 1), 4_294_967_294);
    for n in 0u64..5000 {
        let r = isqrt(n);
        assert!(r * r <= n && n < (r + 1) * (r + 1));
    }
}

#[test]
fn create_proposal_fills_the_record() {
    let circle = circle_with_member();
    let (proposal, event) = create_proposal(
        &circle,
        key(2),
        key(10),
        "title".to_string(),
        "text".to_string(),
        1,
        168,
        5_000,
        None,
        T0,
        9,
    )
    .unwrap();
    assert_eq!(proposal.id, T0 as u64);
    assert_eq!(proposal.circle, key(2));
    assert_eq!(proposal.proposer, key(10));
    assert_eq!(proposal.title, "title");
    assert_eq!(proposal.description, "text");
    assert_eq!(proposal.proposal_type, ProposalType::CircleParameter);
    assert_eq!(proposal.status, ProposalStatus::Active);
    assert_eq!(proposal.voting_start, T0);
    assert_eq!(proposal.voting_end, T0 + 168 * 3600);
    assert_eq!(proposal.execution_threshold, 5_000);
    assert_eq!(proposal.total_voting_power, 0);
    assert_eq!(proposal.votes_for, 0);
    assert_eq!(proposal.votes_against, 0);
    assert_eq!(proposal.quadratic_votes_for, 0);
    assert_eq!(proposal.quadratic_votes_against, 0);
    assert!(!proposal.executed);
    assert_eq!(proposal.executed_at, None);
    assert_eq!(proposal.new_interest_rate, None);
    assert_eq!(proposal.bump, 9);
    assert_eq!(event.proposal_id, T0 as u64);
    assert_eq!(event.circle, key(2));
    assert_eq!(event.proposer, key(10));
    assert_eq!(event.proposal_type, 1);
    assert_eq!(event.voting_end, T0 + 168 * 3600);
    assert!(proposal.is_active());
    assert!(!proposal.voting_ended(T0 + 168 * 3600 - 1));
    assert!(proposal.voting_ended(T0 + 168 * 3600));
    assert!(!proposal.has_passed());
}

#[test]
fn create_proposal_refusals_in_order() {
    let circle = circle_with_member();
    let make = |title: String, text: String, kind: u8, hours: u16, rate: Option<u16>, who: u8, now| {
        create_proposal(&circle, key(2), key(who), title, text, kind, hours, 1, rate, now, 0)
            .map(|_| ())
    };
    let t = || "t".to_string();
    assert_eq!(make("x".repeat(201), t(), 9, 0, None, 11, T0), Err(HaloError::InvalidProposalType));
    assert_eq!(make("x".repeat(200), t(), 1, 1, None, 10, T0), Ok(()));
    assert_eq!(make(t(), "x".repeat(1001), 1, 0, None, 11, T0), Err(HaloError::InvalidProposalType));
    assert_eq!(make(t(), "x".repeat(1000), 1, 1, None, 10, T0), Ok(()));
    assert_eq!(make(t(), t(), 9, 0, None, 11, T0), Err(HaloError::InvalidVotingPeriod));
    assert_eq!(make(t(), t(), 9, 169, None, 11, T0), Err(HaloError::InvalidVotingPeriod));
    assert_eq!(make(t(), t(), 3, 168, None, 11, T0), Err(HaloError::InvalidProposalType));
    assert_eq!(make(t(), t(), 0, 168, None, 11, T0), Err(HaloError::MemberNotFound));
    assert_eq!(make(t(), t(), 0, 168, None, 10, T0), Err(HaloError::InvalidProposalType));
    assert_eq!(make(t(), t(), 0, 168, Some(10001), 10, T0), Err(HaloError::InvalidProposalType));
    assert_eq!(make(t(), t(), 0, 168, Some(10000), 10, T0), Ok(()));
    assert_eq!(make(t(), t(), 2, 168, Some(60000), 10, T0), Ok(()));
    assert_eq!(
        make(t(), t(), 2, 1, None, 10, i64::MAX - 3599),
        Err(HaloError::ArithmeticOverflow)
    );
    assert_eq!(make(t(), t(), 2, 1, None, 10, i64::MAX - 3600), Ok(()));
}

#[test]
fn cast_vote_refusals_in_order() {
    let circle = circle_with_member();
    let mut proposal = rate_proposal(&circle, 700);
    let end = proposal.voting_end;
    let vote = |p: &mut GovernanceProposal, support, power, now| {
        cast_vote(p, key(3), key(10), None, support, power, now, 0).map(|_| ())
    };
    assert_eq!(vote(&mut proposal, true, 0, T0 - 1), Err(HaloError::VotingPeriodNotStarted));
    assert_eq!(vote(&mut proposal, true, 0, end), Err(HaloError::VotingPeriodEnded));
    assert_eq!(vote(&mut proposal, true, 0, end - 1), Err(HaloError::InsufficientVotingPower));
    proposal.status = ProposalStatus::Executed;
    assert_eq!(vote(&mut proposal, true, 0, T0 - 1), Err(HaloError::ProposalNotActive));
    proposal.status = ProposalStatus::Active;
    assert_eq!(vote(&mut proposal, true, u64::MAX, T0), Ok(()));
    assert_eq!(proposal.quadratic_votes_for, 4_294_967_295);
    assert_eq!(vote(&mut proposal, false, 1, T0), Err(HaloError::ArithmeticOverflow));
    assert_eq!(proposal.votes_against, 0);
    assert_eq!(proposal.quadratic_votes_against, 0);
    assert_eq!(proposal.total_voting_power, u64::MAX);
    proposal.total_voting_power = 0;
    assert_eq!(vote(&mut proposal, true, 1, T0), Err(HaloError::ArithmeticOverflow));
    assert_eq!(proposal.total_voting_power, 0);
    assert_eq!(proposal.votes_for, u64::MAX);
    proposal.votes_for = 0;
    proposal.quadratic_votes_for = u64::MAX - 1;
    assert_eq!(vote(&mut proposal, true, 4, T0), Err(HaloError::ArithmeticOverflow));
    assert_eq!(vote(&mut proposal, true, 3, T0), Ok(()));
    assert_eq!(proposal.quadratic_votes_for, u64::MAX);
    assert_eq!(proposal.votes_for, 3);
    assert_eq!(proposal.total_voting_power, 3);
}

#[test]
fn a_voter_votes_once() {
    let circle = circle_with_member();
    let mut proposal = rate_proposal(&circle, 700);
    let (vote, _) = cast_vote(&mut proposal, key(3), key(10), None, true, 100, T0 + 1, 4).unwrap();
    assert_eq!(
        cast_vote(&mut proposal, key(3), key(10), Some(&vote), false, 50, T0 + 2, 4).map(|_| ()),
        Err(HaloError::AlreadyVoted)
    );
    assert_eq!(
        cast_vote(&mut proposal, key(3), key(10), Some(&vote), true, 0, T0 - 5, 4).map(|_| ()),
        Err(HaloError::AlreadyVoted)
    );
    assert_eq!(proposal.total_voting_power, 100);
    assert_eq!(proposal.votes_for, 100);
    assert_eq!(proposal.votes_against, 0);
    assert_eq!(proposal.quadratic_votes_for, 10);
    assert!(cast_vote(&mut proposal, key(3), key(11), None, false, 50, T0 + 2, 4).is_ok());
    assert_eq!(proposal.total_voting_power, 150);
}

#[test]
fn cast_vote_fills_the_vote_record() {
    let circle = circle_with_member();
    let mut proposal = rate_proposal(&circle, 700);
    let (vote, event) = cast_vote(&mut proposal, key(3), key(11), None, false, 17, T0 + 5, 8).unwrap();
    assert_eq!(vote.proposal, key(3));
    assert_eq!(vote.voter, key(11));
    assert_eq!(vote.voting_power, 17);
    assert_eq!(vote.quadratic_weight, 4);
    assert!(!vote.support);
    assert_eq!(vote.timestamp, T0 + 5);
    assert_eq!(vote.bump, 8);
    assert_eq!(event.proposal_id, proposal.id);
    assert_eq!(event.voter, key(11));
    assert!(!event.support);
    assert_eq!(event.voting_power, 17);
    assert_eq!(proposal.votes_against, 17);
    assert_eq!(proposal.quadratic_votes_against, 4);
    assert_eq!(proposal.votes_for, 0);
}

#[test]
fn execute_changes_the_penalty_rate() {
    let mut circle = circle_with_member();
    let mut proposal = rate_proposal(&circle, 700);
    let end = proposal.voting_end;
    cast_vote(&mut proposal, key(3), key(10), None, true, 100, T0, 0).unwrap();
    cast_vote(&mut proposal, key(3), key(11), None, false, 81, T0, 0).unwrap();
    assert!(proposal.has_passed());
    assert_eq!(
        execute_proposal(&mut proposal, &mut circle, key(2), end - 1).map(|_| ()),
        Err(HaloError::VotingPeriodEnded)
    );
    assert_eq!(circle.penalty_rate, 500);
    let event = execute_proposal(&mut proposal, &mut circle, key(2), end).unwrap();
    assert_eq!(event.proposal_id, proposal.id);
    assert_eq!(event.circle, key(2));
    assert_eq!(event.executed_at, end);
    assert_eq!(circle.penalty_rate, 700);
    assert_eq!(proposal.status, ProposalStatus::Executed);
    assert!(proposal.executed);
    assert_eq!(proposal.executed_at, Some(end));
    assert_eq!(
        execute_proposal(&mut proposal, &mut circle, key(2), end).map(|_| ()),
        Err(HaloError::ProposalNotActive)
    );
}

#[test]
fn execute_refusals_in_order() {
    let mut circle = circle_with_member();
    let mut proposal = rate_proposal(&circle, 700);
    let end = proposal.voting_end;
    assert_eq!(
        execute_proposal(&mut proposal, &mut circle, key(2), end).map(|_| ()),
        Err(HaloError::ExecutionThresholdNotMet)
    );
    cast_vote(&mut proposal, key(3), key(10), None, true, 99, T0, 0).unwrap();
    assert_eq!(
        execute_proposal(&mut proposal, &mut circle, key(2), end).map(|_| ()),
        Err(HaloError::ExecutionThresholdNotMet)
    );
    cast_vote(&mut proposal, key(3), key(11), None, false, 100, T0, 0).unwrap();
    assert_eq!(proposal.total_voting_power, 199);
    assert_eq!(
        execute_proposal(&mut proposal, &mut circle, key(2), end).map(|_| ()),
        Err(HaloError::ExecutionThresholdNotMet)
    );
    proposal.executed = true;
    assert_eq!(
        execute_proposal(&mut proposal, &mut circle, key(2), end).map(|_| ()),
        Err(HaloError::ProposalAlreadyExecuted)
    );
    assert_eq!(
        execute_proposal(&mut proposal, &mut circle, key(2), end - 1).map(|_| ()),
        Err(HaloError::VotingPeriodEnded)
    );
    proposal.status = ProposalStatus::Cancelled;
    assert_eq!(
        execute_proposal(&mut proposal, &mut circle, key(2), end - 1).map(|_| ()),
        Err(HaloError::ProposalNotActive)
    );
    assert_eq!(circle.penalty_rate, 500);
}

#[test]
fn execute_other_types_leaves_the_circle() {
    let mut circle = circle_with_member();
    let (mut proposal, _) = create_proposal(
        &circle,
        key(2),
        key(10),
        "t".to_string(),
        "d".to_string(),
        2,
        1,
        0,
        Some(900),
        T0,
        0,
    )
    .unwrap();
    assert_eq!(proposal.proposal_type, ProposalType::Emergency);
    cast_vote(&mut proposal, key(3), key(10), None, true, 1, T0, 0).unwrap();
    execute_proposal(&mut proposal, &mut circle, key(2), T0 + 3600).unwrap();
    assert_eq!(circle.penalty_rate, 500);
    assert_eq!(proposal.status, ProposalStatus::Executed);
    assert_eq!(ProposalStatus::default(), ProposalStatus::Active);
}
