//! The errors with which the operations on circles, reputation,
//! governance, auctions and revenue are refused.

use vstd::prelude::*;

verus! {

/// Why an operation was refused. Every refusal leaves all records as they
/// were before the call.
#[derive(Clone, Copy, Debug, PartialEq, Eq, Structural)]
pub enum HaloError {
    CircleFull,
    InvalidContributionAmount,
    MemberAlreadyExists,
    MemberNotFound,
    CircleNotActive,
    InsufficientStake,
    ContributionAlreadyMade,
    InvalidContributionMonth,
    PotAlreadyDistributed,
    NoContributionsToDistribute,
    NotAuthorizedToDistribute,
    MemberAlreadyReceivedPot,
    InvalidPenaltyRate,
    MemberInDefault,
    CannotLeaveActivePeriod,
    ArithmeticOverflow,
    InvalidDuration,
    InvalidMaxMembers,
    CircleEnded,
    TrustScoreNotFound,
    InvalidTrustTier,
    InsufficientTrustScore,
    SocialProofAlreadyExists,
    InvalidSocialProof,
    ProposalNotFound,
    ProposalNotActive,
    VotingPeriodEnded,
    VotingPeriodNotStarted,
    AlreadyVoted,
    InsufficientVotingPower,
    ExecutionThresholdNotMet,
    ProposalAlreadyExecuted,
    InvalidProposalType,
    InvalidVotingPeriod,
    AuctionNotFound,
    AuctionNotActive,
    AuctionHasEnded,
    BidTooLow,
    InsufficientStakeForBid,
    CannotBidOnOwnAuction,
    AuctionAlreadySettled,
    OnlyWinnerCanClaim,
    AuctionNotEnded,
    InvalidAuctionDuration,
    NoPotAvailableForAuction,
    AutomationDisabled,
    AutomationNotScheduled,
    AutomationTooFrequent,
    AutomationJobNotFound,
    InvalidAutomationConfig,
    InvalidFeeRate,
    TreasuryNotInitialized,
    UnauthorizedRevenueOperation,
    RevenueCollectionTooFrequent,
    InvalidRevenueReportPeriod,
}

impl HaloError {
    /// The text that describes the error to a user.
    pub open spec fn message_text(&self) -> Seq<char> {
        match *self {
            HaloError::CircleFull => "Circle is full"@,
            HaloError::InvalidContributionAmount => "Invalid contribution amount"@,
            HaloError::MemberAlreadyExists => "Member already exists in circle"@,
            HaloError::MemberNotFound => "Member not found in circle"@,
            HaloError::CircleNotActive => "Circle is not active"@,
            HaloError::InsufficientStake => "Insufficient stake amount"@,
            HaloError::ContributionAlreadyMade => "Contribution already made for this month"@,
            HaloError::InvalidContributionMonth => "Cannot contribute for future months"@,
            HaloError::PotAlreadyDistributed => "Pot already distributed for this month"@,
            HaloError::NoContributionsToDistribute => "No contributions to distribute"@,
            HaloError::NotAuthorizedToDistribute => "Not authorized to distribute pot"@,
            HaloError::MemberAlreadyReceivedPot => "Member has already received pot"@,
            HaloError::InvalidPenaltyRate => "Invalid penalty rate"@,
            HaloError::MemberInDefault => "Member is in default"@,
            HaloError::CannotLeaveActivePeriod => "Cannot leave circle during active period"@,
            HaloError::ArithmeticOverflow => "Arithmetic overflow"@,
            HaloError::InvalidDuration => "Invalid duration"@,
            HaloError::InvalidMaxMembers => "Invalid max members"@,
            HaloError::CircleEnded => "Circle has already ended"@,
            HaloError::TrustScoreNotFound => "Trust score account not found"@,
            HaloError::InvalidTrustTier => "Invalid trust tier"@,
            HaloError::InsufficientTrustScore => "Insufficient trust score"@,
            HaloError::SocialProofAlreadyExists => "Social proof already exists"@,
            HaloError::InvalidSocialProof => "Invalid social proof"@,
            HaloError::ProposalNotFound => "Proposal not found"@,
            HaloError::ProposalNotActive => "Proposal not active"@,
            HaloError::VotingPeriodEnded => "Voting period has ended"@,
            HaloError::VotingPeriodNotStarted => "Voting period has not started"@,
            HaloError::AlreadyVoted => "Already voted on this proposal"@,
            HaloError::InsufficientVotingPower => "Insufficient voting power"@,
            HaloError::ExecutionThresholdNotMet => "Proposal execution threshold not met"@,
            HaloError::ProposalAlreadyExecuted => "Proposal already executed"@,
            HaloError::InvalidProposalType => "Invalid proposal type"@,
            HaloError::InvalidVotingPeriod => "Invalid voting period"@,
            HaloError::AuctionNotFound => "Auction not found"@,
            HaloError::AuctionNotActive => "Auction not active"@,
            HaloError::AuctionHasEnded => "Auction has ended"@,
            HaloError::BidTooLow => "Bid too low"@,
            HaloError::InsufficientStakeForBid => "Insufficient stake for bid"@,
            HaloError::CannotBidOnOwnAuction => "Cannot bid on own auction"@,
            HaloError::AuctionAlreadySettled => "Auction already settled"@,
            HaloError::OnlyWinnerCanClaim => "Only auction winner can claim"@,
            HaloError::AuctionNotEnded => "Auction not ended"@,
            HaloError::InvalidAuctionDuration => "Invalid auction duration"@,
            HaloError::NoPotAvailableForAuction => "No pot available for auction"@,
            HaloError::AutomationDisabled => "Automation is disabled"@,
            HaloError::AutomationNotScheduled => "Automation not scheduled at this time"@,
            HaloError::AutomationTooFrequent => "Automation check too frequent"@,
            HaloError::AutomationJobNotFound => "Automation job not found"@,
            HaloError::InvalidAutomationConfig => "Invalid automation configuration"@,
            HaloError::InvalidFeeRate => "Invalid fee rate"@,
            HaloError::TreasuryNotInitialized => "Treasury not initialized"@,
            HaloError::UnauthorizedRevenueOperation => "Unauthorized revenue operation"@,
            HaloError::RevenueCollectionTooFrequent => "Revenue collection too frequent"@,
            HaloError::InvalidRevenueReportPeriod => "Invalid revenue report period"@,
        }
    }

    /// The text that describes the error to a user.
    pub fn message(&self) -> (text: &'static str)
        ensures
            text@ == self.message_text(),
    {
        match *self {
            HaloError::CircleFull => "Circle is full",
            HaloError::InvalidContributionAmount => "Invalid contribution amount",
            HaloError::MemberAlreadyExists => "Member already exists in circle",
            HaloError::MemberNotFound => "Member not found in circle",
            HaloError::CircleNotActive => "Circle is not active",
            HaloError::InsufficientStake => "Insufficient stake amount",
            HaloError::ContributionAlreadyMade => "Contribution already made for this month",
            HaloError::InvalidContributionMonth => "Cannot contribute for future months",
            HaloError::PotAlreadyDistributed => "Pot already distributed for this month",
            HaloError::NoContributionsToDistribute => "No contributions to distribute",
            HaloError::NotAuthorizedToDistribute => "Not authorized to distribute pot",
            HaloError::MemberAlreadyReceivedPot => "Member has already received pot",
            HaloError::InvalidPenaltyRate => "Invalid penalty rate",
            HaloError::MemberInDefault => "Member is in default",
            HaloError::CannotLeaveActivePeriod => "Cannot leave circle during active period",
            HaloError::ArithmeticOverflow => "Arithmetic overflow",
            HaloError::InvalidDuration => "Invalid duration",
            HaloError::InvalidMaxMembers => "Invalid max members",
            HaloError::CircleEnded => "Circle has already ended",
            HaloError::TrustScoreNotFound => "Trust score account not found",
            HaloError::InvalidTrustTier => "Invalid trust tier",
            HaloError::InsufficientTrustScore => "Insufficient trust score",
            HaloError::SocialProofAlreadyExists => "Social proof already exists",
            HaloError::InvalidSocialProof => "Invalid social proof",
            HaloError::ProposalNotFound => "Proposal not found",
            HaloError::ProposalNotActive => "Proposal not active",
            HaloError::VotingPeriodEnded => "Voting period has ended",
            HaloError::VotingPeriodNotStarted => "Voting period has not started",
            HaloError::AlreadyVoted => "Already voted on this proposal",
            HaloError::InsufficientVotingPower => "Insufficient voting power",
            HaloError::ExecutionThresholdNotMet => "Proposal execution threshold not met",
            HaloError::ProposalAlreadyExecuted => "Proposal already executed",
            HaloError::InvalidProposalType => "Invalid proposal type",
            HaloError::InvalidVotingPeriod => "Invalid voting period",
            HaloError::AuctionNotFound => "Auction not found",
            HaloError::AuctionNotActive => "Auction not active",
            HaloError::AuctionHasEnded => "Auction has ended",
            HaloError::BidTooLow => "Bid too low",
            HaloError::InsufficientStakeForBid => "Insufficient stake for bid",
            HaloError::CannotBidOnOwnAuction => "Cannot bid on own auction",
            HaloError::AuctionAlreadySettled => "Auction already settled",
            HaloError::OnlyWinnerCanClaim => "Only auction winner can claim",
            HaloError::AuctionNotEnded => "Auction not ended",
            HaloError::InvalidAuctionDuration => "Invalid auction duration",
            HaloError::NoPotAvailableForAuction => "No pot available for auction",
            HaloError::AutomationDisabled => "Automation is disabled",
            HaloError::AutomationNotScheduled => "Automation not scheduled at this time",
            HaloError::AutomationTooFrequent => "Automation check too frequent",
            HaloError::AutomationJobNotFound => "Automation job not found",
            HaloError::InvalidAutomationConfig => "Invalid automation configuration",
            HaloError::InvalidFeeRate => "Invalid fee rate",
            HaloError::TreasuryNotInitialized => "Treasury not initialized",
            HaloError::UnauthorizedRevenueOperation => "Unauthorized revenue operation",
            HaloError::RevenueCollectionTooFrequent => "Revenue collection too frequent",
            HaloError::InvalidRevenueReportPeriod => "Invalid revenue report period",
        }
    }
}

} // verus!
