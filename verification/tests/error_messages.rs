use halo_protocol::errors::HaloError;

#[test]
fn errors_describe_themselves() {
    assert_eq!(HaloError::CircleFull.message(), "Circle is full");
    assert_eq!(HaloError::ContributionAlreadyMade.message(), "Contribution already made for this month");
    assert_eq!(HaloError::PotAlreadyDistributed.message(), "Pot already distributed for this month");
    assert_eq!(HaloError::InsufficientStake.message(), "Insufficient stake amount");
    assert_eq!(HaloError::ArithmeticOverflow.message(), "Arithmetic overflow");
    assert_eq!(HaloError::BidTooLow.message(), "Bid too low");
    assert_eq!(HaloError::InvalidRevenueReportPeriod.message(), "Invalid revenue report period");
    assert_eq!(
        halo_protocol::insurance::ErrorCode::InsufficientCoverage.message(),
        "Insufficient coverage"
    );
    assert_eq!(
        halo_protocol::insurance::ErrorCode::ArithmeticOverflow.message(),
        "Arithmetic overflow"
    );
    assert_eq!(
        halo_protocol::yield_integration::ErrorCode::BelowMinimumDeposit.message(),
        "Deposit amount below minimum threshold"
    );
    assert_eq!(
        halo_protocol::yield_integration::ErrorCode::UnauthorizedMember.message(),
        "Unauthorized member"
    );
}
