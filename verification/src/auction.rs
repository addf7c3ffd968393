//! Time-boxed ascending auctions for the right to a month's pot.

use vstd::prelude::*;
use crate::errors::HaloError;
use crate::keys::{Pubkey, contains_key};
use crate::state::{Circle, Member};
use crate::transfer::{TransferKind, TransferOrder};

verus! {

#[derive(Clone, Copy, Debug, PartialEq, Eq, Structural)]
pub enum AuctionStatus {
    Active,
    Ended,
    Cancelled,
}

impl Default for AuctionStatus {
    fn default() -> (s: Self)
        ensures
            s == AuctionStatus::Active,
    {
        AuctionStatus::Active
    }
}

/// A time-boxed ascending auction for the right to one month's pot.
#[derive(Clone, Copy, Debug)]
pub struct Auction {
    pub id: u64,
    pub circle: Pubkey,
    pub initiator: Pubkey,
    pub pot_amount: u64,
    pub starting_bid: u64,
    pub highest_bid: u64,
    pub highest_bidder: Option<Pubkey>,
    pub start_time: i64,
    pub end_time: i64,
    pub status: AuctionStatus,
    pub settled: bool,
    pub bid_count: u32,
    pub bump: u8,
}

/// One accepted bid.
#[derive(Clone, Copy, Debug)]
pub struct Bid {
    pub auction: Pubkey,
    pub bidder: Pubkey,
    pub amount: u64,
    pub bidder_stake: u64,
    pub timestamp: i64,
    pub is_highest: bool,
    pub bump: u8,
}

/// Notice that an auction was opened.
#[derive(Clone, Copy, Debug)]
pub struct AuctionCreated {
    pub auction_id: u64,
    pub circle: Pubkey,
    pub initiator: Pubkey,
    pub pot_amount: u64,
    pub starting_bid: u64,
    pub end_time: i64,
}

/// Notice that a bid was accepted.
#[derive(Clone, Copy, Debug)]
pub struct BidPlaced {
    pub auction_id: u64,
    pub bidder: Pubkey,
    pub bid_amount: u64,
    pub timestamp: i64,
}

/// Notice that an auction was settled, with the winner if there is one.
#[derive(Clone, Copy, Debug)]
pub struct AuctionSettled {
    pub auction_id: u64,
    pub winner: Option<Pubkey>,
    pub winning_bid: u64,
    pub settled_at: i64,
}

impl Auction {
    /// Bytes reserved for a stored auction.
    pub fn space() -> (n: usize)
        ensures
            n == 210,
    {
        8 + 8 + 32 + 32 + 8 + 8 + 8 + 1 + 32 + 8 + 8 + 1 + 1 + 4 + 1 + 50
    }

    pub open spec fn spec_is_active(&self, current_time: i64) -> bool {
        self.status == AuctionStatus::Active && current_time >= self.start_time && current_time
            < self.end_time
    }

    /// Whether bids are taken at `current_time`.
    #[verifier::when_used_as_spec(spec_is_active)]
    pub fn is_active(&self, current_time: i64) -> (b: bool)
        ensures
            b == self.spec_is_active(current_time),
    {
        self.status == AuctionStatus::Active && current_time >= self.start_time && current_time
            < self.end_time
    }

    pub open spec fn spec_has_ended(&self, current_time: i64) -> bool {
        current_time >= self.end_time || self.status == AuctionStatus::Ended
    }

    /// Whether the auction is over at `current_time`.
    #[verifier::when_used_as_spec(spec_has_ended)]
    pub fn has_ended(&self, current_time: i64) -> (b: bool)
        ensures
            b == self.spec_has_ended(current_time),
    {
        current_time >= self.end_time || self.status == AuctionStatus::Ended
    }
}

impl Bid {
    /// Bytes reserved for a stored bid.
    pub fn space() -> (n: usize)
        ensures
            n == 148,
    {
        8 + 32 + 32 + 8 + 8 + 8 + 1 + 1 + 50
    }
}

/// Why an auction is refused, if it is; the first reason that applies, in
/// this order.
pub open spec fn create_auction_refusal(
    circle: &Circle,
    initiator: Pubkey,
    pot_amount: u64,
    starting_bid: u64,
    duration_hours: u16,
    now: i64,
) -> Option<HaloError> {
    if !(0 < duration_hours <= 72) {
        Some(HaloError::InvalidAuctionDuration)
    } else if pot_amount == 0 {
        Some(HaloError::NoPotAvailableForAuction)
    } else if !(0 < starting_bid <= pot_amount) {
        Some(HaloError::BidTooLow)
    } else if !circle.members@.contains(initiator) {
        Some(HaloError::MemberNotFound)
    } else if now + duration_hours * 3600 > i64::MAX {
        Some(HaloError::ArithmeticOverflow)
    } else {
        None
    }
}

/// Opens an auction of a member of `circle` for a pot, lasting at most 72
/// hours from `now`. The auction's id is the creation time; the starting
/// bid stands as the highest bid until someone outbids it.
pub fn create_auction(
    circle: &Circle,
    circle_key: Pubkey,
    initiator: Pubkey,
    pot_amount: u64,
    starting_bid: u64,
    duration_hours: u16,
    now: i64,
    bump: u8,
) -> (r: Result<(Auction, AuctionCreated), HaloError>)
    ensures
        match create_auction_refusal(circle, initiator, pot_amount, starting_bid, duration_hours, now) {
            Some(e) => r == Err::<(Auction, AuctionCreated), HaloError>(e),
            None => {
                &&& r matches Ok((auction, event))
                &&& auction == (Auction {
                    id: now as u64,
                    circle: circle_key,
                    initiator,
                    pot_amount,
                    starting_bid,
                    highest_bid: starting_bid,
                    highest_bidder: None,
                    start_time: now,
                    end_time: (now + duration_hours * 3600) as i64,
                    status: AuctionStatus::Active,
                    settled: false,
                    bid_count: 0,
                    bump,
                })
                &&& event == (AuctionCreated {
                    auction_id: now as u64,
                    circle: circle_key,
                    initiator,
                    pot_amount,
                    starting_bid,
                    end_time: (now + duration_hours * 3600) as i64,
                })
            },
        },
{
    if !(duration_hours > 0 && duration_hours <= 72) {
        return Err(HaloError::InvalidAuctionDuration);
    }
    if pot_amount == 0 {
        return Err(HaloError::NoPotAvailableForAuction);
    }
    if !(starting_bid > 0 && starting_bid <= pot_amount) {
        return Err(HaloError::BidTooLow);
    }
    if !contains_key(&circle.members, initiator) {
        return Err(HaloError::MemberNotFound);
    }
    let end_time: i64 = match now.checked_add(duration_hours as i64 * 3600) {
        None => {
            return Err(HaloError::ArithmeticOverflow);
        },
        Some(end) => end,
    };
    let id: u64 = #[verifier::truncate] (now as u64);
    let auction = Auction {
        id,
        circle: circle_key,
        initiator,
        pot_amount,
        starting_bid,
        highest_bid: starting_bid,
        highest_bidder: None,
        start_time: now,
        end_time,
        status: AuctionStatus::Active,
        settled: false,
        bid_count: 0,
        bump,
    };
    let event = AuctionCreated {
        auction_id: id,
        circle: circle_key,
        initiator,
        pot_amount,
        starting_bid,
        end_time,
    };
    Ok((auction, event))
}

/// Why a bid is refused, if it is; the first reason that applies, in this
/// order.
pub open spec fn place_bid_refusal(
    auction: &Auction,
    bidder: Pubkey,
    member: &Member,
    bid_amount: u64,
    now: i64,
) -> Option<HaloError> {
    if !auction.is_active(now) {
        Some(HaloError::AuctionNotActive)
    } else if auction.has_ended(now) {
        Some(HaloError::AuctionHasEnded)
    } else if bidder == auction.initiator {
        Some(HaloError::CannotBidOnOwnAuction)
    } else if bid_amount <= auction.highest_bid {
        Some(HaloError::BidTooLow)
    } else if member.stake_amount < bid_amount / 10 {
        Some(HaloError::InsufficientStakeForBid)
    } else if auction.bid_count == u32::MAX {
        Some(HaloError::ArithmeticOverflow)
    } else {
        None
    }
}

/// Places `bidder`'s bid. The bid has to exceed the highest bid so far,
/// and the bidder's stake in the circle has to be at least a tenth of the
/// bid.
///
/// The caller moves the bid from the bidder's token account into the
/// auction's custody; the returned order says so. A refused bid changes
/// nothing.
pub fn place_bid(
    auction: &mut Auction,
    auction_key: Pubkey,
    bidder: Pubkey,
    member: &Member,
    bid_amount: u64,
    now: i64,
    bump: u8,
) -> (r: Result<(Bid, BidPlaced, TransferOrder), HaloError>)
    ensures
        match place_bid_refusal(old(auction), bidder, member, bid_amount, now) {
            Some(e) => r == Err::<(Bid, BidPlaced, TransferOrder), HaloError>(e) && *final(auction)
                == *old(auction),
            None => {
                &&& r == Ok::<(Bid, BidPlaced, TransferOrder), HaloError>(
                    (
                        Bid {
                            auction: auction_key,
                            bidder,
                            amount: bid_amount,
                            bidder_stake: member.stake_amount,
                            timestamp: now,
                            is_highest: true,
                            bump,
                        },
                        BidPlaced {
                            auction_id: old(auction).id,
                            bidder,
                            bid_amount,
                            timestamp: now,
                        },
                        TransferOrder { kind: TransferKind::Deposit, amount: bid_amount },
                    ),
                )
                &&& *final(auction) == (Auction {
                    highest_bid: bid_amount,
                    highest_bidder: Some(bidder),
                    bid_count: (old(auction).bid_count + 1) as u32,
                    ..*old(auction)
                })
            },
        },
{
    if !auction.is_active(now) {
        return Err(HaloError::AuctionNotActive);
    }
    if auction.has_ended(now) {
        return Err(HaloError::AuctionHasEnded);
    }
    if bidder == auction.initiator {
        return Err(HaloError::CannotBidOnOwnAuction);
    }
    if bid_amount <= auction.highest_bid {
        return Err(HaloError::BidTooLow);
    }
    if member.stake_amount < bid_amount / 10 {
        return Err(HaloError::InsufficientStakeForBid);
    }
    let count: u32 = match auction.bid_count.checked_add(1) {
        None => {
            return Err(HaloError::ArithmeticOverflow);
        },
        Some(count) => count,
    };
    auction.highest_bid = bid_amount;
    auction.highest_bidder = Some(bidder);
    auction.bid_count = count;
    let bid = Bid {
        auction: auction_key,
        bidder,
        amount: bid_amount,
        bidder_stake: member.stake_amount,
        timestamp: now,
        is_highest: true,
        bump,
    };
    let event = BidPlaced { auction_id: auction.id, bidder, bid_amount, timestamp: now };
    Ok((bid, event, TransferOrder::deposit(bid_amount)))
}

/// Why a settlement is refused, if it is; the first reason that applies,
/// in this order.
pub open spec fn settle_auction_refusal(auction: &Auction, now: i64) -> Option<HaloError> {
    if !auction.has_ended(now) {
        Some(HaloError::AuctionNotEnded)
    } else if auction.settled {
        Some(HaloError::AuctionAlreadySettled)
    } else {
        None
    }
}

/// Settles an auction that is over and names the winner, if anyone bid.
///
/// Where there is a winner, the caller moves the auctioned pot from the
/// pool that holds it to the winner; the returned order says so. Without a
/// bid nothing moves. A refused settlement changes nothing.
pub fn settle_auction(auction: &mut Auction, now: i64) -> (r: Result<
    (AuctionSettled, Option<TransferOrder>),
    HaloError,
>)
    ensures
        match settle_auction_refusal(old(auction), now) {
            Some(e) => {
                &&& r == Err::<(AuctionSettled, Option<TransferOrder>), HaloError>(e)
                &&& *final(auction) == *old(auction)
            },
            None => {
                &&& r == Ok::<(AuctionSettled, Option<TransferOrder>), HaloError>(
                    (
                        AuctionSettled {
                            auction_id: old(auction).id,
                            winner: old(auction).highest_bidder,
                            winning_bid: if old(auction).highest_bidder is Some {
                                old(auction).highest_bid
                            } else {
                                0
                            },
                            settled_at: now,
                        },
                        if old(auction).highest_bidder is Some {
                            Some(
                                TransferOrder {
                                    kind: TransferKind::Payout,
                                    amount: old(auction).pot_amount,
                                },
                            )
                        } else {
                            None
                        },
                    ),
                )
                &&& *final(auction) == (Auction {
                    status: AuctionStatus::Ended,
                    settled: true,
                    ..*old(auction)
                })
            },
        },
{
    if !auction.has_ended(now) {
        return Err(HaloError::AuctionNotEnded);
    }
    if auction.settled {
        return Err(HaloError::AuctionAlreadySettled);
    }
    auction.status = AuctionStatus::Ended;
    auction.settled = true;
    let (winning_bid, order) = if auction.highest_bidder.is_some() {
        (auction.highest_bid, Some(TransferOrder::payout(auction.pot_amount)))
    } else {
        (0u64, None)
    };
    Ok(
        (
            AuctionSettled {
                auction_id: auction.id,
                winner: auction.highest_bidder,
                winning_bid,
                settled_at: now,
            },
            order,
        ),
    )
}

/// Accepted bids strictly ascend: after a bid is accepted, no bid of that
/// amount or less is accepted again.
pub proof fn lemma_bids_ascend(
    before: &Auction,
    after: &Auction,
    bidder: Pubkey,
    member: &Member,
    bid_amount: u64,
    now: i64,
    next_bidder: Pubkey,
    next_member: &Member,
    next_amount: u64,
    later: i64,
)
    requires
        place_bid_refusal(before, bidder, member, bid_amount, now) is None,
        *after == (Auction {
            highest_bid: bid_amount,
            highest_bidder: Some(bidder),
            bid_count: (before.bid_count + 1) as u32,
            ..*before
        }),
        next_amount <= bid_amount,
    ensures
        place_bid_refusal(after, next_bidder, next_member, next_amount, later) is Some,
        after.is_active(later) && next_bidder != after.initiator ==> place_bid_refusal(
            after,
            next_bidder,
            next_member,
            next_amount,
            later,
        ) == Some(HaloError::BidTooLow),
{
}

} // verus!
