//! Orders for transfers on the token ledger, which the operations hand to
//! their caller.

use vstd::prelude::*;

verus! {

/// Which way value moves, seen from the custodial account of the operation
/// that orders the transfer.
#[derive(Clone, Copy, Debug, PartialEq, Eq, Structural)]
pub enum TransferKind {
    /// From the caller's token account into the custodial account.
    Deposit,
    /// From the custodial account to the beneficiary's token account.
    Payout,
}

/// One transfer that the caller of an operation has to carry out on the
/// token ledger. An operation that returns an order has already booked it
/// in the records it was given.
#[derive(Clone, Copy, Debug, PartialEq, Eq, Structural)]
pub struct TransferOrder {
    pub kind: TransferKind,
    pub amount: u64,
}

impl TransferOrder {
    /// Change of the custodial balance that the order stands for.
    pub open spec fn delta(&self) -> int {
        match self.kind {
            TransferKind::Deposit => self.amount as int,
            TransferKind::Payout => -(self.amount as int),
        }
    }

    pub fn deposit(amount: u64) -> (o: TransferOrder)
        ensures
            o == (TransferOrder { kind: TransferKind::Deposit, amount }),
    {
        TransferOrder { kind: TransferKind::Deposit, amount }
    }

    pub fn payout(amount: u64) -> (o: TransferOrder)
        ensures
            o == (TransferOrder { kind: TransferKind::Payout, amount }),
    {
        TransferOrder { kind: TransferKind::Payout, amount }
    }
}

/// Change of the custodial balance that an order stands for, if there is
/// one.
pub open spec fn delta_of(order: Option<TransferOrder>) -> int {
    match order {
        Some(o) => o.delta(),
        None => 0,
    }
}

} // verus!
