//! Rotating savings circles: the records of a circle, its members and its
//! escrow, and the operations that change them.
//!
//! Every operation is a function from the records it is given, the request
//! and the current time to the changed records and, where value has to
//! move, a [`transfer::TransferOrder`] for the caller to carry out on the
//! token ledger. An operation either succeeds as a whole or is refused and
//! changes nothing; its contract says which, and what changes.
//!
//! - [`instructions`]: the life of a circle — creation, admission,
//!   contributions, distribution of the pot, penalties, exit.
//! - [`ledger`]: what the operations do to the books of a circle, and the
//!   balance that every history keeps.
//! - [`trust`]: the reputation score and the operations on it.
//! - [`governance`], [`auction`], [`insurance`], [`revenue`],
//!   [`yield_integration`], [`automation`], [`privacy`]: the modules around
//!   the circle.
//! - [`state`], [`keys`], [`errors`], [`transfer`], [`math`]: the records,
//!   addresses, errors, transfer orders and arithmetic they share.

pub mod auction;
pub mod automation;
pub mod errors;
pub mod governance;
pub mod instructions;
pub mod insurance;
pub mod keys;
pub mod ledger;
pub mod math;
pub mod privacy;
pub mod revenue;
pub mod state;
pub mod transfer;
pub mod trust;
pub mod yield_integration;
