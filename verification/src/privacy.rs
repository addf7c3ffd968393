//! Records of the privacy features: encrypted scores, anonymous circles,
//! sealed bids and private loans.

use vstd::prelude::*;
use crate::keys::Pubkey;

verus! {

/// How much of a circle or a score is visible.
#[derive(Clone, Copy, Debug, PartialEq, Eq, Structural)]
pub enum PrivacyMode {
    Public,
    Anonymous,
    FullyEncrypted,
}

impl Default for PrivacyMode {
    fn default() -> (m: Self)
        ensures
            m == PrivacyMode::Public,
    {
        PrivacyMode::Public
    }
}

/// A trust score kept in encrypted form.
#[derive(Clone, Debug)]
pub struct EncryptedTrustScore {
    pub authority: Pubkey,
    pub encrypted_score: Vec<u8>,
    pub arcium_compute_key: Pubkey,
    pub privacy_enabled: bool,
    pub last_updated: i64,
    pub bump: u8,
}

/// What an anonymous circle shows of one member.
#[derive(Clone, Debug)]
pub struct EncryptedMemberInfo {
    pub member_id: String,
    pub encrypted_wallet: Vec<u8>,
    pub payment_status_current: bool,
}

/// Privacy settings of one circle.
#[derive(Clone, Debug)]
pub struct PrivateCircle {
    pub circle: Pubkey,
    pub privacy_mode: PrivacyMode,
    pub arcium_session: Pubkey,
    pub encrypted_member_data: Vec<EncryptedMemberInfo>,
    pub allow_public_stats: bool,
    pub bump: u8,
}

/// A bid that stays sealed until it is revealed.
#[derive(Clone, Debug)]
pub struct SealedBid {
    pub auction: Pubkey,
    pub sealed_bid_data: Vec<u8>,
    pub commitment_hash: [u8; 32],
    pub bidder_commitment: Pubkey,
    pub timestamp: i64,
    pub is_revealed: bool,
    pub bump: u8,
}

/// A loan whose amount and terms are kept in encrypted form.
#[derive(Clone, Debug)]
pub struct PrivateLoan {
    pub circle: Pubkey,
    pub borrower: Pubkey,
    pub encrypted_amount: Vec<u8>,
    pub encrypted_terms: Vec<u8>,
    pub arcium_session_key: Pubkey,
    pub created_at: i64,
    pub bump: u8,
}

impl EncryptedTrustScore {
    /// Bytes reserved for a stored record.
    pub fn space() -> (n: usize)
        ensures
            n == 392,
    {
        8 + 32 + 4 + 256 + 32 + 1 + 8 + 1 + 50
    }
}

impl PrivateCircle {
    pub const MAX_MEMBERS: usize = 20;

    /// Bytes reserved for a stored record.
    pub fn space() -> (n: usize)
        ensures
            n == 6039,
    {
        8 + 32 + 1 + 32 + 4 + (32 + 4 + 256 + 1) * Self::MAX_MEMBERS + 1 + 1 + 100
    }
}

impl SealedBid {
    /// Bytes reserved for a stored bid.
    pub fn space() -> (n: usize)
        ensures
            n == 424,
    {
        8 + 32 + 4 + 256 + 32 + 32 + 8 + 1 + 1 + 50
    }
}

impl PrivateLoan {
    /// Bytes reserved for a stored loan.
    pub fn space() -> (n: usize)
        ensures
            n == 939,
    {
        8 + 32 + 32 + 4 + 256 + 4 + 512 + 32 + 8 + 1 + 50
    }
}

} // verus!
