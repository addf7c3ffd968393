//! The reputation record of an identity: score formulas, tiers, social
//! proofs, and the operations that update the record.

use vstd::prelude::*;
use crate::errors::HaloError;
use crate::keys::{Pubkey, contains_key};
use crate::state::{Circle, CircleStatus};

verus! {

/// Reputation bracket. It decides how much collateral a member posts.
#[derive(Clone, Copy, Debug, PartialEq, Eq, Structural)]
pub enum TrustTier {
    Newcomer,
    Silver,
    Gold,
    Platinum,
}

impl Default for TrustTier {
    fn default() -> (t: Self)
        ensures
            t == TrustTier::Newcomer,
    {
        TrustTier::Newcomer
    }
}

/// An attestation attached to an identity.
#[derive(Clone, Debug)]
pub struct SocialProof {
    pub proof_type: String,
    pub identifier: String,
    pub verified: bool,
    pub timestamp: i64,
}

/// Reputation record of one identity, independent of any circle.
#[derive(Clone, Debug)]
pub struct TrustScore {
    pub authority: Pubkey,
    pub score: u16,
    pub tier: TrustTier,
    pub payment_history_score: u16,
    pub completion_score: u16,
    pub defi_activity_score: u16,
    pub social_proof_score: u16,
    pub circles_completed: u16,
    pub circles_joined: u16,
    pub total_contributions: u64,
    pub missed_contributions: u16,
    pub social_proofs: Vec<SocialProof>,
    pub last_updated: i64,
    pub bump: u8,
}

/// What is known of a caller's reputation when an operation runs: the
/// record, or that none exists.
#[derive(Clone, Debug)]
pub enum TrustLookup {
    Known(TrustScore),
    Absent,
}

/// The tier that belongs to a score.
pub open spec fn tier_for(score: int) -> TrustTier {
    if score <= 249 {
        TrustTier::Newcomer
    } else if score <= 499 {
        TrustTier::Silver
    } else if score <= 749 {
        TrustTier::Gold
    } else if score <= 1000 {
        TrustTier::Platinum
    } else {
        TrustTier::Newcomer
    }
}

/// Percentage of the base contribution that a tier posts as collateral.
pub open spec fn stake_multiplier(tier: TrustTier) -> int {
    match tier {
        TrustTier::Newcomer => 200,
        TrustTier::Silver => 150,
        TrustTier::Gold => 100,
        TrustTier::Platinum => 75,
    }
}

pub open spec fn spec_min(a: int, b: int) -> int {
    if a <= b {
        a
    } else {
        b
    }
}

/// Payment-history points: the share of expected monthly payments that were
/// made, in percent and rounded down, times four. Twelve payments are
/// expected for every circle joined.
pub open spec fn payment_points(joined: int, missed: int) -> int {
    let expected = joined * 12;
    if joined > 0 && expected > missed {
        spec_min(100, ((expected - missed) * 100) / expected) * 400 / 100
    } else {
        0
    }
}

/// Completion points: 300 scaled by the share of joined circles that were
/// completed, capped at 300.
pub open spec fn completion_points(joined: int, completed: int) -> int {
    if joined > 0 {
        spec_min(300, (completed * 300) / joined)
    } else {
        0
    }
}

/// External-activity points: the stored value, capped at 200.
pub open spec fn activity_points(stored: int) -> int {
    spec_min(200, stored)
}

/// Number of verified proofs in a list.
pub open spec fn verified_count(proofs: Seq<SocialProof>) -> nat
    decreases proofs.len(),
{
    if proofs.len() == 0 {
        0
    } else {
        verified_count(proofs.drop_last()) + if proofs.last().verified {
            1nat
        } else {
            0nat
        }
    }
}

/// Social-proof points: 20 for every verified proof, capped at 100.
pub open spec fn social_points(verified: int) -> int {
    spec_min(100, verified * 20)
}

/// Length of a string in bytes of its UTF-8 encoding.
pub open spec fn utf8_len(s: Seq<char>) -> nat {
    vstd::utf8::encode_utf8(s).len()
}

/// Whether `p` is the proof of the given type for the given identifier.
pub open spec fn same_proof(p: SocialProof, proof_type: Seq<char>, identifier: Seq<char>) -> bool {
    p.proof_type@ == proof_type && p.identifier@ == identifier
}

/// Whether some proof in `proofs` has the given type and identifier.
pub open spec fn has_proof(proofs: Seq<SocialProof>, proof_type: Seq<char>, identifier: Seq<char>) -> bool {
    exists|i: int| 0 <= i < proofs.len() && same_proof(#[trigger] proofs[i], proof_type, identifier)
}

/// Position of the first proof with the given type and identifier, or the
/// length of the list if there is none.
pub open spec fn first_proof(proofs: Seq<SocialProof>, proof_type: Seq<char>, identifier: Seq<char>) -> int
    decreases proofs.len(),
{
    if proofs.len() == 0 {
        0
    } else if same_proof(proofs[0], proof_type, identifier) {
        0
    } else {
        1 + first_proof(proofs.drop_first(), proof_type, identifier)
    }
}

/// `first_proof` is in range exactly when a matching proof exists, it
/// points at a matching proof, and nothing before it matches.
pub proof fn lemma_first_proof(proofs: Seq<SocialProof>, proof_type: Seq<char>, identifier: Seq<char>)
    ensures
        0 <= first_proof(proofs, proof_type, identifier) <= proofs.len(),
        has_proof(proofs, proof_type, identifier) <==> first_proof(proofs, proof_type, identifier)
            < proofs.len(),
        first_proof(proofs, proof_type, identifier) < proofs.len() ==> same_proof(
            proofs[first_proof(proofs, proof_type, identifier)],
            proof_type,
            identifier,
        ),
        forall|j: int|
            0 <= j < first_proof(proofs, proof_type, identifier) ==> !same_proof(
                #[trigger] proofs[j],
                proof_type,
                identifier,
            ),
    decreases proofs.len(),
{
    if proofs.len() == 0 {
    } else if same_proof(proofs[0], proof_type, identifier) {
    } else {
        let rest = proofs.drop_first();
        lemma_first_proof(rest, proof_type, identifier);
        let k = first_proof(rest, proof_type, identifier);
        assert forall|j: int| 0 <= j < 1 + k implies !same_proof(
            #[trigger] proofs[j],
            proof_type,
            identifier,
        ) by {
            if j > 0 {
                assert(proofs[j] == rest[j - 1]);
            }
        }
        if has_proof(proofs, proof_type, identifier) {
            let i = choose|i: int|
                0 <= i < proofs.len() && same_proof(#[trigger] proofs[i], proof_type, identifier);
            assert(rest[i - 1] == proofs[i]);
            assert(has_proof(rest, proof_type, identifier));
        }
        if k < rest.len() {
            assert(rest[k] == proofs[k + 1]);
        }
    }
}

/// At most five proofs, no two with the same type and identifier, each
/// type and identifier of at most 32 bytes.
pub open spec fn proofs_wf(proofs: Seq<SocialProof>) -> bool {
    &&& proofs.len() <= TrustScore::MAX_SOCIAL_PROOFS
    &&& forall|i: int|
        0 <= i < proofs.len() ==> utf8_len((#[trigger] proofs[i]).proof_type@) <= 32 && utf8_len(
            proofs[i].identifier@,
        ) <= 32
    &&& forall|i: int, j: int|
        0 <= i < j < proofs.len() ==> !same_proof(
            #[trigger] proofs[i],
            (#[trigger] proofs[j]).proof_type@,
            proofs[j].identifier@,
        )
}

/// `after` is `before` with the four sub-scores, the total and the tier
/// recomputed from `before`'s history counters, stored activity value and
/// proofs; nothing else differs.
pub open spec fn rescored(before: TrustScore, after: TrustScore) -> bool {
    &&& after.scored_from(
        before.circles_joined as int,
        before.circles_completed as int,
        before.missed_contributions as int,
        before.defi_activity_score as int,
    )
    &&& after == (TrustScore {
        score: after.score,
        tier: after.tier,
        payment_history_score: after.payment_history_score,
        completion_score: after.completion_score,
        defi_activity_score: after.defi_activity_score,
        social_proof_score: after.social_proof_score,
        ..before
    })
}

impl TrustScore {
    pub const MAX_SOCIAL_PROOFS: usize = 5;

    /// Bytes reserved for a stored record.
    pub fn space() -> (n: usize)
        ensures
            n == 583,
    {
        8 + 32 + 2 + 1 + 2 + 2 + 2 + 2 + 2 + 2 + 8 + 2 + 4 + (4 + 32 + 4 + 32 + 1 + 8)
            * Self::MAX_SOCIAL_PROOFS + 8 + 1 + 100
    }

    /// The four sub-scores, their sum and the tier are what the formulas
    /// give for the stated history and for the proofs this record holds.
    pub open spec fn scored_from(&self, joined: int, completed: int, missed: int, stored_activity: int) -> bool {
        &&& self.payment_history_score == payment_points(joined, missed)
        &&& self.completion_score == completion_points(joined, completed)
        &&& self.defi_activity_score == activity_points(stored_activity)
        &&& self.social_proof_score == social_points(verified_count(self.social_proofs@) as int)
        &&& self.score == self.payment_history_score + self.completion_score
            + self.defi_activity_score + self.social_proof_score
        &&& self.tier == tier_for(self.score as int)
    }

    /// The stored total is the sum of the four sub-scores, each sub-score is
    /// within its weight, and the tier is the one the total maps to.
    pub open spec fn consistent(&self) -> bool {
        &&& self.payment_history_score <= 400
        &&& self.completion_score <= 300
        &&& self.defi_activity_score <= 200
        &&& self.social_proof_score <= 100
        &&& self.score == self.payment_history_score + self.completion_score
            + self.defi_activity_score + self.social_proof_score
        &&& self.tier == tier_for(self.score as int)
    }

    /// Percentage of the base contribution this identity posts as
    /// collateral.
    pub fn get_minimum_stake_multiplier(&self) -> (m: u64)
        ensures
            m == stake_multiplier(self.tier),
    {
        match self.tier {
            TrustTier::Newcomer => 200,
            TrustTier::Silver => 150,
            TrustTier::Gold => 100,
            TrustTier::Platinum => 75,
        }
    }

    /// Sets the tier from the stored score.
    pub fn update_tier(&mut self)
        ensures
            *final(self) == (TrustScore { tier: tier_for(old(self).score as int), ..*old(self) }),
    {
        let s: u16 = self.score;
        self.tier = if s <= 249 {
            TrustTier::Newcomer
        } else if s <= 499 {
            TrustTier::Silver
        } else if s <= 749 {
            TrustTier::Gold
        } else if s <= 1000 {
            TrustTier::Platinum
        } else {
            TrustTier::Newcomer
        };
    }

    /// Number of verified proofs on this record.
    pub fn count_verified(&self) -> (n: usize)
        ensures
            n == verified_count(self.social_proofs@),
    {
        let mut n: usize = 0;
        let mut i: usize = 0;
        while i < self.social_proofs.len()
            invariant
                i <= self.social_proofs.len(),
                n == verified_count(self.social_proofs@.take(i as int)),
                n <= i,
            decreases self.social_proofs.len() - i,
        {
            proof {
                assert(self.social_proofs@.take(i + 1).drop_last() =~= self.social_proofs@.take(
                    i as int,
                ));
            }
            if self.social_proofs[i].verified {
                n += 1;
            }
            i += 1;
        }
        proof {
            assert(self.social_proofs@.take(i as int) =~= self.social_proofs@);
        }
        n
    }

    /// Recomputes the four sub-scores, the total and the tier from the
    /// history counters, the stored activity value and the proofs.
    pub fn calculate_score(&mut self)
        ensures
            rescored(*old(self), *final(self)),
            final(self).consistent(),
    {
        let joined: u64 = self.circles_joined as u64;
        let missed: u64 = self.missed_contributions as u64;
        let completed: u64 = self.circles_completed as u64;
        let expected: u64 = joined * 12;
        let payment: u64 = if joined > 0 && expected > missed {
            let pct: u64 = ((expected - missed) * 100) / expected;
            let capped: u64 = if pct < 100 {
                pct
            } else {
                100
            };
            capped * 400 / 100
        } else {
            0
        };
        let completion: u64 = if joined > 0 {
            let scaled: u64 = (completed * 300) / joined;
            if scaled < 300 {
                scaled
            } else {
                300
            }
        } else {
            0
        };
        let activity: u16 = if self.defi_activity_score < 200 {
            self.defi_activity_score
        } else {
            200
        };
        let verified: usize = self.count_verified();
        let social: u16 = if verified >= 5 {
            100
        } else {
            (verified * 20) as u16
        };
        assert(payment <= 400);
        self.payment_history_score = payment as u16;
        self.completion_score = completion as u16;
        self.defi_activity_score = activity;
        self.social_proof_score = social;
        self.score = self.payment_history_score + self.completion_score + self.defi_activity_score
            + self.social_proof_score;
        self.update_tier();
    }
}

/// A scored record is consistent: the total is the sum of the four
/// sub-scores, each within its weight, the total is at most 1000, and the
/// tier is the one the total maps to.
pub proof fn lemma_rescored_is_consistent(before: TrustScore, after: TrustScore)
    requires
        rescored(before, after),
    ensures
        after.consistent(),
        after.score <= 1000,
        after.score == payment_points(
            before.circles_joined as int,
            before.missed_contributions as int,
        ) + completion_points(before.circles_joined as int, before.circles_completed as int)
            + activity_points(before.defi_activity_score as int) + social_points(
            verified_count(before.social_proofs@) as int,
        ),
{
    let joined = before.circles_joined as int;
    let missed = before.missed_contributions as int;
    let expected = joined * 12;
    if joined > 0 && expected > missed {
        let pct = ((expected - missed) * 100) / expected;
        assert(0 <= pct) by (nonlinear_arith)
            requires
                pct == ((expected - missed) * 100) / expected,
                expected > 0,
                expected - missed >= 0,
        ;
    }
}

/// The tier changes exactly at 250, 500 and 750, and a consistent record
/// carries the tier of its total.
pub proof fn lemma_tier_boundaries(ts: TrustScore)
    requires
        ts.consistent(),
    ensures
        ts.score <= 1000,
        ts.score <= 249 <==> ts.tier == TrustTier::Newcomer,
        250 <= ts.score <= 499 <==> ts.tier == TrustTier::Silver,
        500 <= ts.score <= 749 <==> ts.tier == TrustTier::Gold,
        750 <= ts.score <==> ts.tier == TrustTier::Platinum,
{
}

/// Creates the reputation record of `authority`: no history, no proofs,
/// all scores zero.
pub fn initialize_trust_score(authority: Pubkey, now: i64, bump: u8) -> (ts: TrustScore)
    ensures
        ts == (TrustScore {
            authority,
            score: 0,
            tier: TrustTier::Newcomer,
            payment_history_score: 0,
            completion_score: 0,
            defi_activity_score: 0,
            social_proof_score: 0,
            circles_completed: 0,
            circles_joined: 0,
            total_contributions: 0,
            missed_contributions: 0,
            social_proofs: ts.social_proofs,
            last_updated: now,
            bump,
        }),
        ts.social_proofs@.len() == 0,
        ts.consistent(),
        proofs_wf(ts.social_proofs@),
{
    TrustScore {
        authority,
        score: 0,
        tier: TrustTier::Newcomer,
        payment_history_score: 0,
        completion_score: 0,
        defi_activity_score: 0,
        social_proof_score: 0,
        circles_completed: 0,
        circles_joined: 0,
        total_contributions: 0,
        missed_contributions: 0,
        social_proofs: Vec::new(),
        last_updated: now,
        bump,
    }
}

/// Recomputes the score of `ts` and stamps the record with `now`.
pub fn update_trust_score(ts: &mut TrustScore, now: i64)
    ensures
        rescored(TrustScore { last_updated: now, ..*old(ts) }, *final(ts)),
        final(ts).consistent(),
{
    ts.last_updated = now;
    ts.calculate_score();
}

/// Length of `s` in bytes.
pub fn byte_len(s: &String) -> (n: usize)
    ensures
        n == utf8_len(s@),
{
    s.as_str().as_bytes().len()
}

/// Why a proof is not added, if it is not; the first reason that applies,
/// in this order.
pub open spec fn add_social_proof_refusal(
    ts: &TrustScore,
    proof_type: Seq<char>,
    identifier: Seq<char>,
) -> Option<HaloError> {
    if ts.social_proofs@.len() >= TrustScore::MAX_SOCIAL_PROOFS {
        Some(HaloError::InvalidSocialProof)
    } else if utf8_len(proof_type) > 32 || utf8_len(identifier) > 32 {
        Some(HaloError::InvalidSocialProof)
    } else if has_proof(ts.social_proofs@, proof_type, identifier) {
        Some(HaloError::SocialProofAlreadyExists)
    } else {
        None
    }
}

/// Position of the first proof with the given type and identifier, if
/// there is one.
pub fn find_proof(proofs: &Vec<SocialProof>, proof_type: &String, identifier: &String) -> (r: Option<
    usize,
>)
    ensures
        match r {
            Some(i) => {
                &&& i < proofs@.len()
                &&& i == first_proof(proofs@, proof_type@, identifier@)
                &&& has_proof(proofs@, proof_type@, identifier@)
            },
            None => !has_proof(proofs@, proof_type@, identifier@),
        },
{
    let mut i: usize = 0;
    while i < proofs.len()
        invariant
            i <= proofs.len(),
            forall|j: int| 0 <= j < i ==> !same_proof(#[trigger] proofs@[j], proof_type@, identifier@),
        decreases proofs.len() - i,
    {
        if proofs[i].proof_type == *proof_type && proofs[i].identifier == *identifier {
            proof {
                lemma_first_proof(proofs@, proof_type@, identifier@);
                assert(same_proof(proofs@[i as int], proof_type@, identifier@));
            }
            return Some(i);
        }
        i += 1;
    }
    None
}

/// Attaches an unverified proof to `ts`. A record holds at most five
/// proofs, no two with the same type and identifier, each of at most 32
/// bytes. A refused proof changes nothing.
pub fn add_social_proof(ts: &mut TrustScore, proof_type: String, identifier: String, now: i64) -> (r:
    Result<(), HaloError>)
    ensures
        match add_social_proof_refusal(old(ts), proof_type@, identifier@) {
            Some(e) => r == Err::<(), HaloError>(e) && *final(ts) == *old(ts),
            None => {
                &&& r == Ok::<(), HaloError>(())
                &&& *final(ts) == (TrustScore { social_proofs: final(ts).social_proofs, ..*old(ts) })
                &&& final(ts).social_proofs@ == old(ts).social_proofs@.push(
                    SocialProof { proof_type, identifier, verified: false, timestamp: now },
                )
            },
        },
        proofs_wf(old(ts).social_proofs@) ==> proofs_wf(final(ts).social_proofs@),
{
    if ts.social_proofs.len() >= TrustScore::MAX_SOCIAL_PROOFS {
        return Err(HaloError::InvalidSocialProof);
    }
    if byte_len(&proof_type) > 32 || byte_len(&identifier) > 32 {
        return Err(HaloError::InvalidSocialProof);
    }
    if find_proof(&ts.social_proofs, &proof_type, &identifier).is_some() {
        return Err(HaloError::SocialProofAlreadyExists);
    }
    ts.social_proofs.push(SocialProof { proof_type, identifier, verified: false, timestamp: now });
    Ok(())
}

/// Marks the first proof with the given type and identifier as verified
/// and recomputes the score. Where no such proof exists, the request is
/// refused as an invalid proof and nothing changes.
pub fn verify_social_proof(ts: &mut TrustScore, proof_type: String, identifier: String, now: i64) -> (r:
    Result<(), HaloError>)
    ensures
        if has_proof(old(ts).social_proofs@, proof_type@, identifier@) {
            let i = first_proof(old(ts).social_proofs@, proof_type@, identifier@);
            &&& r == Ok::<(), HaloError>(())
            &&& rescored(
                TrustScore {
                    social_proofs: final(ts).social_proofs,
                    last_updated: now,
                    ..*old(ts)
                },
                *final(ts),
            )
            &&& final(ts).social_proofs@ == old(ts).social_proofs@.update(
                i,
                SocialProof { verified: true, ..old(ts).social_proofs@[i] },
            )
            &&& final(ts).consistent()
        } else {
            r == Err::<(), HaloError>(HaloError::InvalidSocialProof) && *final(ts) == *old(ts)
        },
        proofs_wf(old(ts).social_proofs@) ==> proofs_wf(final(ts).social_proofs@),
{
    match find_proof(&ts.social_proofs, &proof_type, &identifier) {
        None => Err(HaloError::InvalidSocialProof),
        Some(i) => {
            ts.social_proofs[i].verified = true;
            ts.last_updated = now;
            ts.calculate_score();
            Ok(())
        },
    }
}

/// Stores the external-activity value, at most 200, and recomputes the
/// score. A larger value is refused and nothing changes.
pub fn update_defi_activity_score(ts: &mut TrustScore, activity_score: u16, now: i64) -> (r: Result<
    (),
    HaloError,
>)
    ensures
        if activity_score > 200 {
            r == Err::<(), HaloError>(HaloError::InvalidSocialProof) && *final(ts) == *old(ts)
        } else {
            &&& r == Ok::<(), HaloError>(())
            &&& rescored(
                TrustScore { defi_activity_score: activity_score, last_updated: now, ..*old(ts) },
                *final(ts),
            )
            &&& final(ts).defi_activity_score == activity_score
            &&& final(ts).consistent()
        },
{
    if activity_score > 200 {
        return Err(HaloError::InvalidSocialProof);
    }
    ts.defi_activity_score = activity_score;
    ts.last_updated = now;
    ts.calculate_score();
    Ok(())
}

/// Why completion credit is refused, if it is; the first reason that
/// applies, in this order.
pub open spec fn complete_circle_refusal(ts: &TrustScore, circle: &Circle) -> Option<HaloError> {
    if circle.status != CircleStatus::Completed {
        Some(HaloError::CircleNotActive)
    } else if !circle.members@.contains(ts.authority) {
        Some(HaloError::MemberNotFound)
    } else if ts.circles_completed == u16::MAX {
        Some(HaloError::ArithmeticOverflow)
    } else {
        None
    }
}

/// Credits one completed circle to a member of `circle` and recomputes the
/// score. This is a step of its own, taken once for each member after the
/// circle has completed. A refused request changes nothing.
pub fn complete_circle_update_trust(ts: &mut TrustScore, circle: &Circle, now: i64) -> (r: Result<
    (),
    HaloError,
>)
    ensures
        match complete_circle_refusal(old(ts), circle) {
            Some(e) => r == Err::<(), HaloError>(e) && *final(ts) == *old(ts),
            None => {
                &&& r == Ok::<(), HaloError>(())
                &&& rescored(
                    TrustScore {
                        circles_completed: (old(ts).circles_completed + 1) as u16,
                        last_updated: now,
                        ..*old(ts)
                    },
                    *final(ts),
                )
                &&& final(ts).consistent()
            },
        },
{
    if circle.status != CircleStatus::Completed {
        return Err(HaloError::CircleNotActive);
    }
    if !contains_key(&circle.members, ts.authority) {
        return Err(HaloError::MemberNotFound);
    }
    if ts.circles_completed == u16::MAX {
        return Err(HaloError::ArithmeticOverflow);
    }
    ts.circles_completed = ts.circles_completed + 1;
    ts.last_updated = now;
    ts.calculate_score();
    Ok(())
}

} // verus!
