//! The four persisted record types of the platform and the small byte-array
//! helpers every operation shares.
//!
//! Records are plain fixed-width data: fixed-size integers, 32-byte
//! identities and commitments, booleans, and reserved padding. The runtime
//! that stores them addresses each record deterministically (registry by a
//! fixed tag; human by wallet; session by human address and index;
//! interaction by session address and index) and hands records back to the
//! operations of this library by value or by mutable reference.

use vstd::prelude::*;

verus! {

/// A 32-byte account identity, as the runtime's signer layer presents it.
pub type Pubkey = [u8; 32];

/// The all-zero byte sequence of length `n`; the unset identity and the
/// reserved padding of a fresh record view to it.
pub open spec fn zero_bytes(n: nat) -> Seq<u8> {
    Seq::new(n, |i: int| 0u8)
}

/// Holds of a 32-byte value none of whose bytes is set; such a content hash
/// is the rejected sentinel.
pub open spec fn spec_all_zero(s: Seq<u8>) -> bool {
    forall|i: int| 0 <= i < s.len() ==> s[i] == 0u8
}

/// Compares two 32-byte values for equality.
pub fn bytes32_eq(a: &[u8; 32], b: &[u8; 32]) -> (r: bool)
    ensures
        r == (a@ == b@),
{
    let mut i: usize = 0;
    while i < 32
        invariant
            i <= 32,
            forall|j: int| 0 <= j < i ==> a@[j] == b@[j],
        decreases 32 - i,
    {
        if a[i] != b[i] {
            return false;
        }
        i += 1;
    }
    proof {
        assert(a@ =~= b@);
    }
    true
}

/// Reports whether a 32-byte value is the all-zero sentinel.
pub fn bytes32_is_zero(a: &[u8; 32]) -> (r: bool)
    ensures
        r == spec_all_zero(a@),
{
    let mut i: usize = 0;
    while i < 32
        invariant
            i <= 32,
            forall|j: int| 0 <= j < i ==> a@[j] == 0u8,
        decreases 32 - i,
    {
        if a[i] != 0 {
            return false;
        }
        i += 1;
    }
    true
}

/// Global platform configuration and lifetime statistics; exactly one exists,
/// addressed by a fixed namespace tag.
#[derive(Clone, Copy, Debug, PartialEq, Eq)]
pub struct PlatformRegistry {
    /// The authority that can pause registrations and receives fees.
    pub authority: Pubkey,
    /// Base fee in lamports collected at human registration.
    pub verification_fee_lamports: u64,
    /// Total number of verified humans on the platform.
    pub total_verified_humans: u64,
    /// Total number of companion sessions created.
    pub total_sessions_created: u64,
    /// Total interactions recorded across all sessions.
    pub total_interactions: u64,
    /// Whether new registrations are paused.
    pub is_paused: bool,
    /// Minimum behavioral analysis score required for verification (0-100).
    pub min_behavioral_score: u8,
    /// Maximum session duration in seconds; always positive.
    pub max_session_duration: i64,
    /// Maximum interactions allowed per session.
    pub max_interactions_per_session: u32,
    /// Bump seed of the record's derived address.
    pub bump: u8,
    /// Reserved space for future upgrades.
    pub reserved: [u8; 64],
}

impl PlatformRegistry {
    /// The configuration bounds that initialization establishes and no
    /// operation of this library ever breaks.
    pub open spec fn wf(self) -> bool {
        &&& self.min_behavioral_score <= 100
        &&& self.max_session_duration > 0
    }
}

/// A record of one wallet's (pending or verified) human identity.
#[derive(Clone, Copy, Debug, PartialEq, Eq)]
pub struct HumanRecord {
    /// The wallet address of the human.
    pub wallet: Pubkey,
    /// The authority that performed the verification; unset until verified.
    pub verified_by: Pubkey,
    /// Unix timestamp of the completed verification; 0 until verified.
    pub verified_at: i64,
    /// Verification level: 0 until verified, else 1=basic, 2=enhanced, 3=full.
    pub verification_level: u8,
    /// Commitment to the behavioral fingerprint, fixed at registration.
    pub fingerprint_hash: [u8; 32],
    /// Whether this human record is currently active.
    pub is_active: bool,
    /// Number of companion sessions this human has created.
    pub session_count: u64,
    /// Total interaction count across all of this human's sessions.
    pub total_interactions: u64,
    /// The last time this human was active (Unix timestamp).
    pub last_active_at: i64,
    /// Accumulated learning score, fed by closed sessions.
    pub learning_score: u64,
    /// Challenge nonce fixed at registration, never reused.
    pub challenge_nonce: [u8; 32],
    /// Bump seed of the record's derived address.
    pub bump: u8,
    /// Reserved space for future upgrades.
    pub reserved: [u8; 32],
}

/// One time-boxed companion session of a verified human.
#[derive(Clone, Copy, Debug, PartialEq, Eq)]
pub struct SessionAccount {
    /// Address of the parent human record.
    pub human_record: Pubkey,
    /// The wallet of the session owner.
    pub owner: Pubkey,
    /// Session index under the parent human, never reused for that human.
    pub session_index: u64,
    /// Unix timestamp of session creation.
    pub created_at: i64,
    /// Unix timestamp of the last interaction in this session.
    pub last_interaction_at: i64,
    /// Unix timestamp when this session expires.
    pub expires_at: i64,
    /// Whether this session is currently active.
    pub is_active: bool,
    /// Number of interactions recorded in this session.
    pub interaction_count: u32,
    /// Companion personality identifier.
    pub personality_id: u8,
    /// Current learning topic identifier, opaque to the core.
    pub current_topic: [u8; 32],
    /// Accumulated session score.
    pub session_score: u64,
    /// Bump seed of the record's derived address.
    pub bump: u8,
    /// Reserved space for future upgrades.
    pub reserved: [u8; 16],
}

/// One immutable interaction appended to a session.
#[derive(Clone, Copy, Debug, PartialEq, Eq)]
pub struct InteractionLog {
    /// Address of the parent session.
    pub session: Pubkey,
    /// The wallet that created this interaction.
    pub user: Pubkey,
    /// Index of this interaction within its session, never reused there.
    pub interaction_index: u32,
    /// Unix timestamp of when the interaction occurred.
    pub timestamp: i64,
    /// Hash of the interaction content; never the all-zero sentinel.
    pub content_hash: [u8; 32],
    /// The type of interaction: 0=chat, 1=quiz, 2=exercise, 3=review.
    pub interaction_type: u8,
    /// Score awarded for this particular interaction (0-100).
    pub score: u8,
    /// Duration of the interaction in seconds.
    pub duration_seconds: u32,
    /// Bump seed of the record's derived address.
    pub bump: u8,
}

} // verus!
