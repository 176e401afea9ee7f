//! The platform-wide guarantees, stated and proved over the operation
//! specifications.
//!
//! Each operation's handler already pins its result to its specification
//! function and leaves every record unchanged on failure. The proofs here
//! state what those specifications guarantee across calls: rejected
//! re-verification and re-closing, lazy expiry, the interaction cap, the
//! all-zero content-hash sentinel, and counters that never decrease.

use vstd::prelude::*;

use crate::error::YourFunError;
use crate::interaction::spec_record_interaction;
use crate::session::{
    spec_close_session, spec_create_session_error, spec_create_session_updates,
    spec_extend_session,
};
use crate::state::{HumanRecord, PlatformRegistry, Pubkey, SessionAccount, spec_all_zero};
use crate::verify_human::spec_verify_human;

verus! {

/// No lifetime total of the registry has decreased from `before` to `after`.
pub open spec fn registry_counters_advance(
    before: PlatformRegistry,
    after: PlatformRegistry,
) -> bool {
    &&& after.total_verified_humans >= before.total_verified_humans
    &&& after.total_sessions_created >= before.total_sessions_created
    &&& after.total_interactions >= before.total_interactions
}

/// No counter of a human record has decreased from `before` to `after`.
pub open spec fn human_counters_advance(before: HumanRecord, after: HumanRecord) -> bool {
    &&& after.session_count >= before.session_count
    &&& after.total_interactions >= before.total_interactions
    &&& after.learning_score >= before.learning_score
}

/// No counter of a session has decreased from `before` to `after`.
pub open spec fn session_counters_advance(before: SessionAccount, after: SessionAccount) -> bool {
    &&& after.interaction_count >= before.interaction_count
    &&& after.session_score >= before.session_score
}

/// Verifying an already-active human record always fails with the
/// already-verified code, whatever else is supplied.
pub proof fn lemma_verify_active_record_rejected(
    reg: PlatformRegistry,
    hr: HumanRecord,
    verifier: Pubkey,
    challenge_response: [u8; 32],
    behavioral_score: u8,
    verification_level: u8,
    now: i64,
)
    requires
        hr.is_active,
    ensures
        spec_verify_human(reg, hr, verifier, challenge_response, behavioral_score, verification_level, now)
            == Err::<(PlatformRegistry, HumanRecord), YourFunError>(YourFunError::AlreadyVerified),
{
}

/// A session can be closed exactly once: whatever a successful close
/// returned, closing that session again fails as inactive, whoever asks
/// and whenever.
pub proof fn lemma_close_session_twice_rejected(
    s: SessionAccount,
    hr: HumanRecord,
    owner: Pubkey,
    now: i64,
    hr_later: HumanRecord,
    owner_later: Pubkey,
    later: i64,
)
    requires
        spec_close_session(s, hr, owner, now) is Ok,
    ensures
        ({
            let closed = spec_close_session(s, hr, owner, now)->Ok_0.0;
            spec_close_session(closed, hr_later, owner_later, later)
                == Err::<(SessionAccount, HumanRecord), YourFunError>(YourFunError::SessionInactive)
        }),
{
}

/// Extending a session whose expiry has passed always fails as expired,
/// whatever extra duration is requested.
pub proof fn lemma_extend_expired_rejected(
    reg: PlatformRegistry,
    s: SessionAccount,
    owner: Pubkey,
    additional_duration: i64,
    now: i64,
)
    requires
        s.is_active,
        s.owner@ == owner@,
        s.expires_at <= now,
    ensures
        spec_extend_session(reg, s, owner, additional_duration, now)
            == Err::<SessionAccount, YourFunError>(YourFunError::SessionExpired),
{
}

/// Recording an interaction never returns a session at or over the
/// registry's cap: once the cap is reached, the attempt fails with the
/// limit code, and an attempt that succeeds was strictly below it.
pub proof fn lemma_interaction_cap_boundary(
    reg: PlatformRegistry,
    hr: HumanRecord,
    s: SessionAccount,
    user: Pubkey,
    session_key: Pubkey,
    content_hash: [u8; 32],
    interaction_type: u8,
    score: u8,
    duration_seconds: u32,
    now: i64,
    bump: u8,
)
    requires
        hr.is_active,
        s.is_active,
        s.owner@ == user@,
        now < s.expires_at,
    ensures
        s.interaction_count >= reg.max_interactions_per_session
            ==> spec_record_interaction(reg, hr, s, user, session_key, content_hash, interaction_type, score, duration_seconds, now, bump)
                == Err::<(PlatformRegistry, HumanRecord, SessionAccount, crate::state::InteractionLog), YourFunError>(YourFunError::InteractionLimitReached),
        spec_record_interaction(reg, hr, s, user, session_key, content_hash, interaction_type, score, duration_seconds, now, bump) is Ok
            ==> s.interaction_count < reg.max_interactions_per_session,
{
}

/// An interaction whose content hash is the all-zero sentinel is never
/// recorded, regardless of every other field.
pub proof fn lemma_zero_content_hash_rejected(
    reg: PlatformRegistry,
    hr: HumanRecord,
    s: SessionAccount,
    user: Pubkey,
    session_key: Pubkey,
    content_hash: [u8; 32],
    interaction_type: u8,
    score: u8,
    duration_seconds: u32,
    now: i64,
    bump: u8,
)
    requires
        spec_all_zero(content_hash@),
    ensures
        spec_record_interaction(reg, hr, s, user, session_key, content_hash, interaction_type, score, duration_seconds, now, bump) is Err,
{
}

/// A successful verification only raises counters, and keeps the registry
/// configuration (and so its well-formedness) intact.
pub proof fn lemma_verify_human_counters_monotonic(
    reg: PlatformRegistry,
    hr: HumanRecord,
    verifier: Pubkey,
    challenge_response: [u8; 32],
    behavioral_score: u8,
    verification_level: u8,
    now: i64,
)
    ensures
        ({
            let outcome = spec_verify_human(reg, hr, verifier, challenge_response, behavioral_score, verification_level, now);
            outcome is Ok ==> {
                &&& registry_counters_advance(reg, outcome->Ok_0.0)
                &&& human_counters_advance(hr, outcome->Ok_0.1)
                &&& outcome->Ok_0.0.wf() == reg.wf()
            }
        }),
{
}

/// A successful session creation only raises counters, and keeps the
/// registry configuration (and so its well-formedness) intact.
pub proof fn lemma_create_session_counters_monotonic(
    reg: PlatformRegistry,
    hr: HumanRecord,
    owner: Pubkey,
    now: i64,
)
    ensures
        ({
            let updated = spec_create_session_updates(reg, hr, now);
            spec_create_session_error(reg, hr, owner, now) is None ==> {
                &&& registry_counters_advance(reg, updated.0)
                &&& human_counters_advance(hr, updated.1)
                &&& updated.0.wf() == reg.wf()
            }
        }),
{
}

/// A successful close only raises the human's counters and never lowers
/// the session's.
pub proof fn lemma_close_session_counters_monotonic(
    s: SessionAccount,
    hr: HumanRecord,
    owner: Pubkey,
    now: i64,
)
    ensures
        ({
            let outcome = spec_close_session(s, hr, owner, now);
            outcome is Ok ==> {
                &&& session_counters_advance(s, outcome->Ok_0.0)
                &&& human_counters_advance(hr, outcome->Ok_0.1)
            }
        }),
{
}

/// A successful interaction only raises counters, on the session, the
/// human record and the registry alike, and keeps the registry
/// configuration (and so its well-formedness) intact.
pub proof fn lemma_record_interaction_counters_monotonic(
    reg: PlatformRegistry,
    hr: HumanRecord,
    s: SessionAccount,
    user: Pubkey,
    session_key: Pubkey,
    content_hash: [u8; 32],
    interaction_type: u8,
    score: u8,
    duration_seconds: u32,
    now: i64,
    bump: u8,
)
    ensures
        ({
            let outcome = spec_record_interaction(reg, hr, s, user, session_key, content_hash, interaction_type, score, duration_seconds, now, bump);
            outcome is Ok ==> {
                &&& registry_counters_advance(reg, outcome->Ok_0.0)
                &&& human_counters_advance(hr, outcome->Ok_0.1)
                &&& session_counters_advance(s, outcome->Ok_0.2)
                &&& outcome->Ok_0.0.wf() == reg.wf()
            }
        }),
{
}

} // verus!
