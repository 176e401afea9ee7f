//! Recording one learning interaction inside an open session.
//!
//! Each successful call appends one immutable [`InteractionLog`] at the
//! session's current interaction index, adds a weighted score increment to
//! the session, and bumps the interaction counters of the session, the human
//! record and the registry. Every check runs before any record changes, so a
//! failed call leaves all three records untouched.

use vstd::prelude::*;

use crate::error::YourFunError;
use crate::state::{
    HumanRecord, InteractionLog, PlatformRegistry, Pubkey, SessionAccount, bytes32_eq,
    bytes32_is_zero, spec_all_zero,
};

verus! {

/// The base-100 multiplier a given interaction type earns:
/// chat 1x, quiz 2x, exercise 3x, review 1.5x; anything else counts as chat.
pub open spec fn spec_type_multiplier(interaction_type: u8) -> u64 {
    if interaction_type == 0 {
        100
    } else if interaction_type == 1 {
        200
    } else if interaction_type == 2 {
        300
    } else if interaction_type == 3 {
        150
    } else {
        100
    }
}

/// The duration credited toward the bonus: capped at 300 seconds.
pub open spec fn spec_capped_duration(duration_seconds: u32) -> u64 {
    if duration_seconds > 300 {
        300
    } else {
        duration_seconds as u64
    }
}

/// The score increment one interaction earns: the score weighted by the
/// type multiplier (in hundredths), plus one bonus point per 30 credited
/// seconds. Bounded by `765 + 10`, so it never overflows a 64-bit sum.
pub open spec fn spec_score_increment(score: u8, interaction_type: u8, duration_seconds: u32) -> u64 {
    ((score * spec_type_multiplier(interaction_type)) / 100
        + spec_capped_duration(duration_seconds) / 30) as u64
}

/// Computes the weighted score increment for one interaction.
pub fn compute_score_increment(score: u8, interaction_type: u8, duration_seconds: u32) -> (increment: u64)
    ensures
        increment == spec_score_increment(score, interaction_type, duration_seconds),
{
    let base_score: u64 = score as u64;

    let type_multiplier: u64 = match interaction_type {
        0 => 100,
        1 => 200,
        2 => 300,
        3 => 150,
        _ => 100,
    };

    let capped_duration: u64 = if duration_seconds > 300 {
        300
    } else {
        duration_seconds as u64
    };
    let duration_bonus: u64 = capped_duration / 30;

    proof {
        assert(base_score * type_multiplier <= 76500) by (nonlinear_arith)
            requires
                base_score <= 255,
                type_multiplier <= 300,
        ;
    }
    let weighted: u64 = base_score * type_multiplier / 100;

    weighted + duration_bonus
}

/// What recording an interaction does: the first failing check in the order
/// the platform applies them, or the updated registry, human record and
/// session together with the appended log entry.
pub open spec fn spec_record_interaction(
    reg: PlatformRegistry,
    hr: HumanRecord,
    s: SessionAccount,
    user: Pubkey,
    session_key: Pubkey,
    content_hash: [u8; 32],
    interaction_type: u8,
    score: u8,
    duration_seconds: u32,
    now: i64,
    bump: u8,
) -> Result<(PlatformRegistry, HumanRecord, SessionAccount, InteractionLog), YourFunError> {
    if !hr.is_active {
        Err(YourFunError::HumanRecordRevoked)
    } else if !s.is_active {
        Err(YourFunError::SessionInactive)
    } else if s.owner@ != user@ {
        Err(YourFunError::Unauthorized)
    } else if s.expires_at <= now {
        Err(YourFunError::SessionExpired)
    } else if s.interaction_count >= reg.max_interactions_per_session {
        Err(YourFunError::InteractionLimitReached)
    } else if interaction_type > 3 {
        Err(YourFunError::InvalidContentHash)
    } else if score > 100 {
        Err(YourFunError::InvalidVerificationLevel)
    } else if spec_all_zero(content_hash@) {
        Err(YourFunError::InvalidContentHash)
    } else if s.session_score + spec_score_increment(score, interaction_type, duration_seconds)
        > u64::MAX {
        Err(YourFunError::NumericalOverflow)
    } else if hr.total_interactions == u64::MAX {
        Err(YourFunError::NumericalOverflow)
    } else if reg.total_interactions == u64::MAX {
        Err(YourFunError::NumericalOverflow)
    } else {
        Ok(
            (
                PlatformRegistry { total_interactions: (reg.total_interactions + 1) as u64, ..reg },
                HumanRecord {
                    total_interactions: (hr.total_interactions + 1) as u64,
                    last_active_at: now,
                    ..hr
                },
                SessionAccount {
                    interaction_count: (s.interaction_count + 1) as u32,
                    last_interaction_at: now,
                    session_score: (s.session_score
                        + spec_score_increment(score, interaction_type, duration_seconds)) as u64,
                    ..s
                },
                InteractionLog {
                    session: session_key,
                    user,
                    interaction_index: s.interaction_count,
                    timestamp: now,
                    content_hash,
                    interaction_type,
                    score,
                    duration_seconds,
                    bump,
                },
            ),
        )
    }
}

/// Records one interaction in an open session.
///
/// `user` is the authenticated caller, `session_key` the derived address of
/// the session record (stored as the log entry's back-reference), `now` the
/// trusted wall-clock time and `bump` the bump seed of the log entry's
/// derived address, all supplied by the runtime.
pub fn handler_record_interaction(
    registry: &mut PlatformRegistry,
    human_record: &mut HumanRecord,
    session: &mut SessionAccount,
    user: Pubkey,
    session_key: Pubkey,
    content_hash: [u8; 32],
    interaction_type: u8,
    score: u8,
    duration_seconds: u32,
    now: i64,
    bump: u8,
) -> (result: Result<InteractionLog, YourFunError>)
    ensures
        ({
            let outcome = spec_record_interaction(
                *old(registry),
                *old(human_record),
                *old(session),
                user,
                session_key,
                content_hash,
                interaction_type,
                score,
                duration_seconds,
                now,
                bump,
            );
            match outcome {
                Ok(updated) => {
                    &&& result == Ok::<InteractionLog, YourFunError>(updated.3)
                    &&& *final(registry) == updated.0
                    &&& *final(human_record) == updated.1
                    &&& *final(session) == updated.2
                },
                Err(code) => {
                    &&& result == Err::<InteractionLog, YourFunError>(code)
                    &&& *final(registry) == *old(registry)
                    &&& *final(human_record) == *old(human_record)
                    &&& *final(session) == *old(session)
                },
            }
        }),
{
    if !human_record.is_active {
        return Err(YourFunError::HumanRecordRevoked);
    }
    if !session.is_active {
        return Err(YourFunError::SessionInactive);
    }
    let owner: Pubkey = session.owner;
    if !bytes32_eq(&owner, &user) {
        return Err(YourFunError::Unauthorized);
    }
    if session.expires_at <= now {
        return Err(YourFunError::SessionExpired);
    }
    if session.interaction_count >= registry.max_interactions_per_session {
        return Err(YourFunError::InteractionLimitReached);
    }
    if interaction_type > 3 {
        return Err(YourFunError::InvalidContentHash);
    }
    if score > 100 {
        return Err(YourFunError::InvalidVerificationLevel);
    }
    if bytes32_is_zero(&content_hash) {
        return Err(YourFunError::InvalidContentHash);
    }

    let new_interaction_count = match session.interaction_count.checked_add(1) {
        Some(value) => value,
        None => {
            return Err(YourFunError::NumericalOverflow);
        },
    };
    let score_increment = compute_score_increment(score, interaction_type, duration_seconds);
    let new_session_score = match session.session_score.checked_add(score_increment) {
        Some(value) => value,
        None => {
            return Err(YourFunError::NumericalOverflow);
        },
    };
    let new_human_interactions = match human_record.total_interactions.checked_add(1) {
        Some(value) => value,
        None => {
            return Err(YourFunError::NumericalOverflow);
        },
    };
    let new_registry_interactions = match registry.total_interactions.checked_add(1) {
        Some(value) => value,
        None => {
            return Err(YourFunError::NumericalOverflow);
        },
    };

    let interaction = InteractionLog {
        session: session_key,
        user,
        interaction_index: session.interaction_count,
        timestamp: now,
        content_hash,
        interaction_type,
        score,
        duration_seconds,
        bump,
    };

    session.interaction_count = new_interaction_count;
    session.last_interaction_at = now;
    session.session_score = new_session_score;

    human_record.total_interactions = new_human_interactions;
    human_record.last_active_at = now;

    registry.total_interactions = new_registry_interactions;

    Ok(interaction)
}

} // verus!
