//! The lifecycle of a companion session: create, close, extend.
//!
//! A session is created only for an active human record owned by the
//! caller, lives until its expiry time, and is closed exactly once; a
//! second close is rejected because the active flag gates it. Expiry is
//! checked lazily at use: an expired-but-still-flagged session is rejected
//! on its next extension or interaction, never by a background process.

use vstd::prelude::*;

use crate::error::YourFunError;
use crate::state::{
    HumanRecord, PlatformRegistry, Pubkey, SessionAccount, bytes32_eq, zero_bytes,
};

verus! {

/// The first check that fails when creating a session, in the order the
/// platform applies them, or `None` when creation succeeds.
pub open spec fn spec_create_session_error(
    reg: PlatformRegistry,
    hr: HumanRecord,
    owner: Pubkey,
    now: i64,
) -> Option<YourFunError> {
    if !hr.is_active {
        Some(YourFunError::HumanRecordRevoked)
    } else if hr.wallet@ != owner@ {
        Some(YourFunError::Unauthorized)
    } else if reg.is_paused {
        Some(YourFunError::RegistryPaused)
    } else if now + reg.max_session_duration > i64::MAX || now + reg.max_session_duration
        < i64::MIN {
        Some(YourFunError::NumericalOverflow)
    } else if hr.session_count == u64::MAX {
        Some(YourFunError::NumericalOverflow)
    } else if reg.total_sessions_created == u64::MAX {
        Some(YourFunError::NumericalOverflow)
    } else {
        None
    }
}

/// How a successful creation leaves the registry and the human record: one
/// more session created, one more session counted, a fresh activity stamp.
pub open spec fn spec_create_session_updates(
    reg: PlatformRegistry,
    hr: HumanRecord,
    now: i64,
) -> (PlatformRegistry, HumanRecord) {
    (
        PlatformRegistry { total_sessions_created: (reg.total_sessions_created + 1) as u64, ..reg },
        HumanRecord { session_count: (hr.session_count + 1) as u64, last_active_at: now, ..hr },
    )
}

/// The session record a successful creation returns, given the registry and
/// human record as they stood before the call.
pub open spec fn session_created(
    s: SessionAccount,
    reg: PlatformRegistry,
    hr: HumanRecord,
    human_record_key: Pubkey,
    owner: Pubkey,
    personality_id: u8,
    initial_topic: [u8; 32],
    now: i64,
    bump: u8,
) -> bool {
    &&& s.human_record == human_record_key
    &&& s.owner == owner
    &&& s.session_index == hr.session_count
    &&& s.created_at == now
    &&& s.last_interaction_at == now
    &&& s.expires_at == now + reg.max_session_duration
    &&& s.is_active
    &&& s.interaction_count == 0
    &&& s.personality_id == personality_id
    &&& s.current_topic == initial_topic
    &&& s.session_score == 0
    &&& s.bump == bump
    &&& s.reserved@ == zero_bytes(16)
}

/// Opens a new companion session for an active human record.
///
/// `owner` is the authenticated caller, `human_record_key` the derived
/// address of the human record (stored as the session's back-reference),
/// `now` the trusted wall-clock time and `bump` the bump seed of the
/// session's derived address, all supplied by the runtime. The session index
/// is taken from the human's session counter, so the runtime's addressing
/// never reuses a slot for this human.
pub fn handler_create_session(
    registry: &mut PlatformRegistry,
    human_record: &mut HumanRecord,
    human_record_key: Pubkey,
    owner: Pubkey,
    personality_id: u8,
    initial_topic: [u8; 32],
    now: i64,
    bump: u8,
) -> (result: Result<SessionAccount, YourFunError>)
    ensures
        ({
            let outcome = spec_create_session_error(*old(registry), *old(human_record), owner, now);
            match outcome {
                None => {
                    &&& (result matches Ok(session) && session_created(
                        session,
                        *old(registry),
                        *old(human_record),
                        human_record_key,
                        owner,
                        personality_id,
                        initial_topic,
                        now,
                        bump,
                    ))
                    &&& (*final(registry), *final(human_record)) == spec_create_session_updates(
                        *old(registry),
                        *old(human_record),
                        now,
                    )
                },
                Some(code) => {
                    &&& result == Err::<SessionAccount, YourFunError>(code)
                    &&& *final(registry) == *old(registry)
                    &&& *final(human_record) == *old(human_record)
                },
            }
        }),
{
    if !human_record.is_active {
        return Err(YourFunError::HumanRecordRevoked);
    }
    let wallet: Pubkey = human_record.wallet;
    if !bytes32_eq(&wallet, &owner) {
        return Err(YourFunError::Unauthorized);
    }
    if registry.is_paused {
        return Err(YourFunError::RegistryPaused);
    }

    let expires_at = match now.checked_add(registry.max_session_duration) {
        Some(value) => value,
        None => {
            return Err(YourFunError::NumericalOverflow);
        },
    };
    let new_session_count = match human_record.session_count.checked_add(1) {
        Some(value) => value,
        None => {
            return Err(YourFunError::NumericalOverflow);
        },
    };
    let new_sessions_created = match registry.total_sessions_created.checked_add(1) {
        Some(value) => value,
        None => {
            return Err(YourFunError::NumericalOverflow);
        },
    };

    let session = SessionAccount {
        human_record: human_record_key,
        owner,
        session_index: human_record.session_count,
        created_at: now,
        last_interaction_at: now,
        expires_at,
        is_active: true,
        interaction_count: 0,
        personality_id,
        current_topic: initial_topic,
        session_score: 0,
        bump,
        reserved: [0u8; 16],
    };
    proof {
        assert(session.reserved@ =~= zero_bytes(16));
    }

    human_record.session_count = new_session_count;
    human_record.last_active_at = now;
    registry.total_sessions_created = new_sessions_created;

    Ok(session)
}

/// What closing a session does: the first failing check in the order the
/// platform applies them, or the deactivated session and the human record
/// with the session's score folded into its learning score.
pub open spec fn spec_close_session(
    s: SessionAccount,
    hr: HumanRecord,
    owner: Pubkey,
    now: i64,
) -> Result<(SessionAccount, HumanRecord), YourFunError> {
    if !s.is_active {
        Err(YourFunError::SessionInactive)
    } else if s.owner@ != owner@ {
        Err(YourFunError::Unauthorized)
    } else if hr.learning_score + s.session_score > u64::MAX {
        Err(YourFunError::NumericalOverflow)
    } else {
        Ok(
            (
                SessionAccount { is_active: false, last_interaction_at: now, ..s },
                HumanRecord { learning_score: (hr.learning_score + s.session_score) as u64, ..hr },
            ),
        )
    }
}

/// Closes an active session and folds its accumulated score into the
/// owner's learning score. A second close fails on the active-flag check.
pub fn handler_close_session(
    session: &mut SessionAccount,
    human_record: &mut HumanRecord,
    owner: Pubkey,
    now: i64,
) -> (result: Result<(), YourFunError>)
    ensures
        ({
            let outcome = spec_close_session(*old(session), *old(human_record), owner, now);
            match outcome {
                Ok(updated) => {
                    &&& result == Ok::<(), YourFunError>(())
                    &&& *final(session) == updated.0
                    &&& *final(human_record) == updated.1
                },
                Err(code) => {
                    &&& result == Err::<(), YourFunError>(code)
                    &&& *final(session) == *old(session)
                    &&& *final(human_record) == *old(human_record)
                },
            }
        }),
{
    if !session.is_active {
        return Err(YourFunError::SessionInactive);
    }
    let session_owner: Pubkey = session.owner;
    if !bytes32_eq(&session_owner, &owner) {
        return Err(YourFunError::Unauthorized);
    }

    let new_learning_score = match human_record.learning_score.checked_add(session.session_score) {
        Some(value) => value,
        None => {
            return Err(YourFunError::NumericalOverflow);
        },
    };

    session.is_active = false;
    session.last_interaction_at = now;
    human_record.learning_score = new_learning_score;

    Ok(())
}

/// What extending a session does: the first failing check in the order the
/// platform applies them, or the session with its new expiry. The new
/// expiry is the old one plus the requested extra duration and may never
/// pass `now` plus twice the registry's maximum session duration.
pub open spec fn spec_extend_session(
    reg: PlatformRegistry,
    s: SessionAccount,
    owner: Pubkey,
    additional_duration: i64,
    now: i64,
) -> Result<SessionAccount, YourFunError> {
    if !s.is_active {
        Err(YourFunError::SessionInactive)
    } else if s.owner@ != owner@ {
        Err(YourFunError::Unauthorized)
    } else if s.expires_at <= now {
        Err(YourFunError::SessionExpired)
    } else if s.expires_at + additional_duration > i64::MAX || s.expires_at + additional_duration
        < i64::MIN {
        Err(YourFunError::NumericalOverflow)
    } else if reg.max_session_duration * 2 > i64::MAX || reg.max_session_duration * 2 < i64::MIN {
        Err(YourFunError::NumericalOverflow)
    } else if now + reg.max_session_duration * 2 > i64::MAX || now + reg.max_session_duration * 2
        < i64::MIN {
        Err(YourFunError::NumericalOverflow)
    } else if s.expires_at + additional_duration > now + reg.max_session_duration * 2 {
        Err(YourFunError::SessionDurationExceeded)
    } else {
        Ok(SessionAccount { expires_at: (s.expires_at + additional_duration) as i64, ..s })
    }
}

/// Extends the expiry of an active, not-yet-expired session. Only the
/// expiry field changes.
pub fn handler_extend_session(
    registry: &PlatformRegistry,
    session: &mut SessionAccount,
    owner: Pubkey,
    additional_duration: i64,
    now: i64,
) -> (result: Result<(), YourFunError>)
    ensures
        ({
            let outcome = spec_extend_session(
                *registry,
                *old(session),
                owner,
                additional_duration,
                now,
            );
            match outcome {
                Ok(updated) => {
                    &&& result == Ok::<(), YourFunError>(())
                    &&& *final(session) == updated
                },
                Err(code) => {
                    &&& result == Err::<(), YourFunError>(code)
                    &&& *final(session) == *old(session)
                },
            }
        }),
{
    if !session.is_active {
        return Err(YourFunError::SessionInactive);
    }
    let session_owner: Pubkey = session.owner;
    if !bytes32_eq(&session_owner, &owner) {
        return Err(YourFunError::Unauthorized);
    }
    if session.expires_at <= now {
        return Err(YourFunError::SessionExpired);
    }

    let new_expiry = match session.expires_at.checked_add(additional_duration) {
        Some(value) => value,
        None => {
            return Err(YourFunError::NumericalOverflow);
        },
    };
    let doubled_max = match registry.max_session_duration.checked_mul(2) {
        Some(value) => value,
        None => {
            return Err(YourFunError::NumericalOverflow);
        },
    };
    let max_allowed = match now.checked_add(doubled_max) {
        Some(value) => value,
        None => {
            return Err(YourFunError::NumericalOverflow);
        },
    };
    if new_expiry > max_allowed {
        return Err(YourFunError::SessionDurationExceeded);
    }

    session.expires_at = new_expiry;

    Ok(())
}

} // verus!
