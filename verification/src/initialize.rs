//! Creating the single platform registry.
//!
//! Initialization persists the global configuration, zeroes every lifetime
//! counter and leaves registrations unpaused. The runtime creates the
//! record at its fixed derived address, which must be empty, so a second
//! initialization fails there.

use vstd::prelude::*;

use crate::error::YourFunError;
use crate::state::{PlatformRegistry, Pubkey, zero_bytes};

verus! {

/// The first configuration check that fails at initialization, or `None`
/// when the configuration is accepted.
pub open spec fn spec_initialize_error(
    min_behavioral_score: u8,
    max_session_duration: i64,
) -> Option<YourFunError> {
    if min_behavioral_score > 100 {
        Some(YourFunError::InvalidVerificationLevel)
    } else if max_session_duration <= 0 {
        Some(YourFunError::SessionDurationExceeded)
    } else {
        None
    }
}

/// The registry a successful initialization returns: the configuration as
/// given, every counter zero, registrations unpaused.
pub open spec fn registry_initialized(
    reg: PlatformRegistry,
    authority: Pubkey,
    verification_fee_lamports: u64,
    min_behavioral_score: u8,
    max_session_duration: i64,
    max_interactions_per_session: u32,
    bump: u8,
) -> bool {
    &&& reg.authority == authority
    &&& reg.verification_fee_lamports == verification_fee_lamports
    &&& reg.total_verified_humans == 0
    &&& reg.total_sessions_created == 0
    &&& reg.total_interactions == 0
    &&& !reg.is_paused
    &&& reg.min_behavioral_score == min_behavioral_score
    &&& reg.max_session_duration == max_session_duration
    &&& reg.max_interactions_per_session == max_interactions_per_session
    &&& reg.bump == bump
    &&& reg.reserved@ == zero_bytes(64)
}

/// Builds the single platform registry record.
///
/// `authority` is the authenticated deployer and `bump` the bump seed of
/// the registry's fixed derived address, both supplied by the runtime. A
/// minimum behavioral score above 100 and a non-positive maximum session
/// duration are rejected; the accepted registry satisfies
/// [`PlatformRegistry::wf`], which every later operation preserves.
pub fn handler_initialize(
    authority: Pubkey,
    verification_fee_lamports: u64,
    min_behavioral_score: u8,
    max_session_duration: i64,
    max_interactions_per_session: u32,
    bump: u8,
) -> (result: Result<PlatformRegistry, YourFunError>)
    ensures
        match spec_initialize_error(min_behavioral_score, max_session_duration) {
            None => (result matches Ok(reg) && {
                &&& registry_initialized(
                    reg,
                    authority,
                    verification_fee_lamports,
                    min_behavioral_score,
                    max_session_duration,
                    max_interactions_per_session,
                    bump,
                )
                &&& reg.wf()
            }),
            Some(code) => result == Err::<PlatformRegistry, YourFunError>(code),
        },
{
    if min_behavioral_score > 100 {
        return Err(YourFunError::InvalidVerificationLevel);
    }
    if max_session_duration <= 0 {
        return Err(YourFunError::SessionDurationExceeded);
    }

    let registry = PlatformRegistry {
        authority,
        verification_fee_lamports,
        total_verified_humans: 0,
        total_sessions_created: 0,
        total_interactions: 0,
        is_paused: false,
        min_behavioral_score,
        max_session_duration,
        max_interactions_per_session,
        bump,
        reserved: [0u8; 64],
    };
    proof {
        assert(registry.reserved@ =~= zero_bytes(64));
    }

    Ok(registry)
}

} // verus!
