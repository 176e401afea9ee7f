//! Registering a wallet's pending identity.
//!
//! Registration creates an inactive human record holding the caller's
//! challenge nonce and fingerprint commitment, and names the fee the
//! runtime must collect before persisting it. The runtime rejects a second
//! registration for the same wallet because the record's derived address
//! must be empty at creation.

use vstd::prelude::*;

use crate::error::YourFunError;
use crate::state::{HumanRecord, PlatformRegistry, Pubkey, bytes32_eq, zero_bytes};

verus! {

/// The first check that fails when registering, in the order the platform
/// applies them, or `None` when registration succeeds.
pub open spec fn spec_register_error(
    reg: PlatformRegistry,
    fee_receiver: Pubkey,
) -> Option<YourFunError> {
    if fee_receiver@ != reg.authority@ {
        Some(YourFunError::AuthorityMismatch)
    } else if reg.is_paused {
        Some(YourFunError::RegistryPaused)
    } else {
        None
    }
}

/// The human record a successful registration returns: inactive, counters
/// zeroed, the verifier identity unset, the nonce and fingerprint stored
/// once and never rewritten.
pub open spec fn human_registered(
    hr: HumanRecord,
    user: Pubkey,
    challenge_nonce: [u8; 32],
    fingerprint_hash: [u8; 32],
    now: i64,
    bump: u8,
) -> bool {
    &&& hr.wallet == user
    &&& hr.verified_by@ == zero_bytes(32)
    &&& hr.verified_at == 0
    &&& hr.verification_level == 0
    &&& hr.fingerprint_hash == fingerprint_hash
    &&& !hr.is_active
    &&& hr.session_count == 0
    &&& hr.total_interactions == 0
    &&& hr.last_active_at == now
    &&& hr.learning_score == 0
    &&& hr.challenge_nonce == challenge_nonce
    &&& hr.bump == bump
    &&& hr.reserved@ == zero_bytes(32)
}

/// Builds the pending human record for a wallet, and names the registration
/// fee owed.
///
/// `user` is the authenticated caller, `fee_receiver` the account the
/// runtime will pay the fee to (it must be the registry authority), `now`
/// the trusted wall-clock time and `bump` the bump seed of the record's
/// derived address. On success the runtime must transfer the returned fee
/// (when it is nonzero) from the caller to `fee_receiver` and persist the
/// record in the same atomic step: if the transfer fails, nothing is kept.
pub fn handler_register_human(
    registry: &PlatformRegistry,
    user: Pubkey,
    fee_receiver: Pubkey,
    challenge_nonce: [u8; 32],
    fingerprint_hash: [u8; 32],
    now: i64,
    bump: u8,
) -> (result: Result<(HumanRecord, u64), YourFunError>)
    ensures
        match spec_register_error(*registry, fee_receiver) {
            None => (result matches Ok(created) && {
                &&& human_registered(created.0, user, challenge_nonce, fingerprint_hash, now, bump)
                &&& created.1 == registry.verification_fee_lamports
            }),
            Some(code) => result == Err::<(HumanRecord, u64), YourFunError>(code),
        },
{
    let authority: Pubkey = registry.authority;
    if !bytes32_eq(&fee_receiver, &authority) {
        return Err(YourFunError::AuthorityMismatch);
    }
    if registry.is_paused {
        return Err(YourFunError::RegistryPaused);
    }

    let human_record = HumanRecord {
        wallet: user,
        verified_by: [0u8; 32],
        verified_at: 0,
        verification_level: 0,
        fingerprint_hash,
        is_active: false,
        session_count: 0,
        total_interactions: 0,
        last_active_at: now,
        learning_score: 0,
        challenge_nonce,
        bump,
        reserved: [0u8; 32],
    };
    proof {
        assert(human_record.verified_by@ =~= zero_bytes(32));
        assert(human_record.reserved@ =~= zero_bytes(32));
    }

    Ok((human_record, registry.verification_fee_lamports))
}

} // verus!
