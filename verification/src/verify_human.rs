//! Activating a registered identity after its challenge-response check.
//!
//! A trusted verifier submits the challenge response together with the
//! behavioral score it measured off-platform. The record is activated only
//! if it is still inactive, the registry is not paused, the level and score
//! pass their range and threshold checks, and the response matches, byte for
//! byte, the hash this module derives from the stored nonce and fingerprint.

use vstd::prelude::*;
use vstd::wrapping::u8_specs;

use crate::error::YourFunError;
use crate::state::{HumanRecord, PlatformRegistry, Pubkey, bytes32_eq};

verus! {

/// One byte of the pre-round mixing pass: the nonce and fingerprint bytes at
/// `i` are folded with their neighbours at fixed offsets, wrapping at 8 bits.
pub open spec fn spec_mixed_byte(nonce: Seq<u8>, fingerprint: Seq<u8>, i: int) -> u8 {
    u8_specs::wrapping_add(nonce[i] ^ fingerprint[i], nonce[(i + 7) % 32])
        ^ fingerprint[(i + 13) % 32]
}

/// The 32-byte state after the mixing pass.
pub open spec fn spec_initial_mix(nonce: Seq<u8>, fingerprint: Seq<u8>) -> Seq<u8> {
    Seq::new(32, |i: int| spec_mixed_byte(nonce, fingerprint, i))
}

/// The value a round sweep writes at cell `i`, read from the in-progress
/// state `r`: the cell plus the product of its two ring neighbours plus the
/// round number, wrapping at 8 bits.
pub open spec fn spec_sweep_cell(r: Seq<u8>, i: int, round: u8) -> u8 {
    u8_specs::wrapping_add(
        u8_specs::wrapping_add(r[i], u8_specs::wrapping_mul(r[(i + 31) % 32], r[(i + 1) % 32])),
        round,
    )
}

/// The state after a round sweep has updated the first `count` cells in
/// place, left to right; later cells of the same sweep read the values
/// earlier cells just wrote.
pub open spec fn spec_sweep_prefix(r: Seq<u8>, count: int, round: u8) -> Seq<u8>
    decreases count,
{
    if count <= 0 {
        r
    } else {
        let swept = spec_sweep_prefix(r, count - 1, round);
        swept.update(count - 1, spec_sweep_cell(swept, count - 1, round))
    }
}

/// The state after the first `rounds` full sweeps, numbered from 0.
pub open spec fn spec_rounds(r: Seq<u8>, rounds: int) -> Seq<u8>
    decreases rounds,
{
    if rounds <= 0 {
        r
    } else {
        spec_sweep_prefix(spec_rounds(r, rounds - 1), 32, (rounds - 1) as u8)
    }
}

/// The expected 32-byte challenge response for a stored nonce and
/// fingerprint: the mixing pass followed by four in-place round sweeps.
pub open spec fn spec_challenge_hash(nonce: Seq<u8>, fingerprint: Seq<u8>) -> Seq<u8> {
    spec_rounds(spec_initial_mix(nonce, fingerprint), 4)
}

/// A round sweep never changes the width of the state.
pub proof fn lemma_sweep_prefix_len(r: Seq<u8>, count: int, round: u8)
    requires
        count <= r.len(),
    ensures
        spec_sweep_prefix(r, count, round).len() == r.len(),
    decreases count,
{
    if count > 0 {
        lemma_sweep_prefix_len(r, count - 1, round);
    }
}

/// The challenge hash of two 32-byte inputs is again 32 bytes wide.
pub proof fn lemma_challenge_hash_len(nonce: Seq<u8>, fingerprint: Seq<u8>)
    ensures
        spec_challenge_hash(nonce, fingerprint).len() == 32,
{
    lemma_rounds_len_upto(spec_initial_mix(nonce, fingerprint), 4);
}

proof fn lemma_rounds_len_upto(r: Seq<u8>, rounds: int)
    requires
        r.len() == 32,
    ensures
        spec_rounds(r, rounds).len() == 32,
    decreases (if rounds <= 0 { 0int } else { rounds }),
{
    if rounds > 0 {
        lemma_rounds_len_upto(r, rounds - 1);
        lemma_sweep_prefix_len(spec_rounds(r, rounds - 1), 32, (rounds - 1) as u8);
    }
}

/// The challenge algorithm is a pure function of the nonce and the
/// fingerprint alone: identical inputs always yield the identical response.
pub proof fn lemma_challenge_hash_deterministic(
    nonce_a: Seq<u8>,
    fingerprint_a: Seq<u8>,
    nonce_b: Seq<u8>,
    fingerprint_b: Seq<u8>,
)
    requires
        nonce_a == nonce_b,
        fingerprint_a == fingerprint_b,
    ensures
        spec_challenge_hash(nonce_a, fingerprint_a) == spec_challenge_hash(nonce_b, fingerprint_b),
{
}

/// Computes the expected challenge response from the stored nonce and
/// fingerprint commitment.
pub fn compute_challenge_hash(nonce: &[u8; 32], fingerprint: &[u8; 32]) -> (response: [u8; 32])
    ensures
        response@ == spec_challenge_hash(nonce@, fingerprint@),
{
    let mut result: [u8; 32] = [0u8; 32];

    let mut i: usize = 0;
    while i < 32
        invariant
            i <= 32,
            forall|j: int| 0 <= j < i ==> result@[j] == spec_mixed_byte(nonce@, fingerprint@, j),
        decreases 32 - i,
    {
        let folded = (nonce[i] ^ fingerprint[i]).wrapping_add(nonce[(i + 7) % 32]);
        result[i] = folded ^ fingerprint[(i + 13) % 32];
        i += 1;
    }
    proof {
        assert(result@ =~= spec_initial_mix(nonce@, fingerprint@));
    }

    let ghost mixed = result@;
    let mut round: u8 = 0;
    while round < 4
        invariant
            round <= 4,
            mixed == spec_initial_mix(nonce@, fingerprint@),
            result@ == spec_rounds(mixed, round as int),
        decreases 4 - round,
    {
        let ghost sweep_start = result@;
        proof {
            lemma_rounds_len_upto(mixed, round as int);
        }
        let mut i: usize = 0;
        while i < 32
            invariant
                i <= 32,
                round < 4,
                sweep_start.len() == 32,
                sweep_start == spec_rounds(mixed, round as int),
                result@ == spec_sweep_prefix(sweep_start, i as int, round),
            decreases 32 - i,
        {
            proof {
                lemma_sweep_prefix_len(sweep_start, i as int, round);
            }
            let prev = result[(i + 31) % 32];
            let next = result[(i + 1) % 32];
            result[i] = result[i].wrapping_add(prev.wrapping_mul(next)).wrapping_add(round);
            i += 1;
        }
        round += 1;
    }
    result
}

/// What verifying a human does: the first failing check in the order the
/// platform applies them, or the registry and human record as activation
/// leaves them.
pub open spec fn spec_verify_human(
    reg: PlatformRegistry,
    hr: HumanRecord,
    verifier: Pubkey,
    challenge_response: [u8; 32],
    behavioral_score: u8,
    verification_level: u8,
    now: i64,
) -> Result<(PlatformRegistry, HumanRecord), YourFunError> {
    if hr.is_active {
        Err(YourFunError::AlreadyVerified)
    } else if reg.is_paused {
        Err(YourFunError::RegistryPaused)
    } else if verification_level < 1 || verification_level > 3 {
        Err(YourFunError::InvalidVerificationLevel)
    } else if behavioral_score < reg.min_behavioral_score {
        Err(YourFunError::BehavioralScoreTooLow)
    } else if challenge_response@ != spec_challenge_hash(hr.challenge_nonce@, hr.fingerprint_hash@) {
        Err(YourFunError::ChallengeMismatch)
    } else if reg.total_verified_humans == u64::MAX {
        Err(YourFunError::NumericalOverflow)
    } else {
        Ok(
            (
                PlatformRegistry {
                    total_verified_humans: (reg.total_verified_humans + 1) as u64,
                    ..reg
                },
                HumanRecord {
                    verified_by: verifier,
                    verified_at: now,
                    verification_level,
                    is_active: true,
                    last_active_at: now,
                    ..hr
                },
            ),
        )
    }
}

/// Activates a previously registered, still-inactive identity.
///
/// `verifier` is the authenticated caller attesting the check and `now` the
/// trusted wall-clock time, both supplied by the runtime.
pub fn handler_verify_human(
    registry: &mut PlatformRegistry,
    human_record: &mut HumanRecord,
    verifier: Pubkey,
    challenge_response: [u8; 32],
    behavioral_score: u8,
    verification_level: u8,
    now: i64,
) -> (result: Result<(), YourFunError>)
    ensures
        ({
            let outcome = spec_verify_human(
                *old(registry),
                *old(human_record),
                verifier,
                challenge_response,
                behavioral_score,
                verification_level,
                now,
            );
            match outcome {
                Ok(updated) => {
                    &&& result == Ok::<(), YourFunError>(())
                    &&& *final(registry) == updated.0
                    &&& *final(human_record) == updated.1
                },
                Err(code) => {
                    &&& result == Err::<(), YourFunError>(code)
                    &&& *final(registry) == *old(registry)
                    &&& *final(human_record) == *old(human_record)
                },
            }
        }),
{
    if human_record.is_active {
        return Err(YourFunError::AlreadyVerified);
    }
    if registry.is_paused {
        return Err(YourFunError::RegistryPaused);
    }
    if verification_level < 1 || verification_level > 3 {
        return Err(YourFunError::InvalidVerificationLevel);
    }
    if behavioral_score < registry.min_behavioral_score {
        return Err(YourFunError::BehavioralScoreTooLow);
    }

    let expected_response = compute_challenge_hash(
        &human_record.challenge_nonce,
        &human_record.fingerprint_hash,
    );
    if !bytes32_eq(&challenge_response, &expected_response) {
        return Err(YourFunError::ChallengeMismatch);
    }

    let new_verified_total = match registry.total_verified_humans.checked_add(1) {
        Some(value) => value,
        None => {
            return Err(YourFunError::NumericalOverflow);
        },
    };

    registry.total_verified_humans = new_verified_total;

    human_record.verified_by = verifier;
    human_record.verified_at = now;
    human_record.verification_level = verification_level;
    human_record.is_active = true;
    human_record.last_active_at = now;

    Ok(())
}

} // verus!
