//! The challenge-response hash: determinism, sensitivity to its inputs,
//! and agreement with a straightforward step-by-step computation.

use your_fun::verify_human::compute_challenge_hash;

/// Step-by-step computation of the expected response, written as plainly
/// as possible: the mixing pass, then four in-place left-to-right sweeps.
fn straightforward_hash(nonce: &[u8; 32], fingerprint: &[u8; 32]) -> [u8; 32] {
    let mut result = [0u8; 32];
    for i in 0..32 {
        result[i] = nonce[i] ^ fingerprint[i];
        result[i] = result[i].wrapping_add(nonce[(i + 7) % 32]);
        result[i] ^= fingerprint[(i + 13) % 32];
    }
    for round in 0..4u8 {
        for i in 0..32 {
            let prev = result[(i + 31) % 32];
            let next = result[(i + 1) % 32];
            result[i] = result[i].wrapping_add(prev.wrapping_mul(next)).wrapping_add(round);
        }
    }
    result
}

fn patterned(seed: u8) -> [u8; 32] {
    let mut bytes = [0u8; 32];
    for i in 0..32 {
        bytes[i] = seed.wrapping_mul(31).wrapping_add((i as u8).wrapping_mul(17));
    }
    bytes
}

#[test]
fn identical_inputs_yield_identical_output() {
    let nonce = patterned(5);
    let fingerprint = patterned(11);
    let first = compute_challenge_hash(&nonce, &fingerprint);
    let second = compute_challenge_hash(&nonce, &fingerprint);
    assert_eq!(first, second);
}

#[test]
fn matches_straightforward_computation() {
    for seed in [0u8, 1, 2, 77, 200, 255] {
        let nonce = patterned(seed);
        let fingerprint = patterned(seed.wrapping_add(91));
        assert_eq!(
            compute_challenge_hash(&nonce, &fingerprint),
            straightforward_hash(&nonce, &fingerprint),
        );
    }
}

#[test]
fn all_zero_inputs_have_a_fixed_output() {
    let zero = [0u8; 32];
    let response = compute_challenge_hash(&zero, &zero);
    assert_eq!(response, straightforward_hash(&zero, &zero));
    // Round constants alone drive the sweeps, so the output is not zero.
    assert_ne!(response, zero);
}

#[test]
fn single_bit_flip_in_nonce_changes_output() {
    let nonce = patterned(42);
    let fingerprint = patterned(3);
    let base = compute_challenge_hash(&nonce, &fingerprint);
    for &(byte, bit) in &[(0usize, 0u8), (7, 3), (15, 7), (31, 1)] {
        let mut flipped = nonce;
        flipped[byte] ^= 1 << bit;
        assert_ne!(compute_challenge_hash(&flipped, &fingerprint), base);
    }
}

#[test]
fn single_bit_flip_in_fingerprint_changes_output() {
    let nonce = patterned(42);
    let fingerprint = patterned(3);
    let base = compute_challenge_hash(&nonce, &fingerprint);
    for &(byte, bit) in &[(0usize, 4u8), (8, 0), (20, 6), (31, 7)] {
        let mut flipped = fingerprint;
        flipped[byte] ^= 1 << bit;
        assert_ne!(compute_challenge_hash(&nonce, &flipped), base);
    }
}
