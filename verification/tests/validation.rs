//! Every rejection the platform can answer with, each provoked by an input
//! that earns it, and the state it leaves untouched.

use your_fun::error::YourFunError;
use your_fun::initialize::handler_initialize;
use your_fun::interaction::handler_record_interaction;
use your_fun::register_human::handler_register_human;
use your_fun::session::{handler_close_session, handler_create_session, handler_extend_session};
use your_fun::state::{HumanRecord, PlatformRegistry, SessionAccount};
use your_fun::verify_human::{compute_challenge_hash, handler_verify_human};

const AUTHORITY: [u8; 32] = [7u8; 32];
const USER: [u8; 32] = [1u8; 32];
const STRANGER: [u8; 32] = [4u8; 32];
const VERIFIER: [u8; 32] = [9u8; 32];
const NONCE: [u8; 32] = [2u8; 32];
const FINGERPRINT: [u8; 32] = [3u8; 32];
const HUMAN_KEY: [u8; 32] = [21u8; 32];
const SESSION_KEY: [u8; 32] = [22u8; 32];
const CONTENT: [u8; 32] = [5u8; 32];

fn fresh_registry() -> PlatformRegistry {
    handler_initialize(AUTHORITY, 0, 60, 3600, 10, 254).unwrap()
}

fn pending_human(registry: &PlatformRegistry, now: i64) -> HumanRecord {
    handler_register_human(registry, USER, AUTHORITY, NONCE, FINGERPRINT, now, 253)
        .unwrap()
        .0
}

fn verified_human(registry: &mut PlatformRegistry, now: i64) -> HumanRecord {
    let mut human = pending_human(registry, now);
    let response = compute_challenge_hash(&NONCE, &FINGERPRINT);
    handler_verify_human(registry, &mut human, VERIFIER, response, 90, 2, now).unwrap();
    human
}

fn open_session(
    registry: &mut PlatformRegistry,
    human: &mut HumanRecord,
    now: i64,
) -> SessionAccount {
    handler_create_session(registry, human, HUMAN_KEY, USER, 0, [0u8; 32], now, 252).unwrap()
}

fn record(
    registry: &mut PlatformRegistry,
    human: &mut HumanRecord,
    session: &mut SessionAccount,
    user: [u8; 32],
    content_hash: [u8; 32],
    interaction_type: u8,
    score: u8,
    now: i64,
) -> Result<your_fun::state::InteractionLog, YourFunError> {
    handler_record_interaction(
        registry,
        human,
        session,
        user,
        SESSION_KEY,
        content_hash,
        interaction_type,
        score,
        30,
        now,
        251,
    )
}

#[test]
fn initialize_rejects_bad_configuration() {
    assert_eq!(
        handler_initialize(AUTHORITY, 0, 101, 3600, 10, 254),
        Err(YourFunError::InvalidVerificationLevel)
    );
    assert_eq!(
        handler_initialize(AUTHORITY, 0, 100, 0, 10, 254),
        Err(YourFunError::SessionDurationExceeded)
    );
    assert_eq!(
        handler_initialize(AUTHORITY, 0, 100, -5, 10, 254),
        Err(YourFunError::SessionDurationExceeded)
    );
    assert!(handler_initialize(AUTHORITY, 0, 100, 1, 10, 254).is_ok());
}

#[test]
fn register_rejects_wrong_fee_receiver_and_paused_registry() {
    let mut registry = fresh_registry();
    assert_eq!(
        handler_register_human(&registry, USER, STRANGER, NONCE, FINGERPRINT, 10, 253),
        Err(YourFunError::AuthorityMismatch)
    );

    registry.is_paused = true;
    assert_eq!(
        handler_register_human(&registry, USER, AUTHORITY, NONCE, FINGERPRINT, 10, 253),
        Err(YourFunError::RegistryPaused)
    );
    // The receiver check comes first, even while paused.
    assert_eq!(
        handler_register_human(&registry, USER, STRANGER, NONCE, FINGERPRINT, 10, 253),
        Err(YourFunError::AuthorityMismatch)
    );
}

#[test]
fn verify_rejects_an_already_active_record() {
    let mut registry = fresh_registry();
    let mut human = verified_human(&mut registry, 10);
    let registry_before = registry;
    let human_before = human;

    let response = compute_challenge_hash(&NONCE, &FINGERPRINT);
    let again = handler_verify_human(&mut registry, &mut human, VERIFIER, response, 90, 2, 20);
    assert_eq!(again, Err(YourFunError::AlreadyVerified));
    assert_eq!(registry, registry_before);
    assert_eq!(human, human_before);
}

#[test]
fn verify_rejects_bad_level_low_score_and_wrong_response() {
    let mut registry = fresh_registry();
    let mut human = pending_human(&registry, 10);
    let response = compute_challenge_hash(&NONCE, &FINGERPRINT);

    for level in [0u8, 4, 200] {
        assert_eq!(
            handler_verify_human(&mut registry, &mut human, VERIFIER, response, 90, level, 20),
            Err(YourFunError::InvalidVerificationLevel)
        );
    }
    assert_eq!(
        handler_verify_human(&mut registry, &mut human, VERIFIER, response, 59, 1, 20),
        Err(YourFunError::BehavioralScoreTooLow)
    );

    let mut wrong = response;
    wrong[13] ^= 0x20;
    assert_eq!(
        handler_verify_human(&mut registry, &mut human, VERIFIER, wrong, 90, 1, 20),
        Err(YourFunError::ChallengeMismatch)
    );
    assert!(!human.is_active);

    registry.is_paused = true;
    assert_eq!(
        handler_verify_human(&mut registry, &mut human, VERIFIER, response, 90, 1, 20),
        Err(YourFunError::RegistryPaused)
    );
    registry.is_paused = false;
    assert!(
        handler_verify_human(&mut registry, &mut human, VERIFIER, response, 90, 1, 20).is_ok()
    );
}

#[test]
fn verify_reports_overflow_and_changes_nothing() {
    let mut registry = fresh_registry();
    let mut human = pending_human(&registry, 10);
    registry.total_verified_humans = u64::MAX;
    let registry_before = registry;
    let human_before = human;

    let response = compute_challenge_hash(&NONCE, &FINGERPRINT);
    assert_eq!(
        handler_verify_human(&mut registry, &mut human, VERIFIER, response, 90, 1, 20),
        Err(YourFunError::NumericalOverflow)
    );
    assert_eq!(registry, registry_before);
    assert_eq!(human, human_before);
}

#[test]
fn create_session_rejects_inactive_human_wrong_owner_and_paused() {
    let mut registry = fresh_registry();
    let mut pending = pending_human(&registry, 10);
    assert_eq!(
        handler_create_session(&mut registry, &mut pending, HUMAN_KEY, USER, 0, [0u8; 32], 20, 252),
        Err(YourFunError::HumanRecordRevoked)
    );

    let mut human = verified_human(&mut registry, 10);
    assert_eq!(
        handler_create_session(&mut registry, &mut human, HUMAN_KEY, STRANGER, 0, [0u8; 32], 20, 252),
        Err(YourFunError::Unauthorized)
    );

    registry.is_paused = true;
    assert_eq!(
        handler_create_session(&mut registry, &mut human, HUMAN_KEY, USER, 0, [0u8; 32], 20, 252),
        Err(YourFunError::RegistryPaused)
    );
}

#[test]
fn create_session_reports_overflow_near_the_end_of_time() {
    let mut registry = fresh_registry();
    let mut human = verified_human(&mut registry, 10);
    let registry_before = registry;
    let human_before = human;
    assert_eq!(
        handler_create_session(
            &mut registry,
            &mut human,
            HUMAN_KEY,
            USER,
            0,
            [0u8; 32],
            i64::MAX - 100,
            252,
        ),
        Err(YourFunError::NumericalOverflow)
    );
    assert_eq!(registry, registry_before);
    assert_eq!(human, human_before);
}

#[test]
fn close_session_rejects_wrong_owner_and_a_second_close() {
    let mut registry = fresh_registry();
    let mut human = verified_human(&mut registry, 10);
    let mut session = open_session(&mut registry, &mut human, 20);

    assert_eq!(
        handler_close_session(&mut session, &mut human, STRANGER, 30),
        Err(YourFunError::Unauthorized)
    );
    assert!(session.is_active);

    handler_close_session(&mut session, &mut human, USER, 30).unwrap();
    assert!(!session.is_active);

    assert_eq!(
        handler_close_session(&mut session, &mut human, USER, 40),
        Err(YourFunError::SessionInactive)
    );
}

#[test]
fn close_session_reports_overflow_on_the_learning_score() {
    let mut registry = fresh_registry();
    let mut human = verified_human(&mut registry, 10);
    let mut session = open_session(&mut registry, &mut human, 20);
    session.session_score = 5;
    human.learning_score = u64::MAX - 4;

    let human_before = human;
    let session_before = session;
    assert_eq!(
        handler_close_session(&mut session, &mut human, USER, 30),
        Err(YourFunError::NumericalOverflow)
    );
    assert_eq!(human, human_before);
    assert_eq!(session, session_before);
}

#[test]
fn extend_session_rejects_expired_inactive_and_overlong() {
    let mut registry = fresh_registry();
    let mut human = verified_human(&mut registry, 10);
    let mut session = open_session(&mut registry, &mut human, 20);
    // Created at 20, the session expires at 3620.
    assert_eq!(
        handler_extend_session(&registry, &mut session, STRANGER, 100, 30),
        Err(YourFunError::Unauthorized)
    );
    assert_eq!(
        handler_extend_session(&registry, &mut session, USER, 100, 3620),
        Err(YourFunError::SessionExpired)
    );
    assert_eq!(
        handler_extend_session(&registry, &mut session, USER, i64::MAX, 30),
        Err(YourFunError::NumericalOverflow)
    );
    assert_eq!(
        handler_extend_session(&registry, &mut session, USER, 2 * 3600, 30),
        Err(YourFunError::SessionDurationExceeded)
    );
    assert_eq!(session.expires_at, 3620);

    session.is_active = false;
    assert_eq!(
        handler_extend_session(&registry, &mut session, USER, 100, 30),
        Err(YourFunError::SessionInactive)
    );
}

#[test]
fn record_interaction_rejects_each_bad_input() {
    let mut registry = fresh_registry();
    let mut human = verified_human(&mut registry, 10);
    let mut session = open_session(&mut registry, &mut human, 20);

    assert_eq!(
        record(&mut registry, &mut human, &mut session, STRANGER, CONTENT, 0, 50, 30),
        Err(YourFunError::Unauthorized)
    );
    assert_eq!(
        record(&mut registry, &mut human, &mut session, USER, CONTENT, 4, 50, 30),
        Err(YourFunError::InvalidContentHash)
    );
    assert_eq!(
        record(&mut registry, &mut human, &mut session, USER, CONTENT, 0, 101, 30),
        Err(YourFunError::InvalidVerificationLevel)
    );
    assert_eq!(
        record(&mut registry, &mut human, &mut session, USER, [0u8; 32], 0, 50, 30),
        Err(YourFunError::InvalidContentHash)
    );
    assert_eq!(session.interaction_count, 0);

    let mut inactive_human = human;
    inactive_human.is_active = false;
    assert_eq!(
        record(&mut registry, &mut inactive_human, &mut session, USER, CONTENT, 0, 50, 30),
        Err(YourFunError::HumanRecordRevoked)
    );

    session.is_active = false;
    assert_eq!(
        record(&mut registry, &mut human, &mut session, USER, CONTENT, 0, 50, 30),
        Err(YourFunError::SessionInactive)
    );
}

#[test]
fn zero_content_hash_loses_to_no_other_field() {
    // Whatever the type, score or duration, the all-zero hash is rejected.
    let mut registry = fresh_registry();
    let mut human = verified_human(&mut registry, 10);
    let mut session = open_session(&mut registry, &mut human, 20);
    for (interaction_type, score) in [(0u8, 0u8), (1, 100), (2, 50), (3, 1)] {
        assert_eq!(
            record(&mut registry, &mut human, &mut session, USER, [0u8; 32], interaction_type, score, 30),
            Err(YourFunError::InvalidContentHash)
        );
    }
    assert_eq!(session.interaction_count, 0);
    assert_eq!(registry.total_interactions, 0);
}

#[test]
fn record_interaction_reports_overflow_on_each_counter() {
    let mut registry = fresh_registry();
    let mut human = verified_human(&mut registry, 10);
    let mut session = open_session(&mut registry, &mut human, 20);

    session.session_score = u64::MAX;
    assert_eq!(
        record(&mut registry, &mut human, &mut session, USER, CONTENT, 0, 50, 30),
        Err(YourFunError::NumericalOverflow)
    );
    session.session_score = 0;

    human.total_interactions = u64::MAX;
    assert_eq!(
        record(&mut registry, &mut human, &mut session, USER, CONTENT, 0, 50, 30),
        Err(YourFunError::NumericalOverflow)
    );
    human.total_interactions = 0;

    registry.total_interactions = u64::MAX;
    let registry_before = registry;
    let human_before = human;
    let session_before = session;
    assert_eq!(
        record(&mut registry, &mut human, &mut session, USER, CONTENT, 0, 50, 30),
        Err(YourFunError::NumericalOverflow)
    );
    assert_eq!(registry, registry_before);
    assert_eq!(human, human_before);
    assert_eq!(session, session_before);
}
