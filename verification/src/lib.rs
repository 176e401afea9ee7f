//! Human-identity verification and engagement-tracking ledger.
//!
//! The library is the state machine at the heart of the platform: identity
//! registration, challenge-response verification, time-boxed companion
//! sessions, and append-only interaction records that accumulate a score.
//! Every record is plain data; the surrounding runtime (signer
//! authentication, deterministic record addressing, the wall clock, fee
//! transfer, and atomic commit) supplies the caller identity and the current
//! time as arguments and persists the records this library returns.
//!
//! Each operation either returns its updated and newly created records, or
//! fails with a [`error::YourFunError`] code and leaves every record exactly
//! as it was: the contracts state, for every input, which code comes back
//! and what each record holds afterwards.

pub mod error;
pub mod initialize;
pub mod interaction;
pub mod laws;
pub mod register_human;
pub mod session;
pub mod state;
pub mod verify_human;
