//! An on-chain escrow that gates a prize payout behind a cryptographic proof
//! check.
//!
//! A puzzle setter (the admin) publishes a puzzle and seeds a prize pool; a
//! guesser pays a small non-refundable fee to attempt a proof-backed claim;
//! if the proof verifier accepts the guesser's submission, the entire pool
//! balance is paid to the guesser atomically with the verification outcome.
//!
//! The contract's state transitions are verified over explicit models of the
//! host facilities they depend on: an in-memory asset ledger
//! ([`ledger::Ledger`]), the set of authorization proofs present for an
//! invocation ([`auth::AuthContext`]), and a proof-verifier interface
//! ([`verification::ProofVerifier`]). A thin host adapter outside this crate maps
//! those models onto the live ledger, authorization checks, and verifier of
//! the deployment platform.

pub mod auth;
pub mod bytes32;
pub mod errors;
pub mod escrow;
pub mod ledger;
pub mod verification;
