//! Core of a service that proves, in succinct-argument style, that a recorded
//! trade execution satisfies the numeric promises of a trading intent: the
//! output amount reaches the intent's minimum, the consumed input stays within
//! the intent's budget, the execution happened before the deadline, and the
//! execution is bound to the intent through a recomputed commitment digest.
//!
//! The crate holds the verified pipeline from raw intent/execution values to
//! the algebraic execution trace that the proving backend commits to: the
//! commitment hashing, the validation gate, the witness, the trace layout, and
//! the constraint system evaluated over the trace.

pub mod circuit;
pub mod hashing;
pub mod pipeline;
pub mod types;
