//! Error taxonomy of the worker core.
//!
//! Every failure path surfaces one of these distinguishable kinds; nothing is
//! swallowed, and a shutdown signal is deliberately not among them (it is a
//! normal poll outcome, not a failure).

use vstd::prelude::*;

use crate::tuner::ResourceBasedTunerConfig;

verus! {

/// An error surfaced by the worker runtime core.
#[derive(Clone, Copy, Debug, PartialEq, Eq, Structural)]
pub enum WorkerError {
    /// Inconsistent configuration, detected at construction and never at
    /// runtime: two resource-based slot suppliers disagree on their targets.
    /// Carries the mismatch — the targets of the first resource-based
    /// supplier, and the first later targets that differ from them.
    Configuration {
        /// Targets of the first resource-based supplier, in category order.
        expected: ResourceBasedTunerConfig,
        /// The first later resource targets that differ from `expected`.
        found: ResourceBasedTunerConfig,
    },
    /// The worker could not confirm it can operate against the remote service.
    Validation,
    /// A malformed encoded payload was handed to a decode-taking operation;
    /// a caller-input fault, local and non-retryable without fixing the input.
    InvalidPayload,
    /// A transport or internal processing failure; callers may retry per
    /// their own policy.
    Runtime,
    /// `finalize_shutdown` was invoked while shared references remain; carries
    /// the observed reference count so the caller can release and retry.
    Ownership(usize),
    /// An operation was invoked on a handle that is already finalized.
    IllegalState,
}

} // verus!
