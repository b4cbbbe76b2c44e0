//! Step-driven replay against an external debugger.
//!
//! A debug session pairs one fetched execution history with a
//! debugger-protocol client. Fetching the history and carrying the
//! acknowledgment wire exchange are the surrounding runtime's work; the core
//! owns the decode check on the fetched history and the verdict on each
//! notification.

use vstd::prelude::*;

use crate::codec::payload_well_formed;
use crate::codec::wire_valid;
use crate::errors::WorkerError;

verus! {

/// A debug session: one fetched, well-formed execution history, driven
/// step by step against the external debugger.
pub struct DebugClient {
    /// The encoded execution history under replay.
    pub history: Vec<u8>,
}

impl DebugClient {
    /// The held history is a well-formed encoded message; established at
    /// construction and never mutated afterward.
    pub open spec fn wf(&self) -> bool {
        wire_valid(self.history@)
    }

    /// The encoded history under replay.
    pub fn history(&self) -> (h: &Vec<u8>)
        ensures
            h == &self.history,
    {
        &self.history
    }

    /// Notifies the external debugger that workflow-task processing reached
    /// history event `event_id`; `acknowledged` is the remote acknowledgment
    /// the surrounding runtime received. A refusal is surfaced as a runtime
    /// error, never swallowed.
    pub fn post_wft_started(&self, event_id: i64, acknowledged: bool) -> (r: Result<
        bool,
        WorkerError,
    >)
        ensures
            r == (if acknowledged {
                Ok::<bool, WorkerError>(true)
            } else {
                Err::<bool, WorkerError>(WorkerError::Runtime)
            }),
    {
        let _ = event_id;
        if acknowledged {
            Ok(true)
        } else {
            Err(WorkerError::Runtime)
        }
    }
}

/// Opens a debug session over a history fetched from the debugger: succeeds
/// exactly when the fetched payload is a well-formed encoded message.
pub fn new_debug_client(history: Vec<u8>) -> (r: Result<DebugClient, WorkerError>)
    ensures
        r is Ok <==> wire_valid(history@),
        r matches Ok(c) ==> c.wf() && c.history == history,
        r matches Err(e) ==> e == WorkerError::InvalidPayload,
{
    if payload_well_formed(&history) {
        Ok(DebugClient { history })
    } else {
        Err(WorkerError::InvalidPayload)
    }
}

} // verus!
