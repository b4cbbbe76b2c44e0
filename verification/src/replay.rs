//! The bounded history-replay feed pipeline.
//!
//! A replay worker consumes pre-recorded execution histories instead of
//! polling a live task source. The producer side is a `HistoryPusher` over a
//! single-slot ordered channel: the capacity of exactly one is a
//! correctness-relevant constant, not a tunable — it is what throttles the
//! producer to the consumer's actual processing rate, so the replay worker
//! never buffers more than it is actively processing. The asynchronous runtime
//! around the core drives each suspension point as one step: a push that finds
//! the slot occupied observes `Blocked` and suspends until the consumer takes
//! the slot.

use vstd::prelude::*;

use crate::codec::payload_well_formed;
use crate::codec::wire_valid;

verus! {

/// A complete workflow execution history paired with its originating workflow
/// identifier; immutable once constructed, consumed exactly once.
#[derive(Debug)]
pub struct HistoryForReplay {
    /// Identifier of the workflow the history belongs to.
    pub workflow_id: String,
    /// The encoded execution history.
    pub history: Vec<u8>,
}

/// Why a push was refused.
#[derive(Clone, Copy, Debug, PartialEq, Eq, Structural)]
pub enum PushError {
    /// The history payload is not a well-formed encoded message.
    InvalidPayload,
    /// The pipeline was closed by its producer: stop pushing.
    Closed,
    /// The consuming worker is gone; pushing anything further cannot work and
    /// points at a defect in the surrounding runtime, not at the caller.
    ConsumerGone,
}

/// What an accepted push observes.
#[derive(Debug)]
pub enum PushOutcome {
    /// The history now occupies the channel slot.
    Pushed,
    /// The slot still holds the previous history: the pushed one comes back
    /// to the caller, who suspends and retries with it once the consumer has
    /// taken the slot. Nothing is dropped.
    Blocked(HistoryForReplay),
}

/// Abstract state of the pipeline as the producer sees it.
pub struct PusherModel {
    /// The producer closed the pipeline.
    pub closed: bool,
    /// The consuming worker still holds its end.
    pub consumer_alive: bool,
    /// The single channel slot.
    pub slot: Option<HistoryForReplay>,
}

/// Result of pushing history `h` in state `p`: the decode check comes first,
/// then closed-by-caller, then consumer-gone — distinguished causes the
/// caller must be able to branch on — and only then admission; a blocked push
/// returns the history to the caller.
pub open spec fn push_result(p: PusherModel, h: HistoryForReplay) -> Result<
    PushOutcome,
    PushError,
> {
    if !wire_valid(h.history@) {
        Err(PushError::InvalidPayload)
    } else if p.closed {
        Err(PushError::Closed)
    } else if !p.consumer_alive {
        Err(PushError::ConsumerGone)
    } else if p.slot is Some {
        Ok(PushOutcome::Blocked(h))
    } else {
        Ok(PushOutcome::Pushed)
    }
}

/// State after a push: only a `Pushed` outcome fills the slot; every refusal
/// and the `Blocked` observation change nothing, so no history is ever
/// silently dropped.
pub open spec fn push_next(p: PusherModel, h: HistoryForReplay) -> PusherModel {
    if push_result(p, h) == Ok::<PushOutcome, PushError>(PushOutcome::Pushed) {
        PusherModel { slot: Some(h), ..p }
    } else {
        p
    }
}

/// The producer handle feeding histories into a replay worker.
pub struct HistoryPusher {
    /// The producer closed the pipeline.
    pub closed: bool,
    /// The consuming worker still holds its end.
    pub consumer_alive: bool,
    /// The single channel slot.
    pub slot: Option<HistoryForReplay>,
}

impl View for HistoryPusher {
    type V = PusherModel;

    open spec fn view(&self) -> PusherModel {
        PusherModel { closed: self.closed, consumer_alive: self.consumer_alive, slot: self.slot }
    }
}

impl HistoryPusher {
    /// A fresh, open pipeline with an empty slot and a live consumer.
    pub fn new() -> (p: HistoryPusher)
        ensures
            !p@.closed,
            p@.consumer_alive,
            p@.slot is None,
    {
        HistoryPusher { closed: false, consumer_alive: true, slot: None }
    }

    /// One push step: decode-checks the history payload, refuses a closed
    /// pipeline or a gone consumer with distinguished errors, hands the
    /// history back while the slot is occupied (backpressure), and otherwise
    /// places it — paired with its workflow identifier — into the slot.
    pub fn push_history(&mut self, workflow_id: String, history: Vec<u8>) -> (r: Result<
        PushOutcome,
        PushError,
    >)
        ensures
            r == push_result(old(self)@, HistoryForReplay { workflow_id, history }),
            final(self)@ == push_next(old(self)@, HistoryForReplay { workflow_id, history }),
    {
        let offered = HistoryForReplay { workflow_id, history };
        if !payload_well_formed(&offered.history) {
            return Err(PushError::InvalidPayload);
        }
        if self.closed {
            return Err(PushError::Closed);
        }
        if !self.consumer_alive {
            return Err(PushError::ConsumerGone);
        }
        match self.slot {
            Some(_) => Ok(PushOutcome::Blocked(offered)),
            None => {
                self.slot = Some(offered);
                Ok(PushOutcome::Pushed)
            },
        }
    }

    /// The consumer taking the slot's history for processing; frees the slot
    /// for the next push.
    pub fn take_history(&mut self) -> (r: Option<HistoryForReplay>)
        ensures
            r == old(self)@.slot,
            final(self)@ == (PusherModel { slot: None, ..old(self)@ }),
    {
        self.slot.take()
    }

    /// Marks the producer closed: every further push fails at once.
    /// Idempotent.
    pub fn close(&mut self)
        ensures
            final(self)@ == (PusherModel { closed: true, ..old(self)@ }),
    {
        self.closed = true;
    }

    /// The consuming worker terminating and dropping its end of the channel.
    pub fn drop_consumer(&mut self)
        ensures
            final(self)@ == (PusherModel { consumer_alive: false, ..old(self)@ }),
    {
        self.consumer_alive = false;
    }
}

/// Pipeline backpressure: while the previous history is unconsumed, a push of
/// a well-formed history on an open, live pipeline is blocked, changes
/// nothing, and returns that very history to the caller; once the consumer
/// has taken the slot, the same push succeeds; and a push after `close` fails
/// at once with the distinguished closed error, whatever the slot holds.
pub proof fn lemma_pipeline_backpressure(p: PusherModel, h: HistoryForReplay)
    requires
        wire_valid(h.history@),
    ensures
        !p.closed && p.consumer_alive && p.slot is Some ==> push_result(p, h)
            == Ok::<PushOutcome, PushError>(PushOutcome::Blocked(h)) && push_next(p, h) == p,
        !p.closed && p.consumer_alive ==> push_result(
            PusherModel { slot: None, ..p },
            h,
        ) == Ok::<PushOutcome, PushError>(PushOutcome::Pushed) && push_next(
            PusherModel { slot: None, ..p },
            h,
        ).slot == Some(h),
        p.closed ==> push_result(p, h) == Err::<PushOutcome, PushError>(PushError::Closed)
            && push_next(p, h) == p,
{
}

/// Decode-failure isolation for the pipeline: a malformed history payload is
/// refused with the distinguished payload error — before any other cause is
/// considered — and the pipeline is left exactly as it was.
pub proof fn lemma_malformed_push_isolated(p: PusherModel, h: HistoryForReplay)
    requires
        !wire_valid(h.history@),
    ensures
        push_result(p, h) == Err::<PushOutcome, PushError>(PushError::InvalidPayload),
        push_next(p, h) == p,
{
}

/// Closing is idempotent: closing an already-closed pipeline is the same
/// single observable change.
pub proof fn lemma_close_idempotent(p: PusherModel)
    ensures
        (PusherModel { closed: true, ..(PusherModel { closed: true, ..p }) }) == (PusherModel {
            closed: true,
            ..p
        }),
{
}

} // verus!
