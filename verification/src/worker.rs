//! The worker lifecycle state machine.
//!
//! A `WorkerRef` is the runtime worker instance: it is shared by reference
//! among arbitrarily many concurrent callers, accepts polls and completions
//! while `Active`, drains and signals shutdown while `ShuttingDown`, and is
//! terminal once `Finalized`. The asynchronous runtime around the core drives
//! each suspension point as one step of this machine: a poll call that finds
//! no task (or no free admission slot) observes `Pending` and suspends; the
//! remote task source hands tasks in through `deliver_*`; the reachability
//! probe and the internal submission verdict enter as explicit step inputs.
//! Every decision — what a poll returns, when a completion releases its slot,
//! who may finalize — is a state machine read specified below.

use vstd::prelude::*;

use crate::codec::wire_valid;
use crate::codec::payload_well_formed;
use crate::errors::WorkerError;
use crate::replay::HistoryPusher;
use crate::tuner::SlotPolicy;
use crate::tuner::Tuner;
use crate::tuner::TunerHolder;

verus! {

/// Lifecycle states of a worker.
#[derive(Clone, Copy, Debug, PartialEq, Eq, Structural)]
pub enum WorkerState {
    /// Accepting polls and completions.
    Active,
    /// Shutdown initiated: polls surface the shutdown signal once drained,
    /// in-flight completions are still accepted.
    ShuttingDown,
    /// Terminal: internal resources released; every operation fails.
    Finalized,
}

/// A workflow error type that a configuration may promote to a workflow failure.
#[derive(Clone, Copy, Debug, PartialEq, Eq, Structural)]
pub enum WorkflowErrorType {
    /// The workflow behaved nondeterministically during replay.
    Nondeterminism,
}

/// Immutable worker configuration as handed in by the caller, not yet
/// validated.
///
/// The two activity rate limits and the poll ratio are chosen by callers as
/// floating-point values; the core never interprets them numerically, so they
/// are carried as the raw bit patterns of those values.
pub struct WorkerConfig {
    /// Namespace the worker operates in.
    pub namespace: String,
    /// Task queue the worker polls.
    pub task_queue: String,
    /// Build identifier of the worker binary.
    pub build_id: String,
    /// Overrides the client identity when present.
    pub identity_override: Option<String>,
    /// Upper bound on cached workflow instances.
    pub max_cached_workflows: usize,
    /// The three slot suppliers, validated at construction.
    pub tuner: TunerHolder,
    /// Concurrent workflow-task poll calls permitted against the service.
    pub max_concurrent_workflow_task_polls: usize,
    /// Raw bit pattern of the non-sticky to sticky poll ratio.
    pub nonsticky_to_sticky_poll_ratio: u32,
    /// Concurrent activity-task poll calls permitted against the service.
    pub max_concurrent_activity_task_polls: usize,
    /// True when the worker runs no remotely dispatched activities.
    pub no_remote_activities: bool,
    /// Sticky-queue schedule-to-start timeout, in milliseconds.
    pub sticky_queue_schedule_to_start_timeout_millis: u64,
    /// Longest interval heartbeat emission may be throttled to.
    pub max_heartbeat_throttle_interval_millis: u64,
    /// Default interval heartbeat emission is throttled to.
    pub default_heartbeat_throttle_interval_millis: u64,
    /// Raw bit pattern of the worker-wide activities-per-second cap, if any.
    pub max_activities_per_second: Option<u64>,
    /// Raw bit pattern of the per-task-queue activities-per-second cap, if any.
    pub max_task_queue_activities_per_second: Option<u64>,
    /// Graceful-shutdown period, in milliseconds; always applied, even when 0,
    /// so shutdown auto-cancels outstanding activities.
    pub graceful_shutdown_period_millis: u64,
    /// True when worker build-id versioning is in use.
    pub use_worker_versioning: bool,
    /// Treat nondeterminism as a workflow failure for every workflow type.
    pub nondeterminism_as_workflow_fail: bool,
    /// Workflow types for which nondeterminism is a workflow failure.
    pub nondeterminism_as_workflow_fail_for_types: Vec<String>,
}

/// The configuration a worker is actually built from: validated once, with
/// the tuner assembled and the fatal-error policy made explicit.
pub struct ValidatedWorkerConfig {
    /// Namespace the worker operates in.
    pub namespace: String,
    /// Task queue the worker polls.
    pub task_queue: String,
    /// Build identifier of the worker binary.
    pub worker_build_id: String,
    /// Overrides the client identity when present.
    pub client_identity_override: Option<String>,
    /// Upper bound on cached workflow instances.
    pub max_cached_workflows: usize,
    /// Concurrent workflow-task poll calls permitted against the service.
    pub max_concurrent_wft_polls: usize,
    /// Raw bit pattern of the non-sticky to sticky poll ratio.
    pub nonsticky_to_sticky_poll_ratio: u32,
    /// Concurrent activity-task poll calls permitted against the service.
    pub max_concurrent_at_polls: usize,
    /// True when the worker runs no remotely dispatched activities.
    pub no_remote_activities: bool,
    /// Sticky-queue schedule-to-start timeout, in milliseconds.
    pub sticky_queue_schedule_to_start_timeout_millis: u64,
    /// Longest interval heartbeat emission may be throttled to.
    pub max_heartbeat_throttle_interval_millis: u64,
    /// Default interval heartbeat emission is throttled to.
    pub default_heartbeat_throttle_interval_millis: u64,
    /// Raw bit pattern of the worker-wide activities-per-second cap, if any.
    pub max_worker_activities_per_second: Option<u64>,
    /// Raw bit pattern of the per-task-queue activities-per-second cap, if any.
    pub max_task_queue_activities_per_second: Option<u64>,
    /// Graceful-shutdown period, in milliseconds.
    pub graceful_shutdown_period_millis: u64,
    /// True when worker build-id versioning is in use.
    pub use_worker_versioning: bool,
    /// Error types treated as workflow failures for every workflow type.
    pub workflow_failure_errors: Vec<WorkflowErrorType>,
    /// Workflow types whose nondeterminism errors are workflow failures.
    pub workflow_types_to_failure_errors: Vec<String>,
    /// The admission-control unit built from the three slot suppliers.
    pub tuner: Tuner,
}

/// The validated configuration carries every caller field across unchanged,
/// with the fatal-error policy spelled out and the tuner assembled.
pub open spec fn config_carried_over(v: ValidatedWorkerConfig, c: WorkerConfig) -> bool {
    &&& v.namespace == c.namespace
    &&& v.task_queue == c.task_queue
    &&& v.worker_build_id == c.build_id
    &&& v.client_identity_override == c.identity_override
    &&& v.max_cached_workflows == c.max_cached_workflows
    &&& v.max_concurrent_wft_polls == c.max_concurrent_workflow_task_polls
    &&& v.nonsticky_to_sticky_poll_ratio == c.nonsticky_to_sticky_poll_ratio
    &&& v.max_concurrent_at_polls == c.max_concurrent_activity_task_polls
    &&& v.no_remote_activities == c.no_remote_activities
    &&& v.sticky_queue_schedule_to_start_timeout_millis
        == c.sticky_queue_schedule_to_start_timeout_millis
    &&& v.max_heartbeat_throttle_interval_millis == c.max_heartbeat_throttle_interval_millis
    &&& v.default_heartbeat_throttle_interval_millis
        == c.default_heartbeat_throttle_interval_millis
    &&& v.max_worker_activities_per_second == c.max_activities_per_second
    &&& v.max_task_queue_activities_per_second == c.max_task_queue_activities_per_second
    &&& v.graceful_shutdown_period_millis == c.graceful_shutdown_period_millis
    &&& v.use_worker_versioning == c.use_worker_versioning
    &&& v.workflow_failure_errors@ == (if c.nondeterminism_as_workflow_fail {
        seq![WorkflowErrorType::Nondeterminism]
    } else {
        Seq::<WorkflowErrorType>::empty()
    })
    &&& v.workflow_types_to_failure_errors == c.nondeterminism_as_workflow_fail_for_types
    &&& v.tuner == c.tuner.spec_tuner()
}

impl WorkerConfig {
    /// Validates the configuration and assembles the form the worker is built
    /// from. Succeeds exactly when the slot suppliers are consistent;
    /// otherwise fails with a configuration error and constructs nothing.
    pub fn into_validated(self) -> (r: Result<ValidatedWorkerConfig, WorkerError>)
        ensures
            r is Ok <==> self.tuner.consistent(),
            r matches Ok(v) ==> config_carried_over(v, self),
            r matches Err(e) ==> e == self.tuner.config_error(),
    {
        let tuner = match self.tuner.build_tuner() {
            Ok(t) => t,
            Err(e) => {
                return Err(e);
            },
        };
        let mut workflow_failure_errors: Vec<WorkflowErrorType> = Vec::new();
        if self.nondeterminism_as_workflow_fail {
            workflow_failure_errors.push(WorkflowErrorType::Nondeterminism);
        }
        proof {
            if self.nondeterminism_as_workflow_fail {
                assert(workflow_failure_errors@ =~= seq![WorkflowErrorType::Nondeterminism]);
            } else {
                assert(workflow_failure_errors@ =~= Seq::<WorkflowErrorType>::empty());
            }
        }
        Ok(ValidatedWorkerConfig {
            namespace: self.namespace,
            task_queue: self.task_queue,
            worker_build_id: self.build_id,
            client_identity_override: self.identity_override,
            max_cached_workflows: self.max_cached_workflows,
            max_concurrent_wft_polls: self.max_concurrent_workflow_task_polls,
            nonsticky_to_sticky_poll_ratio: self.nonsticky_to_sticky_poll_ratio,
            max_concurrent_at_polls: self.max_concurrent_activity_task_polls,
            no_remote_activities: self.no_remote_activities,
            sticky_queue_schedule_to_start_timeout_millis:
                self.sticky_queue_schedule_to_start_timeout_millis,
            max_heartbeat_throttle_interval_millis: self.max_heartbeat_throttle_interval_millis,
            default_heartbeat_throttle_interval_millis:
                self.default_heartbeat_throttle_interval_millis,
            max_worker_activities_per_second: self.max_activities_per_second,
            max_task_queue_activities_per_second: self.max_task_queue_activities_per_second,
            graceful_shutdown_period_millis: self.graceful_shutdown_period_millis,
            use_worker_versioning: self.use_worker_versioning,
            workflow_failure_errors,
            workflow_types_to_failure_errors: self.nondeterminism_as_workflow_fail_for_types,
            tuner,
        })
    }
}

/// Abstract state of a worker handle.
pub struct WorkerModel {
    /// Lifecycle state.
    pub state: WorkerState,
    /// Live references to this worker.
    pub ref_count: nat,
    /// True for a replay worker (no live task source, fed by the pipeline).
    pub replay: bool,
    /// Generation of the remote-service handle in use, if any.
    pub client: Option<u64>,
    /// The validated configuration the worker was built from.
    pub config: ValidatedWorkerConfig,
    /// Live admission-control state.
    pub tuner: Tuner,
    /// Workflow activations handed over by the task source, not yet polled.
    pub wf_tasks: Seq<Vec<u8>>,
    /// Activity tasks handed over by the task source, not yet polled.
    pub act_tasks: Seq<Vec<u8>>,
}

impl WorkerModel {
    /// Well-formedness: a live worker is referenced; a finalized one holds
    /// nothing; slot limits sit inside their bounds.
    pub open spec fn wf(self) -> bool {
        &&& self.tuner.wf()
        &&& (self.state is Finalized ==> self.ref_count == 0 && self.wf_tasks.len() == 0
            && self.act_tasks.len() == 0)
        &&& (!(self.state is Finalized) ==> self.ref_count >= 1)
    }
}

/// What one poll call observes.
#[derive(Debug)]
pub enum PollOutcome {
    /// An encoded task for the caller to execute.
    Task(Vec<u8>),
    /// Nothing to hand out yet (no task, or no free admission slot): the
    /// caller suspends and polls again — backpressure, never a rejection.
    Pending,
    /// The worker is shutting down and drained: stop polling this category.
    /// A terminal signal, deliberately distinct from every error.
    ShutdownSignal,
}

/// Spec-level poll observation.
pub enum PollDecision {
    /// The front task is handed out.
    Task(Vec<u8>),
    /// The caller suspends.
    Pending,
    /// The distinguished shutdown signal.
    Shutdown,
    /// The handle is finalized.
    Illegal,
}

/// What a workflow-activation poll observes in state `w`.
pub open spec fn poll_workflow_decision(w: WorkerModel) -> PollDecision {
    if w.state is Finalized {
        PollDecision::Illegal
    } else if w.wf_tasks.len() > 0 {
        if w.tuner.workflow_slots.in_flight < w.tuner.workflow_slots.limit {
            PollDecision::Task(w.wf_tasks[0])
        } else {
            PollDecision::Pending
        }
    } else if w.state is ShuttingDown {
        PollDecision::Shutdown
    } else {
        PollDecision::Pending
    }
}

/// State after a workflow-activation poll: handing a task out consumes an
/// admission slot; every other observation changes nothing.
pub open spec fn poll_workflow_next(w: WorkerModel) -> WorkerModel {
    if poll_workflow_decision(w) is Task {
        WorkerModel {
            wf_tasks: w.wf_tasks.remove(0),
            tuner: Tuner {
                workflow_slots: SlotPolicy {
                    in_flight: (w.tuner.workflow_slots.in_flight + 1) as usize,
                    ..w.tuner.workflow_slots
                },
                ..w.tuner
            },
            ..w
        }
    } else {
        w
    }
}

/// What an activity-task poll observes in state `w`.
pub open spec fn poll_activity_decision(w: WorkerModel) -> PollDecision {
    if w.state is Finalized {
        PollDecision::Illegal
    } else if w.act_tasks.len() > 0 {
        if w.tuner.activity_slots.in_flight < w.tuner.activity_slots.limit {
            PollDecision::Task(w.act_tasks[0])
        } else {
            PollDecision::Pending
        }
    } else if w.state is ShuttingDown {
        PollDecision::Shutdown
    } else {
        PollDecision::Pending
    }
}

/// State after an activity-task poll.
pub open spec fn poll_activity_next(w: WorkerModel) -> WorkerModel {
    if poll_activity_decision(w) is Task {
        WorkerModel {
            act_tasks: w.act_tasks.remove(0),
            tuner: Tuner {
                activity_slots: SlotPolicy {
                    in_flight: (w.tuner.activity_slots.in_flight + 1) as usize,
                    ..w.tuner.activity_slots
                },
                ..w.tuner
            },
            ..w
        }
    } else {
        w
    }
}

/// State after `initiate_shutdown`: an active worker starts shutting down;
/// every other state is left exactly as it was.
pub open spec fn initiate_shutdown_next(w: WorkerModel) -> WorkerModel {
    if w.state is Active {
        WorkerModel { state: WorkerState::ShuttingDown, ..w }
    } else {
        w
    }
}

/// Result of `initiate_shutdown`.
pub open spec fn initiate_shutdown_result(w: WorkerModel) -> Result<(), WorkerError> {
    if w.state is Finalized {
        Err(WorkerError::IllegalState)
    } else {
        Ok(())
    }
}

/// State after `finalize_shutdown`: with exactly one reference the worker
/// becomes terminal and releases queues and slots; any failure changes nothing.
pub open spec fn finalize_shutdown_next(w: WorkerModel) -> WorkerModel {
    if !(w.state is Finalized) && w.ref_count == 1 {
        WorkerModel {
            state: WorkerState::Finalized,
            ref_count: 0,
            wf_tasks: Seq::<Vec<u8>>::empty(),
            act_tasks: Seq::<Vec<u8>>::empty(),
            tuner: w.tuner.released(),
            ..w
        }
    } else {
        w
    }
}

/// Result of `finalize_shutdown`.
pub open spec fn finalize_shutdown_result(w: WorkerModel) -> Result<(), WorkerError> {
    if w.state is Finalized {
        Err(WorkerError::IllegalState)
    } else if w.ref_count != 1 {
        Err(WorkerError::Ownership(w.ref_count as usize))
    } else {
        Ok(())
    }
}

/// State after a workflow-activation completion: a well-formed payload on a
/// live worker releases one workflow admission slot — on every exit path,
/// whatever the submission verdict; a malformed payload or a finalized handle
/// changes nothing.
pub open spec fn complete_workflow_next(w: WorkerModel, payload: Seq<u8>) -> WorkerModel {
    if w.state is Finalized || !wire_valid(payload) {
        w
    } else {
        WorkerModel {
            tuner: Tuner {
                workflow_slots: SlotPolicy {
                    in_flight: if w.tuner.workflow_slots.in_flight > 0 {
                        (w.tuner.workflow_slots.in_flight - 1) as usize
                    } else {
                        0
                    },
                    ..w.tuner.workflow_slots
                },
                ..w.tuner
            },
            ..w
        }
    }
}

/// Result of a workflow-activation completion, given the verdict `accepted`
/// of the worker's internal submission.
pub open spec fn complete_workflow_result(
    w: WorkerModel,
    payload: Seq<u8>,
    accepted: bool,
) -> Result<(), WorkerError> {
    if w.state is Finalized {
        Err(WorkerError::IllegalState)
    } else if !wire_valid(payload) {
        Err(WorkerError::InvalidPayload)
    } else if !accepted {
        Err(WorkerError::Runtime)
    } else {
        Ok(())
    }
}

/// State after an activity-task completion; mirrors the workflow case on the
/// activity slots.
pub open spec fn complete_activity_next(w: WorkerModel, payload: Seq<u8>) -> WorkerModel {
    if w.state is Finalized || !wire_valid(payload) {
        w
    } else {
        WorkerModel {
            tuner: Tuner {
                activity_slots: SlotPolicy {
                    in_flight: if w.tuner.activity_slots.in_flight > 0 {
                        (w.tuner.activity_slots.in_flight - 1) as usize
                    } else {
                        0
                    },
                    ..w.tuner.activity_slots
                },
                ..w.tuner
            },
            ..w
        }
    }
}

/// Result of an activity-task completion.
pub open spec fn complete_activity_result(
    w: WorkerModel,
    payload: Seq<u8>,
    accepted: bool,
) -> Result<(), WorkerError> {
    if w.state is Finalized {
        Err(WorkerError::IllegalState)
    } else if !wire_valid(payload) {
        Err(WorkerError::InvalidPayload)
    } else if !accepted {
        Err(WorkerError::Runtime)
    } else {
        Ok(())
    }
}

/// Result of recording an activity heartbeat; recording never moves the
/// machine, the worker throttles actual emission internally.
pub open spec fn heartbeat_result(w: WorkerModel, payload: Seq<u8>) -> Result<(), WorkerError> {
    if w.state is Finalized {
        Err(WorkerError::IllegalState)
    } else if !wire_valid(payload) {
        Err(WorkerError::InvalidPayload)
    } else {
        Ok(())
    }
}

/// The runtime worker instance.
///
/// Shared by reference among concurrent callers; the live count is explicit
/// so that exclusive teardown can be demanded — and the observed count
/// reported — at `finalize_shutdown`.
pub struct WorkerRef {
    /// Lifecycle state.
    pub state: WorkerState,
    /// Live references to this worker.
    pub ref_count: usize,
    /// True for a replay worker.
    pub replay: bool,
    /// Generation of the remote-service handle in use, if any.
    pub client: Option<u64>,
    /// The validated configuration the worker was built from.
    pub config: ValidatedWorkerConfig,
    /// Live admission-control state, seeded from the validated tuner.
    pub tuner: Tuner,
    /// Workflow activations handed over by the task source, not yet polled.
    pub wf_tasks: Vec<Vec<u8>>,
    /// Activity tasks handed over by the task source, not yet polled.
    pub act_tasks: Vec<Vec<u8>>,
}

impl View for WorkerRef {
    type V = WorkerModel;

    open spec fn view(&self) -> WorkerModel {
        WorkerModel {
            state: self.state,
            ref_count: self.ref_count as nat,
            replay: self.replay,
            client: self.client,
            config: self.config,
            tuner: self.tuner,
            wf_tasks: self.wf_tasks@,
            act_tasks: self.act_tasks@,
        }
    }
}

impl WorkerRef {
    /// Well-formedness of the handle.
    pub open spec fn wf(&self) -> bool {
        self@.wf()
    }

    /// Checks the worker can operate against the remote service before the
    /// first poll; `reachable` is the outcome of the reachability probe the
    /// surrounding runtime ran against that service. Mutates nothing.
    pub fn validate(&self, reachable: bool) -> (r: Result<(), WorkerError>)
        ensures
            r == (if self@.state is Finalized {
                Err::<(), WorkerError>(WorkerError::IllegalState)
            } else if !reachable {
                Err::<(), WorkerError>(WorkerError::Validation)
            } else {
                Ok::<(), WorkerError>(())
            }),
    {
        match self.state {
            WorkerState::Finalized => Err(WorkerError::IllegalState),
            _ => {
                if !reachable {
                    Err(WorkerError::Validation)
                } else {
                    Ok(())
                }
            },
        }
    }

    /// One workflow-activation poll step: hands out the front activation when
    /// one is queued and an admission slot is free; applies backpressure
    /// (`Pending`) when over the slot limit or when nothing is queued; surfaces
    /// the distinguished shutdown signal once shutting down and drained.
    pub fn poll_workflow_activation(&mut self) -> (r: Result<PollOutcome, WorkerError>)
        requires
            old(self).wf(),
        ensures
            final(self).wf(),
            final(self)@ == poll_workflow_next(old(self)@),
            match r {
                Ok(PollOutcome::Task(t)) => poll_workflow_decision(old(self)@)
                    == PollDecision::Task(t),
                Ok(PollOutcome::Pending) => poll_workflow_decision(old(self)@)
                    is Pending,
                Ok(PollOutcome::ShutdownSignal) => poll_workflow_decision(old(self)@)
                    is Shutdown,
                Err(e) => poll_workflow_decision(old(self)@) is Illegal
                    && e == WorkerError::IllegalState,
            },
    {
        match self.state {
            WorkerState::Finalized => Err(WorkerError::IllegalState),
            _ => {
                if self.wf_tasks.len() > 0 {
                    if self.tuner.workflow_slots.try_acquire() {
                        let task = self.wf_tasks.remove(0);
                        Ok(PollOutcome::Task(task))
                    } else {
                        Ok(PollOutcome::Pending)
                    }
                } else {
                    match self.state {
                        WorkerState::ShuttingDown => Ok(PollOutcome::ShutdownSignal),
                        _ => Ok(PollOutcome::Pending),
                    }
                }
            },
        }
    }

    /// One activity-task poll step; mirrors the workflow case on the activity
    /// queue and slots.
    pub fn poll_activity_task(&mut self) -> (r: Result<PollOutcome, WorkerError>)
        requires
            old(self).wf(),
        ensures
            final(self).wf(),
            final(self)@ == poll_activity_next(old(self)@),
            match r {
                Ok(PollOutcome::Task(t)) => poll_activity_decision(old(self)@)
                    == PollDecision::Task(t),
                Ok(PollOutcome::Pending) => poll_activity_decision(old(self)@)
                    is Pending,
                Ok(PollOutcome::ShutdownSignal) => poll_activity_decision(old(self)@)
                    is Shutdown,
                Err(e) => poll_activity_decision(old(self)@) is Illegal
                    && e == WorkerError::IllegalState,
            },
    {
        match self.state {
            WorkerState::Finalized => Err(WorkerError::IllegalState),
            _ => {
                if self.act_tasks.len() > 0 {
                    if self.tuner.activity_slots.try_acquire() {
                        let task = self.act_tasks.remove(0);
                        Ok(PollOutcome::Task(task))
                    } else {
                        Ok(PollOutcome::Pending)
                    }
                } else {
                    match self.state {
                        WorkerState::ShuttingDown => Ok(PollOutcome::ShutdownSignal),
                        _ => Ok(PollOutcome::Pending),
                    }
                }
            },
        }
    }

    /// Submits a workflow-activation completion. The payload must be a
    /// well-formed encoded message — a malformed one is rejected with a
    /// distinguished error, touching nothing. `accepted` is the verdict of the
    /// worker's internal submission, performed by the surrounding runtime once
    /// the payload passes the decode check; a rejection surfaces as a runtime
    /// error, but the admission slot the task held is released either way.
    pub fn complete_workflow_activation(
        &mut self,
        payload: &Vec<u8>,
        accepted: bool,
    ) -> (r: Result<(), WorkerError>)
        requires
            old(self).wf(),
        ensures
            final(self).wf(),
            final(self)@ == complete_workflow_next(old(self)@, payload@),
            r == complete_workflow_result(old(self)@, payload@, accepted),
    {
        match self.state {
            WorkerState::Finalized => Err(WorkerError::IllegalState),
            _ => {
                if !payload_well_formed(payload) {
                    Err(WorkerError::InvalidPayload)
                } else {
                    self.tuner.workflow_slots.release();
                    if accepted {
                        Ok(())
                    } else {
                        Err(WorkerError::Runtime)
                    }
                }
            },
        }
    }

    /// Submits an activity-task completion; mirrors the workflow case on the
    /// activity slots.
    pub fn complete_activity_task(
        &mut self,
        payload: &Vec<u8>,
        accepted: bool,
    ) -> (r: Result<(), WorkerError>)
        requires
            old(self).wf(),
        ensures
            final(self).wf(),
            final(self)@ == complete_activity_next(old(self)@, payload@),
            r == complete_activity_result(old(self)@, payload@, accepted),
    {
        match self.state {
            WorkerState::Finalized => Err(WorkerError::IllegalState),
            _ => {
                if !payload_well_formed(payload) {
                    Err(WorkerError::InvalidPayload)
                } else {
                    self.tuner.activity_slots.release();
                    if accepted {
                        Ok(())
                    } else {
                        Err(WorkerError::Runtime)
                    }
                }
            },
        }
    }

    /// Records an activity heartbeat: decode-checks and forwards,
    /// fire-and-forget; the worker throttles actual emission internally
    /// between the configured bounds. Mutates nothing.
    pub fn record_activity_heartbeat(&self, payload: &Vec<u8>) -> (r: Result<(), WorkerError>)
        ensures
            r == heartbeat_result(self@, payload@),
    {
        match self.state {
            WorkerState::Finalized => Err(WorkerError::IllegalState),
            _ => {
                if !payload_well_formed(payload) {
                    Err(WorkerError::InvalidPayload)
                } else {
                    Ok(())
                }
            },
        }
    }

    /// Hints the worker to drop cached state for `run_id`; a no-op when the
    /// run is not cached, so the hint itself never moves the machine.
    pub fn request_workflow_eviction(&self, run_id: &str) -> (r: Result<(), WorkerError>)
        ensures
            r == (if self@.state is Finalized {
                Err::<(), WorkerError>(WorkerError::IllegalState)
            } else {
                Ok::<(), WorkerError>(())
            }),
    {
        let _ = run_id;
        match self.state {
            WorkerState::Finalized => Err(WorkerError::IllegalState),
            _ => Ok(()),
        }
    }

    /// Atomically swaps the remote-service handle used for subsequent polls
    /// and completions; in-flight operations are untouched.
    pub fn replace_client(&mut self, client: u64) -> (r: Result<(), WorkerError>)
        requires
            old(self).wf(),
        ensures
            final(self).wf(),
            old(self)@.state is Finalized ==> r == Err::<(), WorkerError>(
                WorkerError::IllegalState,
            ) && final(self)@ == old(self)@,
            !(old(self)@.state is Finalized) ==> r == Ok::<(), WorkerError>(())
                && final(self)@ == (WorkerModel { client: Some(client), ..old(self)@ }),
    {
        match self.state {
            WorkerState::Finalized => Err(WorkerError::IllegalState),
            _ => {
                self.client = Some(client);
                Ok(())
            },
        }
    }

    /// Flips an active worker to `ShuttingDown`: idempotent, synchronous,
    /// non-blocking. From here polls drain what is queued and then surface the
    /// shutdown signal; in-flight completions are still accepted.
    pub fn initiate_shutdown(&mut self) -> (r: Result<(), WorkerError>)
        requires
            old(self).wf(),
        ensures
            final(self).wf(),
            final(self)@ == initiate_shutdown_next(old(self)@),
            r == initiate_shutdown_result(old(self)@),
    {
        match self.state {
            WorkerState::Finalized => Err(WorkerError::IllegalState),
            WorkerState::ShuttingDown => Ok(()),
            WorkerState::Active => {
                self.state = WorkerState::ShuttingDown;
                Ok(())
            },
        }
    }

    /// Tears the worker down. Demands exclusive ownership: with more than one
    /// live reference it fails at once with the observed count and performs no
    /// state change, so the caller can release the other references and retry.
    /// On success the handle is terminal: queues, slots and the reference are
    /// released, and every further operation fails.
    pub fn finalize_shutdown(&mut self) -> (r: Result<(), WorkerError>)
        requires
            old(self).wf(),
        ensures
            final(self).wf(),
            final(self)@ == finalize_shutdown_next(old(self)@),
            r == finalize_shutdown_result(old(self)@),
    {
        match self.state {
            WorkerState::Finalized => Err(WorkerError::IllegalState),
            _ => {
                if self.ref_count != 1 {
                    Err(WorkerError::Ownership(self.ref_count))
                } else {
                    self.state = WorkerState::Finalized;
                    self.ref_count = 0;
                    self.wf_tasks = Vec::new();
                    self.act_tasks = Vec::new();
                    self.tuner.release_all();
                    proof {
                        assert(self.wf_tasks@ =~= Seq::<Vec<u8>>::empty());
                        assert(self.act_tasks@ =~= Seq::<Vec<u8>>::empty());
                    }
                    Ok(())
                }
            },
        }
    }

    /// Registers one more shared reference to this worker.
    pub fn share_handle(&mut self) -> (r: Result<(), WorkerError>)
        requires
            old(self).wf(),
            old(self)@.ref_count < usize::MAX,
        ensures
            final(self).wf(),
            old(self)@.state is Finalized ==> r == Err::<(), WorkerError>(
                WorkerError::IllegalState,
            ) && final(self)@ == old(self)@,
            !(old(self)@.state is Finalized) ==> r == Ok::<(), WorkerError>(())
                && final(self)@ == (WorkerModel {
                ref_count: old(self)@.ref_count + 1,
                ..old(self)@
            }),
    {
        match self.state {
            WorkerState::Finalized => Err(WorkerError::IllegalState),
            _ => {
                self.ref_count = self.ref_count + 1;
                Ok(())
            },
        }
    }

    /// Releases one shared reference; the last reference is not released here
    /// but consumed by `finalize_shutdown`.
    pub fn release_handle(&mut self)
        requires
            old(self).wf(),
            old(self)@.ref_count >= 2,
        ensures
            final(self).wf(),
            final(self)@ == (WorkerModel {
                ref_count: (old(self)@.ref_count - 1) as nat,
                ..old(self)@
            }),
    {
        self.ref_count = self.ref_count - 1;
    }

    /// The shared resource estimator moving each resource-based category
    /// toward its target concurrency; fixed categories never move, and every
    /// target is clamped to its category's band.
    pub fn tune_resource_slots(
        &mut self,
        workflow_target: usize,
        activity_target: usize,
        local_activity_target: usize,
    ) -> (r: Result<(), WorkerError>)
        requires
            old(self).wf(),
        ensures
            final(self).wf(),
            old(self)@.state is Finalized ==> r == Err::<(), WorkerError>(
                WorkerError::IllegalState,
            ) && final(self)@ == old(self)@,
            !(old(self)@.state is Finalized) ==> r == Ok::<(), WorkerError>(())
                && final(self)@ == (WorkerModel {
                tuner: old(self)@.tuner.retargeted(
                    workflow_target,
                    activity_target,
                    local_activity_target,
                ),
                ..old(self)@
            }),
    {
        match self.state {
            WorkerState::Finalized => Err(WorkerError::IllegalState),
            _ => {
                self.tuner.workflow_slots.set_target(workflow_target);
                self.tuner.activity_slots.set_target(activity_target);
                self.tuner.local_activity_slots.set_target(local_activity_target);
                Ok(())
            },
        }
    }

    /// The remote task source handing one workflow activation to an active
    /// worker; a worker already shutting down accepts no new work.
    pub fn deliver_workflow_activation(&mut self, task: Vec<u8>) -> (delivered: bool)
        requires
            old(self).wf(),
        ensures
            final(self).wf(),
            delivered == (old(self)@.state is Active),
            delivered ==> final(self)@ == (WorkerModel {
                wf_tasks: old(self)@.wf_tasks.push(task),
                ..old(self)@
            }),
            !delivered ==> final(self)@ == old(self)@,
    {
        match self.state {
            WorkerState::Active => {
                self.wf_tasks.push(task);
                true
            },
            _ => false,
        }
    }

    /// The remote task source handing one activity task to an active worker.
    pub fn deliver_activity_task(&mut self, task: Vec<u8>) -> (delivered: bool)
        requires
            old(self).wf(),
        ensures
            final(self).wf(),
            delivered == (old(self)@.state is Active),
            delivered ==> final(self)@ == (WorkerModel {
                act_tasks: old(self)@.act_tasks.push(task),
                ..old(self)@
            }),
            !delivered ==> final(self)@ == old(self)@,
    {
        match self.state {
            WorkerState::Active => {
                self.act_tasks.push(task);
                true
            },
            _ => false,
        }
    }
}

/// Builds a live worker from a validated configuration: active, exactly one
/// reference, no queued work, admission state seeded from the tuner.
pub fn new_worker(config: WorkerConfig, client: u64) -> (r: Result<WorkerRef, WorkerError>)
    ensures
        r is Ok <==> config.tuner.consistent(),
        r matches Err(e) ==> e == config.tuner.config_error(),
        r matches Ok(w) ==> {
            &&& w.wf()
            &&& w@.state is Active
            &&& w@.ref_count == 1
            &&& !w@.replay
            &&& w@.client == Some(client)
            &&& w@.wf_tasks.len() == 0
            &&& w@.act_tasks.len() == 0
            &&& w@.tuner == config.tuner.spec_tuner()
            &&& config_carried_over(w@.config, config)
        },
{
    let validated = match config.into_validated() {
        Ok(v) => v,
        Err(e) => {
            return Err(e);
        },
    };
    let tuner = validated.tuner;
    Ok(WorkerRef {
        state: WorkerState::Active,
        ref_count: 1,
        replay: false,
        client: Some(client),
        config: validated,
        tuner,
        wf_tasks: Vec::new(),
        act_tasks: Vec::new(),
    })
}

/// Builds a replay worker — no live task source, no client — together with
/// the producer handle of the history pipeline that feeds it.
pub fn new_replay_worker(config: WorkerConfig) -> (r: Result<(WorkerRef, HistoryPusher), WorkerError>)
    ensures
        r is Ok <==> config.tuner.consistent(),
        r matches Err(e) ==> e == config.tuner.config_error(),
        r matches Ok(pair) ==> {
            &&& pair.0.wf()
            &&& pair.0@.state is Active
            &&& pair.0@.ref_count == 1
            &&& pair.0@.replay
            &&& pair.0@.client is None
            &&& pair.0@.wf_tasks.len() == 0
            &&& pair.0@.act_tasks.len() == 0
            &&& pair.0@.tuner == config.tuner.spec_tuner()
            &&& config_carried_over(pair.0@.config, config)
            &&& !pair.1@.closed
            &&& pair.1@.consumer_alive
            &&& pair.1@.slot is None
        },
{
    let validated = match config.into_validated() {
        Ok(v) => v,
        Err(e) => {
            return Err(e);
        },
    };
    let tuner = validated.tuner;
    let worker = WorkerRef {
        state: WorkerState::Active,
        ref_count: 1,
        replay: true,
        client: None,
        config: validated,
        tuner,
        wf_tasks: Vec::new(),
        act_tasks: Vec::new(),
    };
    let pusher = HistoryPusher::new();
    Ok((worker, pusher))
}

/// Shutdown-signal distinctness: once shutdown is initiated and every queued
/// task is drained, each further poll of either category surfaces the
/// distinguished shutdown signal — never an error, never a suspension — and
/// moves nothing, so the signal persists for every subsequent poll.
pub proof fn lemma_shutdown_signal_distinct(w: WorkerModel)
    requires
        w.wf(),
        !(w.state is Finalized),
        w.wf_tasks.len() == 0,
        w.act_tasks.len() == 0,
    ensures
        poll_workflow_decision(initiate_shutdown_next(w)) is Shutdown,
        poll_activity_decision(initiate_shutdown_next(w)) is Shutdown,
        poll_workflow_next(initiate_shutdown_next(w)) == initiate_shutdown_next(w),
        poll_activity_next(initiate_shutdown_next(w)) == initiate_shutdown_next(w),
{
}

/// Idempotent shutdown initiation: a second (or any further) initiation moves
/// nothing and reports the same outcome as the first.
pub proof fn lemma_initiate_shutdown_idempotent(w: WorkerModel)
    ensures
        initiate_shutdown_next(initiate_shutdown_next(w)) == initiate_shutdown_next(w),
        initiate_shutdown_result(initiate_shutdown_next(w)) == initiate_shutdown_result(w),
{
}

/// Ownership exclusivity: finalization succeeds exactly when the live
/// reference count is 1; with more it fails with that observed count and the
/// worker is left as it was, callable again later.
pub proof fn lemma_finalize_exclusive(w: WorkerModel)
    requires
        w.wf(),
    ensures
        finalize_shutdown_result(w) is Ok <==> w.ref_count == 1,
        w.ref_count != 1 && !(w.state is Finalized) ==> finalize_shutdown_result(w)
            == Err::<(), WorkerError>(WorkerError::Ownership(w.ref_count as usize)),
        !(finalize_shutdown_result(w) is Ok) ==> finalize_shutdown_next(w) == w,
        finalize_shutdown_result(w) is Ok ==> finalize_shutdown_next(w).state is Finalized
            && finalize_shutdown_next(w).ref_count == 0,
{
}

/// Decode-failure isolation: a malformed payload is rejected by every
/// decode-taking worker operation with the distinguished payload error, and
/// the machine is left exactly as it was.
pub proof fn lemma_decode_failure_isolated(w: WorkerModel, payload: Seq<u8>, accepted: bool)
    requires
        !wire_valid(payload),
    ensures
        complete_workflow_next(w, payload) == w,
        complete_activity_next(w, payload) == w,
        !(w.state is Finalized) ==> complete_workflow_result(w, payload, accepted)
            == Err::<(), WorkerError>(WorkerError::InvalidPayload),
        !(w.state is Finalized) ==> complete_activity_result(w, payload, accepted)
            == Err::<(), WorkerError>(WorkerError::InvalidPayload),
        !(w.state is Finalized) ==> heartbeat_result(w, payload)
            == Err::<(), WorkerError>(WorkerError::InvalidPayload),
{
}

} // verus!
