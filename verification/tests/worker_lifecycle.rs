//! The worker lifecycle state machine: polling, completion, shutdown.

use worker_core::errors::WorkerError;
use worker_core::tuner::{
    FixedSizeSlotSupplier, ResourceBasedSlotSupplier, ResourceBasedTunerConfig, SlotSupplier,
    TunerHolder,
};
use worker_core::worker::{new_worker, PollOutcome, WorkerConfig, WorkerState, WorkflowErrorType};

fn fixed(n: usize) -> SlotSupplier {
    SlotSupplier::FixedSize(FixedSizeSlotSupplier { num_slots: n })
}

fn resource(min: usize, max: usize) -> SlotSupplier {
    SlotSupplier::ResourceBased(ResourceBasedSlotSupplier {
        minimum_slots: min,
        maximum_slots: max,
        ramp_throttle_ms: 100,
        tuner_config: ResourceBasedTunerConfig {
            target_memory_usage: 80,
            target_cpu_usage: 90,
        },
    })
}

fn config(wf_slots: SlotSupplier) -> WorkerConfig {
    WorkerConfig {
        namespace: "default".to_string(),
        task_queue: "queue".to_string(),
        build_id: "build-1".to_string(),
        identity_override: None,
        max_cached_workflows: 100,
        tuner: TunerHolder {
            workflow_slot_supplier: wf_slots,
            activity_slot_supplier: fixed(2),
            local_activity_slot_supplier: fixed(2),
        },
        max_concurrent_workflow_task_polls: 5,
        nonsticky_to_sticky_poll_ratio: 0x3E4CCCCD, // bits of an f32 ratio
        max_concurrent_activity_task_polls: 5,
        no_remote_activities: false,
        sticky_queue_schedule_to_start_timeout_millis: 10_000,
        max_heartbeat_throttle_interval_millis: 60_000,
        default_heartbeat_throttle_interval_millis: 30_000,
        max_activities_per_second: None,
        max_task_queue_activities_per_second: Some(0x4059000000000000), // bits of an f64 cap
        graceful_shutdown_period_millis: 0,
        use_worker_versioning: false,
        nondeterminism_as_workflow_fail: true,
        nondeterminism_as_workflow_fail_for_types: vec!["typed-wf".to_string()],
    }
}

const VALID: [u8; 2] = [0x08, 0x01];
const MALFORMED: [u8; 1] = [0x80];

#[test]
fn new_worker_validates_configuration() {
    let w = new_worker(config(fixed(1)), 7).unwrap();
    assert_eq!(w.state, WorkerState::Active);
    assert_eq!(w.ref_count, 1);
    assert_eq!(w.client, Some(7));
    assert!(!w.replay);
}

#[test]
fn new_worker_rejects_inconsistent_tuner() {
    let mut cfg = config(resource(1, 4));
    cfg.tuner.activity_slot_supplier = SlotSupplier::ResourceBased(ResourceBasedSlotSupplier {
        minimum_slots: 1,
        maximum_slots: 4,
        ramp_throttle_ms: 100,
        tuner_config: ResourceBasedTunerConfig {
            target_memory_usage: 10,
            target_cpu_usage: 20,
        },
    });
    match new_worker(cfg, 7) {
        Err(e) => assert!(matches!(e, WorkerError::Configuration { .. })),
        Ok(_) => panic!("an inconsistent tuner must be rejected"),
    }
}

#[test]
fn validated_config_carries_fields_over() {
    let w = new_worker(config(fixed(1)), 7).unwrap();
    assert_eq!(w.config.namespace, "default");
    assert_eq!(w.config.task_queue, "queue");
    assert_eq!(w.config.worker_build_id, "build-1");
    assert_eq!(w.config.max_cached_workflows, 100);
    assert_eq!(w.config.max_concurrent_wft_polls, 5);
    assert_eq!(w.config.nonsticky_to_sticky_poll_ratio, 0x3E4CCCCD);
    assert_eq!(w.config.sticky_queue_schedule_to_start_timeout_millis, 10_000);
    assert_eq!(w.config.max_worker_activities_per_second, None);
    assert_eq!(
        w.config.max_task_queue_activities_per_second,
        Some(0x4059000000000000)
    );
    assert_eq!(w.config.graceful_shutdown_period_millis, 0);
    assert_eq!(
        w.config.workflow_failure_errors,
        vec![WorkflowErrorType::Nondeterminism]
    );
    assert_eq!(
        w.config.workflow_types_to_failure_errors,
        vec!["typed-wf".to_string()]
    );
}

#[test]
fn validated_config_empty_failure_errors_when_flag_off() {
    let mut cfg = config(fixed(1));
    cfg.nondeterminism_as_workflow_fail = false;
    let w = new_worker(cfg, 7).unwrap();
    assert!(w.config.workflow_failure_errors.is_empty());
}

#[test]
fn poll_is_pending_while_active_and_idle() {
    let mut w = new_worker(config(fixed(1)), 7).unwrap();
    assert!(matches!(
        w.poll_workflow_activation().unwrap(),
        PollOutcome::Pending
    ));
    assert!(matches!(w.poll_activity_task().unwrap(), PollOutcome::Pending));
}

#[test]
fn delivered_task_is_polled_in_order() {
    let mut w = new_worker(config(fixed(2)), 7).unwrap();
    assert!(w.deliver_workflow_activation(vec![0x08, 0x01]));
    assert!(w.deliver_workflow_activation(vec![0x08, 0x02]));
    match w.poll_workflow_activation().unwrap() {
        PollOutcome::Task(t) => assert_eq!(t, vec![0x08, 0x01]),
        other => panic!("expected a task, got {:?}", other),
    }
    match w.poll_workflow_activation().unwrap() {
        PollOutcome::Task(t) => assert_eq!(t, vec![0x08, 0x02]),
        other => panic!("expected a task, got {:?}", other),
    }
}

#[test]
fn admission_cap_applies_backpressure_until_completion() {
    let mut w = new_worker(config(fixed(1)), 7).unwrap();
    assert!(w.deliver_workflow_activation(VALID.to_vec()));
    assert!(w.deliver_workflow_activation(VALID.to_vec()));
    assert!(matches!(
        w.poll_workflow_activation().unwrap(),
        PollOutcome::Task(_)
    ));
    // the single workflow slot is held: the second poll suspends
    assert!(matches!(
        w.poll_workflow_activation().unwrap(),
        PollOutcome::Pending
    ));
    // completing releases the slot, even with a rejecting verdict
    assert_eq!(
        w.complete_workflow_activation(&VALID.to_vec(), false),
        Err(WorkerError::Runtime)
    );
    assert!(matches!(
        w.poll_workflow_activation().unwrap(),
        PollOutcome::Task(_)
    ));
}

#[test]
fn shutdown_drains_then_signals() {
    let mut w = new_worker(config(fixed(2)), 7).unwrap();
    assert!(w.deliver_workflow_activation(VALID.to_vec()));
    w.initiate_shutdown().unwrap();
    // no new work is accepted once shutting down
    assert!(!w.deliver_workflow_activation(VALID.to_vec()));
    // the task queued before shutdown still drains
    assert!(matches!(
        w.poll_workflow_activation().unwrap(),
        PollOutcome::Task(_)
    ));
    // drained: every further poll surfaces the shutdown signal, never an error
    for _ in 0..3 {
        assert!(matches!(
            w.poll_workflow_activation().unwrap(),
            PollOutcome::ShutdownSignal
        ));
        assert!(matches!(
            w.poll_activity_task().unwrap(),
            PollOutcome::ShutdownSignal
        ));
    }
}

#[test]
fn initiate_shutdown_is_idempotent() {
    let mut w = new_worker(config(fixed(1)), 7).unwrap();
    w.initiate_shutdown().unwrap();
    let state_once = w.state;
    w.initiate_shutdown().unwrap();
    w.initiate_shutdown().unwrap();
    assert_eq!(w.state, state_once);
    assert!(matches!(
        w.poll_workflow_activation().unwrap(),
        PollOutcome::ShutdownSignal
    ));
}

#[test]
fn finalize_requires_exclusive_ownership() {
    let mut w = new_worker(config(fixed(1)), 7).unwrap();
    w.share_handle().unwrap();
    w.initiate_shutdown().unwrap();
    // two live references: the exact count is reported, nothing changes
    assert_eq!(w.finalize_shutdown(), Err(WorkerError::Ownership(2)));
    assert_eq!(w.state, WorkerState::ShuttingDown);
    // releasing the extra reference makes finalize succeed
    w.release_handle();
    assert_eq!(w.finalize_shutdown(), Ok(()));
    assert_eq!(w.state, WorkerState::Finalized);
    assert_eq!(w.ref_count, 0);
}

#[test]
fn finalized_worker_refuses_every_operation() {
    let mut w = new_worker(config(fixed(1)), 7).unwrap();
    w.initiate_shutdown().unwrap();
    w.finalize_shutdown().unwrap();
    assert_eq!(w.validate(true), Err(WorkerError::IllegalState));
    assert_eq!(
        w.poll_workflow_activation().unwrap_err(),
        WorkerError::IllegalState
    );
    assert_eq!(w.poll_activity_task().unwrap_err(), WorkerError::IllegalState);
    assert_eq!(
        w.complete_workflow_activation(&VALID.to_vec(), true),
        Err(WorkerError::IllegalState)
    );
    assert_eq!(
        w.record_activity_heartbeat(&VALID.to_vec()),
        Err(WorkerError::IllegalState)
    );
    assert_eq!(
        w.request_workflow_eviction("run-1"),
        Err(WorkerError::IllegalState)
    );
    assert_eq!(w.replace_client(9), Err(WorkerError::IllegalState));
    assert_eq!(w.initiate_shutdown(), Err(WorkerError::IllegalState));
    assert_eq!(w.finalize_shutdown(), Err(WorkerError::IllegalState));
}

#[test]
fn malformed_completion_is_isolated() {
    let mut w = new_worker(config(fixed(1)), 7).unwrap();
    assert!(w.deliver_workflow_activation(VALID.to_vec()));
    assert!(matches!(
        w.poll_workflow_activation().unwrap(),
        PollOutcome::Task(_)
    ));
    let held = w.tuner.workflow_slots.in_flight;
    assert_eq!(
        w.complete_workflow_activation(&MALFORMED.to_vec(), true),
        Err(WorkerError::InvalidPayload)
    );
    // the slot is still held and the worker still active: nothing moved
    assert_eq!(w.tuner.workflow_slots.in_flight, held);
    assert_eq!(w.state, WorkerState::Active);
    assert_eq!(
        w.complete_activity_task(&MALFORMED.to_vec(), true),
        Err(WorkerError::InvalidPayload)
    );
    assert_eq!(
        w.record_activity_heartbeat(&MALFORMED.to_vec()),
        Err(WorkerError::InvalidPayload)
    );
    // a well-formed completion afterwards still works
    assert_eq!(w.complete_workflow_activation(&VALID.to_vec(), true), Ok(()));
}

#[test]
fn heartbeat_and_eviction_on_live_worker() {
    let w = new_worker(config(fixed(1)), 7).unwrap();
    assert_eq!(w.record_activity_heartbeat(&VALID.to_vec()), Ok(()));
    assert_eq!(w.request_workflow_eviction("run-1"), Ok(()));
}

#[test]
fn validate_reports_reachability() {
    let w = new_worker(config(fixed(1)), 7).unwrap();
    assert_eq!(w.validate(true), Ok(()));
    assert_eq!(w.validate(false), Err(WorkerError::Validation));
}

#[test]
fn replace_client_swaps_the_handle() {
    let mut w = new_worker(config(fixed(1)), 7).unwrap();
    assert_eq!(w.client, Some(7));
    assert_eq!(w.replace_client(9), Ok(()));
    assert_eq!(w.client, Some(9));
}

#[test]
fn resource_slots_move_within_their_band() {
    let mut w = new_worker(config(resource(1, 4)), 7).unwrap();
    assert_eq!(w.tuner.workflow_slots.limit, 1);
    w.tune_resource_slots(10, 0, 0).unwrap();
    assert_eq!(w.tuner.workflow_slots.limit, 4); // clamped to the maximum
    w.tune_resource_slots(0, 0, 0).unwrap();
    assert_eq!(w.tuner.workflow_slots.limit, 1); // clamped to the minimum
    w.tune_resource_slots(3, 0, 0).unwrap();
    assert_eq!(w.tuner.workflow_slots.limit, 3);
    // fixed categories never move
    assert_eq!(w.tuner.activity_slots.limit, 2);
}

#[test]
fn share_handle_counts_references() {
    let mut w = new_worker(config(fixed(1)), 7).unwrap();
    w.share_handle().unwrap();
    w.share_handle().unwrap();
    assert_eq!(w.ref_count, 3);
    assert_eq!(w.finalize_shutdown(), Err(WorkerError::Ownership(3)));
    w.release_handle();
    w.release_handle();
    assert_eq!(w.ref_count, 1);
    assert_eq!(w.finalize_shutdown(), Ok(()));
    assert_eq!(w.share_handle(), Err(WorkerError::IllegalState));
}
