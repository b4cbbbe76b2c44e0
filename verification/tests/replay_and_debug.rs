//! The replay feed pipeline and the debug session.

use worker_core::debug::new_debug_client;
use worker_core::errors::WorkerError;
use worker_core::replay::{PushError, PushOutcome};
use worker_core::tuner::{
    FixedSizeSlotSupplier, ResourceBasedSlotSupplier, ResourceBasedTunerConfig, SlotSupplier,
    TunerHolder,
};
use worker_core::worker::{new_replay_worker, WorkerConfig};

fn fixed(n: usize) -> SlotSupplier {
    SlotSupplier::FixedSize(FixedSizeSlotSupplier { num_slots: n })
}

fn config() -> WorkerConfig {
    WorkerConfig {
        namespace: "default".to_string(),
        task_queue: "replay-queue".to_string(),
        build_id: "build-1".to_string(),
        identity_override: Some("replayer".to_string()),
        max_cached_workflows: 10,
        tuner: TunerHolder {
            workflow_slot_supplier: fixed(2),
            activity_slot_supplier: fixed(1),
            local_activity_slot_supplier: fixed(1),
        },
        max_concurrent_workflow_task_polls: 1,
        nonsticky_to_sticky_poll_ratio: 0,
        max_concurrent_activity_task_polls: 1,
        no_remote_activities: true,
        sticky_queue_schedule_to_start_timeout_millis: 1000,
        max_heartbeat_throttle_interval_millis: 60_000,
        default_heartbeat_throttle_interval_millis: 30_000,
        max_activities_per_second: None,
        max_task_queue_activities_per_second: None,
        graceful_shutdown_period_millis: 0,
        use_worker_versioning: false,
        nondeterminism_as_workflow_fail: false,
        nondeterminism_as_workflow_fail_for_types: vec![],
    }
}

const HISTORY: [u8; 2] = [0x08, 0x01];
const MALFORMED: [u8; 1] = [0x80];

#[test]
fn replay_worker_comes_with_an_open_pipeline() {
    let (w, p) = new_replay_worker(config()).unwrap();
    assert!(w.replay);
    assert_eq!(w.client, None);
    assert!(!p.closed);
    assert!(p.consumer_alive);
    assert!(p.slot.is_none());
}

#[test]
fn single_slot_backpressure() {
    let (_w, mut p) = new_replay_worker(config()).unwrap();
    assert!(matches!(
        p.push_history("wf-1".to_string(), HISTORY.to_vec()),
        Ok(PushOutcome::Pushed)
    ));
    // the first history is unconsumed: the second push is blocked and the
    // history comes back to the caller for the retry
    let returned = match p.push_history("wf-2".to_string(), HISTORY.to_vec()) {
        Ok(PushOutcome::Blocked(h)) => h,
        other => panic!("expected a blocked push, got {:?}", other),
    };
    assert_eq!(returned.workflow_id, "wf-2");
    assert_eq!(returned.history, HISTORY.to_vec());
    // the consumer takes the first; nothing was dropped
    let taken = p.take_history().unwrap();
    assert_eq!(taken.workflow_id, "wf-1");
    assert_eq!(taken.history, HISTORY.to_vec());
    // now the retried push goes through
    assert!(matches!(
        p.push_history(returned.workflow_id, returned.history),
        Ok(PushOutcome::Pushed)
    ));
    assert_eq!(p.take_history().unwrap().workflow_id, "wf-2");
}

#[test]
fn push_after_close_fails_immediately() {
    let (_w, mut p) = new_replay_worker(config()).unwrap();
    p.close();
    assert!(matches!(
        p.push_history("wf-1".to_string(), HISTORY.to_vec()),
        Err(PushError::Closed)
    ));
    // close is idempotent
    p.close();
    assert!(matches!(
        p.push_history("wf-1".to_string(), HISTORY.to_vec()),
        Err(PushError::Closed)
    ));
}

#[test]
fn push_after_consumer_gone_is_distinguished() {
    let (_w, mut p) = new_replay_worker(config()).unwrap();
    p.drop_consumer();
    assert!(matches!(
        p.push_history("wf-1".to_string(), HISTORY.to_vec()),
        Err(PushError::ConsumerGone)
    ));
}

#[test]
fn malformed_history_is_isolated() {
    let (_w, mut p) = new_replay_worker(config()).unwrap();
    assert!(matches!(
        p.push_history("wf-1".to_string(), MALFORMED.to_vec()),
        Err(PushError::InvalidPayload)
    ));
    // the pipeline is untouched: a well-formed push still succeeds
    assert!(matches!(
        p.push_history("wf-1".to_string(), HISTORY.to_vec()),
        Ok(PushOutcome::Pushed)
    ));
}

#[test]
fn debug_client_validates_its_history() {
    let c = new_debug_client(HISTORY.to_vec()).unwrap();
    assert_eq!(c.history(), &HISTORY.to_vec());
    match new_debug_client(MALFORMED.to_vec()) {
        Err(e) => assert_eq!(e, WorkerError::InvalidPayload),
        Ok(_) => panic!("a malformed history must be rejected"),
    }
}

#[test]
fn debugger_acknowledgment_decides_the_outcome() {
    let c = new_debug_client(HISTORY.to_vec()).unwrap();
    assert_eq!(c.post_wft_started(12, true), Ok(true));
    assert_eq!(c.post_wft_started(12, false), Err(WorkerError::Runtime));
}

#[test]
fn take_from_empty_slot_is_none() {
    let (_w, mut p) = new_replay_worker(config()).unwrap();
    assert!(p.take_history().is_none());
}

#[test]
fn replay_worker_rejects_inconsistent_tuner() {
    let mut cfg = config();
    cfg.tuner.workflow_slot_supplier = SlotSupplier::ResourceBased(ResourceBasedSlotSupplier {
        minimum_slots: 1,
        maximum_slots: 2,
        ramp_throttle_ms: 0,
        tuner_config: ResourceBasedTunerConfig { target_memory_usage: 1, target_cpu_usage: 1 },
    });
    cfg.tuner.activity_slot_supplier = SlotSupplier::ResourceBased(ResourceBasedSlotSupplier {
        minimum_slots: 1,
        maximum_slots: 2,
        ramp_throttle_ms: 0,
        tuner_config: ResourceBasedTunerConfig { target_memory_usage: 2, target_cpu_usage: 1 },
    });
    match new_replay_worker(cfg) {
        Err(e) => assert!(matches!(e, WorkerError::Configuration { .. })),
        Ok(_) => panic!("an inconsistent tuner must be rejected"),
    }
}
