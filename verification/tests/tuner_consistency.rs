//! Validation and assembly of the admission-control unit.

use worker_core::errors::WorkerError;
use worker_core::tuner::{
    FixedSizeSlotSupplier, ResourceBasedSlotSupplier, ResourceBasedTunerConfig, SlotSupplier,
    TunerHolder,
};

fn fixed(n: usize) -> SlotSupplier {
    SlotSupplier::FixedSize(FixedSizeSlotSupplier { num_slots: n })
}

fn resource(min: usize, max: usize, mem: u64, cpu: u64) -> SlotSupplier {
    SlotSupplier::ResourceBased(ResourceBasedSlotSupplier {
        minimum_slots: min,
        maximum_slots: max,
        ramp_throttle_ms: 100,
        tuner_config: ResourceBasedTunerConfig {
            target_memory_usage: mem,
            target_cpu_usage: cpu,
        },
    })
}

#[test]
fn all_fixed_builds_without_resource_estimator() {
    let holder = TunerHolder {
        workflow_slot_supplier: fixed(5),
        activity_slot_supplier: fixed(2),
        local_activity_slot_supplier: fixed(3),
    };
    let tuner = holder.build_tuner().unwrap();
    assert!(tuner.resource_config.is_none());
    assert_eq!(tuner.workflow_slots.limit, 5);
    assert_eq!(tuner.activity_slots.limit, 2);
    assert_eq!(tuner.local_activity_slots.limit, 3);
    assert!(tuner.workflow_slots.fixed);
    assert_eq!(tuner.workflow_slots.in_flight, 0);
}

#[test]
fn two_matching_resource_suppliers_build() {
    let holder = TunerHolder {
        workflow_slot_supplier: resource(1, 10, 80, 90),
        activity_slot_supplier: resource(2, 20, 80, 90),
        local_activity_slot_supplier: fixed(4),
    };
    let tuner = holder.build_tuner().unwrap();
    assert_eq!(
        tuner.resource_config,
        Some(ResourceBasedTunerConfig { target_memory_usage: 80, target_cpu_usage: 90 })
    );
    // a resource-based category starts at its minimum
    assert_eq!(tuner.workflow_slots.limit, 1);
    assert_eq!(tuner.workflow_slots.min_slots, 1);
    assert_eq!(tuner.workflow_slots.max_slots, 10);
    assert!(!tuner.workflow_slots.fixed);
    assert_eq!(tuner.activity_slots.limit, 2);
}

#[test]
fn mismatched_resource_targets_rejected() {
    let holder = TunerHolder {
        workflow_slot_supplier: resource(1, 10, 80, 90),
        activity_slot_supplier: resource(2, 20, 80, 91),
        local_activity_slot_supplier: fixed(4),
    };
    // the error names the mismatch: the first supplier's targets and the
    // first later targets that differ
    assert_eq!(
        holder.build_tuner().unwrap_err(),
        WorkerError::Configuration {
            expected: ResourceBasedTunerConfig { target_memory_usage: 80, target_cpu_usage: 90 },
            found: ResourceBasedTunerConfig { target_memory_usage: 80, target_cpu_usage: 91 },
        }
    );
}

#[test]
fn three_matching_resource_suppliers_build() {
    let holder = TunerHolder {
        workflow_slot_supplier: resource(1, 10, 70, 75),
        activity_slot_supplier: resource(2, 20, 70, 75),
        local_activity_slot_supplier: resource(3, 30, 70, 75),
    };
    assert!(holder.build_tuner().is_ok());
}

#[test]
fn third_supplier_mismatch_rejected() {
    let holder = TunerHolder {
        workflow_slot_supplier: resource(1, 10, 70, 75),
        activity_slot_supplier: resource(2, 20, 70, 75),
        local_activity_slot_supplier: resource(3, 30, 71, 75),
    };
    assert_eq!(
        holder.build_tuner().unwrap_err(),
        WorkerError::Configuration {
            expected: ResourceBasedTunerConfig { target_memory_usage: 70, target_cpu_usage: 75 },
            found: ResourceBasedTunerConfig { target_memory_usage: 71, target_cpu_usage: 75 },
        }
    );
}

#[test]
fn single_resource_supplier_is_always_consistent() {
    let holder = TunerHolder {
        workflow_slot_supplier: fixed(1),
        activity_slot_supplier: resource(2, 20, 1, 2),
        local_activity_slot_supplier: fixed(4),
    };
    let tuner = holder.build_tuner().unwrap();
    assert_eq!(
        tuner.resource_config,
        Some(ResourceBasedTunerConfig { target_memory_usage: 1, target_cpu_usage: 2 })
    );
}

#[test]
fn crossed_bounds_are_carried_verbatim() {
    // a maximum under the minimum is the caller's configuration, not the
    // tuner's to rewrite: both bounds come through unchanged, and the
    // category starts at its minimum
    let holder = TunerHolder {
        workflow_slot_supplier: resource(5, 2, 80, 90),
        activity_slot_supplier: fixed(1),
        local_activity_slot_supplier: fixed(1),
    };
    let tuner = holder.build_tuner().unwrap();
    assert_eq!(tuner.workflow_slots.min_slots, 5);
    assert_eq!(tuner.workflow_slots.max_slots, 2);
    assert_eq!(tuner.workflow_slots.limit, 5);
}
