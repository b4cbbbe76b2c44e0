//! Admission control: slot-supplier configuration and the tuner built from it.
//!
//! A slot supplier is a policy for how many concurrent in-flight work items of
//! one category (workflow task, activity task, local activity) are permitted.
//! A `TunerHolder` combines the three suppliers and has a single validating
//! constructor: when more than one supplier is resource-based, all of them
//! must carry identical resource targets, because a single shared resource
//! estimator feeds every resource-based supplier.

use vstd::prelude::*;

use crate::errors::WorkerError;

verus! {

/// Resource targets shared by all resource-based suppliers.
///
/// The targets are fractions of host memory and CPU chosen by the caller as
/// floating-point values; the core never interprets them numerically, it only
/// compares them for exact (bit-for-bit) equality, so they are carried here as
/// the raw 64-bit patterns of those values.
#[derive(Clone, Copy, Debug, PartialEq, Eq, Structural)]
pub struct ResourceBasedTunerConfig {
    /// Raw bit pattern of the target fraction of host memory in use.
    pub target_memory_usage: u64,
    /// Raw bit pattern of the target fraction of host CPU in use.
    pub target_cpu_usage: u64,
}

/// A hard-capped supplier: exactly `num_slots` concurrent items, always available.
#[derive(Clone, Copy, Debug, PartialEq, Eq, Structural)]
pub struct FixedSizeSlotSupplier {
    /// The fixed number of concurrent slots.
    pub num_slots: usize,
}

/// An elastic supplier that grows and shrinks itself between `minimum_slots`
/// and `maximum_slots`, driven by the shared resource estimator, with growth
/// throttled to at most one new slot per `ramp_throttle_ms`.
#[derive(Clone, Copy, Debug, PartialEq, Eq, Structural)]
pub struct ResourceBasedSlotSupplier {
    /// The supplier never offers fewer concurrent slots than this.
    pub minimum_slots: usize,
    /// The supplier never offers more concurrent slots than this.
    pub maximum_slots: usize,
    /// Minimum delay between successive slot-count increases.
    pub ramp_throttle_ms: u64,
    /// Resource targets; must match those of every other resource-based supplier.
    pub tuner_config: ResourceBasedTunerConfig,
}

/// The slot-supplier policy for one category of work.
#[derive(Clone, Copy, Debug, PartialEq, Eq, Structural)]
pub enum SlotSupplier {
    /// Hard capacity cap.
    FixedSize(FixedSizeSlotSupplier),
    /// Elastic, resource-driven capacity.
    ResourceBased(ResourceBasedSlotSupplier),
}

impl SlotSupplier {
    /// The resource-target configuration, when this supplier is resource-based.
    pub open spec fn resource_config(self) -> Option<ResourceBasedTunerConfig> {
        match self {
            SlotSupplier::FixedSize(_) => None,
            SlotSupplier::ResourceBased(ss) => Some(ss.tuner_config),
        }
    }
}

/// The three slot suppliers of a worker, one per category, as handed in by the
/// caller and not yet validated.
#[derive(Clone, Copy, Debug, PartialEq, Eq, Structural)]
pub struct TunerHolder {
    /// Supplier for workflow-task slots.
    pub workflow_slot_supplier: SlotSupplier,
    /// Supplier for activity-task slots.
    pub activity_slot_supplier: SlotSupplier,
    /// Supplier for local-activity slots.
    pub local_activity_slot_supplier: SlotSupplier,
}

/// Two suppliers agree when, if both are resource-based, their targets are equal.
pub open spec fn resource_configs_agree(a: SlotSupplier, b: SlotSupplier) -> bool {
    a.resource_config() is Some && b.resource_config() is Some
        ==> a.resource_config() == b.resource_config()
}

/// The current slot policy of one category inside a built tuner.
///
/// `limit` is how many concurrent items are currently permitted; `in_flight`
/// is how many slots are handed out and not yet released. A shrink of `limit`
/// never revokes slots already handed out, so `in_flight` may transiently
/// exceed `limit`.
#[derive(Clone, Copy, Debug, PartialEq, Eq, Structural)]
pub struct SlotPolicy {
    /// True for a fixed-size supplier, whose limit never moves.
    pub fixed: bool,
    /// Lower bound of `limit`.
    pub min_slots: usize,
    /// Upper bound of `limit`.
    pub max_slots: usize,
    /// Minimum delay between successive limit increases (informational here;
    /// the estimator driving `set_target` enforces the pacing).
    pub ramp_throttle_ms: u64,
    /// Currently permitted concurrency.
    pub limit: usize,
    /// Slots handed out and not yet released.
    pub in_flight: usize,
}

impl SlotPolicy {
    /// Well-formedness: a fixed policy has collapsed bounds, and the limit
    /// stays within the `[min_slots, max_slots]` band — except under a
    /// configuration whose bounds cross (a maximum under the minimum, carried
    /// verbatim from the caller), where the limit sits on one of the two
    /// bounds.
    pub open spec fn wf(self) -> bool {
        &&& (self.fixed ==> self.min_slots == self.max_slots)
        &&& (self.min_slots <= self.max_slots ==> self.min_slots <= self.limit
            && self.limit <= self.max_slots)
        &&& (self.max_slots < self.min_slots ==> self.limit == self.min_slots
            || self.limit == self.max_slots)
    }

    /// The policy a supplier configuration denotes, before any elastic
    /// movement: the supplier's bounds and ramp throttle are carried over
    /// verbatim, and a resource-based category starts at its minimum.
    pub open spec fn spec_of(s: SlotSupplier) -> SlotPolicy {
        match s {
            SlotSupplier::FixedSize(fs) => SlotPolicy {
                fixed: true,
                min_slots: fs.num_slots,
                max_slots: fs.num_slots,
                ramp_throttle_ms: 0,
                limit: fs.num_slots,
                in_flight: 0,
            },
            SlotSupplier::ResourceBased(ss) => SlotPolicy {
                fixed: false,
                min_slots: ss.minimum_slots,
                max_slots: ss.maximum_slots,
                ramp_throttle_ms: ss.ramp_throttle_ms,
                limit: ss.minimum_slots,
                in_flight: 0,
            },
        }
    }

    /// Builds the initial policy for one supplier.
    pub fn from_supplier(s: &SlotSupplier) -> (p: SlotPolicy)
        ensures
            p == SlotPolicy::spec_of(*s),
            p.wf(),
    {
        match s {
            SlotSupplier::FixedSize(fs) => SlotPolicy {
                fixed: true,
                min_slots: fs.num_slots,
                max_slots: fs.num_slots,
                ramp_throttle_ms: 0,
                limit: fs.num_slots,
                in_flight: 0,
            },
            SlotSupplier::ResourceBased(ss) => SlotPolicy {
                fixed: false,
                min_slots: ss.minimum_slots,
                max_slots: ss.maximum_slots,
                ramp_throttle_ms: ss.ramp_throttle_ms,
                limit: ss.minimum_slots,
                in_flight: 0,
            },
        }
    }

    /// `target` moved into the `[min_slots, max_slots]` band; under crossed
    /// bounds the minimum wins for low targets and the maximum otherwise.
    pub open spec fn clamped(self, target: usize) -> usize {
        if target < self.min_slots {
            self.min_slots
        } else if target > self.max_slots {
            self.max_slots
        } else {
            target
        }
    }

    /// Tries to hand out one slot. Granted exactly when a slot is free; a
    /// refusal changes nothing, so an over-cap caller simply waits and retries.
    pub fn try_acquire(&mut self) -> (granted: bool)
        requires
            old(self).wf(),
        ensures
            final(self).wf(),
            granted == (old(self).in_flight < old(self).limit),
            granted ==> *final(self) == (SlotPolicy {
                in_flight: (old(self).in_flight + 1) as usize,
                ..*old(self)
            }),
            !granted ==> *final(self) == *old(self),
    {
        if self.in_flight < self.limit {
            self.in_flight = self.in_flight + 1;
            true
        } else {
            false
        }
    }

    /// Releases one handed-out slot; releasing with nothing in flight is a
    /// harmless no-op (release is exit-path-guaranteed, so it must be total).
    pub fn release(&mut self)
        requires
            old(self).wf(),
        ensures
            final(self).wf(),
            *final(self) == (SlotPolicy {
                in_flight: if old(self).in_flight > 0 {
                    (old(self).in_flight - 1) as usize
                } else {
                    0
                },
                ..*old(self)
            }),
    {
        if self.in_flight > 0 {
            self.in_flight = self.in_flight - 1;
        }
    }

    /// Moves the limit toward `target`, clamped to the policy's band. A fixed
    /// policy never moves.
    pub fn set_target(&mut self, target: usize)
        requires
            old(self).wf(),
        ensures
            final(self).wf(),
            old(self).fixed ==> *final(self) == *old(self),
            !old(self).fixed ==> *final(self) == (SlotPolicy {
                limit: old(self).clamped(target),
                ..*old(self)
            }),
    {
        if !self.fixed {
            if target < self.min_slots {
                self.limit = self.min_slots;
            } else if target > self.max_slots {
                self.limit = self.max_slots;
            } else {
                self.limit = target;
            }
        }
    }
}

/// The admission-control unit of a worker: one slot policy per category, plus
/// the resource-target configuration of the shared estimator when any supplier
/// is resource-based.
#[derive(Clone, Copy, Debug, PartialEq, Eq, Structural)]
pub struct Tuner {
    /// Targets of the single shared resource estimator; present exactly when
    /// at least one supplier is resource-based.
    pub resource_config: Option<ResourceBasedTunerConfig>,
    /// Policy for workflow-task slots.
    pub workflow_slots: SlotPolicy,
    /// Policy for activity-task slots.
    pub activity_slots: SlotPolicy,
    /// Policy for local-activity slots.
    pub local_activity_slots: SlotPolicy,
}

impl Tuner {
    /// Well-formedness of all three policies.
    pub open spec fn wf(self) -> bool {
        self.workflow_slots.wf() && self.activity_slots.wf() && self.local_activity_slots.wf()
    }

    /// The tuner with every handed-out slot released (worker teardown).
    pub open spec fn released(self) -> Tuner {
        Tuner {
            workflow_slots: SlotPolicy { in_flight: 0, ..self.workflow_slots },
            activity_slots: SlotPolicy { in_flight: 0, ..self.activity_slots },
            local_activity_slots: SlotPolicy { in_flight: 0, ..self.local_activity_slots },
            ..self
        }
    }

    /// The tuner with each category moved toward its target, clamped to its
    /// band; fixed categories never move.
    pub open spec fn retargeted(
        self,
        workflow_target: usize,
        activity_target: usize,
        local_activity_target: usize,
    ) -> Tuner {
        Tuner {
            workflow_slots: if self.workflow_slots.fixed {
                self.workflow_slots
            } else {
                SlotPolicy {
                    limit: self.workflow_slots.clamped(workflow_target),
                    ..self.workflow_slots
                }
            },
            activity_slots: if self.activity_slots.fixed {
                self.activity_slots
            } else {
                SlotPolicy {
                    limit: self.activity_slots.clamped(activity_target),
                    ..self.activity_slots
                }
            },
            local_activity_slots: if self.local_activity_slots.fixed {
                self.local_activity_slots
            } else {
                SlotPolicy {
                    limit: self.local_activity_slots.clamped(local_activity_target),
                    ..self.local_activity_slots
                }
            },
            ..self
        }
    }

    /// Releases every handed-out slot of every category.
    pub fn release_all(&mut self)
        requires
            old(self).wf(),
        ensures
            final(self).wf(),
            *final(self) == old(self).released(),
    {
        self.workflow_slots.in_flight = 0;
        self.activity_slots.in_flight = 0;
        self.local_activity_slots.in_flight = 0;
    }
}

impl TunerHolder {
    /// All resource-based suppliers carry identical resource targets.
    pub open spec fn consistent(self) -> bool {
        &&& resource_configs_agree(self.workflow_slot_supplier, self.activity_slot_supplier)
        &&& resource_configs_agree(self.workflow_slot_supplier, self.local_activity_slot_supplier)
        &&& resource_configs_agree(self.activity_slot_supplier, self.local_activity_slot_supplier)
    }

    /// The mismatch an inconsistent holder is refused for: the targets of the
    /// first resource-based supplier, in category order, and the first later
    /// targets that differ from them. Meaningful only when the holder is
    /// inconsistent.
    pub open spec fn first_mismatch(self) -> (ResourceBasedTunerConfig, ResourceBasedTunerConfig) {
        let wf = self.workflow_slot_supplier.resource_config();
        let act = self.activity_slot_supplier.resource_config();
        let la = self.local_activity_slot_supplier.resource_config();
        if wf is Some && act is Some && wf != act {
            (wf->Some_0, act->Some_0)
        } else if wf is Some && la is Some && wf != la {
            (wf->Some_0, la->Some_0)
        } else {
            (act->Some_0, la->Some_0)
        }
    }

    /// The configuration error an inconsistent holder is refused with.
    pub open spec fn config_error(self) -> WorkerError {
        WorkerError::Configuration {
            expected: self.first_mismatch().0,
            found: self.first_mismatch().1,
        }
    }

    /// The resource targets of the first resource-based supplier, in category
    /// order; the shared estimator is built from these.
    pub open spec fn first_resource_config(self) -> Option<ResourceBasedTunerConfig> {
        if self.workflow_slot_supplier.resource_config() is Some {
            self.workflow_slot_supplier.resource_config()
        } else if self.activity_slot_supplier.resource_config() is Some {
            self.activity_slot_supplier.resource_config()
        } else {
            self.local_activity_slot_supplier.resource_config()
        }
    }

    /// The tuner a consistent holder denotes.
    pub open spec fn spec_tuner(self) -> Tuner {
        Tuner {
            resource_config: self.first_resource_config(),
            workflow_slots: SlotPolicy::spec_of(self.workflow_slot_supplier),
            activity_slots: SlotPolicy::spec_of(self.activity_slot_supplier),
            local_activity_slots: SlotPolicy::spec_of(self.local_activity_slot_supplier),
        }
    }

    /// Validates the three suppliers and assembles the admission-control unit.
    ///
    /// Succeeds exactly when every resource-based supplier carries the same
    /// resource targets; otherwise fails with a configuration error naming the
    /// mismatch, and constructs nothing. Pure validation and assembly: no
    /// partial result exists after a failure.
    pub fn build_tuner(&self) -> (r: Result<Tuner, WorkerError>)
        ensures
            r is Ok <==> self.consistent(),
            r matches Ok(t) ==> t == self.spec_tuner() && t.wf(),
            r matches Err(e) ==> e == self.config_error(),
    {
        let maybe_wf_resource_opts = match &self.workflow_slot_supplier {
            SlotSupplier::ResourceBased(ss) => Some(ss.tuner_config),
            SlotSupplier::FixedSize(_) => None,
        };
        let maybe_act_resource_opts = match &self.activity_slot_supplier {
            SlotSupplier::ResourceBased(ss) => Some(ss.tuner_config),
            SlotSupplier::FixedSize(_) => None,
        };
        let maybe_local_act_resource_opts = match &self.local_activity_slot_supplier {
            SlotSupplier::ResourceBased(ss) => Some(ss.tuner_config),
            SlotSupplier::FixedSize(_) => None,
        };

        // The first resource-target configuration in category order, then a
        // check that every later one equals it.
        let first = if maybe_wf_resource_opts.is_some() {
            maybe_wf_resource_opts
        } else if maybe_act_resource_opts.is_some() {
            maybe_act_resource_opts
        } else {
            maybe_local_act_resource_opts
        };
        if let Some(f) = first {
            if let Some(c) = maybe_act_resource_opts {
                if c != f {
                    return Err(WorkerError::Configuration { expected: f, found: c });
                }
            }
            if let Some(c) = maybe_local_act_resource_opts {
                if c != f {
                    return Err(WorkerError::Configuration { expected: f, found: c });
                }
            }
        }

        Ok(Tuner {
            resource_config: first,
            workflow_slots: SlotPolicy::from_supplier(&self.workflow_slot_supplier),
            activity_slots: SlotPolicy::from_supplier(&self.activity_slot_supplier),
            local_activity_slots: SlotPolicy::from_supplier(&self.local_activity_slot_supplier),
        })
    }
}

} // verus!
