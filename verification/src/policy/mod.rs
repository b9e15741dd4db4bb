//! What a switch policy is told, and what it answers.

use vstd::prelude::*;

use crate::names::NameMap;
use crate::time::Duration;
use crate::types::opt_name;

mod fifo;

pub use fifo::{
    effective_priority, importance, law_draining_waits_for_idle, law_importance_decides,
    law_importance_has_a_direction, law_importance_is_the_explicit_priority,
    law_waiting_importance_comes_first, FifoPolicy,
};

pub(crate) use fifo::priority_or_default;

verus! {

/// The number of nanoseconds of an optional duration.
pub open spec fn opt_nanos(d: Option<Duration>) -> Option<nat> {
    match d {
        Some(d) => Some(d@),
        None => None,
    }
}

/// What a policy is told of a request that waits for a model.
pub struct PolicyContext {
    /// The model that the request is for.
    pub target_model: String,
    /// Its explicit priority.
    pub target_priority: Option<u8>,
    /// The active model.
    pub active_model: Option<String>,
    /// The explicit priority of the active model.
    pub active_priority: Option<u8>,
    /// How many requests wait for the target.
    pub target_queue_depth: usize,
    /// How long the first of them has waited.
    pub oldest_waiting: Duration,
    /// How many requests the active model is serving.
    pub active_in_flight: usize,
    /// The time since the last activation.
    pub active_duration: Duration,
    /// What the switch is expected to take.
    pub estimated_switch_cost: Option<Duration>,
    /// Whether a request waits for a model that is more important than the target.
    pub higher_priority_pending: bool,
}

/// The view of a [`PolicyContext`].
pub struct PolicyContextView {
    pub target_model: Seq<char>,
    pub target_priority: Option<u8>,
    pub active_model: Option<Seq<char>>,
    pub active_priority: Option<u8>,
    pub target_queue_depth: nat,
    pub oldest_waiting: nat,
    pub active_in_flight: nat,
    pub active_duration: nat,
    pub estimated_switch_cost: Option<nat>,
    pub higher_priority_pending: bool,
}

impl View for PolicyContext {
    type V = PolicyContextView;

    open spec fn view(&self) -> PolicyContextView {
        PolicyContextView {
            target_model: self.target_model@,
            target_priority: self.target_priority,
            active_model: opt_name(self.active_model),
            active_priority: self.active_priority,
            target_queue_depth: self.target_queue_depth as nat,
            oldest_waiting: self.oldest_waiting@,
            active_in_flight: self.active_in_flight as nat,
            active_duration: self.active_duration@,
            estimated_switch_cost: opt_nanos(self.estimated_switch_cost),
            higher_priority_pending: self.higher_priority_pending,
        }
    }
}

/// What a policy answers about a request that waits for a model.
pub enum PolicyDecision<F> {
    /// Switch to the model at once.
    SwitchNow,
    /// Switch to the model when something has come to pass.
    Defer(F),
    /// Do not switch.
    Skip,
}

/// Whether a policy lets a switch go on, or waits for a change of the in-flight count.
#[derive(Debug, Clone, Copy, PartialEq, Eq, Structural)]
pub enum PrepareStep {
    Wait,
    Ready,
}

/// What a policy is told at a tick of its scheduler.
pub struct ScheduleContext {
    /// The active model.
    pub active_model: Option<String>,
    /// The explicit priority of the active model.
    pub active_priority: Option<u8>,
    /// The time since the last activation.
    pub active_duration: Duration,
    /// How many requests wait for each model.
    pub queue_depths: NameMap<usize>,
    /// The priority of each model.
    pub model_priorities: NameMap<u8>,
    /// How many requests the active model is serving.
    pub active_in_flight: usize,
    /// What a switch from the active model to each other one is expected to take.
    pub switch_costs: NameMap<Duration>,
}

/// The view of an optional duration holds its nanoseconds, and there are none without a duration.
pub proof fn law_optional_duration_kept(d: Duration)
    ensures
        opt_nanos(Some(d)) == Some(d@),
        opt_nanos(None) is None,
{
}

/// Nothing of what a policy is told is lost in its view.
pub proof fn law_context_kept(ctx: PolicyContext)
    ensures
        ctx@.target_model == ctx.target_model@,
        ctx@.target_priority == ctx.target_priority,
        ctx@.active_model is Some <==> ctx.active_model is Some,
        ctx.active_model matches Some(model) ==> ctx@.active_model == Some(model@),
        ctx@.active_priority == ctx.active_priority,
        ctx@.target_queue_depth == ctx.target_queue_depth,
        ctx@.oldest_waiting == ctx.oldest_waiting@,
        ctx@.active_in_flight == ctx.active_in_flight,
        ctx@.active_duration == ctx.active_duration@,
        ctx@.estimated_switch_cost is Some <==> ctx.estimated_switch_cost is Some,
        ctx.estimated_switch_cost matches Some(d) ==> ctx@.estimated_switch_cost == Some(d@),
        ctx@.higher_priority_pending == ctx.higher_priority_pending,
{
}

} // verus!
