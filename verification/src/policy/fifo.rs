//! The first-come, first-served policy.

use vstd::prelude::*;

use super::{opt_nanos, PolicyContext, PolicyContextView, PolicyDecision, PrepareStep};
use crate::config::DEFAULT_PRIORITY;
use crate::names::NameMap;
use crate::time::Duration;

verus! {

/// First come, first served, with priorities: a request for a model that is not active switches to
/// it at once, unless a more important model is active or has requests waiting.
pub struct FifoPolicy {
    request_timeout: Option<Duration>,
    drain_before_switch: bool,
    min_active_duration: Duration,
    priorities: NameMap<Option<u8>>,
}

/// The priority of a model, given its explicit one.
pub open spec fn effective_priority(explicit: Option<u8>) -> u8 {
    match explicit {
        Some(p) => p,
        None => DEFAULT_PRIORITY,
    }
}

/// The priority of a model, given its explicit one.
pub(crate) fn priority_or_default(explicit: Option<u8>) -> (p: u8)
    ensures
        p == effective_priority(explicit),
{
    match explicit {
        Some(p) => p,
        None => DEFAULT_PRIORITY,
    }
}

impl PolicyContextView {
    /// Whether the active model is more important than the one asked for.
    pub open spec fn active_outranks(self) -> bool {
        &&& self.active_model is Some
        &&& effective_priority(self.target_priority) < effective_priority(self.active_priority)
    }

    /// Whether a more important model than the one asked for is active or has requests waiting.
    pub open spec fn outranked(self) -> bool {
        self.active_outranks() || self.higher_priority_pending
    }
}

impl FifoPolicy {
    /// Nanoseconds that a request waits for its model.
    pub closed spec fn timeout(self) -> Option<nat> {
        opt_nanos(self.request_timeout)
    }

    /// Whether in-flight requests are drained before a switch.
    pub closed spec fn drains(self) -> bool {
        self.drain_before_switch
    }

    /// Nanoseconds that a model stays active before it can be put to sleep.
    pub closed spec fn min_active(self) -> nat {
        self.min_active_duration@
    }

    /// The explicit priorities that the policy was made with.
    pub closed spec fn priorities(self) -> Map<Seq<char>, Option<u8>> {
        self.priorities@
    }

    /// Whether a switch away from a model that is serving so many requests may go on.
    pub open spec fn prepared(self, in_flight: nat) -> PrepareStep {
        if self.drains() && in_flight > 0 {
            PrepareStep::Wait
        } else {
            PrepareStep::Ready
        }
    }

    /// A policy with the given settings.
    pub fn new(
        request_timeout: Option<Duration>,
        drain_before_switch: bool,
        min_active_duration: Duration,
        priorities: NameMap<Option<u8>>,
    ) -> (policy: FifoPolicy)
        ensures
            policy.timeout() == opt_nanos(request_timeout),
            policy.drains() == drain_before_switch,
            policy.min_active() == min_active_duration@,
            policy.priorities() == priorities@,
    {
        FifoPolicy { request_timeout, drain_before_switch, min_active_duration, priorities }
    }

    /// The explicit priority of a model.
    pub fn priority_for(&self, model: &str) -> (priority: Option<u8>)
        ensures
            priority == if self.priorities().contains_key(model@) {
                self.priorities()[model@]
            } else {
                None
            },
    {
        match self.priorities.get(model) {
            Some(p) => *p,
            None => None,
        }
    }

    /// What to do about a request that waits for a model.
    pub fn on_pending_request<F>(&self, ctx: &PolicyContext) -> (decision: PolicyDecision<F>)
        ensures
            decision == if ctx@.outranked() {
                PolicyDecision::<F>::Skip
            } else {
                PolicyDecision::<F>::SwitchNow
            },
            !(decision is Defer),
            decision is Skip <==> ctx.higher_priority_pending || (ctx.active_model is Some
                && importance(ctx.target_priority) < importance(ctx.active_priority)),
    {
        let active_outranks = ctx.active_model.is_some() && priority_or_default(
            ctx.target_priority,
        ) < priority_or_default(ctx.active_priority);
        if active_outranks || ctx.higher_priority_pending {
            PolicyDecision::Skip
        } else {
            PolicyDecision::SwitchNow
        }
    }

    /// Whether a switch away from a model that is serving `in_flight` requests may go on.
    pub fn prepare_switch(&self, in_flight: usize) -> (step: PrepareStep)
        ensures
            step == self.prepared(in_flight as nat),
            step is Wait <==> self.drains() && in_flight > 0,
    {
        if self.drain_before_switch && in_flight > 0 {
            PrepareStep::Wait
        } else {
            PrepareStep::Ready
        }
    }

    /// How long a request waits for its model.
    pub fn request_timeout(&self) -> (d: Option<Duration>)
        ensures
            opt_nanos(d) == self.timeout(),
    {
        self.request_timeout
    }

    /// How long a model stays active before it can be put to sleep.
    pub fn min_active_duration(&self) -> (d: Duration)
        ensures
            d@ == self.min_active(),
    {
        self.min_active_duration
    }
}

impl Default for FifoPolicy {
    fn default() -> (policy: FifoPolicy)
        ensures
            policy.timeout() is None,
            policy.drains(),
            policy.min_active() == 0,
            policy.priorities() == Map::<Seq<char>, Option<u8>>::empty(),
    {
        FifoPolicy::new(None, true, Duration::zero(), NameMap::new())
    }
}

/// Of two models with different priorities, of which one is active and no more important one has
/// requests waiting, a request for the more important one switches away from the other, and a
/// request for the less important one never does; at equal priorities every request switches.
pub proof fn law_importance_decides(ctx: PolicyContextView, swapped: PolicyContextView)
    requires
        ctx.active_model is Some,
        swapped.active_model is Some,
        swapped.target_priority == ctx.active_priority,
        swapped.active_priority == ctx.target_priority,
        !ctx.higher_priority_pending,
        !swapped.higher_priority_pending,
    ensures
        effective_priority(ctx.target_priority) != effective_priority(ctx.active_priority) ==> (
        ctx.outranked() <==> !swapped.outranked()),
        effective_priority(ctx.target_priority) == effective_priority(ctx.active_priority)
            ==> !ctx.outranked() && !swapped.outranked(),
{
}

/// Whatever is active, a request does not switch to its model while one waits for a more important
/// model; where no model is active, that alone holds it back.
pub proof fn law_waiting_importance_comes_first(ctx: PolicyContextView)
    ensures
        ctx.higher_priority_pending ==> ctx.outranked(),
        ctx.active_model is None ==> (ctx.outranked() <==> ctx.higher_priority_pending),
{
}

/// How important a model is, as a number: its explicit priority, and 1 without one.
pub open spec fn importance(explicit: Option<u8>) -> int {
    if explicit is Some {
        explicit->0 as int
    } else {
        1
    }
}

/// Every explicit priority stands for itself, the least ones too, and a model without one is as
/// important as one with priority 1.
pub proof fn law_importance_is_the_explicit_priority(p: u8)
    ensures
        effective_priority(Some(p)) == p,
        effective_priority(None) == 1,
        effective_priority(None) == effective_priority(Some(1)),
{
}

/// While a model is active and no more important one has requests waiting, a request switches to a
/// model that is at least as important as the active one, and stays for one that is less so,
/// whichever of the two has an explicit priority.
pub proof fn law_importance_has_a_direction(ctx: PolicyContextView)
    requires
        ctx.active_model is Some,
        !ctx.higher_priority_pending,
    ensures
        importance(ctx.target_priority) >= importance(ctx.active_priority) ==> !ctx.outranked(),
        importance(ctx.target_priority) < importance(ctx.active_priority) ==> ctx.outranked(),
{
}

/// A policy that drains holds a switch back exactly as long as the old model is serving requests,
/// and one that does not drain never does.
pub proof fn law_draining_waits_for_idle(policy: FifoPolicy, in_flight: nat)
    ensures
        policy.drains() && in_flight > 0 ==> policy.prepared(in_flight) is Wait,
        policy.prepared(0) is Ready,
        !policy.drains() ==> policy.prepared(in_flight) is Ready,
{
}

} // verus!
