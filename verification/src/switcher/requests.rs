//! Requests: admission, waiting, in-flight counts, and what policies are told.

use vstd::prelude::*;

use super::laws::law_requests_keep_invariant;
use super::model::{since, EventView, PendingView};
use super::{queue_view, ModelSwitcher, PendingRequest, SwitchEvent};
use crate::cost::estimate_of;
use crate::names::{same_name, NameMap};
use crate::policy::{
    effective_priority, priority_or_default, PolicyContext, PolicyDecision, ScheduleContext,
};
use crate::time::Duration;
use crate::types::{opt_name, ErrorView, StateView, SwitchError, SwitcherState};

verus! {

/// What becomes of a request for a registered model.
#[derive(Debug, Clone, Copy, PartialEq, Eq, Structural)]
pub enum Admission {
    /// The model is active: the request can be served at once.
    Active,
    /// The request waits for the model, in a queue of the given length.
    Queued(usize),
}

/// What a request that waits has come to see.
pub enum WaitEvent<S> {
    /// It was answered.
    Answered(Result<S, SwitchError>),
    /// The means to answer it are gone.
    ChannelClosed,
    /// The policy's time limit is over.
    TimedOut,
}

/// What the wait of a request comes to.
pub fn wait_outcome<S>(event: WaitEvent<S>) -> (outcome: Result<Option<S>, SwitchError>)
    ensures
        match event {
            WaitEvent::Answered(Ok(signal)) => outcome == Ok::<Option<S>, SwitchError>(
                Some(signal),
            ),
            WaitEvent::Answered(Err(e)) => outcome == Err::<Option<S>, SwitchError>(e),
            WaitEvent::ChannelClosed => outcome matches Err(e) && e@ == ErrorView::Internal(
                "channel closed"@,
            ),
            WaitEvent::TimedOut => outcome matches Err(e) && e@ == ErrorView::Timeout,
        },
{
    match event {
        WaitEvent::Answered(Ok(signal)) => Ok(Some(signal)),
        WaitEvent::Answered(Err(e)) => Err(e),
        WaitEvent::ChannelClosed => Err(SwitchError::Internal("channel closed".to_owned())),
        WaitEvent::TimedOut => Err(SwitchError::Timeout),
    }
}

/// The right of one request to be served by a model.
#[derive(Debug)]
pub struct InFlightGuard {
    model: String,
}

impl View for InFlightGuard {
    type V = Seq<char>;

    closed spec fn view(&self) -> Seq<char> {
        self.model@
    }
}

/// What is left when a request has been served.
#[derive(Debug, Clone, Copy, PartialEq, Eq, Structural)]
pub struct Released {
    /// How many requests the model is still serving.
    pub in_flight: usize,
    /// Whether a switch that drains the model is to be woken.
    pub notify: bool,
}

/// What to do after the policy has decided about a request.
pub enum TriggerAction<F> {
    /// Start this switch.
    Switch(SwitchEvent),
    /// Start this switch when something has come to pass.
    SwitchAfter(F, SwitchEvent),
    /// Nothing.
    Stay,
}

impl<F> TriggerAction<F> {
    /// What follows from a decision about requests for a model.
    pub fn from_decision(decision: PolicyDecision<F>, target: &str) -> (action: TriggerAction<F>)
        ensures
            match decision {
                PolicyDecision::SwitchNow => action matches TriggerAction::Switch(e) && e@
                    == begin_unforced(target@),
                PolicyDecision::Defer(f) => action matches TriggerAction::SwitchAfter(g, e) && g
                    == f && e@ == begin_unforced(target@),
                PolicyDecision::Skip => action is Stay,
            },
    {
        match decision {
            PolicyDecision::SwitchNow => TriggerAction::Switch(
                SwitchEvent::Begin { target: target.to_owned(), forced: false },
            ),
            PolicyDecision::Defer(f) => TriggerAction::SwitchAfter(
                f,
                SwitchEvent::Begin { target: target.to_owned(), forced: false },
            ),
            PolicyDecision::Skip => TriggerAction::Stay,
        }
    }
}

/// What follows from a tick of the policy's scheduler: a switch to the model it picked.
pub fn scheduled_switch(pick: Option<String>) -> (start: Option<SwitchEvent>)
    ensures
        match pick {
            Some(target) => start matches Some(e) && e@ == begin_unforced(target@),
            None => start is None,
        },
{
    match pick {
        Some(target) => Some(SwitchEvent::Begin { target, forced: false }),
        None => None,
    }
}

/// The start of a switch that is dropped when no request waits for its target.
pub open spec fn begin_unforced(target: Seq<char>) -> EventView {
    EventView::Begin { target, forced: false }
}

impl<T> ModelSwitcher<T> {
    /// Admits a request for a model: it is served if the model is active, and otherwise joins the
    /// end of the model's queue.
    pub fn ensure_model_ready(&mut self, model: &str, now: Duration, ready_tx: T) -> (admission:
        Result<Admission, SwitchError>)
        requires
            old(self).wf(),
        ensures
            final(self)@ == old(self)@.requested(model@, now@, ready_tx),
            final(self).wf(),
            admission is Err <==> !old(self)@.models.contains_key(model@),
            old(self)@.models.contains_key(model@) ==> (admission == Ok::<Admission, SwitchError>(
                Admission::Active,
            ) <==> old(self)@.state == (StateView::Active { model: model@ })),
            admission matches Ok(Admission::Queued(depth)) ==> depth
                == old(self)@.models[model@].pending.len() + 1,
            match admission {
                Err(e) => !old(self)@.registered(model@) && e@ == ErrorView::ModelNotFound(model@),
                Ok(Admission::Active) => old(self)@.registered(model@) && old(self)@.is_active(
                    model@,
                ),
                Ok(Admission::Queued(depth)) => {
                    &&& old(self)@.registered(model@)
                    &&& !old(self)@.is_active(model@)
                    &&& depth == final(self)@.pending_of(model@).len()
                },
            },
    {
        proof {
            law_requests_keep_invariant(self@, model@, now@, ready_tx);
        }
        if !self.is_registered(model) {
            return Err(SwitchError::ModelNotFound(model.to_owned()));
        }
        if self.is_active(model) {
            return Ok(Admission::Active);
        }
        let mut state = self.take_model(model);
        let ghost before = state.pending@;
        state.pending.push(PendingRequest { model: model.to_owned(), queued_at: now, ready_tx });
        let depth = state.pending.len();
        assert(queue_view(state.pending@) =~= queue_view(before).push(
            PendingView { model: model@, queued_at: now@, ready_tx },
        ));
        self.set_model(model, state);
        assert(self@.models =~= old(self)@.requested(model@, now@, ready_tx).models);
        Ok(Admission::Queued(depth))
    }

    /// Asks a model to serve one more request. It does if it is registered and not draining.
    pub fn acquire_in_flight(&mut self, model: &str) -> (guard: Option<InFlightGuard>)
        requires
            old(self).wf(),
            old(self)@.grants(model@) ==> old(self)@.in_flight_of(model@) < usize::MAX,
        ensures
            final(self)@ == old(self)@.acquired(model@),
            final(self).wf(),
            guard is Some <==> old(self)@.grants(model@),
            guard is Some <==> old(self)@.models.contains_key(model@)
                && !old(self)@.models[model@].draining,
            guard matches Some(g) ==> g@ == model@,
    {
        proof {
            law_requests_keep_invariant(self@, model@, 0, arbitrary());
        }
        match self.model_states.get(model) {
            None => {
                return None;
            },
            Some(state) => {
                if state.draining {
                    return None;
                }
            },
        }
        let mut state = self.take_model(model);
        state.in_flight = state.in_flight + 1;
        self.set_model(model, state);
        assert(self@.models =~= old(self)@.acquired(model@).models);
        Some(InFlightGuard { model: model.to_owned() })
    }

    /// Takes back a guard when its request has been served.
    pub fn release_in_flight(&mut self, guard: InFlightGuard) -> (left: Released)
        requires
            old(self).wf(),
            old(self)@.in_flight_of(guard@) > 0,
        ensures
            final(self)@ == old(self)@.released(guard@),
            final(self).wf(),
            left.in_flight == final(self)@.in_flight_of(guard@),
            left.in_flight + 1 == old(self)@.models[guard@].in_flight,
            left.notify <==> left.in_flight == 0,
            left.notify <==> final(self)@.in_flight_of(guard@) == 0,
    {
        proof {
            law_requests_keep_invariant(self@, guard@, 0, arbitrary());
        }
        let model = guard.model.as_str();
        let mut state = self.take_model(model);
        state.in_flight = state.in_flight - 1;
        let in_flight = state.in_flight;
        self.set_model(model, state);
        assert(self@.models =~= old(self)@.released(guard@).models);
        Released { in_flight, notify: in_flight == 0 }
    }

    /// What a forced switch to a model starts with: nothing, if the model is active already.
    pub fn force_switch(&self, model: &str) -> (start: Result<Option<SwitchEvent>, SwitchError>)
        ensures
            match start {
                Err(e) => !self@.registered(model@) && e@ == ErrorView::ModelNotFound(model@),
                Ok(None) => self@.registered(model@) && self@.is_active(model@),
                Ok(Some(event)) => {
                    &&& self@.registered(model@)
                    &&& !self@.is_active(model@)
                    &&& event@ == (EventView::Begin { target: model@, forced: true })
                },
            },
    {
        if !self.is_registered(model) {
            return Err(SwitchError::ModelNotFound(model.to_owned()));
        }
        if self.is_active(model) {
            return Ok(None);
        }
        Ok(Some(SwitchEvent::Begin { target: model.to_owned(), forced: true }))
    }

    /// What a forced switch to a model has come to, once it is over.
    pub fn force_switch_outcome(&self, model: &str) -> (outcome: Result<(), SwitchError>)
        ensures
            match outcome {
                Ok(_) => self@.is_active(model@),
                Err(e) => !self@.is_active(model@) && e@ == ErrorView::NotReady(model@),
            },
    {
        if self.is_active(model) {
            Ok(())
        } else {
            Err(SwitchError::NotReady(model.to_owned()))
        }
    }

    /// How long ago a model was last activated, and nothing if none ever was.
    fn active_duration(&self, now: Duration) -> (d: Duration)
        ensures
            d@ == since(self@.activated_at, now@),
    {
        match &self.activated_at {
            Some(t) => now.saturating_sub(t),
            None => Duration::zero(),
        }
    }

    /// The active model, its explicit priority and its in-flight count.
    fn active_summary(&self) -> (summary: (Option<String>, Option<u8>, usize))
        ensures
            opt_name(summary.0) == self@.state.active(),
            summary.1 == self@.active_priority(),
            summary.2 == self@.active_in_flight(),
    {
        match self.active_model() {
            Some(model) => {
                let priority = self.model_priority(model.as_str());
                let in_flight = self.in_flight_count(model.as_str());
                (Some(model), priority, in_flight)
            },
            None => (None, None, 0),
        }
    }

    /// Whether a request waits for a model that is more important than the given one.
    fn more_important_waiting(&self, target: &str) -> (waiting: bool)
        ensures
            waiting == self@.more_important_waiting(target@),
    {
        let rank = priority_or_default(self.model_priority(target));
        let n = self.model_states.len();
        let ghost names = self.model_states.names();
        let mut i: usize = 0;
        while i < n
            invariant
                i <= n,
                names == self.model_states.names(),
                n == names.len(),
                self.model_states.keyed(),
                rank == effective_priority(self@.priority_of(target@)),
                forall|j: int|
                    0 <= j < i ==> self@.pending_of(#[trigger] names[j]).len() == 0
                        || effective_priority(self@.priority_of(names[j])) <= rank,
            decreases n - i,
        {
            let name = self.model_states.name_at(i);
            let waiting = self.model_states.value_at(i).pending.len() > 0;
            if waiting && rank < priority_or_default(self.model_priority(name.as_str())) {
                assert(self@.registered(name@));
                return true;
            }
            i = i + 1;
        }
        assert forall|m: Seq<char>| #[trigger]
            self@.registered(m) && self@.pending_of(m).len() > 0 implies effective_priority(
            self@.priority_of(m),
        ) <= rank by {
            assert(self.model_states@.contains_key(m));
            let j = choose|j: int| 0 <= j < names.len() && names[j] == m;
            assert(self@.pending_of(names[j]).len() > 0);
        }
        false
    }

    /// What the policy is to be asked about the requests that wait for a model: nothing if the
    /// model is not registered, or if a switch to it is under way.
    pub fn maybe_trigger_switch(&self, target_model: &str, now: Duration) -> (ctx: Option<
        PolicyContext,
    >)
        ensures
            ctx is Some <==> self@.registered(target_model@) && !self@.switching_to(target_model@),
            ctx is None <==> !self@.models.contains_key(target_model@) || (self@.state is Switching
                && self@.state->to == target_model@),
            ctx matches Some(c) ==> c@ == self@.policy_context(target_model@, now@),
    {
        let state = match self.model_states.get(target_model) {
            Some(s) => s,
            None => {
                return None;
            },
        };
        if let SwitcherState::Switching { to, .. } = &self.state {
            if same_name(to.as_str(), target_model) {
                return None;
            }
        }
        let oldest_waiting = if state.pending.len() > 0 {
            now.saturating_sub(&state.pending[0].queued_at)
        } else {
            Duration::zero()
        };
        let target_queue_depth = state.pending.len();
        let (active_model, active_priority, active_in_flight) = self.active_summary();
        let from = match &active_model {
            Some(m) => Some(m.as_str()),
            None => None,
        };
        let estimated_switch_cost = self.cost_tracker.estimate(from, target_model);
        Some(
            PolicyContext {
                target_model: target_model.to_owned(),
                target_priority: self.model_priority(target_model),
                active_model,
                active_priority,
                target_queue_depth,
                oldest_waiting,
                active_in_flight,
                active_duration: self.active_duration(now),
                estimated_switch_cost,
                higher_priority_pending: self.more_important_waiting(target_model),
            },
        )
    }

    /// How many requests wait for each registered model.
    pub fn queue_depths(&self) -> (depths: NameMap<usize>)
        ensures
            forall|m: Seq<char>| #[trigger]
                depths@.contains_key(m) <==> self@.registered(m),
            forall|m: Seq<char>| #[trigger]
                depths@.contains_key(m) ==> depths@[m] == self@.pending_of(m).len(),
    {
        let n = self.model_states.len();
        let ghost names = self.model_states.names();
        let mut depths: NameMap<usize> = NameMap::new();
        let mut i: usize = 0;
        while i < n
            invariant
                i <= n,
                names == self.model_states.names(),
                n == names.len(),
                self.model_states.keyed(),
                forall|m: Seq<char>| #[trigger]
                    depths@.contains_key(m) ==> self@.registered(m) && depths@[m]
                        == self@.pending_of(m).len(),
                forall|j: int| 0 <= j < i ==> depths@.contains_key(#[trigger] names[j]),
            decreases n - i,
        {
            let depth = self.model_states.value_at(i).pending.len();
            depths.insert(self.model_states.name_at(i).clone(), depth);
            i = i + 1;
        }
        assert forall|m: Seq<char>| self@.registered(m) implies #[trigger] depths@.contains_key(
            m,
        ) by {
            assert(self.model_states@.contains_key(m));
            let j = choose|j: int| 0 <= j < names.len() && names[j] == m;
            assert(depths@.contains_key(names[j]));
        }
        depths
    }

    /// The priority of each model.
    fn effective_priorities(&self) -> (table: NameMap<u8>)
        ensures
            forall|m: Seq<char>| #[trigger]
                table@.contains_key(m) <==> self@.priorities.contains_key(m),
            forall|m: Seq<char>| #[trigger]
                table@.contains_key(m) ==> table@[m] == effective_priority(self@.priority_of(m)),
    {
        let n = self.priorities.len();
        let ghost names = self.priorities.names();
        let mut table: NameMap<u8> = NameMap::new();
        let mut i: usize = 0;
        while i < n
            invariant
                i <= n,
                names == self.priorities.names(),
                n == names.len(),
                self.priorities.keyed(),
                forall|m: Seq<char>| #[trigger]
                    table@.contains_key(m) ==> self.priorities@.contains_key(m) && table@[m]
                        == effective_priority(self@.priority_of(m)),
                forall|j: int| 0 <= j < i ==> table@.contains_key(#[trigger] names[j]),
            decreases n - i,
        {
            let p = priority_or_default(*self.priorities.value_at(i));
            table.insert(self.priorities.name_at(i).clone(), p);
            i = i + 1;
        }
        assert forall|m: Seq<char>|
            self@.priorities.contains_key(m) implies #[trigger] table@.contains_key(m) by {
            let j = choose|j: int| 0 <= j < names.len() && names[j] == m;
            assert(self.priorities@.contains_key(m));
            assert(table@.contains_key(names[j]));
        }
        table
    }

    /// What the policy is told at a tick of its scheduler.
    pub fn build_schedule_context(&self, now: Duration) -> (ctx: ScheduleContext)
        ensures
            opt_name(ctx.active_model) == self@.state.active(),
            ctx.active_priority == self@.active_priority(),
            ctx.active_duration@ == since(self@.activated_at, now@),
            forall|m: Seq<char>| #[trigger]
                ctx.queue_depths@.contains_key(m) <==> self@.registered(m),
            forall|m: Seq<char>| #[trigger]
                ctx.queue_depths@.contains_key(m) ==> ctx.queue_depths@[m] == self@.pending_of(
                    m,
                ).len(),
            forall|m: Seq<char>| #[trigger]
                ctx.model_priorities@.contains_key(m) <==> self@.priorities.contains_key(m),
            forall|m: Seq<char>| #[trigger]
                ctx.model_priorities@.contains_key(m) ==> ctx.model_priorities@[m]
                    == effective_priority(self@.priority_of(m)),
            ctx.active_in_flight == self@.active_in_flight(),
            forall|m: Seq<char>| #[trigger]
                ctx.switch_costs@.contains_key(m) <==> estimate_of(
                    self@.costs,
                    self@.state.active(),
                    m,
                ) is Some,
            forall|m: Seq<char>| #[trigger]
                ctx.switch_costs@.contains_key(m) ==> estimate_of(
                    self@.costs,
                    self@.state.active(),
                    m,
                ) == Some(ctx.switch_costs@[m]@),
    {
        let (active_model, active_priority, active_in_flight) = self.active_summary();
        let switch_costs = self.cost_tracker.estimates_from(&active_model);
        ScheduleContext {
            active_model,
            active_priority,
            active_duration: self.active_duration(now),
            queue_depths: self.queue_depths(),
            model_priorities: self.effective_priorities(),
            active_in_flight,
            switch_costs,
        }
    }
}

} // verus!
