//! The mathematical model of the switcher: its views, its invariant and its steps.

use vstd::prelude::*;

use crate::config::ModelConfig;
use crate::cost::{estimate_of, observed, SwitchPair};
use crate::policy::{effective_priority, PolicyContextView};
use crate::time::monus;
use crate::types::{ErrorView, StateView};

verus! {

/// Nanoseconds that a switch is held back after a failed one.
pub const BACKOFF_NANOS: u128 = 2_000_000_000;

/// Where a switch stands. The switch lock is held in every phase.
#[derive(Debug, Clone, Copy, PartialEq, Eq, Structural)]
pub enum Phase {
    /// Held back after a failed switch.
    Backoff,
    /// Waiting until the old model has been active long enough.
    Cooldown,
    /// The old model takes no new requests, and the policy prepares the switch.
    Draining,
    /// The old model's sleep hook runs.
    Sleeping,
    /// The new model's wake hook runs.
    Waking,
    /// The new model is active, and the duration of the switch is being smoothed.
    Recording,
    /// The wake hook failed, and the new model's sleep hook runs.
    CleaningUp,
    /// So many requests are being told that their model is active.
    Delivering(usize),
    /// So many of them have neither settled nor gone.
    Settling(usize),
}

/// The view of a request that waits for a model.
pub struct PendingView<T> {
    pub model: Seq<char>,
    pub queued_at: nat,
    pub ready_tx: T,
}

/// The view of what is kept of one model.
#[verifier::ext_equal]
pub struct ModelView<T> {
    pub in_flight: nat,
    pub draining: bool,
    pub pending: Seq<PendingView<T>>,
}

/// The view of a switch under way.
pub struct RunView {
    pub target: Seq<char>,
    pub forced: bool,
    pub started: nat,
    pub from: Option<Seq<char>>,
    pub drained: bool,
    pub took: nat,
    pub failure: Option<Seq<char>>,
    pub phase: Phase,
}

/// The view of the switcher.
#[verifier::ext_equal]
#[verifier::reject_recursive_types(T)]
pub struct SwitcherView<T> {
    /// The registered models, in the order of the configuration.
    pub names: Seq<Seq<char>>,
    /// Their configurations.
    pub configs: Map<Seq<char>, ModelConfig>,
    /// Which model is active.
    pub state: StateView,
    /// What is kept of each registered model.
    pub models: Map<Seq<char>, ModelView<T>>,
    /// The explicit priorities.
    pub priorities: Map<Seq<char>, Option<u8>>,
    /// When a model was last activated.
    pub activated_at: Option<nat>,
    /// When a switch failed, if none has succeeded since.
    pub last_switch_failure: Option<nat>,
    /// The estimated durations of switches.
    pub costs: Map<SwitchPair, nat>,
    /// The switch that holds the switch lock.
    pub run: Option<RunView>,
}

/// The view of what happened to a switch.
pub enum EventView {
    Begin { target: Seq<char>, forced: bool },
    Elapsed,
    Prepared,
    HookDone(Result<(), Seq<char>>),
    Recorded { smoothed: nat },
    Delivered(nat),
    Settled,
    SignalsGone,
}

/// The view of what is to be done for a switch.
pub enum ActionView<T> {
    Refused,
    Pause(nat),
    Prepare { model: Seq<char>, to: Seq<char> },
    RunSleep(Seq<char>),
    RunWake(Seq<char>),
    Complete { from: Option<Seq<char>>, to: Seq<char>, took: nat, estimate: Option<nat> },
    Deliver(Seq<PendingView<T>>),
    AwaitSettle,
    Fail { requests: Seq<PendingView<T>>, answer: ErrorView },
    Done,
}

/// The calls that change a switcher.
pub enum Operation<T> {
    Request { model: Seq<char>, now: nat, ready_tx: T },
    Acquire(Seq<char>),
    Release(Seq<char>),
    Switch { event: EventView, now: nat, min_active: nat },
}

impl Phase {
    /// Whether the switch has left the old model and not yet reached the new one.
    pub open spec fn between(self) -> bool {
        self is Cooldown || self is Draining || self is Sleeping || self is Waking
            || self is CleaningUp
    }

    /// Whether the old model takes no new requests.
    pub open spec fn drains(self) -> bool {
        self is Draining || self is Sleeping
    }
}

/// How long ago a moment was, and nothing if there was none.
pub open spec fn since(moment: Option<nat>, now: nat) -> nat {
    match moment {
        Some(t) => monus(now, t),
        None => 0,
    }
}

impl<T> SwitcherView<T> {
    /// A switcher of the given models that has done nothing yet.
    pub open spec fn initial(
        names: Seq<Seq<char>>,
        configs: Map<Seq<char>, ModelConfig>,
        priorities: Map<Seq<char>, Option<u8>>,
    ) -> Self {
        SwitcherView {
            names,
            configs,
            state: StateView::Idle,
            models: Map::new(
                |m: Seq<char>| configs.contains_key(m),
                |m: Seq<char>|
                    ModelView { in_flight: 0, draining: false, pending: Seq::empty() },
            ),
            priorities,
            activated_at: None,
            last_switch_failure: None,
            costs: Map::empty(),
            run: None,
        }
    }

    /// Whether a model is registered.
    pub open spec fn registered(self, model: Seq<char>) -> bool {
        self.models.contains_key(model)
    }

    /// Whether a model is active.
    pub open spec fn is_active(self, model: Seq<char>) -> bool {
        self.state.active() == Some(model)
    }

    /// Whether a switch to the model is under way.
    pub open spec fn switching_to(self, model: Seq<char>) -> bool {
        self.state matches StateView::Switching { to, .. } && to == model
    }

    /// How many requests a model is serving.
    pub open spec fn in_flight_of(self, model: Seq<char>) -> nat {
        if self.registered(model) {
            self.models[model].in_flight
        } else {
            0
        }
    }

    /// The requests that wait for a model, the first one first.
    pub open spec fn pending_of(self, model: Seq<char>) -> Seq<PendingView<T>> {
        if self.registered(model) {
            self.models[model].pending
        } else {
            Seq::empty()
        }
    }

    /// Whether a model takes new requests.
    pub open spec fn grants(self, model: Seq<char>) -> bool {
        self.registered(model) && !self.models[model].draining
    }

    /// The explicit priority of a model.
    pub open spec fn priority_of(self, model: Seq<char>) -> Option<u8> {
        if self.priorities.contains_key(model) {
            self.priorities[model]
        } else {
            None
        }
    }

    /// The explicit priority of the active model.
    pub open spec fn active_priority(self) -> Option<u8> {
        match self.state.active() {
            Some(m) => self.priority_of(m),
            None => None,
        }
    }

    /// How many requests the active model is serving.
    pub open spec fn active_in_flight(self) -> nat {
        match self.state.active() {
            Some(m) => self.in_flight_of(m),
            None => 0,
        }
    }

    /// Whether a request waits for a model that is more important than the given one.
    pub open spec fn more_important_waiting(self, target: Seq<char>) -> bool {
        exists|m: Seq<char>|
            {
                &&& #[trigger] self.registered(m)
                &&& self.pending_of(m).len() > 0
                &&& effective_priority(self.priority_of(target)) < effective_priority(
                    self.priority_of(m),
                )
            }
    }

    /// What a policy is told of the requests that wait for a model.
    pub open spec fn policy_context(self, target: Seq<char>, now: nat) -> PolicyContextView {
        PolicyContextView {
            target_model: target,
            target_priority: self.priority_of(target),
            active_model: self.state.active(),
            active_priority: self.active_priority(),
            target_queue_depth: self.pending_of(target).len(),
            oldest_waiting: if self.pending_of(target).len() == 0 {
                0
            } else {
                monus(now, self.pending_of(target)[0].queued_at)
            },
            active_in_flight: self.active_in_flight(),
            active_duration: since(self.activated_at, now),
            estimated_switch_cost: estimate_of(self.costs, self.state.active(), target),
            higher_priority_pending: self.more_important_waiting(target),
        }
    }

    /// The switcher with another view of one registered model.
    pub open spec fn with_model(self, model: Seq<char>, view: ModelView<T>) -> Self {
        if self.registered(model) {
            SwitcherView { models: self.models.insert(model, view), ..self }
        } else {
            self
        }
    }

    /// The switcher in which a model does or does not take new requests.
    pub open spec fn with_draining(self, model: Seq<char>, draining: bool) -> Self {
        self.with_model(model, ModelView { draining, ..self.models[model] })
    }

    /// The switcher in which a model is serving so many requests.
    pub open spec fn with_in_flight(self, model: Seq<char>, in_flight: nat) -> Self {
        self.with_model(model, ModelView { in_flight, ..self.models[model] })
    }

    /// The switcher in which the given requests wait for a model.
    pub open spec fn with_pending(self, model: Seq<char>, pending: Seq<PendingView<T>>) -> Self {
        self.with_model(model, ModelView { pending, ..self.models[model] })
    }

    /// The switcher in which a request for a model has joined the end of its queue.
    pub open spec fn enqueued(self, model: Seq<char>, now: nat, ready_tx: T) -> Self {
        self.with_pending(
            model,
            self.pending_of(model).push(PendingView { model, queued_at: now, ready_tx }),
        )
    }

    /// The switcher after a request for a model came in: it waits if its model is registered and
    /// not active.
    pub open spec fn requested(self, model: Seq<char>, now: nat, ready_tx: T) -> Self {
        if self.registered(model) && !self.is_active(model) {
            self.enqueued(model, now, ready_tx)
        } else {
            self
        }
    }

    /// The switcher after a model was asked to serve one more request.
    pub open spec fn acquired(self, model: Seq<char>) -> Self {
        if self.grants(model) {
            self.with_in_flight(model, self.in_flight_of(model) + 1)
        } else {
            self
        }
    }

    /// The switcher after a model has served a request.
    pub open spec fn released(self, model: Seq<char>) -> Self {
        self.with_in_flight(model, monus(self.in_flight_of(model), 1))
    }

    /// The switcher after any one call that changes it.
    pub open spec fn applied(self, op: Operation<T>) -> Self {
        match op {
            Operation::Request { model, now, ready_tx } => self.requested(model, now, ready_tx),
            Operation::Acquire(model) => self.acquired(model),
            Operation::Release(model) => self.released(model),
            Operation::Switch { event, now, min_active } => self.step(event, now, min_active).0,
        }
    }

    /// The switcher after a sequence of such calls.
    pub open spec fn after(self, ops: Seq<Operation<T>>) -> Self
        decreases ops.len(),
    {
        if ops.len() == 0 {
            self
        } else {
            self.after(ops.drop_last()).applied(ops.last())
        }
    }

    /// The switcher with another switch under way, or with none.
    pub open spec fn with_run(self, run: Option<RunView>) -> Self {
        SwitcherView { run, ..self }
    }

    /// Whether the switch under way has closed a model to new requests.
    pub open spec fn closes(self, model: Seq<char>) -> bool {
        self.run matches Some(run) && run.phase.drains() && run.from == Some(model)
    }

    /// What holds of a switcher between any two calls.
    pub open spec fn inv(self) -> bool {
        &&& self.names.no_duplicates()
        &&& forall|m: Seq<char>| #[trigger] self.registered(m) <==> self.names.contains(m)
        &&& self.configs.dom() == self.models.dom()
        &&& forall|m: Seq<char>| #[trigger]
            self.registered(m) ==> (self.models[m].draining <==> self.closes(m))
        &&& forall|m: Seq<char>, i: int|
            self.registered(m) && 0 <= i < self.models[m].pending.len()
                ==> (#[trigger] self.models[m].pending[i]).model == m
        &&& self.state.active() is Some ==> self.activated_at is Some
        &&& self.run_inv()
    }

    /// How the state goes with the switch under way: it is `Switching` between the models of that
    /// switch and in no other case, and a drained model stays drained while its sleep hook runs.
    pub open spec fn run_inv(self) -> bool {
        match self.run {
            None => !(self.state is Switching),
            Some(run) => {
                &&& self.state is Switching <==> run.phase.between()
                &&& run.phase.between() ==> self.state == (StateView::Switching {
                    from: run.from,
                    to: run.target,
                })
                &&& run.phase.between() ==> run.from != Some(run.target)
                &&& (run.phase is Cooldown || run.phase.drains()) ==> run.from is Some
                &&& (run.phase.between() && run.from is Some) ==> self.activated_at is Some
                &&& run.phase is Draining ==> self.registered(run.from->0)
                &&& (run.phase is Sleeping && run.drained) ==> self.in_flight_of(run.from->0) == 0
                &&& run.phase is CleaningUp <==> run.failure is Some
                &&& run.phase matches Phase::Settling(open) ==> open > 0
                &&& (run.phase is Recording || run.phase is Delivering || run.phase is Settling)
                    ==> self.is_active(run.target)
            },
        }
    }

    // ---- the steps of a switch ----

    /// Takes the switch lock for a switch to the target; after a recent failure the switch is held
    /// back first.
    pub open spec fn begun(self, target: Seq<char>, forced: bool, now: nat, min_active: nat) -> (
        Self,
        ActionView<T>,
    ) {
        let run = RunView {
            target,
            forced,
            started: now,
            from: None,
            drained: false,
            took: 0,
            failure: None,
            phase: Phase::Backoff,
        };
        if self.last_switch_failure is Some && since(self.last_switch_failure, now)
            < BACKOFF_NANOS {
            (
                self.with_run(Some(run)),
                ActionView::Pause(monus(BACKOFF_NANOS as nat, since(self.last_switch_failure, now))),
            )
        } else {
            self.checked(run, now, min_active)
        }
    }

    /// Decides whether the switch is still called for. If the target is active already, its
    /// requests are told so; if none waits for it, there is no switch, unless it is forced; else
    /// the state changes and the old model is kept until it has been active long enough.
    pub open spec fn checked(self, run: RunView, now: nat, min_active: nat) -> (
        Self,
        ActionView<T>,
    ) {
        let from = self.state.active();
        let next = RunView { from, phase: Phase::Cooldown, ..run };
        let moved = SwitcherView {
            state: StateView::Switching { from, to: run.target },
            run: Some(next),
            ..self
        };
        if self.is_active(run.target) {
            self.notified(run)
        } else if !run.forced && self.registered(run.target) && self.pending_of(run.target).len()
            == 0 {
            (self.with_run(None), ActionView::Done)
        } else if from is Some && self.activated_at is Some && since(self.activated_at, now)
            < min_active {
            (moved, ActionView::Pause(monus(min_active, since(self.activated_at, now))))
        } else {
            moved.cooled(next)
        }
    }

    /// Closes the old model to new requests, if there is one.
    pub open spec fn cooled(self, run: RunView) -> (Self, ActionView<T>) {
        match run.from {
            None => self.waking(run),
            Some(from) => if self.registered(from) {
                (
                    self.with_draining(from, true).with_run(
                        Some(RunView { phase: Phase::Draining, ..run }),
                    ),
                    ActionView::Prepare { model: from, to: run.target },
                )
            } else {
                (
                    self.with_run(Some(RunView { phase: Phase::Sleeping, ..run })),
                    ActionView::RunSleep(from),
                )
            },
        }
    }

    /// Puts the old model to sleep once the policy is ready for it.
    pub open spec fn prepared(self, run: RunView) -> (Self, ActionView<T>) {
        (
            self.with_run(
                Some(
                    RunView {
                        phase: Phase::Sleeping,
                        drained: self.in_flight_of(run.from->0) == 0,
                        ..run
                    },
                ),
            ),
            ActionView::RunSleep(run.from->0),
        )
    }

    /// Opens the old model again once its sleep hook is over, whether it failed or not.
    pub open spec fn slept(self, run: RunView) -> (Self, ActionView<T>) {
        self.with_draining(run.from->0, false).waking(run)
    }

    /// Wakes the new model.
    pub open spec fn waking(self, run: RunView) -> (Self, ActionView<T>) {
        (
            self.with_run(Some(RunView { phase: Phase::Waking, ..run })),
            ActionView::RunWake(run.target),
        )
    }

    /// The new model is active.
    pub open spec fn activated(self, run: RunView, now: nat) -> (Self, ActionView<T>) {
        let took = monus(now, run.started);
        (
            SwitcherView {
                state: StateView::Active { model: run.target },
                activated_at: Some(now),
                last_switch_failure: None,
                run: Some(RunView { phase: Phase::Recording, took, ..run }),
                ..self
            },
            ActionView::Complete {
                from: run.from,
                to: run.target,
                took,
                estimate: estimate_of(self.costs, run.from, run.target),
            },
        )
    }

    /// Takes note of what the switch took, and tells the requests that their model is active.
    pub open spec fn recorded(self, run: RunView, smoothed: nat) -> (Self, ActionView<T>) {
        SwitcherView {
            costs: observed(self.costs, run.from, run.target, run.took, smoothed),
            ..self
        }.notified(run)
    }

    /// Hands out the requests that wait for the target; without any the switch is over.
    pub open spec fn notified(self, run: RunView) -> (Self, ActionView<T>) {
        let requests = self.pending_of(run.target);
        if requests.len() == 0 {
            (self.with_run(None), ActionView::Done)
        } else {
            (
                self.with_pending(run.target, Seq::empty()).with_run(
                    Some(RunView { phase: Phase::Delivering(requests.len() as usize), ..run }),
                ),
                ActionView::Deliver(requests),
            )
        }
    }

    /// Puts the new model back to sleep after its wake hook failed.
    pub open spec fn wake_failed(self, run: RunView, detail: Seq<char>) -> (Self, ActionView<T>) {
        (
            self.with_run(
                Some(RunView { phase: Phase::CleaningUp, failure: Some(detail), ..run }),
            ),
            ActionView::RunSleep(run.target),
        )
    }

    /// No model is active after a failed switch, and the requests for the target are told why.
    pub open spec fn failed(self, run: RunView, now: nat) -> (Self, ActionView<T>) {
        (
            SwitcherView {
                state: StateView::Idle,
                last_switch_failure: Some(now),
                run: None,
                ..self.with_pending(run.target, Seq::empty())
            },
            ActionView::Fail {
                requests: self.pending_of(run.target),
                answer: ErrorView::Internal(
                    (ErrorView::HookFailed { model: run.target, detail: run.failure->0 }).message(),
                ),
            },
        )
    }

    /// Waits for the requests that were reached to settle or go; without any the switch is over.
    pub open spec fn settling(self, run: RunView, open: nat) -> (Self, ActionView<T>) {
        if open == 0 {
            (self.with_run(None), ActionView::Done)
        } else {
            (
                self.with_run(Some(RunView { phase: Phase::Settling(open as usize), ..run })),
                ActionView::AwaitSettle,
            )
        }
    }

    /// What an event does to the switcher, and what is to be done next. An event that does not go
    /// with the phase of the switch is refused and changes nothing.
    pub open spec fn step(self, event: EventView, now: nat, min_active: nat) -> (
        Self,
        ActionView<T>,
    ) {
        match self.run {
            None => match event {
                EventView::Begin { target, forced } => self.begun(target, forced, now, min_active),
                _ => (self, ActionView::Refused),
            },
            Some(run) => match (run.phase, event) {
                (Phase::Backoff, EventView::Elapsed) => self.checked(run, now, min_active),
                (Phase::Cooldown, EventView::Elapsed) => self.cooled(run),
                (Phase::Draining, EventView::Prepared) => self.prepared(run),
                (Phase::Sleeping, EventView::HookDone(_)) => self.slept(run),
                (Phase::Waking, EventView::HookDone(Ok(_))) => self.activated(run, now),
                (Phase::Waking, EventView::HookDone(Err(detail))) => self.wake_failed(run, detail),
                (Phase::CleaningUp, EventView::HookDone(_)) => self.failed(run, now),
                (Phase::Recording, EventView::Recorded { smoothed }) => self.recorded(
                    run,
                    smoothed,
                ),
                (Phase::Delivering(count), EventView::Delivered(reached)) => if reached <= count {
                    self.settling(run, reached)
                } else {
                    (self, ActionView::Refused)
                },
                (Phase::Settling(open), EventView::Settled) => self.settling(
                    run,
                    monus(open as nat, 1),
                ),
                (Phase::Settling(_), EventView::SignalsGone) => (
                    self.with_run(None),
                    ActionView::Done,
                ),
                _ => (self, ActionView::Refused),
            },
        }
    }
}

} // verus!
