//! The switcher: which model is active, which requests wait or are being served, and how a switch
//! goes on.
//!
//! The caller does the waiting: it runs the hooks, lets time pass and carries answers to the
//! requests, and reports each of these back as an event.

use vstd::prelude::*;

use crate::cost::{estimate_of, SwitchCostTracker};
use crate::hooks::HookRunner;
use crate::names::{same_name, NameMap};
use crate::policy::opt_nanos;
use crate::time::Duration;
use crate::types::{opt_name, SwitchError, SwitcherState};

pub mod guarantees;
pub mod laws;
pub mod model;
mod requests;
mod run;

pub use requests::{
    scheduled_switch, wait_outcome, Admission, InFlightGuard, Released, TriggerAction, WaitEvent,
};

use model::{
    ActionView, EventView, ModelView, PendingView, Phase, RunView, SwitcherView, BACKOFF_NANOS,
};

verus! {

/// A request that waits for a model, with the means to answer it.
pub struct PendingRequest<T> {
    pub model: String,
    pub queued_at: Duration,
    pub ready_tx: T,
}

impl<T> View for PendingRequest<T> {
    type V = PendingView<T>;

    open spec fn view(&self) -> PendingView<T> {
        PendingView { model: self.model@, queued_at: self.queued_at@, ready_tx: self.ready_tx }
    }
}

/// The view of a queue.
pub open spec fn queue_view<T>(queue: Seq<PendingRequest<T>>) -> Seq<PendingView<T>> {
    queue.map_values(|p: PendingRequest<T>| p@)
}

/// What is kept of one model.
struct ModelState<T> {
    in_flight: usize,
    pending: Vec<PendingRequest<T>>,
    draining: bool,
}

impl<T> View for ModelState<T> {
    type V = ModelView<T>;

    closed spec fn view(&self) -> ModelView<T> {
        ModelView {
            in_flight: self.in_flight as nat,
            draining: self.draining,
            pending: queue_view(self.pending@),
        }
    }
}

impl<T> ModelState<T> {
    /// A model that serves nothing and that nothing waits for.
    fn new() -> (s: ModelState<T>)
        ensures
            s@ == (ModelView::<T> { in_flight: 0, draining: false, pending: Seq::empty() }),
    {
        let s = ModelState { in_flight: 0, pending: Vec::new(), draining: false };
        assert(queue_view(s.pending@) =~= Seq::empty());
        s
    }
}

/// The views of all models.
spec fn model_views<T>(states: Map<Seq<char>, ModelState<T>>) -> Map<Seq<char>, ModelView<T>> {
    states.map_values(|s: ModelState<T>| s@)
}

/// A switch under way.
struct SwitchRun {
    target: String,
    forced: bool,
    started: Duration,
    from: Option<String>,
    drained: bool,
    took: Duration,
    failure: Option<String>,
    phase: Phase,
}

impl View for SwitchRun {
    type V = RunView;

    closed spec fn view(&self) -> RunView {
        RunView {
            target: self.target@,
            forced: self.forced,
            started: self.started@,
            from: opt_name(self.from),
            drained: self.drained,
            took: self.took@,
            failure: opt_name(self.failure),
            phase: self.phase,
        }
    }
}

/// The view of an optional switch.
spec fn opt_run(run: Option<SwitchRun>) -> Option<RunView> {
    match run {
        Some(run) => Some(run@),
        None => None,
    }
}

/// Something that happened to a switch.
#[derive(Debug, PartialEq, Eq)]
pub enum SwitchEvent {
    /// A switch to the target is asked for. One that is not forced is dropped when no request
    /// waits for the target.
    Begin { target: String, forced: bool },
    /// A pause is over.
    Elapsed,
    /// The policy is ready for the old model to be put to sleep.
    Prepared,
    /// A hook has run, or failed for the given reason.
    HookDone(Result<(), String>),
    /// The duration of the switch was smoothed with the former estimate.
    Recorded { smoothed: Duration },
    /// So many of the requests could be reached.
    Delivered(usize),
    /// One of them is being served.
    Settled,
    /// All of them that have not settled have dropped their signals.
    SignalsGone,
}

impl View for SwitchEvent {
    type V = EventView;

    open spec fn view(&self) -> EventView {
        match *self {
            SwitchEvent::Begin { target, forced } => EventView::Begin { target: target@, forced },
            SwitchEvent::Elapsed => EventView::Elapsed,
            SwitchEvent::Prepared => EventView::Prepared,
            SwitchEvent::HookDone(result) => EventView::HookDone(
                match result {
                    Ok(u) => Ok(u),
                    Err(detail) => Err(detail@),
                },
            ),
            SwitchEvent::Recorded { smoothed } => EventView::Recorded { smoothed: smoothed@ },
            SwitchEvent::Delivered(reached) => EventView::Delivered(reached as nat),
            SwitchEvent::Settled => EventView::Settled,
            SwitchEvent::SignalsGone => EventView::SignalsGone,
        }
    }
}

/// Something to be done for a switch.
pub enum SwitchAction<T> {
    /// The event does not go with the phase of the switch: another one holds the switch lock.
    Refused,
    /// Let so much time pass.
    Pause(Duration),
    /// Let the policy prepare the switch.
    Prepare { model: String, to: String },
    /// Run the sleep hook of a model.
    RunSleep(String),
    /// Run the wake hook of a model.
    RunWake(String),
    /// The switch has succeeded: smooth its duration with the estimate, and tell the policy.
    Complete { from: Option<String>, to: String, took: Duration, estimate: Option<Duration> },
    /// Tell these requests that their model is active.
    Deliver(Vec<PendingRequest<T>>),
    /// Wait until a request settles, or all that have not have dropped their signals.
    AwaitSettle,
    /// The switch has failed: give these requests the answer.
    Fail { requests: Vec<PendingRequest<T>>, answer: SwitchError },
    /// The switch is over, and the switch lock is free.
    Done,
}

impl<T> View for SwitchAction<T> {
    type V = ActionView<T>;

    open spec fn view(&self) -> ActionView<T> {
        match *self {
            SwitchAction::Refused => ActionView::Refused,
            SwitchAction::Pause(d) => ActionView::Pause(d@),
            SwitchAction::Prepare { model, to } => ActionView::Prepare { model: model@, to: to@ },
            SwitchAction::RunSleep(model) => ActionView::RunSleep(model@),
            SwitchAction::RunWake(model) => ActionView::RunWake(model@),
            SwitchAction::Complete { from, to, took, estimate } => ActionView::Complete {
                from: opt_name(from),
                to: to@,
                took: took@,
                estimate: opt_nanos(estimate),
            },
            SwitchAction::Deliver(requests) => ActionView::Deliver(queue_view(requests@)),
            SwitchAction::AwaitSettle => ActionView::AwaitSettle,
            SwitchAction::Fail { requests, answer } => ActionView::Fail {
                requests: queue_view(requests@),
                answer: answer@,
            },
            SwitchAction::Done => ActionView::Done,
        }
    }
}

/// The switcher. `T` is the means to answer a request that waits.
pub struct ModelSwitcher<T> {
    hooks: HookRunner,
    state: SwitcherState,
    model_states: NameMap<ModelState<T>>,
    priorities: NameMap<Option<u8>>,
    activated_at: Option<Duration>,
    last_switch_failure: Option<Duration>,
    cost_tracker: SwitchCostTracker,
    run: Option<SwitchRun>,
}

impl<T> View for ModelSwitcher<T> {
    type V = SwitcherView<T>;

    closed spec fn view(&self) -> SwitcherView<T> {
        SwitcherView {
            names: self.hooks.names(),
            configs: self.hooks@,
            state: self.state@,
            models: model_views(self.model_states@),
            priorities: self.priorities@,
            activated_at: opt_nanos(self.activated_at),
            last_switch_failure: opt_nanos(self.last_switch_failure),
            costs: self.cost_tracker@,
            run: opt_run(self.run),
        }
    }
}

/// How long a switch is held back after a failed one.
pub fn backoff() -> (d: Duration)
    ensures
        d@ == BACKOFF_NANOS,
{
    Duration::from_secs(2)
}

impl<T> ModelSwitcher<T> {
    /// What holds of a switcher between any two calls.
    pub open spec fn wf(self) -> bool {
        self@.inv()
    }

    /// A switcher of the given models, none of them active.
    pub fn new(hooks: HookRunner, priorities: NameMap<Option<u8>>) -> (switcher: ModelSwitcher<T>)
        ensures
            switcher@ == SwitcherView::<T>::initial(hooks.names(), hooks@, priorities@),
            switcher.wf(),
    {
        let models = hooks.registered_models();
        let mut model_states: NameMap<ModelState<T>> = NameMap::new();
        let ghost fresh = ModelView::<T> { in_flight: 0, draining: false, pending: Seq::empty() };
        let mut i: usize = 0;
        while i < models.len()
            invariant
                i <= models@.len(),
                forall|n: Seq<char>| #[trigger]
                    model_states@.contains_key(n) ==> model_states@[n]@ == fresh,
                forall|n: Seq<char>| #[trigger]
                    model_states@.contains_key(n) <==> exists|j: int|
                        0 <= j < i && #[trigger] models@[j]@ == n,
                fresh == (ModelView::<T> { in_flight: 0, draining: false, pending: Seq::empty() }),
            decreases models@.len() - i,
        {
            let ghost before = model_states@;
            model_states.insert(models[i].clone(), ModelState::new());
            i = i + 1;
            assert forall|n: Seq<char>| #[trigger]
                model_states@.contains_key(n) <==> exists|j: int|
                    0 <= j < i && #[trigger] models@[j]@ == n by {
                if before.contains_key(n) {
                    let j = choose|j: int| 0 <= j < i - 1 && #[trigger] models@[j]@ == n;
                    assert(0 <= j < i && models@[j]@ == n);
                }
                if n == models@[i - 1]@ {
                    assert(model_states@.contains_key(n));
                }
            }
        }
        let ghost names = hooks.names();
        let switcher = ModelSwitcher {
            hooks,
            state: SwitcherState::Idle,
            model_states,
            priorities,
            activated_at: None,
            last_switch_failure: None,
            cost_tracker: SwitchCostTracker::new(),
            run: None,
        };
        proof {
            assert forall|n: Seq<char>| #[trigger]
                switcher.model_states@.contains_key(n) <==> names.contains(n) by {
                if names.contains(n) {
                    let j = choose|j: int| 0 <= j < names.len() && names[j] == n;
                    assert(models@[j]@ == n);
                }
                if switcher.model_states@.contains_key(n) {
                    let j = choose|j: int| 0 <= j < i && #[trigger] models@[j]@ == n;
                    assert(names[j] == n);
                }
            }
            let expected = SwitcherView::<T>::initial(names, switcher.hooks@, priorities@);
            assert forall|n: Seq<char>| #[trigger]
                switcher.hooks@.contains_key(n) <==> switcher.model_states@.contains_key(n) by {}
            assert(switcher@.models =~= expected.models);
            assert(switcher@ =~= expected);
            assert(switcher@.configs.dom() =~= switcher@.models.dom());
        }
        switcher
    }

    /// Which model is active.
    pub fn state(&self) -> (state: SwitcherState)
        ensures
            state@ == self@.state,
    {
        self.state.copy()
    }

    /// The active model.
    pub fn active_model(&self) -> (model: Option<String>)
        ensures
            opt_name(model) == self@.state.active(),
    {
        match &self.state {
            SwitcherState::Active { model } => Some(model.clone()),
            _ => None,
        }
    }

    /// Whether a model is active.
    pub fn is_active(&self, model: &str) -> (active: bool)
        ensures
            active == self@.is_active(model@),
    {
        match &self.state {
            SwitcherState::Active { model: active } => same_name(active.as_str(), model),
            _ => false,
        }
    }

    /// The registered models.
    pub fn registered_models(&self) -> (models: Vec<String>)
        ensures
            models@.len() == self@.names.len(),
            forall|i: int| 0 <= i < models@.len() ==> models@[i]@ == self@.names[i],
    {
        self.hooks.registered_models()
    }

    /// The models' hooks.
    pub fn hooks(&self) -> (hooks: &HookRunner)
        ensures
            hooks@ == self@.configs,
            hooks.names() == self@.names,
    {
        &self.hooks
    }

    /// Whether a model is registered.
    pub fn is_registered(&self, model: &str) -> (registered: bool)
        ensures
            registered == self@.registered(model@),
    {
        self.model_states.contains_key(model)
    }

    /// The port where a model's server listens.
    pub fn model_port(&self, model: &str) -> (port: Option<u16>)
        ensures
            port == if self@.configs.contains_key(model@) {
                Some(self@.configs[model@].port)
            } else {
                None
            },
    {
        self.hooks.model_port(model)
    }

    /// The explicit priority of a model.
    pub fn model_priority(&self, model: &str) -> (priority: Option<u8>)
        ensures
            priority == self@.priority_of(model@),
    {
        match self.priorities.get(model) {
            Some(p) => *p,
            None => None,
        }
    }

    /// How many requests a model is serving.
    pub fn in_flight_count(&self, model: &str) -> (n: usize)
        ensures
            n == self@.in_flight_of(model@),
    {
        match self.model_states.get(model) {
            Some(s) => s.in_flight,
            None => 0,
        }
    }

    /// What a switch between two models is expected to take, judged by those observed; `from` is
    /// nothing for a cold start.
    pub fn estimated_switch_cost(&self, from: Option<&str>, to: &str) -> (cost: Option<Duration>)
        ensures
            opt_nanos(cost) == estimate_of(
                self@.costs,
                match from {
                    Some(f) => Some(f@),
                    None => None,
                },
                to@,
            ),
    {
        self.cost_tracker.estimate(from, to)
    }
}

} // verus!
