//! What holds of the switcher, whatever happens to it.

use vstd::prelude::*;

use super::model::{
    ActionView, EventView, Operation, PendingView, Phase, RunView, SwitcherView, BACKOFF_NANOS,
};
use crate::cost::observed;
use crate::policy::FifoPolicy;
use crate::time::monus;
use crate::types::ErrorView;

verus! {

/// Every step keeps the switcher's invariant.
pub proof fn law_step_keeps_invariant<T>(
    s: SwitcherView<T>,
    event: EventView,
    now: nat,
    min_active: nat,
)
    requires
        s.inv(),
    ensures
        s.step(event, now, min_active).0.inv(),
{
    let next = s.step(event, now, min_active).0;
    assert forall|m: Seq<char>| #[trigger] next.registered(m) <==> s.registered(m) by {}
    assert(next.configs.dom() =~= next.models.dom());
    assert forall|m: Seq<char>| #[trigger] next.registered(m) implies (next.models[m].draining
        <==> next.closes(m)) by {
        assert(s.registered(m));
        assert(s.models[m].draining <==> s.closes(m));
    }
    assert forall|m: Seq<char>, i: int|
        next.registered(m) && 0 <= i < next.models[m].pending.len() implies (
    #[trigger] next.models[m].pending[i]).model == m by {
        assert(s.registered(m));
        assert(next.models[m].pending[i] == s.models[m].pending[i]);
    }
    assert(next.run_inv());
}

/// Every request that comes in, starts to be served or has been served keeps the invariant.
pub proof fn law_requests_keep_invariant<T>(
    s: SwitcherView<T>,
    model: Seq<char>,
    now: nat,
    ready_tx: T,
)
    requires
        s.inv(),
    ensures
        s.requested(model, now, ready_tx).inv(),
        s.acquired(model).inv(),
        s.released(model).inv(),
{
    if s.registered(model) && !s.is_active(model) {
        lemma_model_change(s, s.requested(model, now, ready_tx), model);
    }
    if s.grants(model) {
        lemma_model_change(s, s.acquired(model), model);
    }
    lemma_model_change(s, s.released(model), model);
}

/// A change to one model keeps the invariant, if it neither opens nor closes the model, queues only
/// requests for it, and lets none start while it is closed.
proof fn lemma_model_change<T>(s: SwitcherView<T>, next: SwitcherView<T>, model: Seq<char>)
    requires
        s.inv(),
        next == s.with_model(model, next.models[model]),
        s.registered(model) ==> {
            &&& next.models[model].draining == s.models[model].draining
            &&& s.models[model].draining ==> next.models[model].in_flight
                <= s.models[model].in_flight
            &&& forall|i: int|
                0 <= i < next.models[model].pending.len() ==> (
                #[trigger] next.models[model].pending[i]).model == model
        },
    ensures
        next.inv(),
{
    assert forall|m: Seq<char>| #[trigger] next.registered(m) <==> s.registered(m) by {}
    assert(next.configs.dom() =~= next.models.dom());
    assert forall|m: Seq<char>| #[trigger] next.registered(m) implies (next.models[m].draining
        <==> next.closes(m)) by {
        assert(s.registered(m));
        assert(s.models[m].draining <==> s.closes(m));
    }
    assert forall|m: Seq<char>, i: int|
        next.registered(m) && 0 <= i < next.models[m].pending.len() implies (
    #[trigger] next.models[m].pending[i]).model == m by {
        assert(s.registered(m));
        if m != model {
            assert(next.models[m].pending[i] == s.models[m].pending[i]);
        }
    }
    if s.run matches Some(run) && run.phase is Sleeping && run.from == Some(model) && s.registered(
        model,
    ) {
        assert(s.closes(model));
    }
}

/// Every switcher that calls can lead to keeps the invariant.
pub proof fn law_invariant_always_holds<T>(s: SwitcherView<T>, ops: Seq<Operation<T>>)
    requires
        s.inv(),
    ensures
        s.after(ops).inv(),
    decreases ops.len(),
{
    if ops.len() > 0 {
        law_invariant_always_holds(s, ops.drop_last());
        let mid = s.after(ops.drop_last());
        match ops.last() {
            Operation::Request { model, now, ready_tx } => {
                law_requests_keep_invariant(mid, model, now, ready_tx);
            },
            Operation::Acquire(model) => {
                law_requests_keep_invariant(mid, model, 0, arbitrary());
            },
            Operation::Release(model) => {
                law_requests_keep_invariant(mid, model, 0, arbitrary());
            },
            Operation::Switch { event, now, min_active } => {
                law_step_keeps_invariant(mid, event, now, min_active);
            },
        }
    }
}

/// The model that may be running: the active one, the one a switch has not yet put to sleep, or
/// the one it has begun to wake.
pub open spec fn awake<T>(s: SwitcherView<T>) -> Option<Seq<char>> {
    match s.run {
        Some(run) => match run.phase {
            Phase::Cooldown | Phase::Draining | Phase::Sleeping => run.from,
            Phase::Waking | Phase::CleaningUp => Some(run.target),
            _ => s.state.active(),
        },
        None => s.state.active(),
    }
}

/// The model whose sleep hook an event reports to be over.
pub open spec fn put_to_sleep<T>(s: SwitcherView<T>, event: EventView) -> Option<Seq<char>> {
    match (s.run, event) {
        (Some(run), EventView::HookDone(_)) => match run.phase {
            Phase::Sleeping => run.from,
            Phase::CleaningUp => Some(run.target),
            _ => None,
        },
        _ => None,
    }
}

/// One model at a time: a wake hook is run only when no model may be running, the one that was
/// having been put to sleep first; and a model that may be running is so until its sleep hook is
/// over.
pub proof fn law_one_model_at_a_time<T>(
    s: SwitcherView<T>,
    event: EventView,
    now: nat,
    min_active: nat,
)
    requires
        s.inv(),
    ensures
        ({
            let (next, action) = s.step(event, now, min_active);
            &&& action is RunWake ==> awake(s) is None || awake(s) == put_to_sleep(s, event)
            &&& awake(next) == match action {
                ActionView::RunWake(model) => Some(model),
                _ => if put_to_sleep(s, event) is Some {
                    None
                } else {
                    awake(s)
                },
            }
        }),
{
}

/// A switch changes no in-flight count.
pub proof fn law_switch_keeps_in_flight<T>(
    s: SwitcherView<T>,
    event: EventView,
    now: nat,
    min_active: nat,
    model: Seq<char>,
)
    ensures
        s.step(event, now, min_active).0.in_flight_of(model) == s.in_flight_of(model),
        s.step(event, now, min_active).0.registered(model) == s.registered(model),
{
}

/// While a model is closed, no call makes it serve more requests.
pub proof fn law_closed_model_only_drains<T>(s: SwitcherView<T>, op: Operation<T>, model: Seq<char>)
    requires
        s.inv(),
        s.closes(model),
    ensures
        s.applied(op).in_flight_of(model) <= s.in_flight_of(model),
{
    if s.registered(model) {
        assert(s.models[model].draining <==> s.closes(model));
    }
    match op {
        Operation::Switch { event, now, min_active } => {
            law_switch_keeps_in_flight(s, event, now, min_active, model);
        },
        _ => {},
    }
}

/// A model that was drained serves no request until it is opened again: from a state in which a
/// closed model serves none, no sequence of calls that keeps it closed makes it serve any.
pub proof fn law_drained_stays_drained<T>(
    s: SwitcherView<T>,
    ops: Seq<Operation<T>>,
    model: Seq<char>,
)
    requires
        s.inv(),
        s.in_flight_of(model) == 0,
        forall|k: int| 0 <= k <= ops.len() ==> (#[trigger] s.after(ops.take(k))).closes(model),
    ensures
        s.after(ops).in_flight_of(model) == 0,
    decreases ops.len(),
{
    if ops.len() > 0 {
        let init = ops.drop_last();
        assert forall|k: int| 0 <= k <= init.len() implies (#[trigger] s.after(
            init.take(k),
        )).closes(model) by {
            assert(init.take(k) =~= ops.take(k));
        }
        law_drained_stays_drained(s, init, model);
        law_invariant_always_holds(s, init);
        assert(ops.take(init.len() as int) =~= init);
        assert(s.after(ops.take(init.len() as int)).closes(model));
        law_closed_model_only_drains(s.after(init), ops.last(), model);
    }
}

/// A policy that drains lets a model be put to sleep only when it serves no request, and the model
/// then serves none while its sleep hook runs.
pub proof fn law_draining_policy_sleeps_idle_model<T>(
    s: SwitcherView<T>,
    policy: FifoPolicy,
    now: nat,
    min_active: nat,
)
    requires
        s.inv(),
        policy.drains(),
        s.run matches Some(run) && run.phase is Draining && policy.prepared(
            s.in_flight_of(run.from->0),
        ) is Ready,
    ensures
        ({
            let (next, action) = s.step(EventView::Prepared, now, min_active);
            let from = s.run->0.from->0;
            &&& action == ActionView::<T>::RunSleep(from)
            &&& next.run matches Some(run) && run.phase is Sleeping && run.drained
            &&& next.closes(from)
            &&& next.in_flight_of(from) == 0
        }),
{
}

/// Waiting requests are never lost, doubled or reordered by a switch: either no queue changes, or
/// the whole queue of the target is handed out in order, to be told of success or of failure, and
/// no other queue changes.
pub proof fn law_requests_conserved<T>(
    s: SwitcherView<T>,
    event: EventView,
    now: nat,
    min_active: nat,
    model: Seq<char>,
)
    requires
        s.inv(),
    ensures
        ({
            let (next, action) = s.step(event, now, min_active);
            match action {
                ActionView::Deliver(requests) => {
                    let target = next.run->0.target;
                    &&& next.is_active(target)
                    &&& requests == s.pending_of(target)
                    &&& next.pending_of(target).len() == 0
                    &&& model != target ==> next.pending_of(model) == s.pending_of(model)
                },
                ActionView::Fail { requests, .. } => {
                    let target = s.run->0.target;
                    &&& requests == s.pending_of(target)
                    &&& next.pending_of(target).len() == 0
                    &&& model != target ==> next.pending_of(model) == s.pending_of(model)
                },
                _ => next.pending_of(model) == s.pending_of(model),
            }
        }),
{
}

/// After a wake hook succeeded, its model is active, the failure is forgotten and the requests that
/// waited for it are handed out; the switch is recorded for its own pair of models alone.
pub proof fn law_successful_switch<T>(
    s: SwitcherView<T>,
    woken_at: nat,
    smoothed: nat,
    later: nat,
    min_active: nat,
)
    requires
        s.inv(),
        s.run matches Some(run) && run.phase is Waking,
    ensures
        ({
            let run = s.run->0;
            let mid = s.step(EventView::HookDone(Ok(())), woken_at, min_active).0;
            let (next, action) = mid.step(EventView::Recorded { smoothed }, later, min_active);
            &&& mid.is_active(run.target)
            &&& next.is_active(run.target)
            &&& next.activated_at == Some(woken_at)
            &&& next.last_switch_failure is None
            &&& next.costs == observed(
                s.costs,
                run.from,
                run.target,
                monus(woken_at, run.started),
                smoothed,
            )
            &&& next.pending_of(run.target).len() == 0
            &&& s.pending_of(run.target).len() > 0 ==> action == ActionView::Deliver(
                s.pending_of(run.target),
            )
            &&& s.pending_of(run.target).len() == 0 ==> action == ActionView::<T>::Done
        }),
{
}

/// After a wake hook failed, its model is put back to sleep, no model is active, the lock is free,
/// the next switch is held back, and every request that waited for the model is answered with the
/// reason.
pub proof fn law_failed_switch<T>(
    s: SwitcherView<T>,
    detail: Seq<char>,
    cleanup: Result<(), Seq<char>>,
    failed_at: nat,
    cleaned_at: nat,
    min_active: nat,
)
    requires
        s.inv(),
        s.run matches Some(run) && run.phase is Waking,
    ensures
        ({
            let run = s.run->0;
            let (mid, first) = s.step(EventView::HookDone(Err(detail)), failed_at, min_active);
            let (next, action) = mid.step(EventView::HookDone(cleanup), cleaned_at, min_active);
            &&& first == ActionView::<T>::RunSleep(run.target)
            &&& next.state is Idle
            &&& next.run is None
            &&& next.last_switch_failure == Some(cleaned_at)
            &&& next.costs == s.costs
            &&& next.pending_of(run.target).len() == 0
            &&& action == ActionView::Fail {
                requests: s.pending_of(run.target),
                answer: ErrorView::Internal(
                    (ErrorView::HookFailed { model: run.target, detail }).message(),
                ),
            }
        }),
{
}

/// A model is not closed, and its sleep hook not run, before it has been active for `min_active`:
/// either that time has passed, or the switch pauses for just the rest of it.
pub proof fn law_cooldown<T>(s: SwitcherView<T>, event: EventView, now: nat, min_active: nat)
    requires
        s.inv(),
        s.state.active() is Some,
    ensures
        ({
            let (next, action) = s.step(event, now, min_active);
            next.state is Switching ==> {
                let active_for = monus(now, s.activated_at->0);
                ||| active_for >= min_active
                ||| {
                    &&& next.run->0.phase is Cooldown
                    &&& action matches ActionView::Pause(rest) && active_for + rest == min_active
                    &&& forall|m: Seq<char>| !next.closes(m)
                }
            }
        }),
{
}

/// Within the backoff time after a failed switch, a new one does nothing but pause for the rest of
/// that time.
pub proof fn law_backoff<T>(
    s: SwitcherView<T>,
    target: Seq<char>,
    forced: bool,
    now: nat,
    min_active: nat,
)
    requires
        s.run is None,
        s.last_switch_failure matches Some(failed_at) && monus(now, failed_at) < BACKOFF_NANOS,
    ensures
        ({
            let (next, action) = s.step(EventView::Begin { target, forced }, now, min_active);
            &&& action matches ActionView::Pause(rest) && monus(now, s.last_switch_failure->0)
                + rest == BACKOFF_NANOS
            &&& next.with_run(None) == s
        }),
{
}

/// While a switch stays in a phase in which it pauses, no call changes the switch, the state, or what
/// the length of the pause was reckoned from.
proof fn lemma_pause_keeps<T>(s: SwitcherView<T>, ops: Seq<Operation<T>>)
    requires
        s.inv(),
        s.run matches Some(run) && (run.phase is Backoff || run.phase is Cooldown),
        forall|k: int|
            0 <= k <= ops.len() ==> in_phase(#[trigger] s.after(ops.take(k)), s.run->0.phase),
    ensures
        s.after(ops).run == s.run,
        s.after(ops).state == s.state,
        s.after(ops).activated_at == s.activated_at,
        s.after(ops).last_switch_failure == s.last_switch_failure,
    decreases ops.len(),
{
    if ops.len() > 0 {
        let init = ops.drop_last();
        assert forall|k: int| 0 <= k <= init.len() implies in_phase(
            #[trigger] s.after(init.take(k)),
            s.run->0.phase,
        ) by {
            assert(init.take(k) =~= ops.take(k));
        }
        lemma_pause_keeps(s, init);
        law_invariant_always_holds(s, init);
        assert(ops.take(ops.len() as int) =~= ops);
        assert(in_phase(s.after(ops.take(ops.len() as int)), s.run->0.phase));
    }
}

/// Whether a switch is under way and stands in the given phase.
pub open spec fn in_phase<T>(s: SwitcherView<T>, phase: Phase) -> bool {
    s.run matches Some(run) && run.phase == phase
}

/// The cooldown over the pause: where a switch away from an active model pauses, and the pause is
/// kept, the model has been active for `min_active` when the switch goes on, whatever was called
/// meanwhile; the model is closed or put to sleep only then. The clock does not run backwards.
pub proof fn law_cooldown_over_pause<T>(
    s: SwitcherView<T>,
    event: EventView,
    now: nat,
    min_active: nat,
    ops: Seq<Operation<T>>,
    later: nat,
)
    requires
        s.inv(),
        s.state.active() is Some,
        s.activated_at->0 <= now,
        in_phase(s.step(event, now, min_active).0, Phase::Cooldown),
        forall|k: int|
            0 <= k <= ops.len() ==> in_phase(
                #[trigger] s.step(event, now, min_active).0.after(ops.take(k)),
                Phase::Cooldown,
            ),
        s.step(event, now, min_active).1 matches ActionView::Pause(rest) ==> later >= now + rest,
    ensures
        ({
            let (paused, first) = s.step(event, now, min_active);
            let waited = paused.after(ops);
            let (next, action) = waited.step(EventView::Elapsed, later, min_active);
            let active = s.state.active()->0;
            &&& first is Pause
            &&& waited.activated_at == s.activated_at
            &&& monus(later, s.activated_at->0) >= min_active
            &&& forall|m: Seq<char>| !waited.closes(m)
            &&& if s.registered(active) {
                action matches ActionView::Prepare { model, .. } && model == active
                    && next.closes(active)
            } else {
                action == ActionView::<T>::RunSleep(active)
            }
        }),
{
    let paused = s.step(event, now, min_active).0;
    law_step_keeps_invariant(s, event, now, min_active);
    lemma_pause_keeps(paused, ops);
    lemma_registered_stays(paused, ops, s.state.active()->0);
}

/// No call registers a model, or takes one off the list.
proof fn lemma_registered_stays<T>(s: SwitcherView<T>, ops: Seq<Operation<T>>, model: Seq<char>)
    ensures
        s.after(ops).registered(model) == s.registered(model),
    decreases ops.len(),
{
    if ops.len() > 0 {
        lemma_registered_stays(s, ops.drop_last(), model);
        match ops.last() {
            Operation::Switch { event, now, min_active } => {
                law_switch_keeps_in_flight(
                    s.after(ops.drop_last()),
                    event,
                    now,
                    min_active,
                    model,
                );
            },
            _ => {},
        }
    }
}

/// The backoff over the pause: where a new switch pauses after a failed one, and the pause is kept,
/// the backoff time is over when the switch goes on, whatever was called meanwhile; until then no
/// hook has been run for it and the state is as the failed switch left it. The clock does not run
/// backwards.
pub proof fn law_backoff_over_pause<T>(
    s: SwitcherView<T>,
    target: Seq<char>,
    forced: bool,
    now: nat,
    min_active: nat,
    ops: Seq<Operation<T>>,
    later: nat,
)
    requires
        s.inv(),
        s.run is None,
        s.last_switch_failure matches Some(failed_at) && failed_at <= now,
        in_phase(s.step(EventView::Begin { target, forced }, now, min_active).0, Phase::Backoff),
        forall|k: int|
            0 <= k <= ops.len() ==> in_phase(
                #[trigger] s.step(EventView::Begin { target, forced }, now, min_active).0.after(
                    ops.take(k),
                ),
                Phase::Backoff,
            ),
        s.step(EventView::Begin { target, forced }, now, min_active).1 matches ActionView::Pause(
            rest,
        ) ==> later >= now + rest,
    ensures
        ({
            let (paused, first) = s.step(EventView::Begin { target, forced }, now, min_active);
            let waited = paused.after(ops);
            &&& first is Pause
            &&& waited.state == s.state
            &&& waited.last_switch_failure == s.last_switch_failure
            &&& monus(later, s.last_switch_failure->0) >= BACKOFF_NANOS
            &&& !(waited.step(EventView::Elapsed, later, min_active).1 is Refused)
        }),
{
    let event = EventView::Begin { target, forced };
    let paused = s.step(event, now, min_active).0;
    law_step_keeps_invariant(s, event, now, min_active);
    lemma_pause_keeps(paused, ops);
}

/// The switch lock: while a switch is under way no other one begins, and an attempt changes
/// nothing.
pub proof fn law_one_switch_at_a_time<T>(
    s: SwitcherView<T>,
    target: Seq<char>,
    forced: bool,
    now: nat,
    min_active: nat,
)
    requires
        s.run is Some,
    ensures
        s.step(EventView::Begin { target, forced }, now, min_active) == (
            s,
            ActionView::<T>::Refused,
        ),
{
}

/// A stale switch, to a registered model that no request waits for, changes nothing; a forced one
/// goes ahead.
pub proof fn law_stale_switch_dropped<T>(
    s: SwitcherView<T>,
    target: Seq<char>,
    now: nat,
    min_active: nat,
)
    requires
        s.inv(),
        s.run is None,
        s.last_switch_failure matches Some(failed_at) ==> monus(now, failed_at) >= BACKOFF_NANOS,
        s.registered(target),
        s.pending_of(target).len() == 0,
        !s.is_active(target),
    ensures
        s.step(EventView::Begin { target, forced: false }, now, min_active) == (
            s,
            ActionView::<T>::Done,
        ),
        s.step(EventView::Begin { target, forced: true }, now, min_active).0.switching_to(target),
{
}

/// What is left of a switch: how many phases, and how many requests that have not settled.
pub open spec fn remaining(run: Option<RunView>) -> (nat, nat) {
    match run {
        None => (0, 0),
        Some(run) => match run.phase {
            Phase::Backoff => (9, 0),
            Phase::Cooldown => (8, 0),
            Phase::Draining => (7, 0),
            Phase::Sleeping => (6, 0),
            Phase::Waking => (5, 0),
            Phase::Recording => (4, 0),
            Phase::CleaningUp => (3, 0),
            Phase::Delivering(_) => (2, 0),
            Phase::Settling(open) => (1, open as nat),
        },
    }
}

/// Every event that is not refused brings a switch that is under way closer to its end.
pub proof fn law_switch_progresses<T>(
    s: SwitcherView<T>,
    event: EventView,
    now: nat,
    min_active: nat,
)
    requires
        s.inv(),
        s.run is Some,
    ensures
        ({
            let (next, action) = s.step(event, now, min_active);
            let before = remaining(s.run);
            let after = remaining(next.run);
            !(action is Refused) ==> after.0 < before.0 || (after.0 == before.0 && after.1
                < before.1)
        }),
{
}

/// Whether an event is one that an action can lead to.
pub open spec fn answers<T>(event: EventView, action: ActionView<T>) -> bool {
    match action {
        ActionView::Pause(_) => event is Elapsed,
        ActionView::Prepare { .. } => event is Prepared,
        ActionView::RunSleep(_) | ActionView::RunWake(_) => event is HookDone,
        ActionView::Complete { .. } => event is Recorded,
        ActionView::Deliver(requests) => event matches EventView::Delivered(reached) && reached
            <= requests.len(),
        ActionView::AwaitSettle => event is Settled || event is SignalsGone,
        _ => false,
    }
}

/// A switch never gets stuck: what an action leads to is never refused, and the lock is free once
/// nothing is left to do.
pub proof fn law_switch_never_stuck<T>(
    s: SwitcherView<T>,
    event: EventView,
    now: nat,
    reply: EventView,
    later: nat,
    min_active: nat,
)
    requires
        s.inv(),
        forall|m: Seq<char>| s.pending_of(m).len() <= usize::MAX,
    ensures
        ({
            let (next, action) = s.step(event, now, min_active);
            &&& answers(reply, action) ==> !(next.step(reply, later, min_active).1 is Refused)
            &&& (action is Done || action is Fail) ==> next.run is None
        }),
{
}

/// How many of the calls report that a request has settled.
pub open spec fn settle_count<T>(ops: Seq<Operation<T>>) -> nat
    decreases ops.len(),
{
    if ops.len() == 0 {
        0
    } else {
        settle_count(ops.drop_last()) + if ops.last() matches Operation::Switch { event, .. }
            && event is Settled {
            1nat
        } else {
            0nat
        }
    }
}

/// The switch lock is held until every request that was told of its model has settled, or all that
/// have not are gone: until then the model stays active and open, whatever else is called.
pub proof fn law_lock_held_until_settled<T>(s: SwitcherView<T>, ops: Seq<Operation<T>>)
    requires
        s.inv(),
        s.run matches Some(run) && run.phase is Settling,
        forall|i: int|
            0 <= i < ops.len() ==> !(#[trigger] ops[i] matches Operation::Switch { event, .. }
                && event is SignalsGone),
        settle_count(ops) < s.run->0.phase->Settling_0,
    ensures
        ({
            let later = s.after(ops);
            &&& later.run matches Some(run) && run.target == s.run->0.target && run.phase
                == Phase::Settling((s.run->0.phase->Settling_0 - settle_count(ops)) as usize)
            &&& later.is_active(s.run->0.target)
            &&& later.registered(s.run->0.target) ==> later.grants(s.run->0.target)
        }),
    decreases ops.len(),
{
    if ops.len() > 0 {
        let init = ops.drop_last();
        assert forall|i: int| 0 <= i < init.len() implies !(#[trigger] init[i] matches
        Operation::Switch { event, .. } && event is SignalsGone) by {
            assert(init[i] == ops[i]);
        }
        assert(ops[ops.len() - 1] == ops.last());
        law_lock_held_until_settled(s, init);
    }
    law_invariant_always_holds(s, ops);
    let later = s.after(ops);
    let target = s.run->0.target;
    if later.registered(target) {
        assert(later.models[target].draining <==> later.closes(target));
    }
}

/// Nothing else frees the lock of a switch whose requests settle, and no lapse of time does: it is
/// freed exactly when the last of them settles, or when all that have not are gone.
pub proof fn law_only_settling_frees_lock<T>(
    s: SwitcherView<T>,
    event: EventView,
    now: nat,
    min_active: nat,
)
    requires
        s.inv(),
        s.run matches Some(run) && run.phase is Settling,
    ensures
        ({
            let (next, action) = s.step(event, now, min_active);
            let open = s.run->0.phase->Settling_0;
            &&& next.run is None <==> (event is Settled && open == 1) || event is SignalsGone
            &&& next.run is None <==> action is Done
            &&& event is Elapsed ==> next == s && action is Refused
        }),
{
}

/// After a switch has handed out requests, the lock stays held for as many of them as were reached,
/// and is freed at once if none was.
pub proof fn law_reached_requests_settle<T>(
    s: SwitcherView<T>,
    reached: nat,
    now: nat,
    min_active: nat,
)
    requires
        s.inv(),
        s.run matches Some(run) && (run.phase matches Phase::Delivering(count) && reached <= count),
    ensures
        ({
            let (next, action) = s.step(EventView::Delivered(reached), now, min_active);
            &&& reached == 0 ==> next.run is None && action is Done
            &&& reached > 0 ==> {
                &&& action is AwaitSettle
                &&& next.run matches Some(run) && run.phase == Phase::Settling(reached as usize)
            }
        }),
{
}

/// How many guards of a model a sequence of calls grants.
pub open spec fn guards_granted<T>(
    s: SwitcherView<T>,
    ops: Seq<Operation<T>>,
    model: Seq<char>,
) -> nat
    decreases ops.len(),
{
    if ops.len() == 0 {
        0
    } else {
        guards_granted(s, ops.drop_last(), model) + if ops.last() == Operation::<T>::Acquire(model)
            && s.after(ops.drop_last()).grants(model) {
            1nat
        } else {
            0nat
        }
    }
}

/// How many guards of a model a sequence of calls gives back.
pub open spec fn guards_returned<T>(ops: Seq<Operation<T>>, model: Seq<char>) -> nat
    decreases ops.len(),
{
    if ops.len() == 0 {
        0
    } else {
        guards_returned(ops.drop_last(), model) + if ops.last() == Operation::<T>::Release(model) {
            1nat
        } else {
            0nat
        }
    }
}

/// The in-flight count of a model is the number of its guards that were granted and not given back,
/// over any sequence of calls in which a guard is given back only where there is one.
pub proof fn law_in_flight_counts_guards<T>(
    s: SwitcherView<T>,
    ops: Seq<Operation<T>>,
    model: Seq<char>,
)
    requires
        forall|k: int|
            0 <= k < ops.len() && #[trigger] ops[k] == Operation::<T>::Release(model) ==> s.after(
                ops.take(k),
            ).in_flight_of(model) > 0,
    ensures
        s.after(ops).in_flight_of(model) + guards_returned(ops, model) == s.in_flight_of(model)
            + guards_granted(s, ops, model),
    decreases ops.len(),
{
    if ops.len() > 0 {
        let init = ops.drop_last();
        let last = ops.len() - 1;
        assert forall|k: int|
            0 <= k < init.len() && #[trigger] init[k] == Operation::<T>::Release(
                model,
            ) implies s.after(init.take(k)).in_flight_of(model) > 0 by {
            assert(ops[k] == init[k]);
            assert(init.take(k) =~= ops.take(k));
        }
        law_in_flight_counts_guards(s, init, model);
        assert(ops.take(last) =~= init);
        assert(ops[last] == ops.last());
        let mid = s.after(init);
        match ops.last() {
            Operation::Switch { event, now, min_active } => {
                law_switch_keeps_in_flight(mid, event, now, min_active, model);
            },
            _ => {},
        }
    }
}

/// A guard that is taken and given back leaves the switcher as it was.
pub proof fn law_release_undoes_acquire<T>(s: SwitcherView<T>, model: Seq<char>)
    requires
        s.grants(model),
    ensures
        s.acquired(model).in_flight_of(model) == s.in_flight_of(model) + 1,
        s.acquired(model).released(model) == s,
{
    assert(s.acquired(model).released(model).models =~= s.models);
}

/// Requests for an active model change nothing and start no switch; neither do those for a model
/// that is not registered.
pub proof fn law_admission_without_wait<T>(
    s: SwitcherView<T>,
    model: Seq<char>,
    now: nat,
    ready_tx: T,
)
    requires
        s.is_active(model) || !s.registered(model),
    ensures
        s.requested(model, now, ready_tx) == s,
{
}

/// A request that waits joins the end of its model's queue, and no other queue changes.
pub proof fn law_queue_is_fifo<T>(
    s: SwitcherView<T>,
    model: Seq<char>,
    now: nat,
    ready_tx: T,
    other: Seq<char>,
)
    requires
        s.registered(model),
        !s.is_active(model),
        other != model,
    ensures
        s.requested(model, now, ready_tx).pending_of(model) == s.pending_of(model).push(
            PendingView { model, queued_at: now, ready_tx },
        ),
        s.requested(model, now, ready_tx).pending_of(other) == s.pending_of(other),
{
}

} // verus!
