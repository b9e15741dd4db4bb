//! What each call does, told by the state before it and the state after it.

use vstd::prelude::*;

use super::model::{
    since, ActionView, EventView, PendingView, Phase, RunView, SwitcherView,
};
use super::requests::begin_unforced;
use super::{PendingRequest, SwitchAction, SwitchEvent};
use crate::config::ModelConfig;
use crate::cost::SwitchPair;
use crate::time::Duration;
use crate::types::{ErrorView, StateView, SwitchError};

verus! {

// ---- what is read off a switcher ----

/// Questions about a model are answered by its entry and by the state: a model is active exactly
/// when the state says so, and a switch to it is under way exactly when the state is `Switching`
/// with that target, wherever the switch comes from.
pub proof fn law_questions_read_the_state<T>(s: SwitcherView<T>, model: Seq<char>)
    ensures
        s.registered(model) <==> s.models.contains_key(model),
        s.is_active(model) <==> s.state == (StateView::Active { model }),
        s.switching_to(model) <==> s.state is Switching && s.state->to == model,
        s.grants(model) <==> s.models.contains_key(model) && !s.models[model].draining,
        s.models.contains_key(model) ==> {
            &&& s.in_flight_of(model) == s.models[model].in_flight
            &&& s.pending_of(model) == s.models[model].pending
        },
        !s.models.contains_key(model) ==> {
            &&& s.in_flight_of(model) == 0
            &&& s.pending_of(model) == Seq::<PendingView<T>>::empty()
        },
        s.priorities.contains_key(model) ==> s.priority_of(model) == s.priorities[model],
        !s.priorities.contains_key(model) ==> s.priority_of(model) is None,
{
}

/// What is said of the active model is said of the model that the state names, and nothing is said
/// of any while the switcher is idle or between two models.
pub proof fn law_active_model_is_the_states<T>(s: SwitcherView<T>)
    ensures
        s.state matches StateView::Active { model } ==> {
            &&& s.state.active() == Some(model)
            &&& s.active_priority() == if s.priorities.contains_key(model) {
                s.priorities[model]
            } else {
                None
            }
            &&& s.active_in_flight() == if s.models.contains_key(model) {
                s.models[model].in_flight
            } else {
                0
            }
        },
        !(s.state is Active) ==> {
            &&& s.state.active() is None
            &&& s.active_priority() is None
            &&& s.active_in_flight() == 0
        },
{
}

/// A moment that has passed is as long ago as the clock has gone since; one that never was, and one
/// still to come, is no time ago.
pub proof fn law_since_counts_from_the_moment(t: nat, now: nat)
    ensures
        t <= now ==> t + since(Some(t), now) == now,
        now < t ==> since(Some(t), now) == 0,
        since(None, now) == 0,
{
}

/// How important a model of the switcher is: its explicit priority, and 1 without one.
pub open spec fn standing<T>(s: SwitcherView<T>, model: Seq<char>) -> int {
    if s.priorities.contains_key(model) && s.priorities[model] is Some {
        s.priorities[model]->0 as int
    } else {
        1
    }
}

/// A more important model is said to have requests waiting exactly when there is one: a registered
/// model of strictly greater importance with a queue that is not empty.
pub proof fn law_more_important_waiting<T>(
    s: SwitcherView<T>,
    target: Seq<char>,
    other: Seq<char>,
)
    ensures
        s.models.contains_key(other) && s.models[other].pending.len() > 0 && standing(s, other)
            > standing(s, target) ==> s.more_important_waiting(target),
        s.more_important_waiting(target) ==> exists|m: Seq<char>| #[trigger]
            s.models.contains_key(m) && s.models[m].pending.len() > 0 && standing(s, m)
                > standing(s, target),
{
    if s.models.contains_key(other) {
        assert(s.registered(other));
    }
    if s.more_important_waiting(target) {
        let m = choose|m: Seq<char>|
            {
                &&& #[trigger] s.registered(m)
                &&& s.pending_of(m).len() > 0
                &&& crate::policy::effective_priority(s.priority_of(target))
                    < crate::policy::effective_priority(s.priority_of(m))
            };
        assert(s.models.contains_key(m));
    }
}

/// What the policy is told of a registered model that requests wait for: the model and its explicit
/// priority, its queue and the wait of the first request in it, and of the active model its name,
/// its explicit priority, its load, its time since activation and the estimated way from it.
pub proof fn law_policy_is_told_the_facts<T>(s: SwitcherView<T>, target: Seq<char>, now: nat)
    requires
        s.models.contains_key(target),
    ensures
        ({
            let ctx = s.policy_context(target, now);
            let queue = s.models[target].pending;
            &&& ctx.target_model == target
            &&& ctx.target_priority == if s.priorities.contains_key(target) {
                s.priorities[target]
            } else {
                None
            }
            &&& ctx.target_queue_depth == queue.len()
            &&& queue.len() == 0 ==> ctx.oldest_waiting == 0
            &&& queue.len() > 0 && queue[0].queued_at <= now ==> queue[0].queued_at
                + ctx.oldest_waiting == now
            &&& queue.len() > 0 && now < queue[0].queued_at ==> ctx.oldest_waiting == 0
            &&& s.activated_at is None ==> ctx.active_duration == 0
            &&& s.activated_at matches Some(t) ==> if t <= now {
                t + ctx.active_duration == now
            } else {
                ctx.active_duration == 0
            }
            &&& s.state matches StateView::Active { model } ==> {
                &&& ctx.active_model == Some(model)
                &&& ctx.active_priority == if s.priorities.contains_key(model) {
                    s.priorities[model]
                } else {
                    None
                }
                &&& ctx.active_in_flight == if s.models.contains_key(model) {
                    s.models[model].in_flight
                } else {
                    0
                }
                &&& ctx.estimated_switch_cost == if s.costs.contains_key((Some(model), target)) {
                    Some(s.costs[(Some(model), target)])
                } else {
                    None
                }
            }
            &&& !(s.state is Active) ==> {
                &&& ctx.active_model is None
                &&& ctx.active_priority is None
                &&& ctx.active_in_flight == 0
                &&& ctx.estimated_switch_cost == if s.costs.contains_key((None, target)) {
                    Some(s.costs[(None, target)])
                } else {
                    None
                }
            }
            &&& ctx.higher_priority_pending == s.more_important_waiting(target)
        }),
{
}

// ---- requests ----

/// A request for a registered model that is not active joins the end of that model's queue with its
/// time and its channel; every other request changes nothing, and nothing else changes.
pub proof fn law_request_waits_for_its_model<T>(
    s: SwitcherView<T>,
    model: Seq<char>,
    now: nat,
    ready_tx: T,
    other: Seq<char>,
)
    requires
        other != model,
    ensures
        ({
            let next = s.requested(model, now, ready_tx);
            let waits = s.models.contains_key(model) && s.state != (StateView::Active { model });
            &&& !waits ==> next == s
            &&& waits ==> {
                let queue = s.models[model].pending;
                let longer = next.models[model].pending;
                &&& longer.len() == queue.len() + 1
                &&& longer.drop_last() == queue
                &&& longer.last().model == model
                &&& longer.last().queued_at == now
                &&& longer.last().ready_tx == ready_tx
                &&& next.models[model].in_flight == s.models[model].in_flight
                &&& next.models[model].draining == s.models[model].draining
            }
            &&& next.models.dom() == s.models.dom()
            &&& next.models[other] == s.models[other]
            &&& same_but_models(s, next)
        }),
{
    let next = s.requested(model, now, ready_tx);
    assert(next.models.dom() =~= s.models.dom());
    if s.models.contains_key(model) && s.state != (StateView::Active { model }) {
        assert(next.models[model].pending.drop_last() =~= s.models[model].pending);
    }
}

/// Whether two switchers differ at most in what they keep of each model.
pub open spec fn same_but_models<T>(s: SwitcherView<T>, next: SwitcherView<T>) -> bool {
    &&& next.names == s.names
    &&& next.configs == s.configs
    &&& next.state == s.state
    &&& next.priorities == s.priorities
    &&& next.activated_at == s.activated_at
    &&& next.last_switch_failure == s.last_switch_failure
    &&& next.costs == s.costs
    &&& next.run == s.run
}

/// A registered model that is not draining, active or not, serves one request more when asked; any
/// other one serves no more than before, and nothing else changes.
pub proof fn law_guard_is_granted_unless_draining<T>(
    s: SwitcherView<T>,
    model: Seq<char>,
    other: Seq<char>,
)
    requires
        other != model,
    ensures
        ({
            let next = s.acquired(model);
            let granted = s.models.contains_key(model) && !s.models[model].draining;
            &&& !granted ==> next == s
            &&& granted ==> {
                &&& next.models[model].in_flight == s.models[model].in_flight + 1
                &&& next.models[model].draining == s.models[model].draining
                &&& next.models[model].pending == s.models[model].pending
            }
            &&& next.models.dom() == s.models.dom()
            &&& next.models[other] == s.models[other]
            &&& same_but_models(s, next)
        }),
{
    assert(s.acquired(model).models.dom() =~= s.models.dom());
}

/// A guard that is given back lowers the count of its own model by one, draining or not, and
/// changes nothing else.
pub proof fn law_guard_is_given_back<T>(s: SwitcherView<T>, model: Seq<char>, other: Seq<char>)
    requires
        other != model,
        s.models.contains_key(model),
        s.models[model].in_flight > 0,
    ensures
        ({
            let next = s.released(model);
            &&& next.models[model].in_flight + 1 == s.models[model].in_flight
            &&& next.models[model].draining == s.models[model].draining
            &&& next.models[model].pending == s.models[model].pending
            &&& next.models.dom() == s.models.dom()
            &&& next.models[other] == s.models[other]
            &&& same_but_models(s, next)
        }),
{
    assert(s.released(model).models.dom() =~= s.models.dom());
}

/// A new switcher is idle, with every configured model registered, open, unasked for and serving
/// nothing, with the priorities it was given and with no memory of activations, failures or costs.
pub proof fn law_new_switcher_is_idle<T>(
    names: Seq<Seq<char>>,
    configs: Map<Seq<char>, ModelConfig>,
    priorities: Map<Seq<char>, Option<u8>>,
    model: Seq<char>,
)
    ensures
        ({
            let s = SwitcherView::<T>::initial(names, configs, priorities);
            &&& s.names == names
            &&& s.configs == configs
            &&& s.priorities == priorities
            &&& s.state is Idle
            &&& s.run is None
            &&& s.activated_at is None
            &&& s.last_switch_failure is None
            &&& forall|p: SwitchPair| !s.costs.contains_key(p)
            &&& s.models.contains_key(model) <==> configs.contains_key(model)
            &&& s.models.contains_key(model) ==> {
                &&& s.models[model].in_flight == 0
                &&& !s.models[model].draining
                &&& s.models[model].pending.len() == 0
            }
        }),
{
}

// ---- the start of a switch ----

/// Whether a switch failed less than two seconds ago.
pub open spec fn failed_recently<T>(s: SwitcherView<T>, now: nat) -> bool {
    s.last_switch_failure matches Some(t) && now < t + 2_000_000_000
}

/// Whether an event makes a switch to the target be taken up: it is asked for while the lock is
/// free and no switch has failed recently, or its pause after a failed one is over.
pub open spec fn taken_up<T>(
    s: SwitcherView<T>,
    event: EventView,
    now: nat,
    target: Seq<char>,
    forced: bool,
    started: nat,
) -> bool {
    ||| s.run is None && event == (EventView::Begin { target, forced }) && !failed_recently(s, now)
        && started == now
    ||| {
        &&& s.run matches Some(run) && run.phase == Phase::Backoff && run.target == target
            && run.forced == forced && run.started == started
        &&& event == EventView::Elapsed
    }
}

/// A switch is held back exactly when another one failed less than two seconds ago, and then for
/// what is left of the two seconds; nothing but the lock changes.
pub proof fn law_held_back_only_after_failure<T>(
    s: SwitcherView<T>,
    target: Seq<char>,
    forced: bool,
    now: nat,
    min_active: nat,
)
    requires
        s.run is None,
    ensures
        ({
            let (next, action) = s.step(EventView::Begin { target, forced }, now, min_active);
            let held_back = next.run matches Some(run) && run.phase == Phase::Backoff;
            &&& held_back <==> failed_recently(s, now)
            &&& held_back ==> {
                let t = s.last_switch_failure->0;
                &&& action matches ActionView::Pause(rest) && if t <= now {
                    now + rest == t + 2_000_000_000
                } else {
                    rest == 2_000_000_000
                }
                &&& next.run->0.target == target
                &&& next.run->0.forced == forced
                &&& next.run->0.started == now
                &&& SwitcherView { run: None::<RunView>, ..next } == s
            }
        }),
{
}

/// A switch that is called for goes ahead, however many requests any model is serving: it is called
/// for unless its target is active already, or it is not forced and no request waits for its
/// registered target. The state then says where it comes from and where it goes; no queue, count or
/// estimate changes, and the old model alone can be closed.
pub proof fn law_called_for_switch_goes_ahead<T>(
    s: SwitcherView<T>,
    event: EventView,
    now: nat,
    min_active: nat,
    target: Seq<char>,
    forced: bool,
    started: nat,
    model: Seq<char>,
)
    requires
        taken_up(s, event, now, target, forced, started),
        s.state != (StateView::Active { model: target }),
        forced || !s.models.contains_key(target) || s.models[target].pending.len() > 0,
    ensures
        ({
            let (next, action) = s.step(event, now, min_active);
            let from = match s.state {
                StateView::Active { model } => Some(model),
                _ => None,
            };
            &&& next.state == (StateView::Switching { from, to: target })
            &&& next.run matches Some(run) && run.target == target && run.from == from
                && run.forced == forced && run.started == started
            &&& next.models.dom() == s.models.dom()
            &&& s.models.contains_key(model) ==> {
                &&& next.models[model].in_flight == s.models[model].in_flight
                &&& next.models[model].pending == s.models[model].pending
                &&& next.models[model].draining <==> s.models[model].draining || (action is Prepare
                    && from == Some(model))
            }
            &&& same_record(s, next)
        }),
{
    let next = s.step(event, now, min_active).0;
    assert(next.models.dom() =~= s.models.dom());
}

/// Whether two switchers agree on everything but the state, the models and the switch under way.
pub open spec fn same_record<T>(s: SwitcherView<T>, next: SwitcherView<T>) -> bool {
    &&& next.names == s.names
    &&& next.configs == s.configs
    &&& next.priorities == s.priorities
    &&& next.activated_at == s.activated_at
    &&& next.last_switch_failure == s.last_switch_failure
    &&& next.costs == s.costs
}

/// From an idle switcher, a switch that is called for wakes its target at once.
pub proof fn law_cold_start_wakes_at_once<T>(
    s: SwitcherView<T>,
    event: EventView,
    now: nat,
    min_active: nat,
    target: Seq<char>,
    forced: bool,
    started: nat,
)
    requires
        taken_up(s, event, now, target, forced, started),
        s.state is Idle,
        forced || !s.models.contains_key(target) || s.models[target].pending.len() > 0,
    ensures
        s.step(event, now, min_active).1 == ActionView::<T>::RunWake(target),
        s.step(event, now, min_active).0.run->0.phase == Phase::Waking,
{
}

/// Leaving an active model, a switch pauses exactly when the model has not been active for
/// `min_active`, and then for what is left of that time; otherwise the same step closes the model
/// and lets the policy prepare, or runs the sleep hook of a model that is not registered.
pub proof fn law_cooldown_is_what_is_left<T>(
    s: SwitcherView<T>,
    event: EventView,
    now: nat,
    min_active: nat,
    target: Seq<char>,
    forced: bool,
    started: nat,
)
    requires
        s.inv(),
        taken_up(s, event, now, target, forced, started),
        s.state is Active,
        s.state->model != target,
        forced || !s.models.contains_key(target) || s.models[target].pending.len() > 0,
    ensures
        ({
            let (next, action) = s.step(event, now, min_active);
            let active = s.state->model;
            let since = s.activated_at->0;
            let phase = next.run->0.phase;
            let early = min_active > 0 && now < since + min_active;
            &&& s.activated_at is Some
            &&& early ==> {
                &&& phase == Phase::Cooldown
                &&& action matches ActionView::Pause(rest) && if since <= now {
                    now + rest == since + min_active
                } else {
                    rest == min_active
                }
            }
            &&& !early && s.models.contains_key(active) ==> {
                &&& phase == Phase::Draining
                &&& action == (ActionView::<T>::Prepare { model: active, to: target })
                &&& next.models[active].draining
            }
            &&& !early && !s.models.contains_key(active) ==> {
                &&& phase == Phase::Sleeping
                &&& action == ActionView::<T>::RunSleep(active)
            }
        }),
{
}

/// No step taken when an active model has been active for `min_active` leads into the cooldown.
pub proof fn law_no_needless_cooldown<T>(
    s: SwitcherView<T>,
    event: EventView,
    now: nat,
    min_active: nat,
)
    requires
        s.inv(),
        s.state is Active,
        s.activated_at->0 + min_active <= now,
    ensures
        ({
            let (next, action) = s.step(event, now, min_active);
            !(next.run matches Some(run) && run.phase == Phase::Cooldown)
        }),
{
}

/// A switch whose target is active already runs no hook and changes no state: the requests that
/// wait for the target are handed out, all of them and in order, and without any it is over.
pub proof fn law_active_target_is_served<T>(
    s: SwitcherView<T>,
    event: EventView,
    now: nat,
    min_active: nat,
    target: Seq<char>,
    forced: bool,
    started: nat,
    other: Seq<char>,
)
    requires
        taken_up(s, event, now, target, forced, started),
        s.state == (StateView::Active { model: target }),
        other != target,
    ensures
        ({
            let (next, action) = s.step(event, now, min_active);
            let waiting = s.models.contains_key(target) && s.models[target].pending.len() > 0;
            &&& next.state == s.state
            &&& same_record(s, next)
            &&& next.models.dom() == s.models.dom()
            &&& next.models[other] == s.models[other]
            &&& waiting ==> {
                &&& action == ActionView::Deliver(s.models[target].pending)
                &&& next.models[target].pending.len() == 0
                &&& next.models[target].in_flight == s.models[target].in_flight
                &&& next.models[target].draining == s.models[target].draining
                &&& next.run matches Some(run) && run.target == target && run.phase
                    == Phase::Delivering(s.models[target].pending.len() as usize)
            }
            &&& !waiting ==> {
                &&& action is Done
                &&& next.run is None
                &&& next.models == s.models
            }
        }),
{
    assert(s.step(event, now, min_active).0.models.dom() =~= s.models.dom());
}

/// A switch that is not forced, to a registered model that is not active and that no request waits
/// for, is over at once, and nothing has changed.
pub proof fn law_uncalled_for_switch_is_over<T>(
    s: SwitcherView<T>,
    event: EventView,
    now: nat,
    min_active: nat,
    target: Seq<char>,
    started: nat,
)
    requires
        taken_up(s, event, now, target, false, started),
        s.state != (StateView::Active { model: target }),
        s.models.contains_key(target),
        s.models[target].pending.len() == 0,
    ensures
        ({
            let (next, action) = s.step(event, now, min_active);
            &&& action is Done
            &&& next == SwitcherView { run: None::<RunView>, ..s }
        }),
{
}

// ---- from the old model to the new one ----

/// When the cooldown is over, at whatever time, the old model is closed and the policy prepares; a
/// model that is not registered goes straight to its sleep hook.
pub proof fn law_after_cooldown<T>(
    s: SwitcherView<T>,
    now: nat,
    min_active: nat,
    other: Seq<char>,
)
    requires
        s.inv(),
        s.run is Some,
        s.run->0.phase == Phase::Cooldown,
        s.run->0.from != Some(other),
    ensures
        ({
            let (next, action) = s.step(EventView::Elapsed, now, min_active);
            let run = s.run->0;
            let old_model = run.from->0;
            &&& run.from is Some
            &&& next.state == s.state
            &&& same_record(s, next)
            &&& next.models.dom() == s.models.dom()
            &&& next.models[other] == s.models[other]
            &&& s.models.contains_key(old_model) ==> {
                &&& action == (ActionView::<T>::Prepare { model: old_model, to: run.target })
                &&& next.models[old_model].draining
                &&& next.models[old_model].in_flight == s.models[old_model].in_flight
                &&& next.models[old_model].pending == s.models[old_model].pending
                &&& next.run == Some(RunView { phase: Phase::Draining, ..run })
            }
            &&& !s.models.contains_key(old_model) ==> {
                &&& action == ActionView::<T>::RunSleep(old_model)
                &&& next.run == Some(RunView { phase: Phase::Sleeping, ..run })
            }
        }),
{
    assert(s.step(EventView::Elapsed, now, min_active).0.models.dom() =~= s.models.dom());
}

/// When the policy is ready, the old model's sleep hook is run, whatever it is serving; that it was
/// serving nothing is remembered, and nothing else changes.
pub proof fn law_prepared_model_is_put_to_sleep<T>(s: SwitcherView<T>, now: nat, min_active: nat)
    requires
        s.inv(),
        s.run is Some,
        s.run->0.phase == Phase::Draining,
    ensures
        ({
            let (next, action) = s.step(EventView::Prepared, now, min_active);
            let old_model = s.run->0.from->0;
            &&& s.run->0.from is Some
            &&& action == ActionView::<T>::RunSleep(old_model)
            &&& next.models == s.models
            &&& next.state == s.state
            &&& same_record(s, next)
            &&& next.run matches Some(run) && run.phase == Phase::Sleeping && run.drained == (
            s.models[old_model].in_flight == 0) && run.target == s.run->0.target && run.from
                == s.run->0.from && run.started == s.run->0.started && run.forced
                == s.run->0.forced
        }),
{
}

/// When the old model's sleep hook is over, failed or not, the old model is open again and the wake
/// hook of the target is run; nothing else changes.
pub proof fn law_slept_model_makes_way<T>(
    s: SwitcherView<T>,
    result: Result<(), Seq<char>>,
    now: nat,
    min_active: nat,
    other: Seq<char>,
)
    requires
        s.inv(),
        s.run is Some,
        s.run->0.phase == Phase::Sleeping,
        s.run->0.from != Some(other),
    ensures
        ({
            let (next, action) = s.step(EventView::HookDone(result), now, min_active);
            let run = s.run->0;
            let old_model = run.from->0;
            &&& action == ActionView::<T>::RunWake(run.target)
            &&& next.run == Some(RunView { phase: Phase::Waking, ..run })
            &&& next.state == s.state
            &&& same_record(s, next)
            &&& next.models.dom() == s.models.dom()
            &&& next.models[other] == s.models[other]
            &&& s.models.contains_key(old_model) ==> {
                &&& !next.models[old_model].draining
                &&& next.models[old_model].in_flight == s.models[old_model].in_flight
                &&& next.models[old_model].pending == s.models[old_model].pending
            }
        }),
{
    assert(s.step(EventView::HookDone(result), now, min_active).0.models.dom()
        =~= s.models.dom());
}

/// What a completed switch reports: where it came from and went, the time since it was begun, and
/// the former estimate of that very pair, which is missing only if the pair was never observed. Its
/// target is active from now on, and the last failure is forgotten; no model and no estimate has
/// changed yet.
pub proof fn law_completed_switch_reports<T>(s: SwitcherView<T>, now: nat, min_active: nat)
    requires
        s.run is Some,
        s.run->0.phase == Phase::Waking,
    ensures
        ({
            let (next, action) = s.step(EventView::HookDone(Ok(())), now, min_active);
            let run = s.run->0;
            let pair = (run.from, run.target);
            &&& action matches ActionView::Complete { from, to, took, estimate } && {
                &&& from == run.from
                &&& to == run.target
                &&& run.started <= now ==> run.started + took == now
                &&& now < run.started ==> took == 0
                &&& s.costs.contains_key(pair) ==> estimate == Some(s.costs[pair])
                &&& !s.costs.contains_key(pair) ==> estimate is None
                &&& next.run == Some(RunView { phase: Phase::Recording, took, ..run })
            }
            &&& next.state == (StateView::Active { model: run.target })
            &&& next.activated_at == Some(now)
            &&& next.last_switch_failure is None
            &&& next.models == s.models
            &&& next.costs == s.costs
            &&& next.priorities == s.priorities
            &&& next.configs == s.configs
            &&& next.names == s.names
        }),
{
}

/// Recording a switch gives its pair an estimate, the time it took if there was none and the
/// smoothed one if there was, and touches no other pair; the requests for the active target are
/// then handed out, all of them and in order.
pub proof fn law_recorded_switch_serves_its_requests<T>(
    s: SwitcherView<T>,
    smoothed: nat,
    now: nat,
    min_active: nat,
    pair: SwitchPair,
    other: Seq<char>,
)
    requires
        s.run is Some,
        s.run->0.phase == Phase::Recording,
        other != s.run->0.target,
    ensures
        ({
            let (next, action) = s.step(EventView::Recorded { smoothed }, now, min_active);
            let run = s.run->0;
            let own = (run.from, run.target);
            let waiting = s.models.contains_key(run.target) && s.models[run.target].pending.len()
                > 0;
            &&& next.costs.contains_key(own)
            &&& s.costs.contains_key(own) ==> next.costs[own] == smoothed
            &&& !s.costs.contains_key(own) ==> next.costs[own] == run.took
            &&& pair != own ==> {
                &&& next.costs.contains_key(pair) <==> s.costs.contains_key(pair)
                &&& s.costs.contains_key(pair) ==> next.costs[pair] == s.costs[pair]
            }
            &&& next.state == s.state
            &&& next.activated_at == s.activated_at
            &&& next.last_switch_failure == s.last_switch_failure
            &&& next.priorities == s.priorities
            &&& next.configs == s.configs
            &&& next.names == s.names
            &&& next.models.dom() == s.models.dom()
            &&& next.models[other] == s.models[other]
            &&& waiting ==> {
                &&& action == ActionView::Deliver(s.models[run.target].pending)
                &&& next.models[run.target].pending.len() == 0
                &&& next.models[run.target].in_flight == s.models[run.target].in_flight
                &&& next.models[run.target].draining == s.models[run.target].draining
                &&& next.run == Some(
                    RunView {
                        phase: Phase::Delivering(s.models[run.target].pending.len() as usize),
                        ..run
                    },
                )
            }
            &&& !waiting ==> {
                &&& action is Done
                &&& next.run is None
                &&& next.models == s.models
            }
        }),
{
    assert(s.step(EventView::Recorded { smoothed }, now, min_active).0.models.dom()
        =~= s.models.dom());
}

/// When the wake hook fails, the target's sleep hook is run and the reason kept; nothing else
/// changes.
pub proof fn law_failed_wake_is_cleaned_up<T>(
    s: SwitcherView<T>,
    detail: Seq<char>,
    now: nat,
    min_active: nat,
)
    requires
        s.run is Some,
        s.run->0.phase == Phase::Waking,
    ensures
        ({
            let (next, action) = s.step(EventView::HookDone(Err(detail)), now, min_active);
            let run = s.run->0;
            &&& action == ActionView::<T>::RunSleep(run.target)
            &&& next.run == Some(
                RunView { phase: Phase::CleaningUp, failure: Some(detail), ..run },
            )
            &&& next.state == s.state
            &&& next.models == s.models
            &&& same_record(s, next)
        }),
{
}

/// After the clean-up, succeeded or not, the switcher is idle, the time of the failure is now and
/// the lock is free; every request that waited for the target, and no other one, is answered with
/// the model and the reason.
pub proof fn law_failure_is_answered<T>(
    s: SwitcherView<T>,
    result: Result<(), Seq<char>>,
    now: nat,
    min_active: nat,
    other: Seq<char>,
)
    requires
        s.inv(),
        s.run is Some,
        s.run->0.phase == Phase::CleaningUp,
        other != s.run->0.target,
    ensures
        ({
            let (next, action) = s.step(EventView::HookDone(result), now, min_active);
            let run = s.run->0;
            let known = s.models.contains_key(run.target);
            &&& action matches ActionView::Fail { requests, answer } && {
                &&& known ==> requests == s.models[run.target].pending
                &&& !known ==> requests.len() == 0
                &&& answer == ErrorView::Internal(
                    "hook failed for model "@ + run.target + ": "@ + run.failure->0,
                )
            }
            &&& run.failure is Some
            &&& next.state is Idle
            &&& next.run is None
            &&& next.last_switch_failure == Some(now)
            &&& next.activated_at == s.activated_at
            &&& next.costs == s.costs
            &&& next.priorities == s.priorities
            &&& next.configs == s.configs
            &&& next.names == s.names
            &&& next.models.dom() == s.models.dom()
            &&& next.models[other] == s.models[other]
            &&& known ==> {
                &&& next.models[run.target].pending.len() == 0
                &&& next.models[run.target].in_flight == s.models[run.target].in_flight
                &&& next.models[run.target].draining == s.models[run.target].draining
            }
        }),
{
    assert(s.step(EventView::HookDone(result), now, min_active).0.models.dom()
        =~= s.models.dom());
}

/// After requests were handed out, the switch waits for as many as were reached, and is over if
/// none was; a number greater than that of the requests is refused. Each one that settles is one
/// less, and when all others are gone it is over. Nothing but the switch itself changes.
pub proof fn law_settling_counts_down<T>(
    s: SwitcherView<T>,
    event: EventView,
    now: nat,
    min_active: nat,
)
    requires
        s.inv(),
        s.run is Some,
        s.run->0.phase is Delivering || s.run->0.phase is Settling,
    ensures
        ({
            let (next, action) = s.step(event, now, min_active);
            let run = s.run->0;
            &&& SwitcherView { run: s.run, ..next } == s
            &&& run.phase matches Phase::Delivering(count) ==> match event {
                EventView::Delivered(reached) => {
                    &&& reached > count ==> action is Refused && next.run == s.run
                    &&& reached == 0 ==> action is Done && next.run is None
                    &&& 0 < reached <= count ==> action is AwaitSettle && next.run == Some(
                        RunView { phase: Phase::Settling(reached as usize), ..run },
                    )
                },
                _ => action is Refused && next.run == s.run,
            }
            &&& run.phase matches Phase::Settling(open) ==> match event {
                EventView::Settled => if open == 1 {
                    action is Done && next.run is None
                } else {
                    action is AwaitSettle && next.run == Some(
                        RunView { phase: Phase::Settling((open - 1) as usize), ..run },
                    )
                },
                EventView::SignalsGone => action is Done && next.run is None,
                _ => action is Refused && next.run == s.run,
            }
        }),
{
}

/// An event is taken exactly in the phase it belongs to, and one that is refused changes nothing.
pub proof fn law_events_have_their_phase<T>(
    s: SwitcherView<T>,
    event: EventView,
    now: nat,
    min_active: nat,
)
    ensures
        ({
            let (next, action) = s.step(event, now, min_active);
            let fits = match s.run {
                None => event is Begin,
                Some(run) => match run.phase {
                    Phase::Backoff | Phase::Cooldown => event is Elapsed,
                    Phase::Draining => event is Prepared,
                    Phase::Sleeping | Phase::Waking | Phase::CleaningUp => event is HookDone,
                    Phase::Recording => event is Recorded,
                    Phase::Delivering(count) => event is Delivered && event->Delivered_0 <= count,
                    Phase::Settling(_) => event is Settled || event is SignalsGone,
                },
            };
            &&& action is Refused <==> !fits
            &&& action is Refused ==> next == s
        }),
{
}

/// A switch that follows from a policy's decision is one that is not forced: without a request that
/// waits for its registered target, which is not active, it is over before it has changed anything.
pub proof fn law_decided_switch_needs_a_request<T>(
    s: SwitcherView<T>,
    target: Seq<char>,
    now: nat,
    min_active: nat,
)
    requires
        s.run is None,
        !failed_recently(s, now),
        s.state != (StateView::Active { model: target }),
        s.models.contains_key(target),
    ensures
        begin_unforced(target) == (EventView::Begin { target, forced: false }),
        s.models[target].pending.len() == 0 ==> s.step(begin_unforced(target), now, min_active) == (
            s,
            ActionView::<T>::Done,
        ),
        s.models[target].pending.len() > 0 ==> s.step(
            begin_unforced(target),
            now,
            min_active,
        ).0.state is Switching,
{
}

// ---- what is said to a switcher, and what it says ----

/// Nothing of an event is lost in its view.
pub proof fn law_event_kept(
    target: String,
    forced: bool,
    detail: String,
    smoothed: Duration,
    reached: usize,
)
    ensures
        (SwitchEvent::Begin { target, forced })@ == (EventView::Begin { target: target@, forced }),
        SwitchEvent::Elapsed@ is Elapsed,
        SwitchEvent::Prepared@ is Prepared,
        SwitchEvent::HookDone(Ok(()))@ == EventView::HookDone(Ok(())),
        SwitchEvent::HookDone(Err(detail))@ == EventView::HookDone(Err(detail@)),
        (SwitchEvent::Recorded { smoothed })@ == (EventView::Recorded { smoothed: smoothed@ }),
        SwitchEvent::Delivered(reached)@ == EventView::Delivered(reached as nat),
        SwitchEvent::Settled@ is Settled,
        SwitchEvent::SignalsGone@ is SignalsGone,
{
}

/// Nothing of an action is lost in its view.
pub proof fn law_action_kept<T>(
    model: String,
    to: String,
    from: Option<String>,
    took: Duration,
    estimate: Option<Duration>,
)
    ensures
        SwitchAction::<T>::Refused@ is Refused,
        SwitchAction::<T>::Pause(took)@ == ActionView::<T>::Pause(took@),
        (SwitchAction::<T>::Prepare { model, to })@ == (ActionView::<T>::Prepare {
            model: model@,
            to: to@,
        }),
        SwitchAction::<T>::RunSleep(model)@ == ActionView::<T>::RunSleep(model@),
        SwitchAction::<T>::RunWake(model)@ == ActionView::<T>::RunWake(model@),
        (SwitchAction::<T>::Complete { from, to, took, estimate })@ == (ActionView::<T>::Complete {
            from: match from {
                Some(f) => Some(f@),
                None => None,
            },
            to: to@,
            took: took@,
            estimate: match estimate {
                Some(d) => Some(d@),
                None => None,
            },
        }),
        SwitchAction::<T>::AwaitSettle@ is AwaitSettle,
        SwitchAction::<T>::Done@ is Done,
{
}

/// The view of the requests that an action carries has each of them in its place, with its model,
/// its time and the means to answer it.
pub proof fn law_requests_kept<T>(
    requests: Vec<PendingRequest<T>>,
    answer: SwitchError,
    i: int,
)
    ensures
        SwitchAction::<T>::Deliver(requests)@ matches ActionView::Deliver(views) && {
            &&& views.len() == requests@.len()
            &&& 0 <= i < views.len() ==> {
                &&& views[i].model == requests@[i].model@
                &&& views[i].queued_at == requests@[i].queued_at@
                &&& views[i].ready_tx == requests@[i].ready_tx
            }
            &&& (SwitchAction::<T>::Fail { requests, answer })@ == (ActionView::<T>::Fail {
                requests: views,
                answer: answer@,
            })
        },
{
}

} // verus!
