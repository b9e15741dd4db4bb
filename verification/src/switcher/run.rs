//! How a switch goes on.

use vstd::prelude::*;

use super::laws::law_step_keeps_invariant;
use super::model::{Phase, RunView, SwitcherView};
use super::{
    backoff, model_views, queue_view, ModelState, ModelSwitcher, PendingRequest, SwitchAction,
    SwitchEvent, SwitchRun,
};
use crate::time::Duration;
use crate::types::{copy_opt_name, ErrorView, SwitchError, SwitcherState};

verus! {

/// The requests that waited for a model, and the answer that each of them gets.
struct Notice<T> {
    requests: Vec<PendingRequest<T>>,
    answer: Result<(), SwitchError>,
}

impl<T> ModelSwitcher<T> {
    /// Replaces what is kept of a registered model.
    pub(super) fn set_model(&mut self, model: &str, value: ModelState<T>)
        ensures
            final(self)@ == old(self)@.with_model(model@, value@),
    {
        let ghost before = self.model_states@;
        let mut value = value;
        let ghost view = value@;
        let _found = self.model_states.swap(model, &mut value);
        proof {
            if before.contains_key(model@) {
                assert(model_views(self.model_states@) =~= model_views(before).insert(
                    model@,
                    view,
                ));
            }
            assert(self@ =~= old(self)@.with_model(model@, view));
        }
    }

    /// Takes what is kept of a model, and leaves a fresh one in its place.
    pub(super) fn take_model(&mut self, model: &str) -> (value: ModelState<T>)
        requires
            old(self)@.registered(model@),
        ensures
            value@ == old(self)@.models[model@],
            final(self)@ == old(self)@.with_model(model@, final(self)@.models[model@]),
    {
        let ghost before = self.model_states@;
        let mut value: ModelState<T> = ModelState::new();
        let ghost view = value@;
        let _found = self.model_states.swap(model, &mut value);
        proof {
            assert(model_views(self.model_states@) =~= model_views(before).insert(model@, view));
            assert(self@ =~= old(self)@.with_model(model@, view));
        }
        value
    }

    /// Closes a model to new requests, or opens it again.
    fn set_draining(&mut self, model: &str, draining: bool)
        ensures
            final(self)@ == old(self)@.with_draining(model@, draining),
    {
        if self.is_registered(model) {
            let mut state = self.take_model(model);
            state.draining = draining;
            self.set_model(model, state);
            assert(self@.models =~= old(self)@.with_draining(model@, draining).models);
        }
    }

    /// Empties the queue of a model, and says what the requests in it are answered.
    fn notify_pending(&mut self, model: &str, result: Result<(), SwitchError>) -> (notice: Notice<T>)
        ensures
            queue_view(notice.requests@) == old(self)@.pending_of(model@),
            final(self)@ == old(self)@.with_pending(model@, Seq::empty()),
            match result {
                Ok(_) => notice.answer is Ok,
                Err(e) => notice.answer matches Err(a) && a@ == ErrorView::Internal(e@.message()),
            },
    {
        let answer = match result {
            Ok(()) => Ok(()),
            Err(e) => Err(SwitchError::Internal(e.message())),
        };
        let mut requests: Vec<PendingRequest<T>> = Vec::new();
        assert(queue_view(requests@) =~= Seq::empty());
        if self.is_registered(model) {
            let mut state = self.take_model(model);
            std::mem::swap(&mut requests, &mut state.pending);
            self.set_model(model, state);
            assert(self@.models =~= old(self)@.with_pending(model@, Seq::empty()).models);
        }
        Notice { requests, answer }
    }

    /// Takes the switch lock.
    fn begin(&mut self, target: String, forced: bool, now: Duration, min_active: Duration)
        -> (action: SwitchAction<T>)
        requires
            old(self)@.run is None,
        ensures
            (final(self)@, action@) == old(self)@.begun(target@, forced, now@, min_active@),
    {
        let run = SwitchRun {
            target,
            forced,
            started: now,
            from: None,
            drained: false,
            took: Duration::zero(),
            failure: None,
            phase: Phase::Backoff,
        };
        if let Some(failed_at) = self.last_switch_failure {
            let elapsed = now.saturating_sub(&failed_at);
            let limit = backoff();
            if elapsed.shorter_than(&limit) {
                let remaining = limit.saturating_sub(&elapsed);
                self.run = Some(run);
                return SwitchAction::Pause(remaining);
            }
        }
        self.check_target(run, now, min_active)
    }

    /// Decides whether the switch is still called for.
    fn check_target(&mut self, run: SwitchRun, now: Duration, min_active: Duration) -> (action:
        SwitchAction<T>)
        requires
            old(self)@.run is None,
        ensures
            (final(self)@, action@) == old(self)@.checked(run@, now@, min_active@),
    {
        if self.is_active(run.target.as_str()) {
            return self.notify_active(run);
        }
        if !run.forced {
            if let Some(state) = self.model_states.get(run.target.as_str()) {
                if state.pending.len() == 0 {
                    return SwitchAction::Done;
                }
            }
        }
        let mut run = run;
        run.from = self.active_model();
        run.phase = Phase::Cooldown;
        self.state = SwitcherState::Switching {
            from: copy_opt_name(&run.from),
            to: run.target.clone(),
        };
        if run.from.is_some() {
            if let Some(activated) = self.activated_at {
                let elapsed = now.saturating_sub(&activated);
                if elapsed.shorter_than(&min_active) {
                    let remaining = min_active.saturating_sub(&elapsed);
                    self.run = Some(run);
                    return SwitchAction::Pause(remaining);
                }
            }
        }
        self.start_drain(run)
    }

    /// Closes the old model to new requests, if there is one.
    fn start_drain(&mut self, run: SwitchRun) -> (action: SwitchAction<T>)
        ensures
            (final(self)@, action@) == old(self)@.cooled(run@),
    {
        let mut run = run;
        let from = match &run.from {
            None => {
                return self.start_wake(run);
            },
            Some(from) => from.clone(),
        };
        if self.is_registered(from.as_str()) {
            self.set_draining(from.as_str(), true);
            let to = run.target.clone();
            run.phase = Phase::Draining;
            self.run = Some(run);
            SwitchAction::Prepare { model: from, to }
        } else {
            run.phase = Phase::Sleeping;
            self.run = Some(run);
            SwitchAction::RunSleep(from)
        }
    }

    /// Wakes the new model.
    fn start_wake(&mut self, run: SwitchRun) -> (action: SwitchAction<T>)
        ensures
            (final(self)@, action@) == old(self)@.waking(run@),
    {
        let mut run = run;
        let to = run.target.clone();
        run.phase = Phase::Waking;
        self.run = Some(run);
        SwitchAction::RunWake(to)
    }

    /// Hands out the requests that wait for the active model.
    fn notify_active(&mut self, run: SwitchRun) -> (action: SwitchAction<T>)
        ensures
            (final(self)@, action@) == old(self)@.notified(run@),
    {
        let mut run = run;
        let notice = self.notify_pending(run.target.as_str(), Ok(()));
        let count = notice.requests.len();
        if count == 0 {
            self.run = None;
            proof {
                let requests = old(self)@.pending_of(run@.target);
                assert(requests.len() == 0);
                assert(requests =~= Seq::empty());
                assert(self@.models =~= old(self)@.models);
            }
            SwitchAction::Done
        } else {
            run.phase = Phase::Delivering(count);
            self.run = Some(run);
            SwitchAction::Deliver(notice.requests)
        }
    }

    /// Takes note of the outcome of the wake hook.
    fn woken(&mut self, run: SwitchRun, result: Result<(), String>, now: Duration) -> (action:
        SwitchAction<T>)
        ensures
            (final(self)@, action@) == match result {
                Ok(_) => old(self)@.activated(run@, now@),
                Err(detail) => old(self)@.wake_failed(run@, detail@),
            },
    {
        let mut run = run;
        match result {
            Ok(()) => {
                let took = now.saturating_sub(&run.started);
                self.state = SwitcherState::Active { model: run.target.clone() };
                self.activated_at = Some(now);
                self.last_switch_failure = None;
                let from = match &run.from {
                    Some(f) => Some(f.as_str()),
                    None => None,
                };
                let estimate = self.cost_tracker.estimate(from, run.target.as_str());
                let from = copy_opt_name(&run.from);
                let to = run.target.clone();
                run.took = took;
                run.phase = Phase::Recording;
                self.run = Some(run);
                SwitchAction::Complete { from, to, took, estimate }
            },
            Err(detail) => {
                let target = run.target.clone();
                run.failure = Some(detail);
                run.phase = Phase::CleaningUp;
                self.run = Some(run);
                SwitchAction::RunSleep(target)
            },
        }
    }

    /// Gives up the switch after the new model was put back to sleep.
    fn give_up(&mut self, run: SwitchRun, now: Duration) -> (action: SwitchAction<T>)
        requires
            run@.failure is Some,
        ensures
            (final(self)@, action@) == old(self)@.failed(run@, now@),
    {
        let detail = match run.failure {
            Some(detail) => detail,
            None => String::new(),
        };
        let error = SwitchError::HookFailed { model: run.target.clone(), detail };
        let notice = self.notify_pending(run.target.as_str(), Err(error));
        self.last_switch_failure = Some(now);
        self.state = SwitcherState::Idle;
        self.run = None;
        match notice.answer {
            Ok(()) => SwitchAction::Done,
            Err(answer) => SwitchAction::Fail { requests: notice.requests, answer },
        }
    }

    /// Waits for so many requests to settle.
    fn await_settle(&mut self, run: SwitchRun, open: usize) -> (action: SwitchAction<T>)
        ensures
            (final(self)@, action@) == old(self)@.settling(run@, open as nat),
    {
        let mut run = run;
        if open == 0 {
            self.run = None;
            SwitchAction::Done
        } else {
            run.phase = Phase::Settling(open);
            self.run = Some(run);
            SwitchAction::AwaitSettle
        }
    }

    /// Takes a switch on by one event, and says what is to be done next. `min_active` is how long
    /// the policy keeps a model active before it can be put to sleep.
    pub fn do_switch(&mut self, event: SwitchEvent, now: Duration, min_active: Duration) -> (action:
        SwitchAction<T>)
        requires
            old(self).wf(),
        ensures
            (final(self)@, action@) == old(self)@.step(event@, now@, min_active@),
            final(self).wf(),
    {
        let ghost before = self@;
        let ghost what = event@;
        proof {
            law_step_keeps_invariant(before, what, now@, min_active@);
        }
        let run = match self.run.take() {
            Some(run) => run,
            None => {
                assert(self@ =~= before);
                return match event {
                    SwitchEvent::Begin { target, forced } => {
                        self.begin(target, forced, now, min_active)
                    },
                    _ => SwitchAction::Refused,
                };
            },
        };
        assert(self@ =~= before.with_run(None));
        let ghost held = run@;
        proof {
            lemma_run_ignored(before, held);
        }
        match (run.phase, event) {
            (Phase::Backoff, SwitchEvent::Elapsed) => self.check_target(run, now, min_active),
            (Phase::Cooldown, SwitchEvent::Elapsed) => self.start_drain(run),
            (Phase::Draining, SwitchEvent::Prepared) => {
                let mut run = run;
                let from = match &run.from {
                    Some(from) => from.clone(),
                    None => String::new(),
                };
                run.drained = self.in_flight_count(from.as_str()) == 0;
                run.phase = Phase::Sleeping;
                self.run = Some(run);
                SwitchAction::RunSleep(from)
            },
            (Phase::Sleeping, SwitchEvent::HookDone(_)) => {
                if let Some(from) = &run.from {
                    self.set_draining(from.as_str(), false);
                }
                self.start_wake(run)
            },
            (Phase::Waking, SwitchEvent::HookDone(result)) => self.woken(run, result, now),
            (Phase::CleaningUp, SwitchEvent::HookDone(_)) => self.give_up(run, now),
            (Phase::Recording, SwitchEvent::Recorded { smoothed }) => {
                self.cost_tracker.record(&run.from, run.target.as_str(), run.took, smoothed);
                self.notify_active(run)
            },
            (Phase::Delivering(count), SwitchEvent::Delivered(reached)) => {
                if reached <= count {
                    self.await_settle(run, reached)
                } else {
                    self.run = Some(run);
                    SwitchAction::Refused
                }
            },
            (Phase::Settling(open), SwitchEvent::Settled) => {
                let left = if open > 0 {
                    open - 1
                } else {
                    0
                };
                self.await_settle(run, left)
            },
            (Phase::Settling(_), SwitchEvent::SignalsGone) => SwitchAction::Done,
            _ => {
                self.run = Some(run);
                SwitchAction::Refused
            },
        }
    }
}

/// The steps of a switch look at the switch they are given, not at the one that was recorded.
proof fn lemma_run_ignored<T>(s: SwitcherView<T>, run: RunView)
    requires
        s.run == Some(run),
    ensures
        forall|now: nat, min: nat| #[trigger]
            s.with_run(None).checked(run, now, min) == s.checked(run, now, min),
        s.with_run(None).cooled(run) == s.cooled(run),
        s.with_run(None).slept(run) == s.slept(run),
        s.with_run(None).notified(run) == s.notified(run),
        forall|smoothed: nat| #[trigger]
            s.with_run(None).recorded(run, smoothed) == s.recorded(run, smoothed),
        forall|now: nat| #[trigger] s.with_run(None).failed(run, now) == s.failed(run, now),
        forall|open: nat| #[trigger] s.with_run(None).settling(run, open) == s.settling(run, open),
{
}

} // verus!
