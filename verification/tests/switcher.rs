use llmux::{
    backoff, scheduled_switch, wait_outcome, Admission, Duration, FifoPolicy, HookRunner, ModelConfig,
    ModelSwitcher, NameMap, PolicyContext, PolicyDecision, PrepareStep, SwitchAction,
    SwitchCostTracker, SwitchError, SwitchEvent, SwitcherState, TriggerAction, WaitEvent,
};

fn make_test_hooks() -> HookRunner {
    let mut configs = NameMap::new();
    for (name, port) in [("model-a", 8001), ("model-b", 8002)] {
        configs.insert(
            name.to_string(),
            ModelConfig {
                port,
                wake: "true".to_string(),
                sleep: "true".to_string(),
                alive: "true".to_string(),
                priority: None,
            },
        );
    }
    HookRunner::new(configs)
}

fn make_test_switcher() -> ModelSwitcher<u32> {
    ModelSwitcher::new(make_test_hooks(), NameMap::new())
}

fn secs(n: u64) -> Duration {
    Duration::from_secs(n)
}

fn begin(target: &str) -> SwitchEvent {
    SwitchEvent::Begin { target: target.to_string(), forced: false }
}

fn step(s: &mut ModelSwitcher<u32>, event: SwitchEvent, now: u64) -> SwitchAction<u32> {
    s.do_switch(event, secs(now), Duration::zero())
}

/// Runs a switch to a model for which requests wait, until it is over. Gives the hooks that ran
/// and the requests that were told.
fn run_switch(
    s: &mut ModelSwitcher<u32>,
    first: SwitchEvent,
    now: u64,
) -> (Vec<String>, Vec<u32>) {
    let mut hooks = Vec::new();
    let mut told = Vec::new();
    let mut action = step(s, first, now);
    loop {
        let event = match action {
            SwitchAction::Pause(_) => SwitchEvent::Elapsed,
            SwitchAction::Prepare { .. } => SwitchEvent::Prepared,
            SwitchAction::RunSleep(m) => {
                hooks.push(format!("sleep {m}"));
                SwitchEvent::HookDone(Ok(()))
            }
            SwitchAction::RunWake(m) => {
                hooks.push(format!("wake {m}"));
                SwitchEvent::HookDone(Ok(()))
            }
            SwitchAction::Complete { took, .. } => SwitchEvent::Recorded { smoothed: took },
            SwitchAction::Deliver(requests) => {
                told.extend(requests.iter().map(|r| r.ready_tx));
                SwitchEvent::Delivered(requests.len())
            }
            SwitchAction::AwaitSettle => SwitchEvent::Settled,
            SwitchAction::Done => return (hooks, told),
            SwitchAction::Fail { .. } | SwitchAction::Refused => panic!("switch did not go on"),
        };
        action = step(s, event, now);
    }
}

fn activate(s: &mut ModelSwitcher<u32>, model: &str, now: u64) {
    assert!(matches!(
        s.ensure_model_ready(model, secs(now), 0),
        Ok(Admission::Queued(_))
    ));
    run_switch(s, begin(model), now);
    assert_eq!(s.active_model(), Some(model.to_string()));
}

#[test]
fn test_switcher_creation() {
    let switcher = make_test_switcher();

    assert!(switcher.is_registered("model-a"));
    assert!(switcher.is_registered("model-b"));
    assert!(!switcher.is_registered("model-c"));
}

#[test]
fn test_in_flight_tracking() {
    let mut switcher = make_test_switcher();

    assert_eq!(switcher.in_flight_count("model-a"), 0);

    let guard = switcher.acquire_in_flight("model-a").unwrap();
    assert_eq!(switcher.in_flight_count("model-a"), 1);
    switcher.release_in_flight(guard);

    assert_eq!(switcher.in_flight_count("model-a"), 0);
}

#[test]
fn test_acquire_in_flight_rejected_while_draining() {
    let mut switcher = make_test_switcher();
    activate(&mut switcher, "model-a", 0);

    let guard = switcher.acquire_in_flight("model-a");
    assert!(guard.is_some());
    assert_eq!(switcher.in_flight_count("model-a"), 1);
    switcher.release_in_flight(guard.unwrap());

    // A switch away from the model drains it.
    switcher.ensure_model_ready("model-b", secs(1), 1).unwrap();
    assert!(matches!(
        step(&mut switcher, begin("model-b"), 1),
        SwitchAction::Prepare { .. }
    ));

    let guard = switcher.acquire_in_flight("model-a");
    assert!(guard.is_none());
    assert_eq!(switcher.in_flight_count("model-a"), 0);

    // It is open again once its sleep hook is over.
    step(&mut switcher, SwitchEvent::Prepared, 1);
    step(&mut switcher, SwitchEvent::HookDone(Ok(())), 1);

    let guard = switcher.acquire_in_flight("model-a");
    assert!(guard.is_some());
    assert_eq!(switcher.in_flight_count("model-a"), 1);
    switcher.release_in_flight(guard.unwrap());
}

#[test]
fn test_model_port() {
    let switcher = make_test_switcher();

    assert_eq!(switcher.model_port("model-a"), Some(8001));
    assert_eq!(switcher.model_port("model-b"), Some(8002));
    assert_eq!(switcher.model_port("model-c"), None);
}

#[test]
fn test_force_switch_unknown_model() {
    let switcher = make_test_switcher();

    let result = switcher.force_switch("nonexistent");
    assert!(matches!(result, Err(SwitchError::ModelNotFound(_))));
}

#[test]
fn test_force_switch_already_active() {
    let mut switcher = make_test_switcher();
    activate(&mut switcher, "model-a", 0);

    let result = switcher.force_switch("model-a");
    assert!(result.is_ok());
    assert_eq!(result, Ok(None));
}

#[test]
fn forced_switch_needs_no_waiting_request() {
    let mut s = make_test_switcher();
    assert_eq!(
        s.force_switch_outcome("model-a"),
        Err(SwitchError::NotReady("model-a".to_string()))
    );
    let first = s.force_switch("model-a").unwrap().unwrap();
    let (hooks, told) = run_switch(&mut s, first, 1);
    assert_eq!(hooks, vec!["wake model-a"]);
    assert!(told.is_empty());
    assert_eq!(s.force_switch_outcome("model-a"), Ok(()));
}

#[test]
fn stale_switch_is_dropped() {
    let mut s = make_test_switcher();
    assert!(matches!(step(&mut s, begin("model-a"), 1), SwitchAction::Done));
    assert_eq!(s.state(), SwitcherState::Idle);
}

#[test]
fn unknown_model_is_not_found() {
    let mut s = make_test_switcher();
    let error = s.ensure_model_ready("nonexistent", secs(0), 1).unwrap_err();
    assert_eq!(error, SwitchError::ModelNotFound("nonexistent".to_string()));
    assert!(error.message().contains("not found"));
    assert!(s.maybe_trigger_switch("nonexistent", secs(0)).is_none());
    assert!(s.acquire_in_flight("nonexistent").is_none());
}

#[test]
fn switch_sleeps_the_old_model_before_it_wakes_the_new_one() {
    let mut s = make_test_switcher();
    s.ensure_model_ready("model-a", secs(0), 10).unwrap();
    s.ensure_model_ready("model-b", secs(0), 20).unwrap();
    s.ensure_model_ready("model-a", secs(0), 11).unwrap();
    assert_eq!(run_switch(&mut s, begin("model-a"), 0), (
        vec!["wake model-a".to_string()],
        vec![10, 11],
    ));
    assert_eq!(s.queue_depths().get("model-b"), Some(&1));
    assert_eq!(run_switch(&mut s, begin("model-b"), 1), (
        vec!["sleep model-a".to_string(), "wake model-b".to_string()],
        vec![20],
    ));
    assert_eq!(s.queue_depths().get("model-b"), Some(&0));
}

#[test]
fn alternating_requests_are_all_served() {
    let mut s = make_test_switcher();
    for i in 0..6 {
        let model = if i % 2 == 0 { "model-a" } else { "model-b" };
        s.ensure_model_ready(model, secs(0), i).unwrap();
    }
    let mut told = Vec::new();
    for i in 0..6 {
        let model = if i % 2 == 0 { "model-a" } else { "model-b" };
        told.extend(run_switch(&mut s, begin(model), 0).1);
    }
    assert_eq!(told, vec![0, 2, 4, 1, 3, 5]);
}

#[test]
fn requests_for_the_active_model_start_no_switch() {
    let mut s = make_test_switcher();
    activate(&mut s, "model-a", 0);
    for _ in 0..5 {
        assert_eq!(s.ensure_model_ready("model-a", secs(1), 1), Ok(Admission::Active));
    }
    assert_eq!(s.queue_depths().get("model-a"), Some(&0));
}

#[test]
fn request_left_behind_is_told_when_its_model_is_active_already() {
    let mut s = make_test_switcher();
    s.ensure_model_ready("model-a", secs(0), 1).unwrap();
    step(&mut s, begin("model-a"), 0);
    step(&mut s, SwitchEvent::HookDone(Ok(())), 0);
    match step(&mut s, SwitchEvent::Recorded { smoothed: secs(0) }, 0) {
        SwitchAction::Deliver(requests) => assert_eq!(requests.len(), 1),
        _ => panic!("nothing delivered"),
    }
    // The request had gone away: nothing is left to settle.
    assert!(matches!(step(&mut s, SwitchEvent::Delivered(0), 0), SwitchAction::Done));
    let (hooks, told) = run_switch(&mut s, begin("model-a"), 1);
    assert!(hooks.is_empty() && told.is_empty());
}

#[test]
fn lock_is_held_until_the_requests_have_settled_or_gone() {
    let mut s = make_test_switcher();
    s.ensure_model_ready("model-a", secs(0), 1).unwrap();
    s.ensure_model_ready("model-a", secs(0), 2).unwrap();
    step(&mut s, begin("model-a"), 0);
    step(&mut s, SwitchEvent::HookDone(Ok(())), 0);
    step(&mut s, SwitchEvent::Recorded { smoothed: secs(0) }, 0);
    assert!(matches!(step(&mut s, SwitchEvent::Delivered(3), 0), SwitchAction::Refused));
    assert!(matches!(step(&mut s, SwitchEvent::Delivered(2), 0), SwitchAction::AwaitSettle));
    assert!(matches!(step(&mut s, begin("model-b"), 0), SwitchAction::Refused));
    assert!(matches!(step(&mut s, SwitchEvent::Settled, 0), SwitchAction::AwaitSettle));
    // Time alone does not free the lock.
    assert!(matches!(step(&mut s, SwitchEvent::Elapsed, 3600), SwitchAction::Refused));
    assert!(matches!(step(&mut s, begin("model-b"), 3600), SwitchAction::Refused));
    assert!(matches!(step(&mut s, SwitchEvent::SignalsGone, 3600), SwitchAction::Done));
    assert!(matches!(step(&mut s, begin("model-b"), 3600), SwitchAction::Done));
}

#[test]
fn failed_wake_answers_the_requests_and_holds_back_the_next_switch() {
    assert_eq!(backoff(), secs(2));
    let mut s = make_test_switcher();
    activate(&mut s, "model-a", 0);
    s.ensure_model_ready("model-b", secs(3), 7).unwrap();
    step(&mut s, begin("model-b"), 3);
    step(&mut s, SwitchEvent::Prepared, 3);
    // A failing sleep hook does not stop the switch.
    match step(&mut s, SwitchEvent::HookDone(Err("busy".to_string())), 3) {
        SwitchAction::RunWake(m) => assert_eq!(m, "model-b"),
        _ => panic!("no wake"),
    }
    assert_eq!(s.state(), SwitcherState::Switching {
        from: Some("model-a".to_string()),
        to: "model-b".to_string(),
    });
    assert!(s.maybe_trigger_switch("model-b", secs(3)).is_none());
    assert!(s.maybe_trigger_switch("model-a", secs(3)).is_some());
    match step(&mut s, SwitchEvent::HookDone(Err("exit 1".to_string())), 4) {
        SwitchAction::RunSleep(m) => assert_eq!(m, "model-b"),
        _ => panic!("no clean-up"),
    }
    match step(&mut s, SwitchEvent::HookDone(Ok(())), 5) {
        SwitchAction::Fail { requests, answer } => {
            assert_eq!(requests.len(), 1);
            assert_eq!(requests[0].ready_tx, 7);
            assert_eq!(requests[0].model, "model-b");
            let reason = SwitchError::HookFailed {
                model: "model-b".to_string(),
                detail: "exit 1".to_string(),
            };
            assert_eq!(answer, SwitchError::Internal(reason.message()));
        }
        _ => panic!("no answer"),
    }
    assert_eq!(s.state(), SwitcherState::Idle);

    s.ensure_model_ready("model-a", secs(5), 8).unwrap();
    match s.do_switch(begin("model-a"), Duration::from_millis(5500), Duration::zero()) {
        SwitchAction::Pause(d) => assert_eq!(d, Duration::from_millis(1500)),
        _ => panic!("no backoff"),
    }
    match step(&mut s, SwitchEvent::Elapsed, 7) {
        SwitchAction::RunWake(m) => assert_eq!(m, "model-a"),
        _ => panic!("no wake"),
    }
}

#[test]
fn model_stays_active_for_the_cooldown() {
    let mut s = make_test_switcher();
    activate(&mut s, "model-a", 10);
    s.ensure_model_ready("model-b", secs(12), 1).unwrap();
    match s.do_switch(begin("model-b"), secs(12), secs(5)) {
        SwitchAction::Pause(d) => assert_eq!(d, secs(3)),
        _ => panic!("no cooldown"),
    }
    // The model takes requests while it cools down.
    let guard = s.acquire_in_flight("model-a").unwrap();
    s.release_in_flight(guard);
    match s.do_switch(SwitchEvent::Elapsed, secs(15), secs(5)) {
        SwitchAction::Prepare { model, to } => {
            assert_eq!(model, "model-a");
            assert_eq!(to, "model-b");
        }
        _ => panic!("no drain"),
    }
}

#[test]
fn calls_during_a_pause_do_not_shorten_it() {
    let mut s = make_test_switcher();
    activate(&mut s, "model-a", 10);
    s.ensure_model_ready("model-b", secs(12), 1).unwrap();
    match s.do_switch(begin("model-b"), secs(12), secs(5)) {
        SwitchAction::Pause(d) => assert_eq!(d, secs(3)),
        _ => panic!("no cooldown"),
    }
    s.ensure_model_ready("model-b", secs(13), 2).unwrap();
    let guard = s.acquire_in_flight("model-a").unwrap();
    assert!(matches!(
        s.do_switch(begin("model-a"), secs(13), secs(5)),
        SwitchAction::Refused
    ));
    s.release_in_flight(guard);
    assert_eq!(s.build_schedule_context(secs(15)).active_duration, secs(5));
    assert!(matches!(
        s.do_switch(SwitchEvent::Elapsed, secs(15), secs(5)),
        SwitchAction::Prepare { .. }
    ));
}

#[test]
fn draining_waits_for_the_last_request() {
    let policy = FifoPolicy::default();
    let mut s = make_test_switcher();
    activate(&mut s, "model-a", 0);
    let first = s.acquire_in_flight("model-a").unwrap();
    let second = s.acquire_in_flight("model-a").unwrap();
    s.ensure_model_ready("model-b", secs(1), 1).unwrap();
    step(&mut s, begin("model-b"), 1);
    assert_eq!(policy.prepare_switch(s.in_flight_count("model-a")), PrepareStep::Wait);
    let left = s.release_in_flight(first);
    assert_eq!((left.in_flight, left.notify), (1, false));
    assert_eq!(policy.prepare_switch(s.in_flight_count("model-a")), PrepareStep::Wait);
    let left = s.release_in_flight(second);
    assert_eq!((left.in_flight, left.notify), (0, true));
    assert_eq!(policy.prepare_switch(s.in_flight_count("model-a")), PrepareStep::Ready);

    let hasty = FifoPolicy::new(None, false, Duration::zero(), NameMap::new());
    assert_eq!(hasty.prepare_switch(4), PrepareStep::Ready);
}

#[test]
fn switch_costs_are_directional() {
    let mut s = make_test_switcher();
    assert!(s.estimated_switch_cost(None, "model-a").is_none());
    assert!(s.estimated_switch_cost(None, "model-b").is_none());

    s.ensure_model_ready("model-a", secs(0), 1).unwrap();
    step(&mut s, begin("model-a"), 0);
    match step(&mut s, SwitchEvent::HookDone(Ok(())), 3) {
        SwitchAction::Complete { from, to, took, estimate } => {
            assert_eq!(from, None);
            assert_eq!(to, "model-a");
            assert_eq!(took, secs(3));
            assert_eq!(estimate, None);
        }
        _ => panic!("not complete"),
    }
    step(&mut s, SwitchEvent::Recorded { smoothed: secs(99) }, 3);
    step(&mut s, SwitchEvent::Delivered(0), 3);
    assert_eq!(s.estimated_switch_cost(None, "model-a"), Some(secs(3)));
    assert_eq!(s.estimated_switch_cost(Some("model-a"), "model-b"), None);

    s.ensure_model_ready("model-b", secs(4), 2).unwrap();
    run_switch(&mut s, begin("model-b"), 4);
    assert!(s.estimated_switch_cost(Some("model-a"), "model-b").is_some());
    assert!(s.estimated_switch_cost(Some("model-b"), "model-a").is_none());
}

#[test]
fn later_observations_are_smoothed() {
    let mut costs = SwitchCostTracker::new();
    let a = Some("a".to_string());
    costs.record(&a, "b", secs(10), secs(1));
    assert_eq!(costs.estimate(Some("a"), "b"), Some(secs(10)));
    costs.record(&a, "b", secs(20), secs(13));
    assert_eq!(costs.estimate(Some("a"), "b"), Some(secs(13)));
    costs.record(&None, "b", secs(4), secs(0));
    costs.record(&a, "c", secs(6), secs(0));
    let row = costs.estimates_from(&a);
    assert_eq!(row.len(), 2);
    assert_eq!(row.get("c"), Some(&secs(6)));
    assert_eq!(costs.estimates_from(&None).len(), 1);
    assert_eq!(costs.estimates_from(&Some("z".to_string())).len(), 0);
}

fn context(target: Option<u8>, active: Option<u8>, active_model: Option<&str>) -> PolicyContext {
    PolicyContext {
        target_model: "model-b".to_string(),
        target_priority: target,
        active_model: active_model.map(|m| m.to_string()),
        active_priority: active,
        target_queue_depth: 1,
        oldest_waiting: Duration::zero(),
        active_in_flight: 0,
        active_duration: Duration::zero(),
        estimated_switch_cost: None,
        higher_priority_pending: false,
    }
}

fn skips(ctx: PolicyContext) -> bool {
    let decision: PolicyDecision<()> = FifoPolicy::default().on_pending_request(&ctx);
    matches!(decision, PolicyDecision::Skip)
}

#[test]
fn important_model_resists_preemption() {
    let a = Some("model-a");
    assert!(skips(context(Some(1), Some(3), a)));
    assert!(!skips(context(Some(3), Some(1), a)));
    assert!(!skips(context(Some(2), Some(2), a)));
    // Without a priority a model counts as low.
    assert!(skips(context(None, Some(2), a)));
    assert!(!skips(context(None, Some(1), a)));
    assert!(!skips(context(Some(1), None, a)));
    assert!(!skips(context(None, None, a)));
    assert!(!skips(context(Some(1), None, None)));
}

#[test]
fn waiting_requests_for_a_more_important_model_come_first() {
    let a = Some("model-a");
    for active in [None, a] {
        let mut ctx = context(Some(2), Some(1), active);
        ctx.higher_priority_pending = true;
        assert!(skips(ctx));
    }

    let mut priorities = NameMap::new();
    priorities.insert("model-a".to_string(), Some(3u8));
    let mut s: ModelSwitcher<u32> = ModelSwitcher::new(make_test_hooks(), priorities);
    s.ensure_model_ready("model-b", secs(0), 1).unwrap();
    let alone = s.maybe_trigger_switch("model-b", secs(0)).unwrap();
    assert!(!alone.higher_priority_pending);
    assert!(!skips(alone));
    s.ensure_model_ready("model-a", secs(0), 2).unwrap();
    assert!(skips(s.maybe_trigger_switch("model-b", secs(0)).unwrap()));
    assert!(!skips(s.maybe_trigger_switch("model-a", secs(0)).unwrap()));
}

#[test]
fn in_flight_count_is_the_number_of_guards() {
    let mut s = make_test_switcher();
    let mut guards = Vec::new();
    for n in 1..=4 {
        guards.push(s.acquire_in_flight("model-a").unwrap());
        assert_eq!(s.in_flight_count("model-a"), n);
    }
    while let Some(guard) = guards.pop() {
        s.release_in_flight(guard);
        assert_eq!(s.in_flight_count("model-a"), guards.len());
    }
    assert_eq!(s.in_flight_count("model-b"), 0);
}

#[test]
fn decisions_start_switches() {
    match TriggerAction::from_decision(PolicyDecision::<u8>::SwitchNow, "m") {
        TriggerAction::Switch(e) => assert_eq!(e, begin("m")),
        _ => panic!("no switch"),
    }
    match TriggerAction::from_decision(PolicyDecision::Defer(5u8), "m") {
        TriggerAction::SwitchAfter(f, e) => assert_eq!((f, e), (5, begin("m"))),
        _ => panic!("no switch"),
    }
    assert!(matches!(
        TriggerAction::from_decision(PolicyDecision::<u8>::Skip, "m"),
        TriggerAction::Stay
    ));
}

#[test]
fn scheduler_picks_start_switches() {
    assert_eq!(scheduled_switch(Some("m".to_string())), Some(begin("m")));
    assert_eq!(scheduled_switch(None), None);
}

#[test]
fn contexts_describe_the_switcher() {
    let mut priorities = NameMap::new();
    priorities.insert("model-a".to_string(), Some(3u8));
    priorities.insert("model-b".to_string(), None);
    let mut s: ModelSwitcher<u32> = ModelSwitcher::new(make_test_hooks(), priorities);
    activate(&mut s, "model-a", 10);
    let _guard = s.acquire_in_flight("model-a").unwrap();
    s.ensure_model_ready("model-b", secs(12), 1).unwrap();
    s.ensure_model_ready("model-b", secs(13), 2).unwrap();

    let ctx = s.maybe_trigger_switch("model-b", secs(15)).unwrap();
    assert_eq!(ctx.target_model, "model-b");
    assert_eq!(ctx.target_priority, None);
    assert_eq!(ctx.active_model, Some("model-a".to_string()));
    assert_eq!(ctx.active_priority, Some(3));
    assert_eq!(ctx.target_queue_depth, 2);
    assert_eq!(ctx.oldest_waiting, secs(3));
    assert_eq!(ctx.active_in_flight, 1);
    assert_eq!(ctx.active_duration, secs(5));
    assert_eq!(ctx.estimated_switch_cost, None);

    let ctx = s.build_schedule_context(secs(16));
    assert_eq!(ctx.active_model, Some("model-a".to_string()));
    assert_eq!(ctx.active_priority, Some(3));
    assert_eq!(ctx.active_duration, secs(6));
    assert_eq!(ctx.active_in_flight, 1);
    assert_eq!(ctx.queue_depths.get("model-a"), Some(&0));
    assert_eq!(ctx.queue_depths.get("model-b"), Some(&2));
    assert_eq!(ctx.model_priorities.get("model-a"), Some(&3));
    assert_eq!(ctx.model_priorities.get("model-b"), Some(&1));
    assert_eq!(ctx.switch_costs.len(), 0);
    assert_eq!(s.registered_models(), vec!["model-a".to_string(), "model-b".to_string()]);
    assert_eq!(s.hooks().model_port("model-a"), Some(8001));
}

#[test]
fn waits_end_with_an_answer_a_closed_channel_or_a_timeout() {
    assert_eq!(wait_outcome(WaitEvent::Answered(Ok(5u8))), Ok(Some(5)));
    let error = SwitchError::Internal("hook".to_string());
    assert_eq!(wait_outcome(WaitEvent::<u8>::Answered(Err(error.clone()))), Err(error));
    assert_eq!(
        wait_outcome(WaitEvent::<u8>::ChannelClosed),
        Err(SwitchError::Internal("channel closed".to_string()))
    );
    assert_eq!(wait_outcome(WaitEvent::<u8>::TimedOut), Err(SwitchError::Timeout));
}

#[test]
fn errors_have_texts() {
    let m = "m".to_string();
    assert_eq!(SwitchError::ModelNotFound(m.clone()).message(), "model not found: m");
    assert_eq!(SwitchError::NotReady(m.clone()).message(), "model not ready: m");
    assert_eq!(SwitchError::Timeout.message(), "request timed out");
    assert_eq!(
        SwitchError::HookFailed { model: m.clone(), detail: "d".to_string() }.message(),
        "hook failed for model m: d"
    );
    assert_eq!(SwitchError::Internal(m).message(), "internal error: m");
}

#[test]
fn switch_to_an_unregistered_model_goes_to_its_hooks() {
    let mut s = make_test_switcher();
    assert_eq!(
        run_switch(&mut s, begin("ghost"), 0),
        (vec!["wake ghost".to_string()], vec![])
    );
    // An unregistered model has nothing to drain.
    s.ensure_model_ready("model-a", secs(1), 1).unwrap();
    assert_eq!(
        run_switch(&mut s, begin("model-a"), 1).0,
        vec!["sleep ghost".to_string(), "wake model-a".to_string()]
    );
}
