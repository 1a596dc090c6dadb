use std::path::PathBuf;
use std::sync::Arc;

use local_stt::error::Error;
use local_stt::get::{GetOutcome, GetPhase};
use local_stt::manager::{
    ActiveModel, LoadJob, LoadOutcome, LoadState, ModelLoadState, ModelManager, MonitorAction,
    MonitorEvent,
};

#[derive(Debug)]
struct MockModel;

const fn millis(n: u128) -> u128 {
    n * 1_000_000
}

const fn secs(n: u128) -> u128 {
    n * 1_000_000_000
}

fn build_manager(timeout: u128, check_interval: u128, models: &[&str]) -> ModelManager<MockModel> {
    let mut builder = ModelManager::<MockModel>::builder()
        .inactivity_timeout(timeout)
        .check_interval(check_interval);
    for name in models {
        builder = builder.register(name.to_string(), PathBuf::from(format!("/models/{}.bin", name)));
    }
    builder.build()
}

/// Runs a load whose loader makes a model, or fails as it is told to.
fn run_load(mgr: &mut ModelManager<MockModel>, job: LoadJob, fail: bool, now: u128) -> bool {
    let shown = job.path.display().to_string();
    let outcome = if fail {
        LoadOutcome::LoaderFailed("mock error".to_string())
    } else {
        LoadOutcome::Loaded(MockModel)
    };
    let result = ModelManager::load_model(shown, outcome);
    mgr.finish_load(job.name, result, now)
}

/// Drives a request until it is done; a load that it starts ends when it waits.
fn get(
    mgr: &mut ModelManager<MockModel>,
    name: Option<&str>,
    now: u128,
) -> Result<Arc<MockModel>, Error> {
    let mut request = mgr.begin_get(name)?;
    let mut pending: Option<LoadJob> = None;
    loop {
        let step = mgr.get(&mut request, now);
        if let Some(job) = step.job {
            assert!(pending.is_none());
            assert!(step.notify);
            pending = Some(job);
        }
        match step.outcome {
            GetOutcome::Again => {}
            GetOutcome::Wait => {
                let job = pending.take().unwrap();
                assert!(run_load(mgr, job, false, now));
            }
            GetOutcome::Return(result) => return result,
        }
    }
}

fn report(mgr: &mut ModelManager<MockModel>, name: &str, now: u128) -> ModelLoadState {
    mgr.snapshot(Some(name), now).ok().unwrap().value
}

fn tick(mgr: &mut ModelManager<MockModel>, now: u128) -> bool {
    match mgr.monitor(MonitorEvent::Tick, now) {
        MonitorAction::Continue { notify } => notify,
        MonitorAction::Stop => panic!("the monitor goes on at a tick"),
    }
}

#[test]
fn idle_model_gets_evicted() {
    let mut mgr = build_manager(millis(100), millis(10), &["a"]);

    let m1 = get(&mut mgr, Some("a"), 0).unwrap();
    let m2 = get(&mut mgr, Some("a"), 0).unwrap();
    assert!(Arc::ptr_eq(&m1, &m2));

    let now = millis(120);
    assert!(tick(&mut mgr, now));

    let m3 = get(&mut mgr, Some("a"), now).unwrap();
    assert!(!Arc::ptr_eq(&m1, &m3));
}

#[test]
fn activity_prevents_eviction() {
    let mut mgr = build_manager(millis(100), millis(10), &["a"]);
    let mut now = 0;

    let m1 = get(&mut mgr, Some("a"), now).unwrap();

    for _ in 0..5 {
        now += millis(50);
        assert!(!tick(&mut mgr, now));

        let m = get(&mut mgr, Some("a"), now).unwrap();
        assert!(Arc::ptr_eq(&m1, &m));
    }
}

#[test]
fn access_near_timeout_resets_timer() {
    let mut mgr = build_manager(millis(100), millis(10), &["a"]);
    let mut now = 0;

    let m1 = get(&mut mgr, Some("a"), now).unwrap();

    now += millis(90);
    assert!(!tick(&mut mgr, now));

    let m2 = get(&mut mgr, Some("a"), now).unwrap();
    assert!(Arc::ptr_eq(&m1, &m2));

    now += millis(50);
    assert!(!tick(&mut mgr, now));

    let m3 = get(&mut mgr, Some("a"), now).unwrap();
    assert!(Arc::ptr_eq(&m1, &m3));
}

#[test]
fn access_after_timeout_before_monitor_tick_reloads() {
    let mut mgr = build_manager(millis(100), secs(60), &["a"]);

    let m1 = get(&mut mgr, Some("a"), 0).unwrap();
    let m2 = get(&mut mgr, Some("a"), millis(120)).unwrap();
    assert!(!Arc::ptr_eq(&m1, &m2));
}

#[test]
fn ensure_loading_starts_one_background_load() {
    let mut mgr = build_manager(secs(60), secs(1), &["a"]);

    let a = mgr.ensure_loading(Some("a"), 0).ok().unwrap();
    let b = mgr.ensure_loading(Some("a"), 0).ok().unwrap();
    assert!(a.is_some() || b.is_some());
    assert_eq!(report(&mut mgr, "a", 0), ModelLoadState::Loading);

    let mut loads = 0;
    for job in a.into_iter().chain(b) {
        loads += 1;
        assert!(run_load(&mut mgr, job, false, millis(50)));
    }

    assert_eq!(report(&mut mgr, "a", millis(60)), ModelLoadState::Ready);
    assert_eq!(loads, 1);
    assert!(mgr.get_if_ready(Some("a"), millis(60)).ok().unwrap().value.is_some());
}

#[test]
fn failed_load_can_be_retried() {
    let mut mgr = build_manager(secs(60), secs(1), &["a"]);
    let mut loads = 0;

    let job = mgr.ensure_loading(Some("a"), 0).ok().unwrap().unwrap();
    loads += 1;
    assert!(run_load(&mut mgr, job, true, millis(10)));
    assert!(matches!(report(&mut mgr, "a", millis(20)), ModelLoadState::Failed { .. }));

    let job = mgr.ensure_loading(Some("a"), millis(20)).ok().unwrap().unwrap();
    loads += 1;
    assert!(run_load(&mut mgr, job, false, millis(30)));
    assert_eq!(report(&mut mgr, "a", millis(40)), ModelLoadState::Ready);
    assert_eq!(loads, 2);
}

#[test]
fn snapshot_returns_idle_after_eviction() {
    let mut mgr = build_manager(millis(100), millis(10), &["a"]);

    assert_eq!(report(&mut mgr, "a", 0), ModelLoadState::Idle);
    let _ = get(&mut mgr, Some("a"), 0).unwrap();
    assert_eq!(report(&mut mgr, "a", 0), ModelLoadState::Ready);

    assert!(tick(&mut mgr, millis(120)));
    assert_eq!(report(&mut mgr, "a", millis(120)), ModelLoadState::Idle);
}

#[test]
fn model_is_kept_up_to_the_timeout_and_not_beyond() {
    let mut mgr = build_manager(millis(100), millis(10), &["a"]);
    let _ = get(&mut mgr, Some("a"), 0).unwrap();
    assert_eq!(report(&mut mgr, "a", millis(100)), ModelLoadState::Ready);
    let seen = mgr.snapshot(Some("a"), millis(100) + 1).ok().unwrap();
    assert_eq!(seen.value, ModelLoadState::Idle);
    assert!(seen.notify);
    assert!(!mgr.snapshot(Some("a"), millis(100) + 1).ok().unwrap().notify);
}

#[test]
fn clock_that_reads_earlier_does_not_evict() {
    let mut mgr = build_manager(0, millis(10), &["a"]);
    let _ = get(&mut mgr, Some("a"), 500).unwrap();
    assert_eq!(report(&mut mgr, "a", 400), ModelLoadState::Ready);
}

#[test]
fn keep_alive_counts_as_use_of_a_loaded_model_only() {
    let mut mgr = build_manager(millis(100), millis(10), &["a"]);
    mgr.keep_alive(0);
    assert_eq!(report(&mut mgr, "a", 0), ModelLoadState::Idle);
    let m1 = get(&mut mgr, Some("a"), 0).unwrap();
    mgr.keep_alive(millis(90));
    let m2 = get(&mut mgr, Some("a"), millis(180)).unwrap();
    assert!(Arc::ptr_eq(&m1, &m2));
}

#[test]
fn monitor_stops_at_shutdown() {
    let mut mgr = build_manager(0, millis(10), &["a"]);
    let _ = get(&mut mgr, Some("a"), 0).unwrap();
    assert!(matches!(mgr.monitor(MonitorEvent::Shutdown, secs(1)), MonitorAction::Stop));
    assert_eq!(mgr.check_interval(), millis(10));
}

#[test]
fn names_and_paths_that_are_unknown_are_refused() {
    let mut mgr = build_manager(millis(100), millis(10), &["a"]);
    assert_eq!(mgr.snapshot(None, 0).err(), Some(Error::NoDefaultModel));
    assert_eq!(mgr.get_if_ready(None, 0).err(), Some(Error::NoDefaultModel));
    assert_eq!(mgr.ensure_loading(None, 0).err(), Some(Error::NoDefaultModel));
    assert_eq!(mgr.begin_get(None).err(), Some(Error::NoDefaultModel));
    let missing = Error::ModelNotRegistered("b".to_string());
    assert_eq!(mgr.ensure_loading(Some("b"), 0).err(), Some(missing.clone()));
    assert_eq!(get(&mut mgr, Some("b"), 0).err(), Some(missing));
    assert_eq!(report(&mut mgr, "b", 0), ModelLoadState::Idle);

    mgr.set_default("a".to_string());
    let m1 = get(&mut mgr, None, 0).unwrap();
    let m2 = get(&mut mgr, Some("a"), 0).unwrap();
    assert!(Arc::ptr_eq(&m1, &m2));
}

#[test]
fn registered_path_is_the_one_that_is_loaded() {
    let mut mgr = build_manager(millis(100), millis(10), &["a", "b"]);
    mgr.register("a".to_string(), PathBuf::from("/elsewhere/a.bin"));
    let job = mgr.ensure_loading(Some("a"), 0).ok().unwrap().unwrap();
    assert_eq!(job.name, "a");
    assert_eq!(job.path, PathBuf::from("/elsewhere/a.bin"));
    assert_eq!(mgr.resolve_path("b").ok(), Some(PathBuf::from("/models/b.bin")));
}

#[test]
fn stale_load_is_ignored() {
    let mut mgr = build_manager(secs(60), secs(1), &["a", "b"]);

    let a = mgr.ensure_loading(Some("a"), 0).ok().unwrap().unwrap();
    let b = mgr.ensure_loading(Some("b"), 0).ok().unwrap().unwrap();
    assert_eq!(report(&mut mgr, "a", 0), ModelLoadState::Idle);
    assert!(!run_load(&mut mgr, a, false, 1));
    assert_eq!(report(&mut mgr, "b", 1), ModelLoadState::Loading);
    assert!(run_load(&mut mgr, b, false, 2));
    assert_eq!(report(&mut mgr, "b", 2), ModelLoadState::Ready);

    let a = mgr.ensure_loading(Some("a"), 3).ok().unwrap().unwrap();
    assert_eq!(report(&mut mgr, "b", 3), ModelLoadState::Idle);
    assert!(mgr.unregister("a"));
    assert!(!run_load(&mut mgr, a, false, 4));
    assert_eq!(report(&mut mgr, "a", 4), ModelLoadState::Idle);
    assert!(!mgr.unregister("a"));
    assert!(!mgr.unregister("b"));
}

#[test]
fn failed_load_is_retried_by_a_new_request_and_returned_to_one_that_waited() {
    let mut mgr = build_manager(secs(60), secs(1), &["a"]);
    let mut request = mgr.begin_get(Some("a")).ok().unwrap();
    let mut jobs = Vec::new();
    loop {
        let step = mgr.get(&mut request, 0);
        jobs.extend(step.job);
        match step.outcome {
            GetOutcome::Again => {}
            GetOutcome::Wait => break,
            GetOutcome::Return(_) => panic!("nothing is loaded yet"),
        }
    }
    assert_eq!(jobs.len(), 1);
    assert!(request.waited_for_load);
    assert_eq!(request.phase, GetPhase::Fetch);
    assert!(run_load(&mut mgr, jobs.pop().unwrap(), true, 1));
    let failure = "failed to load model: mock error".to_string();
    assert_eq!(report(&mut mgr, "a", 1), ModelLoadState::Failed { error: failure.clone() });

    let outcome = loop {
        let step = mgr.get(&mut request, 1);
        assert!(step.job.is_none());
        match step.outcome {
            GetOutcome::Again => {}
            GetOutcome::Wait => panic!("the load has ended"),
            GetOutcome::Return(result) => break result,
        }
    };
    assert_eq!(outcome.err(), Some(Error::StoredLoadFailure(failure)));

    assert!(get(&mut mgr, Some("a"), 2).is_ok());
}

#[test]
fn failure_seen_on_the_last_look_ends_the_request() {
    let mut mgr = build_manager(secs(60), secs(1), &["a"]);
    let mut request = mgr.begin_get(Some("a")).ok().unwrap();
    let mut job = None;
    while request.phase != GetPhase::Recheck {
        let step = mgr.get(&mut request, 0);
        job = job.or(step.job);
    }
    assert!(run_load(&mut mgr, job.unwrap(), true, 0));
    match mgr.get(&mut request, 0).outcome {
        GetOutcome::Return(Err(Error::StoredLoadFailure(message))) => {
            assert_eq!(message, "failed to load model: mock error");
        }
        _ => panic!("the failure is returned"),
    }
}

#[test]
fn request_comes_back_when_its_model_went_away_in_between() {
    let mut mgr = build_manager(secs(60), secs(1), &["a", "b"]);
    let mut request = mgr.begin_get(Some("a")).ok().unwrap();
    while request.phase != GetPhase::Recheck {
        mgr.get(&mut request, 0);
    }
    let _ = mgr.ensure_loading(Some("b"), 0);
    assert!(matches!(mgr.get(&mut request, 0).outcome, GetOutcome::Again));
    assert_eq!(request.phase, GetPhase::Fetch);
    assert!(!request.waited_for_load);
}

#[test]
fn loads_end_in_each_kind_of_result() {
    let missing =
        ModelManager::<MockModel>::load_model("/m".to_string(), LoadOutcome::FileMissing).err();
    assert_eq!(missing, Some(Error::ModelFileNotFound("/m".to_string())));
    assert_eq!(missing.unwrap().message(), "model file not found: /m");
    let panicked =
        ModelManager::<MockModel>::load_model("/m".to_string(), LoadOutcome::WorkerPanicked).err();
    assert_eq!(panicked, Some(Error::WorkerPanicked));
    assert_eq!(panicked.unwrap().message(), "model loading worker panicked");
    assert_eq!(Error::NoDefaultModel.message(), "no default model is set");
    assert_eq!(Error::ModelNotRegistered("a".to_string()).message(), "model not registered: a");
    assert_eq!(Error::StoredLoadFailure("x".to_string()).message(), "x");
}

#[test]
fn unregistered_model_is_unknown_and_others_stay() {
    let mut mgr = build_manager(secs(60), secs(1), &["a", "b"]);
    let m1 = get(&mut mgr, Some("a"), 0).unwrap();
    assert!(!mgr.unregister("b"));
    let m2 = get(&mut mgr, Some("a"), 0).unwrap();
    assert!(Arc::ptr_eq(&m1, &m2));
    assert!(mgr.unregister("a"));
    assert_eq!(report(&mut mgr, "a", 0), ModelLoadState::Idle);
    let unknown = Error::ModelNotRegistered("a".to_string());
    assert_eq!(mgr.ensure_loading(Some("a"), 0).err(), Some(unknown));
}

#[test]
fn monitor_drops_an_unused_model_within_one_interval_of_the_timeout() {
    let mut mgr = build_manager(millis(100), millis(30), &["a"]);
    let _ = get(&mut mgr, Some("a"), millis(5)).unwrap();
    let mut dropped = Vec::new();
    for i in 1..10 {
        let now = millis(30) * i;
        if tick(&mut mgr, now) {
            dropped.push(now);
        }
    }
    assert_eq!(dropped, vec![millis(120)]);
    assert!(millis(120) <= millis(5) + millis(100) + mgr.check_interval());
}

#[test]
fn monitor_leaves_loads_and_failures() {
    let mut mgr = build_manager(0, millis(10), &["a"]);
    assert!(!tick(&mut mgr, secs(1)));
    let job = mgr.ensure_loading(Some("a"), 0).ok().unwrap().unwrap();
    assert!(!tick(&mut mgr, secs(1)));
    assert_eq!(report(&mut mgr, "a", secs(1)), ModelLoadState::Loading);
    assert!(run_load(&mut mgr, job, true, secs(1)));
    assert!(!tick(&mut mgr, secs(9)));
    assert!(matches!(report(&mut mgr, "a", secs(9)), ModelLoadState::Failed { .. }));
}

#[test]
fn no_name_means_the_default_that_was_set_last() {
    let mut mgr = build_manager(secs(60), secs(1), &["a", "b"]);
    mgr.set_default("a".to_string());
    mgr.set_default("b".to_string());
    let job = mgr.ensure_loading(None, 0).ok().unwrap().unwrap();
    assert_eq!(job.name, "b");
    assert_eq!(mgr.snapshot(None, 0).ok().unwrap().value, ModelLoadState::Loading);
    assert_eq!(report(&mut mgr, "b", 0), ModelLoadState::Loading);
    assert_eq!(report(&mut mgr, "never registered", 0), ModelLoadState::Idle);
}

#[test]
fn waiter_that_comes_later_than_the_timeout_loads_again() {
    let mut mgr = build_manager(millis(100), secs(1), &["a"]);
    let mut request = mgr.begin_get(Some("a")).ok().unwrap();
    let mut jobs = Vec::new();
    for now in [0, millis(101)] {
        loop {
            let step = mgr.get(&mut request, now);
            jobs.extend(step.job);
            match step.outcome {
                GetOutcome::Again => {}
                GetOutcome::Wait => break,
                GetOutcome::Return(_) => panic!("nothing is loaded"),
            }
        }
        assert!(run_load(&mut mgr, jobs.pop().unwrap(), false, now));
    }
    assert!(matches!(mgr.get(&mut request, millis(101)).outcome, GetOutcome::Return(Ok(_))));
}

#[test]
fn state_is_for_the_name_that_is_not_reported_idle() {
    let mgr = build_manager(secs(60), secs(1), &[]);
    let a = || "a".to_string();
    let failed = ModelLoadState::Failed { error: "broken".to_string() };
    let states = vec![
        (LoadState::Idle, ModelLoadState::Idle),
        (LoadState::Loading { name: a() }, ModelLoadState::Loading),
        (
            LoadState::Ready(ActiveModel { name: a(), model: Arc::new(MockModel) }),
            ModelLoadState::Ready,
        ),
        (LoadState::Failed { name: a(), error: "broken".to_string() }, failed),
    ];
    for (state, expected) in states {
        assert_eq!(mgr.is_state_for_name(&state, "a"), expected != ModelLoadState::Idle);
        assert_eq!(mgr.snapshot_from_state(&state, "a"), expected);
        assert!(!mgr.is_state_for_name(&state, "b"));
        assert_eq!(mgr.snapshot_from_state(&state, "b"), ModelLoadState::Idle);
    }
}
