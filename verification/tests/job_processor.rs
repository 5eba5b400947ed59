use axon_core::job_processor::outcome::{JobFailure, TaskOutcome};
use axon_core::job_processor::run::{
    RunAction, RunConfig, RunError, RunEvent, RunFault, RunPhase, RunState, RunStep, Stage,
    StopReason,
};
use axon_core::job_processor::wait::{
    Signal, WaitAction, WaitError, WaitEvent, WaitFault, WaitPhase, WaitState, WaitStep,
};

type Step = RunStep<String, u32, Vec<u8>, String>;
type Event = RunEvent<String, u32, Vec<u8>, String>;

/// What a scripted job does when it is executed.
#[derive(Clone)]
enum Script {
    Succeeds { artifacts: Vec<u8>, polls: u32 },
    Fails { error: String },
    Panics { payload: Option<String> },
    Cancelled,
}

/// Everything the loop asked its caller to do, in order.
#[derive(Debug, Default)]
struct Log {
    stop_signal_reads: u32,
    fetches: u32,
    sleeps: Vec<u64>,
    pauses: Vec<u64>,
    processed: Vec<u32>,
    saved_results: Vec<(String, Vec<u8>)>,
    saved_failures: Vec<(String, String)>,
    signals: Vec<Signal>,
    order: Vec<String>,
}

struct World {
    jobs: Vec<Option<(String, u32, Script)>>,
    stop_after_reads: Option<u32>,
    attempts: u32,
    max_attempts: u32,
    fail_fetch_at: Option<u32>,
    fail_attempts: bool,
    fail_save_result: bool,
    max_sleeps: usize,
}

impl World {
    fn new(jobs: Vec<Option<(String, u32, Script)>>) -> Self {
        World {
            jobs,
            stop_after_reads: None,
            attempts: 1,
            max_attempts: 5,
            fail_fetch_at: None,
            fail_attempts: false,
            fail_save_result: false,
            max_sleeps: 64,
        }
    }
}

/// Runs the loop against the world until it returns, as a caller would.
fn drive(first: Step, world: &mut World) -> (Result<(), RunError<String>>, RunState<String>, Log) {
    let mut log = Log::default();
    let mut state = first.state;
    let mut action = first.action;
    let mut signal = first.signal;
    let mut next_job = 0usize;
    let mut current: Option<Script> = None;
    let mut polls_left = 0u32;
    loop {
        if let Some(signal) = signal {
            log.signals.push(signal);
        }
        let event: Event = match action {
            RunAction::ReadStopSignal => {
                log.stop_signal_reads += 1;
                let stop = match world.stop_after_reads {
                    Some(limit) => log.stop_signal_reads > limit,
                    None => false,
                };
                RunEvent::StopSignal(stop)
            }
            RunAction::GetNextJob => {
                log.fetches += 1;
                if world.fail_fetch_at == Some(log.fetches) {
                    RunEvent::JobSourceFailed("source is down".to_string())
                } else {
                    let job = if next_job < world.jobs.len() {
                        world.jobs[next_job].clone()
                    } else {
                        None
                    };
                    next_job += 1;
                    match job {
                        Some((job_id, job, script)) => {
                            if let Script::Succeeds { polls, .. } = &script {
                                polls_left = *polls;
                            }
                            current = Some(script);
                            log.order.push(format!("fetch {job_id}"));
                            RunEvent::Job { job_id, job }
                        }
                        None => RunEvent::NoJob,
                    }
                }
            }
            RunAction::Sleep { ms } => {
                log.sleeps.push(ms);
                if log.sleeps.len() >= world.max_sleeps {
                    world.stop_after_reads = Some(0);
                }
                RunEvent::Slept
            }
            RunAction::ProcessJob { job } => {
                assert_eq!(state.stage(), Stage::Dispatched);
                log.processed.push(job);
                RunEvent::Spawned
            }
            RunAction::Wait(WaitAction::GetJobAttempts) => {
                assert!(state.job_id().is_some());
                if world.fail_attempts {
                    RunEvent::Wait(WaitEvent::AttemptsFailed("no attempts".to_string()))
                } else {
                    RunEvent::Wait(WaitEvent::Attempts {
                        attempts: world.attempts,
                        max_attempts: world.max_attempts,
                    })
                }
            }
            RunAction::Wait(WaitAction::PollTask) => {
                assert_eq!(state.stage(), Stage::Awaiting);
                if polls_left > 0 {
                    polls_left -= 1;
                    RunEvent::Wait(WaitEvent::TaskPending)
                } else {
                    let outcome = match current.take().expect("a job is in flight") {
                        Script::Succeeds { artifacts, .. } => TaskOutcome::Success(artifacts),
                        Script::Fails { error } => {
                            TaskOutcome::Failure(JobFailure::Logical { error })
                        }
                        Script::Panics { payload } => {
                            TaskOutcome::Failure(JobFailure::Panicked { payload })
                        }
                        Script::Cancelled => TaskOutcome::Failure(JobFailure::Cancelled),
                    };
                    RunEvent::Wait(WaitEvent::TaskFinished(outcome))
                }
            }
            RunAction::Wait(WaitAction::Pause { ms }) => {
                log.pauses.push(ms);
                RunEvent::Wait(WaitEvent::Paused)
            }
            RunAction::Wait(WaitAction::SaveResult { job_id, artifacts }) => {
                assert_eq!(state.stage(), Stage::Persisting);
                log.order.push(format!("save_result {job_id}"));
                log.saved_results.push((job_id, artifacts));
                if world.fail_save_result {
                    RunEvent::Wait(WaitEvent::SaveResultFailed("disk full".to_string()))
                } else {
                    RunEvent::Wait(WaitEvent::ResultSaved)
                }
            }
            RunAction::Wait(WaitAction::SaveFailure { job_id, failure }) => {
                assert_eq!(state.stage(), Stage::Persisting);
                log.order.push(format!("save_failure {job_id}"));
                log.saved_failures.push((job_id, failure.message()));
                RunEvent::Wait(WaitEvent::FailureSaved)
            }
            RunAction::Wait(WaitAction::Return(_)) => {
                panic!("the loop hands on no return of the wait")
            }
            RunAction::Wait(WaitAction::Rejected(_)) | RunAction::Rejected(_) => {
                panic!("the driver sent an event nobody asked for")
            }
            RunAction::Return(result) => {
                assert_eq!(state.stage(), Stage::Stopped);
                return (result, state, log);
            }
        };
        let step = state.step(event);
        state = step.state;
        action = step.action;
        signal = step.signal;
    }
}

fn job(id: &str, payload: u32, script: Script) -> Option<(String, u32, Script)> {
    Some((id.to_string(), payload, script))
}

fn succeeds(artifacts: &[u8]) -> Script {
    Script::Succeeds { artifacts: artifacts.to_vec(), polls: 0 }
}

#[test]
fn default_config_polls_every_second_and_backs_off_to_a_minute() {
    let config = RunConfig::default();
    assert_eq!(config, RunConfig::new(1000, 60_000, 2));
    assert!(config.is_well_formed());
    assert!(!RunConfig::new(1000, 999, 2).is_well_formed());
    assert_eq!(config.backoff().next_backoff(1000), 2000);
}

#[test]
fn a_successful_job_is_saved_once_and_no_failure_is_recorded() {
    let mut world = World::new(vec![job("j1", 7, succeeds(b"A"))]);
    let (result, state, log) = drive(RunState::start(RunConfig::default(), Some(1)), &mut world);
    assert!(result.is_ok());
    assert!(matches!(state.phase, RunPhase::Stopped(StopReason::BudgetSpent)));
    assert_eq!(log.processed, vec![7]);
    assert_eq!(log.saved_results, vec![("j1".to_string(), b"A".to_vec())]);
    assert!(log.saved_failures.is_empty());
    assert_eq!(log.signals, vec![Signal::AttemptsToSuccess { attempts: 1 }]);
    assert_eq!(log.fetches, 1);
}

#[test]
fn max_attempts_reached_is_signalled_once_when_the_job_succeeds() {
    let mut world = World::new(vec![job("j1", 7, Script::Succeeds {
        artifacts: vec![1],
        polls: 3,
    })]);
    world.attempts = 5;
    world.max_attempts = 5;
    let (result, _, log) = drive(RunState::start(RunConfig::default(), Some(1)), &mut world);
    assert!(result.is_ok());
    let reached = log
        .signals
        .iter()
        .filter(|signal| matches!(signal, Signal::MaxAttemptsReached { max_attempts: 5 }))
        .count();
    assert_eq!(reached, 1);
    assert_eq!(log.saved_results.len(), 1);
    assert_eq!(log.pauses, vec![1000, 1000, 1000]);
}

#[test]
fn max_attempts_reached_is_signalled_once_when_the_job_fails() {
    let mut world = World::new(vec![job("j1", 7, Script::Fails { error: "boom".to_string() })]);
    world.attempts = 3;
    world.max_attempts = 3;
    let (result, _, log) = drive(RunState::start(RunConfig::default(), Some(1)), &mut world);
    assert!(result.is_ok());
    assert_eq!(log.signals, vec![Signal::MaxAttemptsReached { max_attempts: 3 }]);
    assert_eq!(log.saved_failures, vec![("j1".to_string(), "boom".to_string())]);
    assert!(log.saved_results.is_empty());
}

#[test]
fn below_the_ceiling_nothing_is_signalled_for_a_failing_job() {
    let mut world = World::new(vec![job("j1", 7, Script::Fails { error: "boom".to_string() })]);
    world.attempts = 2;
    world.max_attempts = 3;
    let (_, _, log) = drive(RunState::start(RunConfig::default(), Some(1)), &mut world);
    assert!(log.signals.is_empty());
}

#[test]
fn an_abnormal_termination_is_recorded_as_one_failure_with_a_text() {
    let scripts = vec![
        (Script::Panics { payload: Some("index out of bounds".to_string()) }, "index out of bounds"),
        (Script::Panics { payload: Some(String::new()) }, "Unknown panic"),
        (Script::Panics { payload: None }, "Unknown panic"),
        (Script::Cancelled, "Cancelled task"),
    ];
    for (script, text) in scripts {
        let mut world = World::new(vec![job("j1", 7, script)]);
        let (result, _, log) =
            drive(RunState::start(RunConfig::default(), Some(1)), &mut world);
        assert!(result.is_ok());
        assert_eq!(log.saved_failures, vec![("j1".to_string(), text.to_string())]);
        assert!(!log.saved_failures[0].1.is_empty());
        assert!(log.saved_results.is_empty());
    }
}

#[test]
fn failures_are_classified() {
    assert!(!JobFailure::Logical { error: String::new() }.terminated_abnormally());
    assert!(JobFailure::Panicked { payload: None }.terminated_abnormally());
    assert!(JobFailure::Cancelled.terminated_abnormally());
    assert_eq!(JobFailure::Logical { error: String::new() }.message(), "");
    assert_eq!(JobFailure::Logical { error: "bad input".to_string() }.message(), "bad input");
}

#[test]
fn a_budget_of_zero_ends_the_loop_at_once() {
    let step: Step = RunState::start(RunConfig::default(), Some(0));
    assert!(matches!(step.action, RunAction::Return(Ok(()))));
    assert!(matches!(step.state.phase, RunPhase::Stopped(StopReason::BudgetSpent)));
    let mut world = World::new(vec![job("j1", 7, succeeds(b"A"))]);
    let (result, _, log) = drive(RunState::start(RunConfig::default(), Some(0)), &mut world);
    assert!(result.is_ok());
    assert_eq!(log.fetches, 0);
    assert_eq!(log.stop_signal_reads, 0);
}

#[test]
fn a_budget_of_k_processes_exactly_k_jobs() {
    let jobs: Vec<_> =
        (0..10u32).map(|n| job(&format!("j{n}"), n, succeeds(&[n as u8]))).collect();
    for k in 1..=5usize {
        let mut world = World::new(jobs.clone());
        let (result, state, log) =
            drive(RunState::start(RunConfig::default(), Some(k)), &mut world);
        assert!(result.is_ok());
        assert!(matches!(state.phase, RunPhase::Stopped(StopReason::BudgetSpent)));
        assert_eq!(state.iterations_left, Some(0));
        assert_eq!(log.fetches as usize, k);
        assert_eq!(log.saved_results.len(), k);
        assert_eq!(log.processed, (0..k as u32).collect::<Vec<_>>());
    }
}

#[test]
fn a_set_stop_signal_ends_the_loop_before_the_first_fetch() {
    for budget in [None, Some(3usize)] {
        let mut world = World::new(vec![job("j1", 7, succeeds(b"A"))]);
        world.stop_after_reads = Some(0);
        let (result, state, log) = drive(RunState::start(RunConfig::default(), budget), &mut world);
        assert!(result.is_ok());
        assert!(matches!(state.phase, RunPhase::Stopped(StopReason::StopSignal)));
        assert_eq!(log.fetches, 0);
        assert!(log.processed.is_empty());
    }
}

#[test]
fn a_stop_signal_set_during_a_job_is_honoured_after_the_job_is_recorded() {
    let mut world = World::new(vec![
        job("j1", 1, Script::Succeeds { artifacts: vec![1], polls: 2 }),
        job("j2", 2, succeeds(b"B")),
    ]);
    world.stop_after_reads = Some(1);
    let (result, state, log) = drive(RunState::start(RunConfig::default(), None), &mut world);
    assert!(result.is_ok());
    assert!(matches!(state.phase, RunPhase::Stopped(StopReason::StopSignal)));
    assert_eq!(log.saved_results.len(), 1);
    assert_eq!(log.fetches, 1);
    assert_eq!(log.order, vec!["fetch j1", "save_result j1"]);
}

#[test]
fn an_empty_source_ends_a_budgeted_loop() {
    let mut world = World::new(vec![job("j1", 1, succeeds(b"A")), None]);
    let (result, state, log) = drive(RunState::start(RunConfig::default(), Some(5)), &mut world);
    assert!(result.is_ok());
    assert!(matches!(state.phase, RunPhase::Stopped(StopReason::NoMoreJobs)));
    assert_eq!(state.iterations_left, Some(4));
    assert!(log.sleeps.is_empty());
    assert_eq!(log.saved_results.len(), 1);
}

#[test]
fn idle_waits_double_up_to_the_cap_and_start_over_after_a_job() {
    let mut jobs = vec![None; 8];
    jobs.push(job("j1", 1, succeeds(b"A")));
    jobs.extend(vec![None; 3]);
    let mut world = World::new(jobs);
    world.max_sleeps = 11;
    let (result, _, log) = drive(RunState::start(RunConfig::default(), None), &mut world);
    assert!(result.is_ok());
    assert_eq!(
        log.sleeps,
        vec![1000, 2000, 4000, 8000, 16_000, 32_000, 60_000, 60_000, 1000, 2000, 4000]
    );
    assert_eq!(log.saved_results.len(), 1);
}

#[test]
fn jobs_are_recorded_in_the_order_they_were_fetched() {
    let mut world = World::new(vec![
        job("a", 1, succeeds(b"A")),
        job("b", 2, Script::Fails { error: "no".to_string() }),
        None,
        job("c", 3, Script::Panics { payload: None }),
        job("d", 4, Script::Succeeds { artifacts: vec![4], polls: 2 }),
    ]);
    world.stop_after_reads = Some(5);
    let (result, _, log) = drive(RunState::start(RunConfig::default(), None), &mut world);
    assert!(result.is_ok());
    assert_eq!(
        log.order,
        vec![
            "fetch a",
            "save_result a",
            "fetch b",
            "save_failure b",
            "fetch c",
            "save_failure c",
            "fetch d",
            "save_result d",
        ]
    );
    assert_eq!(log.saved_results.len() + log.saved_failures.len(), 4);
}

#[test]
fn an_error_of_the_job_source_is_fatal() {
    let mut world = World::new(vec![job("j1", 1, succeeds(b"A"))]);
    world.fail_fetch_at = Some(2);
    let (result, state, log) = drive(RunState::start(RunConfig::default(), None), &mut world);
    let error = result.unwrap_err();
    assert_eq!(error.fault(), RunFault::GetNextJob);
    assert_eq!(error.into_cause(), "source is down");
    assert!(matches!(state.phase, RunPhase::Stopped(StopReason::Failed(RunFault::GetNextJob))));
    assert_eq!(log.saved_results.len(), 1);
}

#[test]
fn a_failed_read_of_the_attempt_count_is_fatal_and_records_nothing() {
    let mut world = World::new(vec![job("j1", 1, succeeds(b"A"))]);
    world.fail_attempts = true;
    let (result, _, log) = drive(RunState::start(RunConfig::default(), None), &mut world);
    let error = result.unwrap_err();
    assert_eq!(error.fault(), RunFault::WaitForTask(WaitFault::GetJobAttempts));
    assert_eq!(error.into_cause(), "no attempts");
    assert!(log.saved_results.is_empty());
    assert!(log.saved_failures.is_empty());
}

#[test]
fn a_failed_save_of_a_result_is_fatal() {
    let mut world = World::new(vec![job("j1", 1, succeeds(b"A")), job("j2", 2, succeeds(b"B"))]);
    world.fail_save_result = true;
    let (result, _, log) = drive(RunState::start(RunConfig::default(), None), &mut world);
    let error = result.unwrap_err();
    assert_eq!(error.fault(), RunFault::WaitForTask(WaitFault::SaveResult));
    assert_eq!(log.saved_results.len(), 1);
    assert_eq!(log.fetches, 1);
}

#[test]
fn events_nobody_asked_for_change_nothing() {
    let step: Step = RunState::start(RunConfig::default(), None);
    let step: Step = step.state.step(RunEvent::NoJob);
    assert!(matches!(step.action, RunAction::Rejected(RunEvent::NoJob)));
    assert!(matches!(step.state.phase, RunPhase::Idle));
    let step: Step = step.state.step(RunEvent::StopSignal(false));
    assert!(matches!(step.action, RunAction::GetNextJob));
    let step: Step = step.state.step(RunEvent::Job { job_id: "j1".to_string(), job: 4 });
    assert!(matches!(step.action, RunAction::ProcessJob { job: 4 }));
    assert_eq!(step.state.job_id(), Some(&"j1".to_string()));
    let step: Step = step.state.step(RunEvent::Wait(WaitEvent::TaskPending));
    assert!(matches!(step.action, RunAction::Rejected(RunEvent::Wait(WaitEvent::TaskPending))));
    let step: Step = step.state.step(RunEvent::Spawned);
    assert!(matches!(step.action, RunAction::Wait(WaitAction::GetJobAttempts)));
    let step: Step = step.state.step(RunEvent::Wait(WaitEvent::Paused));
    assert!(matches!(step.action, RunAction::Rejected(RunEvent::Wait(WaitEvent::Paused))));
    assert_eq!(step.state.job_id(), Some(&"j1".to_string()));
    assert_eq!(step.state.stage(), Stage::Awaiting);
}

#[test]
fn the_wait_can_be_run_on_its_own() {
    let step: WaitStep<String, Vec<u8>, String> = WaitState::start("j9".to_string(), 250);
    assert!(matches!(step.action, WaitAction::GetJobAttempts));
    assert_eq!(step.state.job_id(), Some(&"j9".to_string()));
    let step: WaitStep<String, Vec<u8>, String> =
        step.state.step(WaitEvent::Attempts { attempts: 2, max_attempts: 2 });
    assert_eq!(step.signal, Some(Signal::MaxAttemptsReached { max_attempts: 2 }));
    assert!(matches!(step.action, WaitAction::PollTask));
    let step: WaitStep<String, Vec<u8>, String> = step.state.step(WaitEvent::TaskPending);
    assert!(matches!(step.action, WaitAction::Pause { ms: 250 }));
    let step: WaitStep<String, Vec<u8>, String> = step.state.step(WaitEvent::Paused);
    assert!(matches!(step.action, WaitAction::PollTask));
    let step: WaitStep<String, Vec<u8>, String> =
        step.state.step(WaitEvent::TaskFinished(TaskOutcome::Success(vec![1, 2])));
    assert_eq!(step.signal, Some(Signal::AttemptsToSuccess { attempts: 2 }));
    match step.action {
        WaitAction::SaveResult { job_id, artifacts } => {
            assert_eq!(job_id, "j9");
            assert_eq!(artifacts, vec![1, 2]);
        }
        other => panic!("unexpected {other:?}"),
    }
    assert_eq!(step.state.job_id(), None);
    let step: WaitStep<String, Vec<u8>, String> =
        step.state.step(WaitEvent::SaveResultFailed("disk full".to_string()));
    match step.action {
        WaitAction::Return(Err(error)) => {
            assert_eq!(error.fault(), WaitFault::SaveResult);
            assert!(matches!(&error, WaitError::SaveResult(cause) if cause == "disk full"));
            assert_eq!(error.into_cause(), "disk full");
        }
        other => panic!("unexpected {other:?}"),
    }
    assert!(matches!(step.state.phase, WaitPhase::Done { fault: Some(WaitFault::SaveResult) }));
}
