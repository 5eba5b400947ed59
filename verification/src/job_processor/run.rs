//! The run loop: check the stop signal, fetch a job, dispatch it, wait for
//! it, and start over, backing off while the job source is empty.

use crate::backoff::BackoffPolicy;
use crate::job_processor::wait::{
    Signal, WaitAction, WaitError, WaitEvent, WaitFault, WaitState,
};
use vstd::prelude::*;

verus! {

/// The timing constants of a run loop, in milliseconds.
#[derive(Clone, Copy, Debug, PartialEq, Eq, Structural)]
pub struct RunConfig {
    /// The pause between two polls of a task handle, and the wait after the
    /// first fetch that finds no job.
    pub polling_interval_ms: u64,
    /// The ceiling of the wait between fetches while no job is found.
    pub max_backoff_ms: u64,
    /// The factor by which that wait grows from one empty fetch to the next.
    pub backoff_multiplier: u64,
}

/// Which step of the loop failed for good.
#[derive(Clone, Copy, Debug, PartialEq, Eq, Structural)]
pub enum RunFault {
    /// The job source reported an error.
    GetNextJob,
    /// The wait on a dispatched job failed.
    WaitForTask(WaitFault),
}

/// A fatal error of the loop, with the cause the caller reported.
#[derive(Debug)]
pub enum RunError<E> {
    /// The job source reported an error.
    GetNextJob(E),
    /// The wait on a dispatched job failed.
    WaitForTask(WaitError<E>),
}

/// Why the loop came to an end.
#[derive(Clone, Copy, Debug, PartialEq, Eq, Structural)]
pub enum StopReason {
    /// The stop signal was found set before a fetch.
    StopSignal,
    /// The job source was empty and an iteration budget was set.
    NoMoreJobs,
    /// The iteration budget is used up.
    BudgetSpent,
    /// A step failed for good.
    Failed(RunFault),
}

/// Where the loop stands. Each phase but `Stopped` has one action outstanding.
#[derive(Debug)]
pub enum RunPhase<Id> {
    /// The stop signal has been asked for.
    Idle,
    /// The job source has been asked for the next job.
    Fetching,
    /// The wait after an empty fetch is running.
    BackingOff,
    /// The job has been handed over for execution.
    Dispatched { job_id: Id },
    /// The dispatched job is being waited for and its outcome recorded.
    Awaiting(WaitState<Id>),
    /// The loop has ended.
    Stopped(StopReason),
}

/// The five stages of one loop iteration.
#[derive(Clone, Copy, Debug, PartialEq, Eq, Structural)]
pub enum Stage {
    Idle,
    Dispatched,
    Awaiting,
    Persisting,
    Stopped,
}

/// The state of a run loop.
#[derive(Debug)]
pub struct RunState<Id> {
    pub phase: RunPhase<Id>,
    /// The wait that the next empty fetch will be followed by.
    pub backoff_ms: u64,
    /// How many more jobs may be fetched; `None` is no limit.
    pub iterations_left: Option<usize>,
    pub config: RunConfig,
}

/// What the caller reports back after performing an action.
#[derive(Debug)]
pub enum RunEvent<Id, J, A, E> {
    /// The value of the stop signal.
    StopSignal(bool),
    /// The job source has no pending job.
    NoJob,
    /// The job source handed over a job.
    Job { job_id: Id, job: J },
    /// The job source reported an error.
    JobSourceFailed(E),
    /// The wait after an empty fetch is over.
    Slept,
    /// Execution of the job has begun and a task handle is in hand.
    Spawned,
    /// Something happened in the wait on the dispatched job.
    Wait(WaitEvent<A, E>),
}

/// What the caller is asked to do next.
#[derive(Debug)]
pub enum RunAction<Id, J, A, E> {
    /// Read the stop signal.
    ReadStopSignal,
    /// Ask the job source for the next job.
    GetNextJob,
    /// Suspend for `ms` milliseconds.
    Sleep { ms: u64 },
    /// Begin execution of `job`.
    ProcessJob { job: J },
    /// Perform an action of the wait on the dispatched job.
    Wait(WaitAction<Id, A, E>),
    /// The loop is over; hand this result to whoever started it.
    Return(Result<(), RunError<E>>),
    /// The event answers no outstanding action; nothing has changed, and the
    /// event is handed back.
    Rejected(RunEvent<Id, J, A, E>),
}

/// One transition: the state reached, the action to perform next, and the
/// telemetry observation to emit first, if any.
#[derive(Debug)]
pub struct RunStep<Id, J, A, E> {
    pub state: RunState<Id>,
    pub signal: Option<Signal>,
    pub action: RunAction<Id, J, A, E>,
}

impl RunConfig {
    /// The backoff policy of the idle loop: it starts at the polling interval.
    pub open spec fn backoff_spec(&self) -> BackoffPolicy {
        BackoffPolicy {
            base_ms: self.polling_interval_ms,
            cap_ms: self.max_backoff_ms,
            multiplier: self.backoff_multiplier,
        }
    }

    /// A configuration whose idle waits stay between the polling interval and
    /// the ceiling and never shrink during a streak of empty fetches.
    pub open spec fn wf(&self) -> bool {
        self.backoff_spec().wf()
    }

    /// A configuration with the given constants.
    pub fn new(polling_interval_ms: u64, max_backoff_ms: u64, backoff_multiplier: u64) -> (config:
        Self)
        ensures
            config == (RunConfig { polling_interval_ms, max_backoff_ms, backoff_multiplier }),
    {
        RunConfig { polling_interval_ms, max_backoff_ms, backoff_multiplier }
    }

    /// The backoff policy of the idle loop.
    pub fn backoff(&self) -> (policy: BackoffPolicy)
        ensures
            policy == self.backoff_spec(),
    {
        BackoffPolicy::new(self.polling_interval_ms, self.max_backoff_ms, self.backoff_multiplier)
    }

    /// Whether the polling interval does not exceed the ceiling and the
    /// multiplier is at least one.
    pub fn is_well_formed(&self) -> (ok: bool)
        ensures
            ok == self.wf(),
    {
        self.backoff().is_well_formed()
    }
}

impl Default for RunConfig {
    /// Poll every second, back off up to a minute, doubling each time.
    fn default() -> (config: Self)
        ensures
            config == (RunConfig {
                polling_interval_ms: 1000,
                max_backoff_ms: 60_000,
                backoff_multiplier: 2,
            }),
            config.wf(),
    {
        RunConfig { polling_interval_ms: 1000, max_backoff_ms: 60_000, backoff_multiplier: 2 }
    }
}

impl<E> RunError<E> {
    /// The step that failed.
    pub open spec fn fault_spec(&self) -> RunFault {
        match self {
            RunError::GetNextJob(_) => RunFault::GetNextJob,
            RunError::WaitForTask(inner) => RunFault::WaitForTask(inner.fault_spec()),
        }
    }

    /// The step that failed.
    pub fn fault(&self) -> (fault: RunFault)
        ensures
            fault == self.fault_spec(),
    {
        match self {
            RunError::GetNextJob(_) => RunFault::GetNextJob,
            RunError::WaitForTask(inner) => RunFault::WaitForTask(inner.fault()),
        }
    }

    /// The cause the caller reported.
    pub fn into_cause(self) -> (cause: E)
        ensures
            self == RunError::GetNextJob(cause) || self == RunError::WaitForTask(
                WaitError::GetJobAttempts(cause),
            ) || self == RunError::WaitForTask(WaitError::SaveResult(cause)),
    {
        match self {
            RunError::GetNextJob(cause) => cause,
            RunError::WaitForTask(inner) => inner.into_cause(),
        }
    }
}

/// The budget after one more job has been fetched.
pub open spec fn spend_one(iterations_left: Option<usize>) -> Option<usize> {
    match iterations_left {
        Some(left) => Some(
            if left > 0 {
                (left - 1) as usize
            } else {
                0
            },
        ),
        None => None,
    }
}

impl<Id> RunState<Id> {
    /// The stage of the loop iteration this state belongs to.
    pub open spec fn stage_spec(&self) -> Stage {
        match self.phase {
            RunPhase::Idle => Stage::Idle,
            RunPhase::Fetching => Stage::Idle,
            RunPhase::BackingOff => Stage::Idle,
            RunPhase::Dispatched { .. } => Stage::Dispatched,
            RunPhase::Awaiting(wait) => if wait.holds_job() {
                Stage::Awaiting
            } else {
                Stage::Persisting
            },
            RunPhase::Stopped(_) => Stage::Stopped,
        }
    }

    /// Whether a job has been fetched whose outcome has not been handed over
    /// to be recorded yet.
    pub open spec fn holds_job(&self) -> bool {
        match self.phase {
            RunPhase::Dispatched { .. } => true,
            RunPhase::Awaiting(wait) => wait.holds_job(),
            _ => false,
        }
    }

    /// The job in flight, where `holds_job()`.
    pub open spec fn job_id_spec(&self) -> Id {
        match self.phase {
            RunPhase::Dispatched { job_id } => job_id,
            RunPhase::Awaiting(wait) => wait.job_id_spec(),
            _ => arbitrary(),
        }
    }

    /// Whether the loop has ended.
    pub open spec fn is_stopped(&self) -> bool {
        self.phase is Stopped
    }

    /// The top of the loop: with the budget used up the loop ends, otherwise
    /// the stop signal is read.
    pub open spec fn resume_spec<J, A, E>(
        backoff_ms: u64,
        iterations_left: Option<usize>,
        config: RunConfig,
    ) -> RunStep<Id, J, A, E> {
        if iterations_left == Some(0usize) {
            RunStep {
                state: RunState {
                    phase: RunPhase::Stopped(StopReason::BudgetSpent),
                    backoff_ms,
                    iterations_left,
                    config,
                },
                signal: None,
                action: RunAction::Return(Ok(())),
            }
        } else {
            RunStep {
                state: RunState { phase: RunPhase::Idle, backoff_ms, iterations_left, config },
                signal: None,
                action: RunAction::ReadStopSignal,
            }
        }
    }

    /// The state in which a loop with this configuration and budget begins.
    pub open spec fn initial_spec(config: RunConfig, iterations_left: Option<usize>) -> RunState<
        Id,
    > {
        RunState {
            phase: if iterations_left == Some(0usize) {
                RunPhase::Stopped(StopReason::BudgetSpent)
            } else {
                RunPhase::Idle
            },
            backoff_ms: config.polling_interval_ms,
            iterations_left,
            config,
        }
    }

    /// Where a loop with this configuration and budget begins.
    pub open spec fn start_spec<J, A, E>(
        config: RunConfig,
        iterations_left: Option<usize>,
    ) -> RunStep<Id, J, A, E> {
        Self::resume_spec(config.polling_interval_ms, iterations_left, config)
    }

    /// The transition taken on `event`.
    ///
    /// A set stop signal ends the loop; a clear one is followed by a fetch.
    /// An error of the job source ends the loop with that error. An empty
    /// fetch ends the loop if a budget is set; otherwise the current backoff
    /// is slept and then grown. A fetched job resets the backoff, costs one
    /// unit of budget and is dispatched; once its task handle is in hand the
    /// wait on it begins, and the events of the wait are passed on to it.
    /// When the wait returns success the loop starts over; when it returns
    /// an error the loop ends with that error. Any other pairing of phase
    /// and event is rejected.
    pub open spec fn step_spec<J, A, E>(self, event: RunEvent<Id, J, A, E>) -> RunStep<
        Id,
        J,
        A,
        E,
    > {
        let backoff_ms = self.backoff_ms;
        let iterations_left = self.iterations_left;
        let config = self.config;
        match (self.phase, event) {
            (RunPhase::Idle, RunEvent::StopSignal(stop)) => if stop {
                RunStep {
                    state: RunState {
                        phase: RunPhase::Stopped(StopReason::StopSignal),
                        backoff_ms,
                        iterations_left,
                        config,
                    },
                    signal: None,
                    action: RunAction::Return(Ok(())),
                }
            } else {
                RunStep {
                    state: RunState {
                        phase: RunPhase::Fetching,
                        backoff_ms,
                        iterations_left,
                        config,
                    },
                    signal: None,
                    action: RunAction::GetNextJob,
                }
            },
            (RunPhase::Fetching, RunEvent::JobSourceFailed(cause)) => RunStep {
                state: RunState {
                    phase: RunPhase::Stopped(StopReason::Failed(RunFault::GetNextJob)),
                    backoff_ms,
                    iterations_left,
                    config,
                },
                signal: None,
                action: RunAction::Return(Err(RunError::GetNextJob(cause))),
            },
            (RunPhase::Fetching, RunEvent::NoJob) => if iterations_left is Some {
                RunStep {
                    state: RunState {
                        phase: RunPhase::Stopped(StopReason::NoMoreJobs),
                        backoff_ms,
                        iterations_left,
                        config,
                    },
                    signal: None,
                    action: RunAction::Return(Ok(())),
                }
            } else {
                RunStep {
                    state: RunState {
                        phase: RunPhase::BackingOff,
                        backoff_ms: config.backoff_spec().next_spec(backoff_ms),
                        iterations_left,
                        config,
                    },
                    signal: None,
                    action: RunAction::Sleep { ms: backoff_ms },
                }
            },
            (RunPhase::Fetching, RunEvent::Job { job_id, job }) => RunStep {
                state: RunState {
                    phase: RunPhase::Dispatched { job_id },
                    backoff_ms: config.polling_interval_ms,
                    iterations_left: spend_one(iterations_left),
                    config,
                },
                signal: None,
                action: RunAction::ProcessJob { job },
            },
            (RunPhase::BackingOff, RunEvent::Slept) => Self::resume_spec(
                backoff_ms,
                iterations_left,
                config,
            ),
            (RunPhase::Dispatched { job_id }, RunEvent::Spawned) => RunStep {
                state: RunState {
                    phase: RunPhase::Awaiting(
                        WaitState::start_spec(job_id, config.polling_interval_ms),
                    ),
                    backoff_ms,
                    iterations_left,
                    config,
                },
                signal: None,
                action: RunAction::Wait(WaitAction::GetJobAttempts),
            },
            (RunPhase::Awaiting(wait), RunEvent::Wait(wait_event)) => {
                let inner = wait.step_spec(wait_event);
                match inner.action {
                    WaitAction::Return(Ok(_)) => Self::resume_spec(
                        backoff_ms,
                        iterations_left,
                        config,
                    ),
                    WaitAction::Return(Err(error)) => RunStep {
                        state: RunState {
                            phase: RunPhase::Stopped(
                                StopReason::Failed(RunFault::WaitForTask(error.fault_spec())),
                            ),
                            backoff_ms,
                            iterations_left,
                            config,
                        },
                        signal: None,
                        action: RunAction::Return(Err(RunError::WaitForTask(error))),
                    },
                    WaitAction::Rejected(handed_back) => RunStep {
                        state: RunState {
                            phase: RunPhase::Awaiting(inner.state),
                            backoff_ms,
                            iterations_left,
                            config,
                        },
                        signal: None,
                        action: RunAction::Rejected(RunEvent::Wait(handed_back)),
                    },
                    action => RunStep {
                        state: RunState {
                            phase: RunPhase::Awaiting(inner.state),
                            backoff_ms,
                            iterations_left,
                            config,
                        },
                        signal: inner.signal,
                        action: RunAction::Wait(action),
                    },
                }
            },
            (phase, event) => RunStep {
                state: RunState { phase, backoff_ms, iterations_left, config },
                signal: None,
                action: RunAction::Rejected(event),
            },
        }
    }

    fn resume<J, A, E>(backoff_ms: u64, iterations_left: Option<usize>, config: RunConfig) -> (out:
        RunStep<Id, J, A, E>)
        ensures
            out == Self::resume_spec::<J, A, E>(backoff_ms, iterations_left, config),
    {
        let spent = match iterations_left {
            Some(left) => left == 0,
            None => false,
        };
        if spent {
            RunStep {
                state: RunState {
                    phase: RunPhase::Stopped(StopReason::BudgetSpent),
                    backoff_ms,
                    iterations_left,
                    config,
                },
                signal: None,
                action: RunAction::Return(Ok(())),
            }
        } else {
            RunStep {
                state: RunState { phase: RunPhase::Idle, backoff_ms, iterations_left, config },
                signal: None,
                action: RunAction::ReadStopSignal,
            }
        }
    }

    /// Begins a loop. To run until the stop signal fires pass `None` as the
    /// budget; to process at most `n` jobs pass `Some(n)`. With a budget of
    /// zero the loop is over at once; otherwise the first action is to read
    /// the stop signal.
    pub fn start<J, A, E>(config: RunConfig, iterations_left: Option<usize>) -> (out: RunStep<
        Id,
        J,
        A,
        E,
    >)
        ensures
            out == Self::start_spec::<J, A, E>(config, iterations_left),
            out.state == Self::initial_spec(config, iterations_left),
            iterations_left == Some(0usize) ==> out.state.is_stopped() && out.action
                == RunAction::<Id, J, A, E>::Return(Ok(())),
            iterations_left != Some(0usize) ==> out.state.phase is Idle && out.action
                == RunAction::<Id, J, A, E>::ReadStopSignal,
    {
        Self::resume(config.polling_interval_ms, iterations_left, config)
    }

    /// The stage of the loop iteration this state belongs to.
    pub fn stage(&self) -> (stage: Stage)
        ensures
            stage == self.stage_spec(),
    {
        match &self.phase {
            RunPhase::Idle => Stage::Idle,
            RunPhase::Fetching => Stage::Idle,
            RunPhase::BackingOff => Stage::Idle,
            RunPhase::Dispatched { .. } => Stage::Dispatched,
            RunPhase::Awaiting(wait) => if wait.job_id().is_some() {
                Stage::Awaiting
            } else {
                Stage::Persisting
            },
            RunPhase::Stopped(_) => Stage::Stopped,
        }
    }

    /// The job in flight, as long as its outcome has not been handed over.
    pub fn job_id(&self) -> (id: Option<&Id>)
        ensures
            id is Some <==> self.holds_job(),
            id is Some ==> *id->0 == self.job_id_spec(),
    {
        match &self.phase {
            RunPhase::Dispatched { job_id } => Some(job_id),
            RunPhase::Awaiting(wait) => wait.job_id(),
            _ => None,
        }
    }

    /// Takes the transition for `event` and says what to do next.
    pub fn step<J, A, E>(self, event: RunEvent<Id, J, A, E>) -> (out: RunStep<Id, J, A, E>)
        ensures
            out == self.step_spec(event),
    {
        let backoff_ms = self.backoff_ms;
        let iterations_left = self.iterations_left;
        let config = self.config;
        match (self.phase, event) {
            (RunPhase::Idle, RunEvent::StopSignal(stop)) => {
                let (phase, action) = if stop {
                    (RunPhase::Stopped(StopReason::StopSignal), RunAction::Return(Ok(())))
                } else {
                    (RunPhase::Fetching, RunAction::GetNextJob)
                };
                RunStep {
                    state: RunState { phase, backoff_ms, iterations_left, config },
                    signal: None,
                    action,
                }
            },
            (RunPhase::Fetching, RunEvent::JobSourceFailed(cause)) => RunStep {
                state: RunState {
                    phase: RunPhase::Stopped(StopReason::Failed(RunFault::GetNextJob)),
                    backoff_ms,
                    iterations_left,
                    config,
                },
                signal: None,
                action: RunAction::Return(Err(RunError::GetNextJob(cause))),
            },
            (RunPhase::Fetching, RunEvent::NoJob) => {
                if iterations_left.is_some() {
                    RunStep {
                        state: RunState {
                            phase: RunPhase::Stopped(StopReason::NoMoreJobs),
                            backoff_ms,
                            iterations_left,
                            config,
                        },
                        signal: None,
                        action: RunAction::Return(Ok(())),
                    }
                } else {
                    let grown = config.backoff().next_backoff(backoff_ms);
                    RunStep {
                        state: RunState {
                            phase: RunPhase::BackingOff,
                            backoff_ms: grown,
                            iterations_left,
                            config,
                        },
                        signal: None,
                        action: RunAction::Sleep { ms: backoff_ms },
                    }
                }
            },
            (RunPhase::Fetching, RunEvent::Job { job_id, job }) => {
                let remaining = match iterations_left {
                    Some(left) => Some(
                        if left > 0 {
                            left - 1
                        } else {
                            0
                        },
                    ),
                    None => None,
                };
                RunStep {
                    state: RunState {
                        phase: RunPhase::Dispatched { job_id },
                        backoff_ms: config.backoff().initial(),
                        iterations_left: remaining,
                        config,
                    },
                    signal: None,
                    action: RunAction::ProcessJob { job },
                }
            },
            (RunPhase::BackingOff, RunEvent::Slept) => Self::resume(
                backoff_ms,
                iterations_left,
                config,
            ),
            (RunPhase::Dispatched { job_id }, RunEvent::Spawned) => {
                let begun = WaitState::start::<A, E>(job_id, config.polling_interval_ms);
                RunStep {
                    state: RunState {
                        phase: RunPhase::Awaiting(begun.state),
                        backoff_ms,
                        iterations_left,
                        config,
                    },
                    signal: None,
                    action: RunAction::Wait(begun.action),
                }
            },
            (RunPhase::Awaiting(wait), RunEvent::Wait(wait_event)) => {
                let inner = wait.step(wait_event);
                match inner.action {
                    WaitAction::Return(Ok(_)) => Self::resume(backoff_ms, iterations_left, config),
                    WaitAction::Return(Err(error)) => {
                        let fault = error.fault();
                        RunStep {
                            state: RunState {
                                phase: RunPhase::Stopped(
                                    StopReason::Failed(RunFault::WaitForTask(fault)),
                                ),
                                backoff_ms,
                                iterations_left,
                                config,
                            },
                            signal: None,
                            action: RunAction::Return(Err(RunError::WaitForTask(error))),
                        }
                    },
                    WaitAction::Rejected(handed_back) => RunStep {
                        state: RunState {
                            phase: RunPhase::Awaiting(inner.state),
                            backoff_ms,
                            iterations_left,
                            config,
                        },
                        signal: None,
                        action: RunAction::Rejected(RunEvent::Wait(handed_back)),
                    },
                    action => RunStep {
                        state: RunState {
                            phase: RunPhase::Awaiting(inner.state),
                            backoff_ms,
                            iterations_left,
                            config,
                        },
                        signal: inner.signal,
                        action: RunAction::Wait(action),
                    },
                }
            },
            (phase, event) => RunStep {
                state: RunState { phase, backoff_ms, iterations_left, config },
                signal: None,
                action: RunAction::Rejected(event),
            },
        }
    }
}

} // verus!
