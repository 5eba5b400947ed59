//! The wait on one dispatched job: read its attempt count, poll the task
//! handle until it reports completion, classify the outcome and have it
//! recorded.

use crate::job_processor::outcome::{JobFailure, TaskOutcome};
use vstd::prelude::*;

verus! {

/// Which step of the wait failed for good.
#[derive(Clone, Copy, Debug, PartialEq, Eq, Structural)]
pub enum WaitFault {
    /// The attempt count could not be read.
    GetJobAttempts,
    /// The successful outcome could not be recorded.
    SaveResult,
}

/// A fatal error of the wait, with the cause the caller reported.
#[derive(Debug)]
pub enum WaitError<E> {
    /// The attempt count could not be read.
    GetJobAttempts(E),
    /// The successful outcome could not be recorded.
    SaveResult(E),
}

/// A telemetry observation the caller should emit before it performs the
/// action it comes with. It never changes what the machine does next.
#[derive(Clone, Copy, Debug, PartialEq, Eq, Structural)]
pub enum Signal {
    /// The job in flight is on its last permitted attempt.
    MaxAttemptsReached { max_attempts: u32 },
    /// A job succeeded on the given attempt count.
    AttemptsToSuccess { attempts: u32 },
}

/// Where the wait stands. Each phase but `Done` has one action outstanding.
#[derive(Debug)]
pub enum WaitPhase<Id> {
    /// The attempt count of the job has been asked for.
    ReadingAttempts { job_id: Id },
    /// The task handle has been asked whether it is finished.
    Polling { job_id: Id, attempts: u32 },
    /// The pause between two polls is running.
    Pausing { job_id: Id, attempts: u32 },
    /// The job's artifacts have been handed over to be recorded.
    SavingResult,
    /// The job's failure has been handed over to be recorded.
    SavingFailure,
    /// The wait is over, with the fault that ended it if there was one.
    Done { fault: Option<WaitFault> },
}

/// The state of the wait on one job.
#[derive(Debug)]
pub struct WaitState<Id> {
    pub phase: WaitPhase<Id>,
    /// The pause between two polls of the task handle, in milliseconds.
    pub polling_interval_ms: u64,
}

/// What the caller reports back after performing an action.
#[derive(Debug)]
pub enum WaitEvent<A, E> {
    /// The attempt count of the job and the configured ceiling.
    Attempts { attempts: u32, max_attempts: u32 },
    /// The attempt count could not be read.
    AttemptsFailed(E),
    /// The task has not finished yet.
    TaskPending,
    /// The task has finished, and how.
    TaskFinished(TaskOutcome<A>),
    /// The pause between polls is over.
    Paused,
    /// The artifacts were recorded.
    ResultSaved,
    /// Recording the artifacts failed.
    SaveResultFailed(E),
    /// The failure was handed to the recorder, which never reports an error.
    FailureSaved,
}

/// What the caller is asked to do next.
#[derive(Debug)]
pub enum WaitAction<Id, A, E> {
    /// Read the attempt count of the job in flight.
    GetJobAttempts,
    /// Ask the task handle whether it has finished, without blocking.
    PollTask,
    /// Suspend for `ms` milliseconds.
    Pause { ms: u64 },
    /// Record the artifacts of the job.
    SaveResult { job_id: Id, artifacts: A },
    /// Record the failure of the job, with `failure.message()` as its text.
    SaveFailure { job_id: Id, failure: JobFailure },
    /// The wait is over; hand this result to whoever asked for the wait.
    Return(Result<(), WaitError<E>>),
    /// The event answers no outstanding action; nothing has changed, and the
    /// event is handed back.
    Rejected(WaitEvent<A, E>),
}

/// One transition: the state reached, the action to perform next, and the
/// telemetry observation to emit first, if any.
#[derive(Debug)]
pub struct WaitStep<Id, A, E> {
    pub state: WaitState<Id>,
    pub signal: Option<Signal>,
    pub action: WaitAction<Id, A, E>,
}

impl<E> WaitError<E> {
    /// The step that failed.
    pub open spec fn fault_spec(&self) -> WaitFault {
        match self {
            WaitError::GetJobAttempts(_) => WaitFault::GetJobAttempts,
            WaitError::SaveResult(_) => WaitFault::SaveResult,
        }
    }

    /// The step that failed.
    pub fn fault(&self) -> (fault: WaitFault)
        ensures
            fault == self.fault_spec(),
    {
        match self {
            WaitError::GetJobAttempts(_) => WaitFault::GetJobAttempts,
            WaitError::SaveResult(_) => WaitFault::SaveResult,
        }
    }

    /// The cause the caller reported.
    pub fn into_cause(self) -> (cause: E)
        ensures
            self == WaitError::GetJobAttempts(cause) || self == WaitError::SaveResult(cause),
    {
        match self {
            WaitError::GetJobAttempts(cause) => cause,
            WaitError::SaveResult(cause) => cause,
        }
    }
}

impl<Id> WaitState<Id> {
    /// The state in which the wait on `job_id` begins: its attempt count has
    /// just been asked for.
    pub open spec fn start_spec(job_id: Id, polling_interval_ms: u64) -> WaitState<Id> {
        WaitState { phase: WaitPhase::ReadingAttempts { job_id }, polling_interval_ms }
    }

    /// Whether a job is in flight whose outcome has not been handed over to
    /// be recorded yet.
    pub open spec fn holds_job(&self) -> bool {
        self.phase is ReadingAttempts || self.phase is Polling || self.phase is Pausing
    }

    /// The job in flight, where `holds_job()`.
    pub open spec fn job_id_spec(&self) -> Id {
        match self.phase {
            WaitPhase::ReadingAttempts { job_id } => job_id,
            WaitPhase::Polling { job_id, .. } => job_id,
            WaitPhase::Pausing { job_id, .. } => job_id,
            _ => arbitrary(),
        }
    }

    /// Whether the wait is over.
    pub open spec fn is_done(&self) -> bool {
        self.phase is Done
    }

    /// The transition taken on `event`.
    ///
    /// With the attempt count in hand the handle is polled at once, and the
    /// ceiling being reached is only signalled. A pending task is polled
    /// again after one polling interval. A finished task is classified:
    /// artifacts go to `SaveResult`, together with the attempts-to-success
    /// observation; a reported error and an abnormal termination both go to
    /// `SaveFailure`. A failed read of the attempt count and a failed
    /// `SaveResult` end the wait with an error; a recorded failure ends it
    /// with success. Any other pairing of phase and event is rejected.
    pub open spec fn step_spec<A, E>(self, event: WaitEvent<A, E>) -> WaitStep<Id, A, E> {
        let interval = self.polling_interval_ms;
        match (self.phase, event) {
            (
                WaitPhase::ReadingAttempts { job_id },
                WaitEvent::Attempts { attempts, max_attempts },
            ) => WaitStep {
                state: WaitState {
                    phase: WaitPhase::Polling { job_id, attempts },
                    polling_interval_ms: interval,
                },
                signal: if attempts == max_attempts {
                    Some(Signal::MaxAttemptsReached { max_attempts })
                } else {
                    None
                },
                action: WaitAction::PollTask,
            },
            (WaitPhase::ReadingAttempts { job_id }, WaitEvent::AttemptsFailed(cause)) => WaitStep {
                state: WaitState {
                    phase: WaitPhase::Done { fault: Some(WaitFault::GetJobAttempts) },
                    polling_interval_ms: interval,
                },
                signal: None,
                action: WaitAction::Return(Err(WaitError::GetJobAttempts(cause))),
            },
            (WaitPhase::Polling { job_id, attempts }, WaitEvent::TaskPending) => WaitStep {
                state: WaitState {
                    phase: WaitPhase::Pausing { job_id, attempts },
                    polling_interval_ms: interval,
                },
                signal: None,
                action: WaitAction::Pause { ms: interval },
            },
            (
                WaitPhase::Polling { job_id, attempts },
                WaitEvent::TaskFinished(TaskOutcome::Success(artifacts)),
            ) => WaitStep {
                state: WaitState { phase: WaitPhase::SavingResult, polling_interval_ms: interval },
                signal: Some(Signal::AttemptsToSuccess { attempts }),
                action: WaitAction::SaveResult { job_id, artifacts },
            },
            (
                WaitPhase::Polling { job_id, attempts },
                WaitEvent::TaskFinished(TaskOutcome::Failure(failure)),
            ) => WaitStep {
                state: WaitState { phase: WaitPhase::SavingFailure, polling_interval_ms: interval },
                signal: None,
                action: WaitAction::SaveFailure { job_id, failure },
            },
            (WaitPhase::Pausing { job_id, attempts }, WaitEvent::Paused) => WaitStep {
                state: WaitState {
                    phase: WaitPhase::Polling { job_id, attempts },
                    polling_interval_ms: interval,
                },
                signal: None,
                action: WaitAction::PollTask,
            },
            (WaitPhase::SavingResult, WaitEvent::ResultSaved) => WaitStep {
                state: WaitState {
                    phase: WaitPhase::Done { fault: None },
                    polling_interval_ms: interval,
                },
                signal: None,
                action: WaitAction::Return(Ok(())),
            },
            (WaitPhase::SavingResult, WaitEvent::SaveResultFailed(cause)) => WaitStep {
                state: WaitState {
                    phase: WaitPhase::Done { fault: Some(WaitFault::SaveResult) },
                    polling_interval_ms: interval,
                },
                signal: None,
                action: WaitAction::Return(Err(WaitError::SaveResult(cause))),
            },
            (WaitPhase::SavingFailure, WaitEvent::FailureSaved) => WaitStep {
                state: WaitState {
                    phase: WaitPhase::Done { fault: None },
                    polling_interval_ms: interval,
                },
                signal: None,
                action: WaitAction::Return(Ok(())),
            },
            (phase, event) => WaitStep {
                state: WaitState { phase, polling_interval_ms: interval },
                signal: None,
                action: WaitAction::Rejected(event),
            },
        }
    }

    /// Begins the wait on a job that has just been dispatched. The first
    /// action to perform is `GetJobAttempts`.
    pub fn start<A, E>(job_id: Id, polling_interval_ms: u64) -> (out: WaitStep<Id, A, E>)
        ensures
            out.state == Self::start_spec(job_id, polling_interval_ms),
            out.signal is None,
            out.action == WaitAction::<Id, A, E>::GetJobAttempts,
    {
        WaitStep {
            state: WaitState { phase: WaitPhase::ReadingAttempts { job_id }, polling_interval_ms },
            signal: None,
            action: WaitAction::GetJobAttempts,
        }
    }

    /// The job in flight, as long as its outcome has not been handed over.
    pub fn job_id(&self) -> (id: Option<&Id>)
        ensures
            id is Some <==> self.holds_job(),
            id is Some ==> *id->0 == self.job_id_spec(),
    {
        match &self.phase {
            WaitPhase::ReadingAttempts { job_id } => Some(job_id),
            WaitPhase::Polling { job_id, .. } => Some(job_id),
            WaitPhase::Pausing { job_id, .. } => Some(job_id),
            _ => None,
        }
    }

    /// Takes the transition for `event` and says what to do next.
    pub fn step<A, E>(self, event: WaitEvent<A, E>) -> (out: WaitStep<Id, A, E>)
        ensures
            out == self.step_spec(event),
    {
        let interval = self.polling_interval_ms;
        match (self.phase, event) {
            (
                WaitPhase::ReadingAttempts { job_id },
                WaitEvent::Attempts { attempts, max_attempts },
            ) => WaitStep {
                state: WaitState {
                    phase: WaitPhase::Polling { job_id, attempts },
                    polling_interval_ms: interval,
                },
                signal: if attempts == max_attempts {
                    Some(Signal::MaxAttemptsReached { max_attempts })
                } else {
                    None
                },
                action: WaitAction::PollTask,
            },
            (WaitPhase::ReadingAttempts { job_id }, WaitEvent::AttemptsFailed(cause)) => WaitStep {
                state: WaitState {
                    phase: WaitPhase::Done { fault: Some(WaitFault::GetJobAttempts) },
                    polling_interval_ms: interval,
                },
                signal: None,
                action: WaitAction::Return(Err(WaitError::GetJobAttempts(cause))),
            },
            (WaitPhase::Polling { job_id, attempts }, WaitEvent::TaskPending) => WaitStep {
                state: WaitState {
                    phase: WaitPhase::Pausing { job_id, attempts },
                    polling_interval_ms: interval,
                },
                signal: None,
                action: WaitAction::Pause { ms: interval },
            },
            (
                WaitPhase::Polling { job_id, attempts },
                WaitEvent::TaskFinished(TaskOutcome::Success(artifacts)),
            ) => WaitStep {
                state: WaitState { phase: WaitPhase::SavingResult, polling_interval_ms: interval },
                signal: Some(Signal::AttemptsToSuccess { attempts }),
                action: WaitAction::SaveResult { job_id, artifacts },
            },
            (
                WaitPhase::Polling { job_id, attempts },
                WaitEvent::TaskFinished(TaskOutcome::Failure(failure)),
            ) => WaitStep {
                state: WaitState { phase: WaitPhase::SavingFailure, polling_interval_ms: interval },
                signal: None,
                action: WaitAction::SaveFailure { job_id, failure },
            },
            (WaitPhase::Pausing { job_id, attempts }, WaitEvent::Paused) => WaitStep {
                state: WaitState {
                    phase: WaitPhase::Polling { job_id, attempts },
                    polling_interval_ms: interval,
                },
                signal: None,
                action: WaitAction::PollTask,
            },
            (WaitPhase::SavingResult, WaitEvent::ResultSaved) => WaitStep {
                state: WaitState {
                    phase: WaitPhase::Done { fault: None },
                    polling_interval_ms: interval,
                },
                signal: None,
                action: WaitAction::Return(Ok(())),
            },
            (WaitPhase::SavingResult, WaitEvent::SaveResultFailed(cause)) => WaitStep {
                state: WaitState {
                    phase: WaitPhase::Done { fault: Some(WaitFault::SaveResult) },
                    polling_interval_ms: interval,
                },
                signal: None,
                action: WaitAction::Return(Err(WaitError::SaveResult(cause))),
            },
            (WaitPhase::SavingFailure, WaitEvent::FailureSaved) => WaitStep {
                state: WaitState {
                    phase: WaitPhase::Done { fault: None },
                    polling_interval_ms: interval,
                },
                signal: None,
                action: WaitAction::Return(Ok(())),
            },
            (phase, event) => WaitStep {
                state: WaitState { phase, polling_interval_ms: interval },
                signal: None,
                action: WaitAction::Rejected(event),
            },
        }
    }
}

} // verus!
