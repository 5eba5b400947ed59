//! What holds of every run of the loop, whatever the caller reports.
//!
//! A run is a sequence of events taken one by one from an initial state.
//! Events that answer no outstanding action are rejected and change nothing,
//! so every statement below covers every sequence of events.

use crate::backoff::{lemma_streak_is_monotone_and_bounded, lemma_streak_is_ordered};
use crate::job_processor::outcome::{lemma_abnormal_message_nonempty, JobFailure, TaskOutcome};
use crate::job_processor::run::{
    RunAction, RunConfig, RunEvent, RunFault, RunPhase, RunState, RunStep, StopReason,
};
use crate::job_processor::wait::{WaitAction, WaitEvent, WaitFault, WaitPhase, WaitState};
use vstd::prelude::*;

verus! {

/// One request to record the outcome of a job.
pub struct SaveRecord<Id> {
    pub job_id: Id,
    /// Whether artifacts were handed over, as opposed to a failure.
    pub success: bool,
}

/// The state the loop is in after it has taken `events` from `start`.
pub open spec fn run_after<Id, J, A, E>(
    start: RunState<Id>,
    events: Seq<RunEvent<Id, J, A, E>>,
) -> RunState<Id>
    decreases events.len(),
{
    if events.len() == 0 {
        start
    } else {
        run_after(start, events.drop_last()).step_spec(events.last()).state
    }
}

/// The transition taken on the last of `events`.
pub open spec fn last_step<Id, J, A, E>(
    start: RunState<Id>,
    events: Seq<RunEvent<Id, J, A, E>>,
) -> RunStep<Id, J, A, E>
    recommends
        events.len() > 0,
{
    run_after(start, events.drop_last()).step_spec(events.last())
}

/// The jobs the job source has handed over during the run, in order.
pub open spec fn fetched_jobs<Id, J, A, E>(
    start: RunState<Id>,
    events: Seq<RunEvent<Id, J, A, E>>,
) -> Seq<Id>
    decreases events.len(),
{
    if events.len() == 0 {
        Seq::empty()
    } else {
        let before = fetched_jobs(start, events.drop_last());
        match (run_after(start, events.drop_last()).phase, events.last()) {
            (RunPhase::Fetching, RunEvent::Job { job_id, .. }) => before.push(job_id),
            _ => before,
        }
    }
}

/// The requests to record an outcome that the loop has issued during the
/// run, in order.
pub open spec fn save_requests<Id, J, A, E>(
    start: RunState<Id>,
    events: Seq<RunEvent<Id, J, A, E>>,
) -> Seq<SaveRecord<Id>>
    decreases events.len(),
{
    if events.len() == 0 {
        Seq::empty()
    } else {
        let before = save_requests(start, events.drop_last());
        match last_step(start, events).action {
            RunAction::Wait(WaitAction::SaveResult { job_id, .. }) => before.push(
                SaveRecord { job_id, success: true },
            ),
            RunAction::Wait(WaitAction::SaveFailure { job_id, .. }) => before.push(
                SaveRecord { job_id, success: false },
            ),
            _ => before,
        }
    }
}

/// How often the loop has asked the job source for a job during the run.
pub open spec fn fetch_requests<Id, J, A, E>(
    start: RunState<Id>,
    events: Seq<RunEvent<Id, J, A, E>>,
) -> nat
    decreases events.len(),
{
    if events.len() == 0 {
        0
    } else {
        let before = fetch_requests(start, events.drop_last());
        if last_step(start, events).action is GetNextJob {
            before + 1
        } else {
            before
        }
    }
}

/// The waits the loop has asked for since a job was last found, or since
/// the run began: the current streak of idle waits.
pub open spec fn idle_waits<Id, J, A, E>(
    start: RunState<Id>,
    events: Seq<RunEvent<Id, J, A, E>>,
) -> Seq<u64>
    decreases events.len(),
{
    if events.len() == 0 {
        Seq::empty()
    } else {
        let before = idle_waits(start, events.drop_last());
        match last_step(start, events).action {
            RunAction::Sleep { ms } => before.push(ms),
            RunAction::ProcessJob { .. } => Seq::empty(),
            _ => before,
        }
    }
}

/// Whether the event, taken in this state, is one of those that end a loop
/// early: a set stop signal, an empty or failing job source, a failed read
/// of the attempt count, a failed recording of artifacts.
pub open spec fn cuts_short<Id, J, A, E>(state: RunState<Id>, event: RunEvent<Id, J, A, E>) -> bool {
    match state.step_spec(event).state.phase {
        RunPhase::Stopped(reason) => !state.is_stopped() && reason != StopReason::BudgetSpent,
        _ => false,
    }
}

/// Whether no event of the run ended the loop early.
pub open spec fn undisturbed<Id, J, A, E>(
    start: RunState<Id>,
    events: Seq<RunEvent<Id, J, A, E>>,
) -> bool
    decreases events.len(),
{
    events.len() == 0 || (undisturbed(start, events.drop_last()) && !cuts_short(
        run_after(start, events.drop_last()),
        events.last(),
    ))
}

/// A stopped loop rejects every event.
pub proof fn law_stopped_is_final<Id, J, A, E>(
    start: RunState<Id>,
    events: Seq<RunEvent<Id, J, A, E>>,
)
    requires
        start.is_stopped(),
    ensures
        run_after(start, events) == start,
        fetched_jobs(start, events).len() == 0,
        save_requests(start, events).len() == 0,
        fetch_requests(start, events) == 0,
        idle_waits(start, events).len() == 0,
        events.len() > 0 ==> last_step(start, events).action == RunAction::Rejected(events.last()),
    decreases events.len(),
{
    if events.len() > 0 {
        law_stopped_is_final(start, events.drop_last());
    }
}

/// The job source is asked for a job only in answer to a stop signal that
/// was read clear while the loop was idle.
pub proof fn law_fetch_follows_clear_stop_signal<Id, J, A, E>(
    state: RunState<Id>,
    event: RunEvent<Id, J, A, E>,
)
    ensures
        state.step_spec(event).action is GetNextJob <==> state.phase is Idle && event
            == RunEvent::<Id, J, A, E>::StopSignal(false),
        state.phase is Idle && event == RunEvent::<Id, J, A, E>::StopSignal(true)
            ==> state.step_spec(event).state.phase == RunPhase::<Id>::Stopped(
            StopReason::StopSignal,
        ) && state.step_spec(event).action == RunAction::<Id, J, A, E>::Return(Ok(())),
{
}

/// The stop signal is read only between jobs: when the loop asks for it, no
/// job is in flight, and while a job is in flight or its outcome is being
/// recorded no event makes the loop ask for it or end on it.
pub proof fn law_stop_signal_is_read_between_jobs<Id, J, A, E>(
    state: RunState<Id>,
    event: RunEvent<Id, J, A, E>,
)
    ensures
        state.step_spec(event).action is ReadStopSignal ==> state.step_spec(event).state.phase
            is Idle && !state.step_spec(event).state.holds_job(),
        state.holds_job() ==> state.step_spec(event).state.phase != RunPhase::<Id>::Stopped(
            StopReason::StopSignal,
        ),
{
}

/// The loop keeps the end of a wait to itself: it never hands on the
/// wait's return or the wait's rejection of an event as an action of the
/// wait.
pub proof fn law_wait_ends_inside_the_loop<Id, J, A, E>(
    state: RunState<Id>,
    event: RunEvent<Id, J, A, E>,
)
    ensures
        match state.step_spec(event).action {
            RunAction::Wait(WaitAction::Return(_)) => false,
            RunAction::Wait(WaitAction::Rejected(_)) => false,
            _ => true,
        },
{
}

/// With a budget of zero the loop is over before it begins: it never asks
/// for the stop signal or for a job, whatever is reported to it.
pub proof fn law_zero_budget_never_fetches<Id, J, A, E>(
    config: RunConfig,
    events: Seq<RunEvent<Id, J, A, E>>,
)
    ensures
        RunState::<Id>::start_spec::<J, A, E>(config, Some(0usize)).action == RunAction::<
            Id,
            J,
            A,
            E,
        >::Return(Ok(())),
        RunState::<Id>::initial_spec(config, Some(0usize)).is_stopped(),
        run_after(RunState::<Id>::initial_spec(config, Some(0usize)), events)
            == RunState::<Id>::initial_spec(config, Some(0usize)),
        fetch_requests(RunState::<Id>::initial_spec(config, Some(0usize)), events) == 0,
{
    law_stopped_is_final(RunState::<Id>::initial_spec(config, Some(0usize)), events);
}

/// If the stop signal is set when the loop first reads it, the loop returns
/// success and never asks for a job, whatever is reported afterwards.
pub proof fn law_stop_signal_before_first_fetch<Id, J, A, E>(
    config: RunConfig,
    budget: Option<usize>,
    events: Seq<RunEvent<Id, J, A, E>>,
)
    requires
        budget != Some(0usize),
        events.len() > 0,
        events[0] == RunEvent::<Id, J, A, E>::StopSignal(true),
    ensures
        last_step(RunState::<Id>::initial_spec(config, budget), events.take(1)).action
            == RunAction::<Id, J, A, E>::Return(Ok(())),
        run_after(RunState::<Id>::initial_spec(config, budget), events).phase == RunPhase::<
            Id,
        >::Stopped(StopReason::StopSignal),
        fetch_requests(RunState::<Id>::initial_spec(config, budget), events) == 0,
        fetched_jobs(RunState::<Id>::initial_spec(config, budget), events).len() == 0,
    decreases events.len(),
{
    let start = RunState::<Id>::initial_spec(config, budget);
    let first = events.take(1);
    assert(first.drop_last() =~= Seq::<RunEvent<Id, J, A, E>>::empty());
    assert(first.last() == events[0]);
    assert(run_after(start, first.drop_last()) == start);
    if events.len() == 1 {
        assert(events =~= first);
        assert(fetch_requests(start, first.drop_last()) == 0);
        assert(fetched_jobs(start, first.drop_last()).len() == 0);
    } else {
        let shorter = events.drop_last();
        assert(shorter.take(1) =~= first);
        law_stop_signal_before_first_fetch(config, budget, shorter);
    }
}

/// How the jobs fetched so far, the save requests issued so far and the
/// state of the loop hang together: every save request is for the job
/// fetched at the same position, at most one fetched job is without a save
/// request, and that job is the one in flight, or the one whose attempt
/// count could not be read.
pub open spec fn records_match<Id>(
    state: RunState<Id>,
    fetched: Seq<Id>,
    saved: Seq<SaveRecord<Id>>,
) -> bool {
    let lost = state.phase == RunPhase::<Id>::Stopped(
        StopReason::Failed(RunFault::WaitForTask(WaitFault::GetJobAttempts)),
    );
    &&& saved.len() <= fetched.len() <= saved.len() + 1
    &&& forall|i: int| 0 <= i < saved.len() ==> (#[trigger] saved[i]).job_id == fetched[i]
    &&& state.holds_job() ==> fetched.len() == saved.len() + 1 && fetched.last()
        == state.job_id_spec()
    &&& lost ==> fetched.len() == saved.len() + 1
    &&& !state.holds_job() && !lost ==> fetched.len() == saved.len()
}

/// For every fetched job the loop asks exactly once for its outcome to be
/// recorded, as a result or as a failure, in the order in which the jobs
/// were fetched, and it fetches no job while another is unrecorded. The one
/// job for which nothing is recorded is a job whose attempt count could not
/// be read: that failure ends the loop.
pub proof fn law_one_save_per_job<Id, J, A, E>(
    config: RunConfig,
    budget: Option<usize>,
    events: Seq<RunEvent<Id, J, A, E>>,
)
    ensures
        records_match(
            run_after(RunState::<Id>::initial_spec(config, budget), events),
            fetched_jobs(RunState::<Id>::initial_spec(config, budget), events),
            save_requests(RunState::<Id>::initial_spec(config, budget), events),
        ),
    decreases events.len(),
{
    let start = RunState::<Id>::initial_spec(config, budget);
    if events.len() > 0 {
        let shorter = events.drop_last();
        law_one_save_per_job(config, budget, shorter);
        let before = run_after(start, shorter);
        let step = before.step_spec(events.last());
        let fetched = fetched_jobs(start, shorter);
        let saved = save_requests(start, shorter);
        assert(step == last_step(start, events));
        match (before.phase, events.last()) {
            (RunPhase::Awaiting(wait), RunEvent::Wait(wait_event)) => {
                let inner = wait.step_spec(wait_event);
                assert(records_match(
                    step.state,
                    fetched_jobs(start, events),
                    save_requests(start, events),
                ));
            },
            _ => {},
        }
    }
}

/// The waits of an idle streak are those of the backoff policy: the first
/// is the polling interval, each later one the policy's successor of the
/// one before, and the wait the loop holds ready is the next in line. A
/// found job begins a new streak.
pub proof fn law_idle_waits_follow_policy<Id, J, A, E>(
    config: RunConfig,
    budget: Option<usize>,
    events: Seq<RunEvent<Id, J, A, E>>,
)
    ensures
        forall|i: int|
            0 <= i < idle_waits(RunState::<Id>::initial_spec(config, budget), events).len()
                ==> #[trigger] idle_waits(RunState::<Id>::initial_spec(config, budget), events)[i]
                == config.backoff_spec().after_spec(i as nat),
        run_after(RunState::<Id>::initial_spec(config, budget), events).backoff_ms
            == config.backoff_spec().after_spec(
            idle_waits(RunState::<Id>::initial_spec(config, budget), events).len(),
        ),
        run_after(RunState::<Id>::initial_spec(config, budget), events).config == config,
    decreases events.len(),
{
    let start = RunState::<Id>::initial_spec(config, budget);
    if events.len() > 0 {
        let shorter = events.drop_last();
        law_idle_waits_follow_policy(config, budget, shorter);
        let before = run_after(start, shorter);
        let step = before.step_spec(events.last());
        assert(step == last_step(start, events));
        let waits = idle_waits(start, shorter);
        assert(config.backoff_spec().after_spec(waits.len() + 1)
            == config.backoff_spec().next_spec(config.backoff_spec().after_spec(waits.len())));
    }
}

/// While the job source stays empty the waits of a well-formed
/// configuration never shrink and never exceed the ceiling, and the first
/// wait after a job was found, or after the start, is the polling interval.
pub proof fn law_idle_waits_grow_to_cap<Id, J, A, E>(
    config: RunConfig,
    budget: Option<usize>,
    events: Seq<RunEvent<Id, J, A, E>>,
)
    requires
        config.wf(),
    ensures
        ({
            let waits = idle_waits(RunState::<Id>::initial_spec(config, budget), events);
            &&& waits.len() > 0 ==> waits[0] == config.polling_interval_ms
            &&& forall|i: int|
                0 <= i < waits.len() ==> config.polling_interval_ms <= #[trigger] waits[i]
                    <= config.max_backoff_ms
            &&& forall|i: int, j: int|
                0 <= i <= j < waits.len() ==> #[trigger] waits[i] <= #[trigger] waits[j]
        }),
{
    let start = RunState::<Id>::initial_spec(config, budget);
    let waits = idle_waits(start, events);
    let policy = config.backoff_spec();
    law_idle_waits_follow_policy(config, budget, events);
    assert forall|i: int| 0 <= i < waits.len() implies config.polling_interval_ms
        <= #[trigger] waits[i] <= config.max_backoff_ms by {
        lemma_streak_is_monotone_and_bounded(policy, i as nat);
    }
    assert forall|i: int, j: int| 0 <= i <= j < waits.len() implies #[trigger] waits[i]
        <= #[trigger] waits[j] by {
        lemma_streak_is_ordered(policy, i as nat, j as nat);
    }
}

/// With a budget of `k` jobs the loop never fetches more than `k`, and when
/// it stops for want of budget it has fetched exactly `k` jobs and asked
/// for each of them to be recorded. A run in which nothing cuts the loop
/// short (no set stop signal, no empty or failing job source, no failed
/// read of an attempt count, no failed recording of artifacts) can stop for
/// want of budget only.
pub proof fn law_budget_is_spent_exactly<Id, J, A, E>(
    config: RunConfig,
    k: usize,
    events: Seq<RunEvent<Id, J, A, E>>,
)
    ensures
        ({
            let start = RunState::<Id>::initial_spec(config, Some(k));
            let end = run_after(start, events);
            let fetched = fetched_jobs(start, events);
            let saved = save_requests(start, events);
            &&& fetched.len() <= k
            &&& end.iterations_left == Some((k - fetched.len()) as usize)
            &&& (end.phase is Idle || end.phase is Fetching) ==> fetched.len() < k
            &&& !(end.phase is BackingOff)
            &&& end.phase == RunPhase::<Id>::Stopped(StopReason::BudgetSpent) ==> fetched.len() == k
                && saved.len() == k
            &&& undisturbed(start, events) && end.is_stopped() ==> end.phase == RunPhase::<
                Id,
            >::Stopped(StopReason::BudgetSpent)
        }),
    decreases events.len(),
{
    let start = RunState::<Id>::initial_spec(config, Some(k));
    law_one_save_per_job(config, Some(k), events);
    if events.len() > 0 {
        let shorter = events.drop_last();
        law_budget_is_spent_exactly(config, k, shorter);
        law_one_save_per_job(config, Some(k), shorter);
        let before = run_after(start, shorter);
        let step = before.step_spec(events.last());
        assert(step == last_step(start, events));
        match (before.phase, events.last()) {
            (RunPhase::Awaiting(wait), RunEvent::Wait(wait_event)) => {
                let inner = wait.step_spec(wait_event);
                assert(step.state.iterations_left == before.iterations_left);
            },
            _ => {},
        }
    }
}

/// The state the wait is in after it has taken `events` from `start`.
pub open spec fn wait_after<Id, A, E>(start: WaitState<Id>, events: Seq<WaitEvent<A, E>>) -> WaitState<
    Id,
>
    decreases events.len(),
{
    if events.len() == 0 {
        start
    } else {
        wait_after(start, events.drop_last()).step_spec(events.last()).state
    }
}

/// The requests to record an outcome that the wait has issued while taking
/// `events` from `start`, in order.
pub open spec fn wait_save_requests<Id, A, E>(
    start: WaitState<Id>,
    events: Seq<WaitEvent<A, E>>,
) -> Seq<SaveRecord<Id>>
    decreases events.len(),
{
    if events.len() == 0 {
        Seq::empty()
    } else {
        let before = wait_save_requests(start, events.drop_last());
        match wait_after(start, events.drop_last()).step_spec(events.last()).action {
            WaitAction::SaveResult { job_id, .. } => before.push(
                SaveRecord { job_id, success: true },
            ),
            WaitAction::SaveFailure { job_id, .. } => before.push(
                SaveRecord { job_id, success: false },
            ),
            _ => before,
        }
    }
}

/// A wait asks at most once for an outcome to be recorded, and only for
/// the job it was begun for: nothing while the job is in flight or when its
/// attempt count could not be read, a result or a failure otherwise.
pub proof fn law_wait_records_once<Id, A, E>(
    job_id: Id,
    polling_interval_ms: u64,
    events: Seq<WaitEvent<A, E>>,
)
    ensures
        ({
            let start = WaitState::start_spec(job_id, polling_interval_ms);
            let end = wait_after(start, events);
            let saved = wait_save_requests(start, events);
            let result = seq![SaveRecord { job_id, success: true }];
            let failure = seq![SaveRecord { job_id, success: false }];
            &&& end.holds_job() ==> saved.len() == 0 && end.job_id_spec() == job_id
            &&& end.phase is SavingResult ==> saved == result
            &&& end.phase is SavingFailure ==> saved == failure
            &&& end.phase == WaitPhase::<Id>::Done { fault: None } ==> saved == result || saved
                == failure
            &&& end.phase == WaitPhase::<Id>::Done { fault: Some(WaitFault::SaveResult) } ==> saved
                == result
            &&& end.phase == WaitPhase::<Id>::Done { fault: Some(WaitFault::GetJobAttempts) }
                ==> saved.len() == 0
        }),
    decreases events.len(),
{
    if events.len() > 0 {
        law_wait_records_once(job_id, polling_interval_ms, events.drop_last());
        let start = WaitState::start_spec(job_id, polling_interval_ms);
        let saved = wait_save_requests(start, events.drop_last());
        if saved.len() == 0 {
            assert(saved.push(SaveRecord { job_id, success: true }) =~= seq![
                SaveRecord { job_id, success: true },
            ]);
            assert(saved.push(SaveRecord { job_id, success: false }) =~= seq![
                SaveRecord { job_id, success: false },
            ]);
        }
    }
}

/// Once an outcome has been handed over to be recorded the wait asks for
/// nothing more to be recorded, whatever is reported to it.
pub proof fn law_nothing_recorded_after_handover<Id, A, E>(
    start: WaitState<Id>,
    events: Seq<WaitEvent<A, E>>,
)
    requires
        !start.holds_job(),
    ensures
        !wait_after(start, events).holds_job(),
        wait_save_requests(start, events).len() == 0,
    decreases events.len(),
{
    if events.len() > 0 {
        law_nothing_recorded_after_handover(start, events.drop_last());
    }
}

/// A task that terminates abnormally while it is polled has its failure
/// handed over to be recorded, with a text that is not empty, and neither a
/// result nor a second failure is recorded for the job afterwards.
pub proof fn law_abnormal_termination_saves_failure_once<Id, A, E>(
    job_id: Id,
    attempts: u32,
    polling_interval_ms: u64,
    failure: JobFailure,
    events: Seq<WaitEvent<A, E>>,
)
    requires
        failure.is_abnormal(),
    ensures
        ({
            let polling = WaitState {
                phase: WaitPhase::Polling { job_id, attempts },
                polling_interval_ms,
            };
            let step = polling.step_spec(
                WaitEvent::<A, E>::TaskFinished(TaskOutcome::Failure(failure)),
            );
            &&& step.action == WaitAction::<Id, A, E>::SaveFailure { job_id, failure }
            &&& step.state.phase is SavingFailure
            &&& failure.message_spec().len() > 0
            &&& wait_save_requests(step.state, events).len() == 0
        }),
{
    let polling = WaitState { phase: WaitPhase::Polling { job_id, attempts }, polling_interval_ms };
    let step = polling.step_spec(WaitEvent::<A, E>::TaskFinished(TaskOutcome::Failure(failure)));
    lemma_abnormal_message_nonempty(failure);
    law_nothing_recorded_after_handover(step.state, events);
}

} // verus!
