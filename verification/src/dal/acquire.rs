//! Bounded-retry acquisition of a pooled connection: some attempts, each
//! failure followed by a fixed wait, then one last attempt.

use crate::backoff::BackoffPolicy;
use vstd::prelude::*;
use vstd::string::StringExecFns;

verus! {

/// How many failed attempts are followed by a wait and another attempt.
pub const DB_CONNECTION_RETRIES: u32 = 3;

/// The wait between two attempts, in milliseconds.
pub const BACKOFF_INTERVAL_MS: u64 = 1000;

/// The text of the error an exhausted acquisition ends with: a fixed phrase
/// followed by the text of the last error, the one handed out in `Fail`.
pub open spec fn exhaustion_message_spec(last_error: Seq<char>) -> Seq<char> {
    "Run out of retries getting a DB connection, last error: "@ + last_error
}

/// Writes the text of the error an exhausted acquisition ends with.
pub fn exhaustion_message(last_error: &str) -> (text: String)
    ensures
        text@ == exhaustion_message_spec(last_error@),
        text@ == "Run out of retries getting a DB connection, last error: "@ + last_error@,
{
    let mut text = String::from_str("Run out of retries getting a DB connection, last error: ");
    text.append(last_error);
    text
}

/// How often to retry and how long to wait in between.
#[derive(Clone, Copy, Debug, PartialEq, Eq, Structural)]
pub struct RetryPolicy {
    /// The number of failed attempts that are followed by a wait and
    /// another attempt. One more attempt is made after the last wait.
    pub retries: u32,
    /// The wait after a failed attempt, in milliseconds.
    pub interval_ms: u64,
}

/// Where an acquisition stands.
#[derive(Clone, Copy, Debug, PartialEq, Eq, Structural)]
pub enum AcquirePhase {
    /// An attempt to lease a connection is under way.
    Attempting,
    /// The wait after a failed attempt is running.
    BackingOff,
    /// A connection was leased.
    Acquired,
    /// The last attempt failed too.
    Exhausted,
}

/// The state of one acquisition.
#[derive(Clone, Copy, Debug)]
pub struct AcquireState {
    pub phase: AcquirePhase,
    /// The number of failed attempts that were followed by a wait.
    pub failures: u32,
    /// The wait that the next failed attempt will be followed by.
    pub wait_ms: u64,
    pub policy: RetryPolicy,
    /// The label under which the time the acquisition took is to be
    /// recorded in addition, if the caller gave one.
    pub requester: Option<&'static str>,
}

/// What the caller reports back after performing an action.
#[derive(Debug)]
pub enum AcquireEvent<C, E> {
    /// The pool leased a connection.
    Leased(C),
    /// The pool could not lease a connection.
    Failed(E),
    /// The wait is over.
    Slept,
}

/// What the caller is asked to do next.
#[derive(Debug)]
pub enum AcquireAction<C, E> {
    /// Publish the pool's size and idle count, then try to lease a
    /// connection. `is_final` says that no retry follows a failure.
    Attempt { is_final: bool },
    /// Count the error under its classification, warn, and suspend for `ms`
    /// milliseconds.
    Backoff { error: E, ms: u64 },
    /// Record the time the acquisition took, under `requester` too if there
    /// is one, and hand out the connection.
    Succeed { connection: C, requester: Option<&'static str> },
    /// Count the error under its classification and give up: the retries
    /// have run out, and `error` is the last error.
    Fail { error: E },
    /// The event answers no outstanding action; nothing has changed, and the
    /// event is handed back.
    Rejected(AcquireEvent<C, E>),
}

/// One transition: the state reached and the action to perform next.
#[derive(Debug)]
pub struct AcquireStep<C, E> {
    pub state: AcquireState,
    pub action: AcquireAction<C, E>,
}

impl RetryPolicy {
    /// The backoff policy between attempts: the fixed-interval one.
    pub open spec fn backoff_spec(&self) -> BackoffPolicy {
        BackoffPolicy { base_ms: self.interval_ms, cap_ms: self.interval_ms, multiplier: 1 }
    }

    /// The standard policy: three retries, one second apart.
    pub open spec fn standard() -> RetryPolicy {
        RetryPolicy { retries: DB_CONNECTION_RETRIES, interval_ms: BACKOFF_INTERVAL_MS }
    }

    /// The backoff policy between attempts.
    pub fn backoff(&self) -> (policy: BackoffPolicy)
        ensures
            policy == self.backoff_spec(),
            policy.wf(),
    {
        BackoffPolicy::fixed(self.interval_ms)
    }
}

impl Default for RetryPolicy {
    /// Three retries, one second apart.
    fn default() -> (policy: Self)
        ensures
            policy == Self::standard(),
    {
        RetryPolicy { retries: DB_CONNECTION_RETRIES, interval_ms: BACKOFF_INTERVAL_MS }
    }
}

impl AcquireState {
    /// The state in which an acquisition begins: the first attempt is under
    /// way.
    pub open spec fn initial_spec(
        policy: RetryPolicy,
        requester: Option<&'static str>,
    ) -> AcquireState {
        AcquireState {
            phase: AcquirePhase::Attempting,
            failures: 0,
            wait_ms: policy.interval_ms,
            policy,
            requester,
        }
    }

    /// Where an acquisition begins: in its initial state, with a first
    /// attempt to make.
    pub open spec fn start_spec<C, E>(
        policy: RetryPolicy,
        requester: Option<&'static str>,
    ) -> AcquireStep<C, E> {
        AcquireStep {
            state: Self::initial_spec(policy, requester),
            action: AcquireAction::Attempt { is_final: policy.retries == 0 },
        }
    }

    /// Whether the attempt under way, or the next one, is the last.
    pub open spec fn on_final_attempt(&self) -> bool {
        self.failures >= self.policy.retries
    }

    /// Whether the acquisition has ended.
    pub open spec fn is_over(&self) -> bool {
        self.phase is Acquired || self.phase is Exhausted
    }

    /// The transition taken on `event`.
    ///
    /// A leased connection ends the acquisition with success. A failed
    /// attempt is followed by a wait of the fixed interval and another
    /// attempt as long as fewer than `retries` attempts have failed; the
    /// failure of the attempt after that ends the acquisition with the
    /// error. Any other pairing of phase and event is rejected.
    pub open spec fn step_spec<C, E>(self, event: AcquireEvent<C, E>) -> AcquireStep<C, E> {
        match (self.phase, event) {
            (AcquirePhase::Attempting, AcquireEvent::Leased(connection)) => AcquireStep {
                state: AcquireState { phase: AcquirePhase::Acquired, ..self },
                action: AcquireAction::Succeed { connection, requester: self.requester },
            },
            (AcquirePhase::Attempting, AcquireEvent::Failed(error)) => if self.failures
                < self.policy.retries {
                AcquireStep {
                    state: AcquireState {
                        phase: AcquirePhase::BackingOff,
                        failures: (self.failures + 1) as u32,
                        wait_ms: self.policy.backoff_spec().next_spec(self.wait_ms),
                        ..self
                    },
                    action: AcquireAction::Backoff { error, ms: self.wait_ms },
                }
            } else {
                AcquireStep {
                    state: AcquireState { phase: AcquirePhase::Exhausted, ..self },
                    action: AcquireAction::Fail { error },
                }
            },
            (AcquirePhase::BackingOff, AcquireEvent::Slept) => AcquireStep {
                state: AcquireState { phase: AcquirePhase::Attempting, ..self },
                action: AcquireAction::Attempt { is_final: self.on_final_attempt() },
            },
            (_, event) => AcquireStep { state: self, action: AcquireAction::Rejected(event) },
        }
    }

    /// Begins an acquisition. The first action is an attempt.
    pub fn start<C, E>(policy: RetryPolicy, requester: Option<&'static str>) -> (out: AcquireStep<
        C,
        E,
    >)
        ensures
            out == Self::start_spec::<C, E>(policy, requester),
    {
        AcquireStep {
            state: AcquireState {
                phase: AcquirePhase::Attempting,
                failures: 0,
                wait_ms: policy.backoff().initial(),
                policy,
                requester,
            },
            action: AcquireAction::Attempt { is_final: policy.retries == 0 },
        }
    }

    /// Takes the transition for `event` and says what to do next.
    pub fn step<C, E>(self, event: AcquireEvent<C, E>) -> (out: AcquireStep<C, E>)
        ensures
            out == self.step_spec(event),
    {
        match (self.phase, event) {
            (AcquirePhase::Attempting, AcquireEvent::Leased(connection)) => AcquireStep {
                state: AcquireState { phase: AcquirePhase::Acquired, ..self },
                action: AcquireAction::Succeed { connection, requester: self.requester },
            },
            (AcquirePhase::Attempting, AcquireEvent::Failed(error)) => {
                if self.failures < self.policy.retries {
                    let next_wait = self.policy.backoff().next_backoff(self.wait_ms);
                    AcquireStep {
                        state: AcquireState {
                            phase: AcquirePhase::BackingOff,
                            failures: self.failures + 1,
                            wait_ms: next_wait,
                            ..self
                        },
                        action: AcquireAction::Backoff { error, ms: self.wait_ms },
                    }
                } else {
                    AcquireStep {
                        state: AcquireState { phase: AcquirePhase::Exhausted, ..self },
                        action: AcquireAction::Fail { error },
                    }
                }
            },
            (AcquirePhase::BackingOff, AcquireEvent::Slept) => AcquireStep {
                state: AcquireState { phase: AcquirePhase::Attempting, ..self },
                action: AcquireAction::Attempt { is_final: self.failures >= self.policy.retries },
            },
            (_, event) => AcquireStep { state: self, action: AcquireAction::Rejected(event) },
        }
    }
}

/// The state an acquisition is in after it has taken `events` from `start`.
pub open spec fn acquire_after<C, E>(start: AcquireState, events: Seq<AcquireEvent<C, E>>) -> AcquireState
    decreases events.len(),
{
    if events.len() == 0 {
        start
    } else {
        acquire_after(start, events.drop_last()).step_spec(events.last()).state
    }
}

/// The action asked for in answer to the last of `events`.
pub open spec fn last_action<C, E>(
    start: AcquireState,
    events: Seq<AcquireEvent<C, E>>,
) -> AcquireAction<C, E>
    recommends
        events.len() > 0,
{
    acquire_after(start, events.drop_last()).step_spec(events.last()).action
}

/// How many attempts were asked for in answer to `events`. The attempt an
/// acquisition begins with is not among them.
pub open spec fn retries_asked<C, E>(start: AcquireState, events: Seq<AcquireEvent<C, E>>) -> nat
    decreases events.len(),
{
    if events.len() == 0 {
        0
    } else {
        let before = retries_asked(start, events.drop_last());
        if last_action(start, events) is Attempt {
            before + 1
        } else {
            before
        }
    }
}

/// How many errors the caller was asked to count in answer to `events`.
pub open spec fn errors_counted<C, E>(start: AcquireState, events: Seq<AcquireEvent<C, E>>) -> nat
    decreases events.len(),
{
    if events.len() == 0 {
        0
    } else {
        let before = errors_counted(start, events.drop_last());
        if last_action(start, events) is Backoff || last_action(start, events) is Fail {
            before + 1
        } else {
            before
        }
    }
}

/// The waits asked for in answer to `events`, in order.
pub open spec fn waits_asked<C, E>(start: AcquireState, events: Seq<AcquireEvent<C, E>>) -> Seq<u64>
    decreases events.len(),
{
    if events.len() == 0 {
        Seq::empty()
    } else {
        let before = waits_asked(start, events.drop_last());
        match last_action(start, events) {
            AcquireAction::Backoff { ms, .. } => before.push(ms),
            _ => before,
        }
    }
}

/// The sum of the waits asked for in answer to `events`, in milliseconds.
pub open spec fn total_wait_ms<C, E>(start: AcquireState, events: Seq<AcquireEvent<C, E>>) -> nat
    decreases events.len(),
{
    if events.len() == 0 {
        0
    } else {
        let before = total_wait_ms(start, events.drop_last());
        match last_action(start, events) {
            AcquireAction::Backoff { ms, .. } => before + ms as nat,
            _ => before,
        }
    }
}

/// The books of an acquisition balance, whatever is reported to it.
///
/// Every wait is the fixed interval, and there is one wait for each failed
/// attempt but the last possible one. An acquisition that is attempting or
/// has succeeded after `r` failures has made `r + 1` attempts, counted `r`
/// errors and waited `r` intervals, with `r` no more than the number of
/// retries. One that is exhausted has made one attempt more than there are
/// retries, counted an error for each attempt, and waited once per retry.
pub proof fn law_acquisition_accounts<C, E>(
    policy: RetryPolicy,
    requester: Option<&'static str>,
    events: Seq<AcquireEvent<C, E>>,
)
    ensures
        ({
            let start = AcquireState::initial_spec(policy, requester);
            let end = acquire_after(start, events);
            let attempts = 1 + retries_asked(start, events);
            let errors = errors_counted(start, events);
            let waits = waits_asked(start, events);
            &&& end.policy == policy && end.requester == requester
            &&& end.wait_ms == policy.interval_ms
            &&& end.failures <= policy.retries
            &&& waits.len() == end.failures
            &&& forall|i: int| 0 <= i < waits.len() ==> #[trigger] waits[i] == policy.interval_ms
            &&& total_wait_ms(start, events) == end.failures * policy.interval_ms
            &&& end.phase is Attempting ==> attempts == errors + 1 && errors == end.failures
            &&& end.phase is BackingOff ==> attempts == errors && errors == end.failures
                && end.failures >= 1
            &&& end.phase is Acquired ==> attempts == errors + 1 && errors == end.failures
            &&& end.phase is Exhausted ==> attempts == policy.retries + 1 && errors
                == policy.retries + 1 && end.failures == policy.retries
        }),
    decreases events.len(),
{
    let start = AcquireState::initial_spec(policy, requester);
    if events.len() > 0 {
        let shorter = events.drop_last();
        law_acquisition_accounts(policy, requester, shorter);
        let before = acquire_after(start, shorter);
        assert(policy.backoff_spec().next_spec(policy.interval_ms) == policy.interval_ms);
        assert((before.failures + 1) * policy.interval_ms == before.failures * policy.interval_ms
            + policy.interval_ms) by (nonlinear_arith);
    } else {
        assert(0 * policy.interval_ms == 0);
    }
}

/// An acquisition that has ended rejects every event.
pub proof fn law_ended_acquisition_is_final<C, E>(
    start: AcquireState,
    events: Seq<AcquireEvent<C, E>>,
)
    requires
        start.is_over(),
    ensures
        acquire_after(start, events) == start,
        retries_asked(start, events) == 0,
        errors_counted(start, events) == 0,
        waits_asked(start, events).len() == 0,
    decreases events.len(),
{
    if events.len() > 0 {
        law_ended_acquisition_is_final(start, events.drop_last());
    }
}

/// A pool that fails `r` attempts in a row, `r` within the number of
/// retries, and then leases a connection makes the acquisition succeed with
/// that connection, after `r` counted errors and `r` waits of the fixed
/// interval.
pub proof fn law_success_after_failures<C, E>(
    policy: RetryPolicy,
    requester: Option<&'static str>,
    events: Seq<AcquireEvent<C, E>>,
    connection: C,
)
    requires
        acquire_after(AcquireState::initial_spec(policy, requester), events).phase is Attempting,
    ensures
        ({
            let start = AcquireState::initial_spec(policy, requester);
            let r = acquire_after(start, events).failures;
            let then = events.push(AcquireEvent::Leased(connection));
            &&& r <= policy.retries
            &&& last_action(start, then) == AcquireAction::<C, E>::Succeed { connection, requester }
            &&& acquire_after(start, then).phase is Acquired
            &&& errors_counted(start, then) == r
            &&& retries_asked(start, then) == r
            &&& waits_asked(start, then) == Seq::new(r as nat, |i: int| policy.interval_ms)
            &&& total_wait_ms(start, then) == r * policy.interval_ms
        }),
{
    let start = AcquireState::initial_spec(policy, requester);
    let then = events.push(AcquireEvent::Leased(connection));
    law_acquisition_accounts(policy, requester, events);
    law_acquisition_accounts(policy, requester, then);
    assert(then.drop_last() =~= events);
    assert(then.last() == AcquireEvent::<C, E>::Leased(connection));
    let r = acquire_after(start, events).failures;
    assert(waits_asked(start, then) =~= Seq::new(r as nat, |i: int| policy.interval_ms));
}

/// With the standard policy of three retries one second apart, a pool that
/// fails every attempt makes the acquisition give up after exactly four
/// attempts, four counted errors and three waits of one second.
pub proof fn law_standard_policy_gives_up_after_four<C, E>(
    requester: Option<&'static str>,
    events: Seq<AcquireEvent<C, E>>,
)
    requires
        acquire_after(
            AcquireState::initial_spec(RetryPolicy::standard(), requester),
            events,
        ).phase is Exhausted,
    ensures
        ({
            let policy = RetryPolicy::standard();
            let start = AcquireState::initial_spec(policy, requester);
            &&& 1 + retries_asked(start, events) == 4
            &&& errors_counted(start, events) == 4
            &&& waits_asked(start, events) == seq![1000u64, 1000u64, 1000u64]
            &&& total_wait_ms(start, events) == 3000
        }),
{
    let policy = RetryPolicy::standard();
    let start = AcquireState::initial_spec(policy, requester);
    law_acquisition_accounts(policy, requester, events);
    let end = acquire_after(start, events);
    let waits = waits_asked(start, events);
    assert(end.failures == 3);
    assert(waits.len() == 3);
    assert(waits[0] == 1000 && waits[1] == 1000 && waits[2] == 1000);
    assert(waits =~= seq![1000u64, 1000u64, 1000u64]);
    assert(end.failures * policy.interval_ms == 3000) by (nonlinear_arith)
        requires
            end.failures == 3,
            policy.interval_ms == 1000,
    ;
}

} // verus!
