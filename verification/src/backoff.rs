//! Backoff policy: how long to wait after a streak of idle rounds or failed
//! attempts.

use vstd::arithmetic::power::{lemma_pow0, lemma_pow1, pow};
use vstd::prelude::*;

verus! {

/// Wait durations, in milliseconds, that grow by a constant factor up to a
/// ceiling and fall back to the base after a successful unit of work.
#[derive(Clone, Copy, Debug, PartialEq, Eq, Structural)]
pub struct BackoffPolicy {
    /// The wait after the first idle round or failure of a streak.
    pub base_ms: u64,
    /// The ceiling no wait exceeds once the streak has begun to grow.
    pub cap_ms: u64,
    /// The factor by which the wait grows from one round to the next.
    pub multiplier: u64,
}

/// The smaller of two integers.
pub open spec fn min_int(a: int, b: int) -> int {
    if a <= b {
        a
    } else {
        b
    }
}

impl BackoffPolicy {
    /// A policy whose waits stay within `[base_ms, cap_ms]` and never shrink
    /// during a streak.
    pub open spec fn wf(&self) -> bool {
        self.base_ms <= self.cap_ms && self.multiplier >= 1
    }

    /// The wait that follows a wait of `current`: `min(current * multiplier, cap)`.
    pub open spec fn next_spec(&self, current: u64) -> u64 {
        min_int(current * self.multiplier, self.cap_ms as int) as u64
    }

    /// The wait after `rounds` consecutive idle rounds, starting from the base.
    pub open spec fn after_spec(&self, rounds: nat) -> u64
        decreases rounds,
    {
        if rounds == 0 {
            self.base_ms
        } else {
            self.next_spec(self.after_spec((rounds - 1) as nat))
        }
    }

    /// A policy with the given base, ceiling and growth factor.
    pub fn new(base_ms: u64, cap_ms: u64, multiplier: u64) -> (policy: Self)
        ensures
            policy == (BackoffPolicy { base_ms, cap_ms, multiplier }),
    {
        BackoffPolicy { base_ms, cap_ms, multiplier }
    }

    /// The degenerate policy that always waits `interval_ms`.
    pub fn fixed(interval_ms: u64) -> (policy: Self)
        ensures
            policy == (BackoffPolicy { base_ms: interval_ms, cap_ms: interval_ms, multiplier: 1 }),
            policy.wf(),
    {
        BackoffPolicy { base_ms: interval_ms, cap_ms: interval_ms, multiplier: 1 }
    }

    /// Whether the base does not exceed the ceiling and the factor is at least one.
    pub fn is_well_formed(&self) -> (ok: bool)
        ensures
            ok == self.wf(),
    {
        self.base_ms <= self.cap_ms && self.multiplier >= 1
    }

    /// The wait a fresh streak starts with.
    pub fn initial(&self) -> (wait: u64)
        ensures
            wait == self.base_ms,
            wait == self.after_spec(0),
    {
        self.base_ms
    }

    /// The wait that follows `current`. A product too large for the machine
    /// word is above the ceiling, so the ceiling is returned.
    pub fn next_backoff(&self, current: u64) -> (next: u64)
        ensures
            next == self.next_spec(current),
            next as int == min_int(current as int * self.multiplier as int, self.cap_ms as int),
    {
        match current.checked_mul(self.multiplier) {
            Some(grown) => if grown <= self.cap_ms {
                grown
            } else {
                self.cap_ms
            },
            None => self.cap_ms,
        }
    }
}

/// Within a well-formed policy a wait between base and ceiling is followed by
/// one that is no shorter and still between base and ceiling.
pub proof fn lemma_next_grows_within_bounds(policy: BackoffPolicy, current: u64)
    requires
        policy.wf(),
        policy.base_ms <= current <= policy.cap_ms,
    ensures
        current <= policy.next_spec(current) <= policy.cap_ms,
        policy.base_ms <= policy.next_spec(current),
{
    assert(current * policy.multiplier >= current) by (nonlinear_arith)
        requires
            policy.multiplier >= 1,
            current >= 0,
    ;
}

/// A fixed-interval policy repeats its interval for ever.
pub proof fn lemma_fixed_policy_is_constant(interval_ms: u64, rounds: nat)
    ensures
        (BackoffPolicy { base_ms: interval_ms, cap_ms: interval_ms, multiplier: 1 }).after_spec(
            rounds,
        ) == interval_ms,
    decreases rounds,
{
    let policy = BackoffPolicy { base_ms: interval_ms, cap_ms: interval_ms, multiplier: 1 };
    if rounds > 0 {
        lemma_fixed_policy_is_constant(interval_ms, (rounds - 1) as nat);
        assert(policy.next_spec(interval_ms) == interval_ms);
    }
}

/// During a streak the waits of a well-formed policy never shrink and stay
/// between base and ceiling.
pub proof fn lemma_streak_is_monotone_and_bounded(policy: BackoffPolicy, rounds: nat)
    requires
        policy.wf(),
    ensures
        policy.base_ms <= policy.after_spec(rounds) <= policy.cap_ms,
        policy.after_spec(rounds) <= policy.after_spec(rounds + 1),
    decreases rounds,
{
    if rounds > 0 {
        lemma_streak_is_monotone_and_bounded(policy, (rounds - 1) as nat);
        lemma_next_grows_within_bounds(policy, policy.after_spec((rounds - 1) as nat));
    }
    lemma_next_grows_within_bounds(policy, policy.after_spec(rounds));
    assert(policy.after_spec(rounds + 1) == policy.next_spec(policy.after_spec(rounds)));
}

/// The longer a streak of a well-formed policy, the longer its wait.
pub proof fn lemma_streak_is_ordered(policy: BackoffPolicy, earlier: nat, later: nat)
    requires
        policy.wf(),
        earlier <= later,
    ensures
        policy.after_spec(earlier) <= policy.after_spec(later),
    decreases later,
{
    if earlier < later {
        lemma_streak_is_ordered(policy, earlier, (later - 1) as nat);
        lemma_streak_is_monotone_and_bounded(policy, (later - 1) as nat);
    }
}

/// Closed form of a streak: after `rounds` idle rounds the wait is
/// `min(base * multiplier^rounds, cap)`, once the streak has grown at all or
/// whenever the base is within the ceiling.
pub proof fn lemma_streak_closed_form(policy: BackoffPolicy, rounds: nat)
    requires
        rounds > 0 || policy.base_ms <= policy.cap_ms,
    ensures
        policy.after_spec(rounds) as int == min_int(
            policy.base_ms * pow(policy.multiplier as int, rounds),
            policy.cap_ms as int,
        ),
    decreases rounds,
{
    let m = policy.multiplier as int;
    let b = policy.base_ms as int;
    let cap = policy.cap_ms as int;
    if rounds == 0 {
        lemma_pow0(m);
        assert(b * 1 == b);
    } else if rounds == 1 {
        lemma_pow1(m);
        assert(policy.after_spec(0) == policy.base_ms);
        assert(policy.after_spec(1) == policy.next_spec(policy.after_spec(0)));
    } else {
        let prev = (rounds - 1) as nat;
        lemma_streak_closed_form(policy, prev);
        let grown = b * pow(m, prev);
        assert(policy.after_spec(rounds) == policy.next_spec(policy.after_spec(prev)));
        assert(pow(m, rounds) == m * pow(m, prev)) by {
            reveal(pow);
        }
        assert(b * pow(m, rounds) == grown * m) by (nonlinear_arith)
            requires
                pow(m, rounds) == m * pow(m, prev),
                grown == b * pow(m, prev),
        ;
        if grown <= cap {
            assert(policy.after_spec(prev) as int == grown);
        } else {
            assert(policy.after_spec(prev) as int == cap);
            if m == 0 {
                assert(grown * m == 0 && cap * m == 0) by (nonlinear_arith)
                    requires
                        m == 0,
                ;
            } else {
                assert(grown * m > cap && cap * m >= cap) by (nonlinear_arith)
                    requires
                        m >= 1,
                        grown > cap,
                        cap >= 0,
                ;
            }
        }
    }
}

} // verus!
