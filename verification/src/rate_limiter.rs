//! Rate limiting for plugin navigation actions.
//!
//! Prevents plugins from overwhelming the navigation system with too many
//! actions in a short time period. A fixed one-second window is tracked: the
//! counter restarts once a whole second has passed since the window began.
use std::time::Instant;
use vstd::prelude::*;
use crate::text::{dec_digits, push_decimal, push_str};

verus! {

#[verifier::external_type_specification]
#[verifier::external_body]
pub struct ExInstant(Instant);

/// `Instant` is `Copy`: its `clone` gives back the same instant.
pub assume_specification[ <Instant as Clone>::clone ](i: &Instant) -> (r: Instant)
    ensures
        r == *i,
;

/// Reads the monotonic clock: `std::time::Instant::now`. Nothing is claimed of
/// the value read.
#[verifier::external_body]
pub(crate) fn now_instant() -> (now: Instant) {
    Instant::now()
}

/// Whole seconds from `start` to `now`:
/// `now.duration_since(start).as_secs()` (zero when `now` is earlier). The
/// result depends on clock readings, of which nothing is stated.
#[verifier::external_body]
fn whole_secs_between(start: &Instant, now: &Instant) -> (secs: u64) {
    now.duration_since(*start).as_secs()
}

/// Error returned when a plugin exceeds its rate limit.
#[derive(Debug, Clone, PartialEq, Eq)]
pub enum RateLimitError {
    /// Plugin exceeded its maximum actions per second.
    ExceededLimit { current: u32, limit: u32 },
}

/// The message of an `ExceededLimit` error.
pub open spec fn exceeded_message(current: u32, limit: u32) -> Seq<char> {
    "Rate limit exceeded: "@ + dec_digits(current as nat) + " actions in last second (max: "@
        + dec_digits(limit as nat) + ")"@
}

impl RateLimitError {
    /// The human-readable message of this error.
    pub fn to_string(&self) -> (s: String)
        ensures
            match self {
                RateLimitError::ExceededLimit { current, limit } => s@ == exceeded_message(
                    *current,
                    *limit,
                ),
            },
    {
        match self {
            RateLimitError::ExceededLimit { current, limit } => {
                let mut s = String::new();
                push_str(&mut s, "Rate limit exceeded: ");
                push_decimal(&mut s, *current as u64);
                push_str(&mut s, " actions in last second (max: ");
                push_decimal(&mut s, *limit as u64);
                push_str(&mut s, ")");
                proof {
                    assert(s@ =~= exceeded_message(*current, *limit));
                }
                s
            },
        }
    }
}

/// Rate limiter for plugin navigation actions.
///
/// Tracks the number of actions within the current one-second window. When
/// the window expires, the counter restarts.
#[derive(Debug, Clone)]
pub struct PluginNavRateLimiter {
    /// Maximum actions allowed per second
    actions_per_second: u32,
    /// Start of the current time window
    window_start: Instant,
    /// Number of actions in the current window
    action_count: u32,
}

/// The counter a window starts from: zero when the window has expired
/// (a whole second or more has passed), else the current count.
pub open spec fn effective_count(count: u32, elapsed_secs: u64) -> u32 {
    if elapsed_secs >= 1 {
        0
    } else {
        count
    }
}

/// One rate-limit decision: from the effective count and the limit, whether
/// the action is accepted and the count afterwards.
pub open spec fn decide(count: u32, limit: u32) -> (bool, u32) {
    if count >= limit {
        (false, count)
    } else {
        (true, (count + 1) as u32)
    }
}

/// The result that goes with a decision.
pub open spec fn decision_result(count: u32, limit: u32, r: Result<(), RateLimitError>) -> bool {
    if count >= limit {
        r == Err::<(), RateLimitError>(RateLimitError::ExceededLimit { current: count, limit })
    } else {
        r == Ok::<(), RateLimitError>(())
    }
}

impl PluginNavRateLimiter {
    /// The action limit per window.
    pub closed spec fn spec_limit(&self) -> u32 {
        self.actions_per_second
    }

    /// The number of actions counted in the current window.
    pub closed spec fn spec_count(&self) -> u32 {
        self.action_count
    }

    /// The instant the current window began.
    pub closed spec fn spec_window_start(&self) -> Instant {
        self.window_start
    }

    /// The limiter never counts more actions than its limit.
    pub closed spec fn wf(&self) -> bool {
        self.action_count <= self.actions_per_second
    }

    /// Create a new rate limiter allowing `actions_per_second` actions per window.
    pub fn new(actions_per_second: u32) -> (r: Self)
        ensures
            r.wf(),
            r.spec_limit() == actions_per_second,
            r.spec_count() == 0,
    {
        Self { actions_per_second, window_start: now_instant(), action_count: 0 }
    }

    /// Create a rate limiter with default settings (10 actions per second).
    pub fn default() -> (r: Self)
        ensures
            r.wf(),
            r.spec_limit() == 10,
            r.spec_count() == 0,
    {
        Self::new(10)
    }

    /// Decides an action, given how many whole seconds have passed since the
    /// window began and the current instant: the window restarts at `now` when
    /// a second or more has passed, then the action is refused when the count
    /// has reached the limit, else counted.
    pub fn check_action_after(&mut self, elapsed_secs: u64, now: Instant) -> (r: Result<
        (),
        RateLimitError,
    >)
        requires
            old(self).wf(),
        ensures
            final(self).wf(),
            final(self).spec_limit() == old(self).spec_limit(),
            final(self).spec_count() <= final(self).spec_limit(),
            final(self).spec_window_start() == (if elapsed_secs >= 1 {
                now
            } else {
                old(self).spec_window_start()
            }),
            decision_result(effective_count(old(self).spec_count(), elapsed_secs), old(self).spec_limit(), r),
            final(self).spec_count() == decide(
                effective_count(old(self).spec_count(), elapsed_secs),
                old(self).spec_limit(),
            ).1,
            r is Ok == decide(effective_count(old(self).spec_count(), elapsed_secs), old(self).spec_limit()).0,
    {
        if elapsed_secs >= 1 {
            self.window_start = now;
            self.action_count = 0;
        }
        if self.action_count >= self.actions_per_second {
            return Err(
                RateLimitError::ExceededLimit {
                    current: self.action_count,
                    limit: self.actions_per_second,
                },
            );
        }
        self.action_count = self.action_count + 1;
        Ok(())
    }

    /// Check if an action is allowed and count it.
    ///
    /// Reads the clock; whatever it reads, the outcome is one of the two that
    /// `check_action_after` gives: with the window kept or restarted.
    pub fn check_action(&mut self) -> (r: Result<(), RateLimitError>)
        requires
            old(self).wf(),
        ensures
            final(self).wf(),
            final(self).spec_limit() == old(self).spec_limit(),
            final(self).spec_count() <= final(self).spec_limit(),
            exists|elapsed: u64|
                {
                    &&& #[trigger] decision_result(
                        effective_count(old(self).spec_count(), elapsed),
                        old(self).spec_limit(),
                        r,
                    )
                    &&& final(self).spec_count() == decide(
                        effective_count(old(self).spec_count(), elapsed),
                        old(self).spec_limit(),
                    ).1
                },
    {
        let now = now_instant();
        let elapsed = whole_secs_between(&self.window_start, &now);
        let r = self.check_action_after(elapsed, now);
        r
    }

    /// However the limiter was made and used, its count never exceeds its
    /// limit, so counting an accepted action cannot overflow.
    pub proof fn lemma_count_within_limit(&self)
        requires
            self.wf(),
        ensures
            self.spec_count() <= self.spec_limit(),
    {
    }

    /// The current action count in the window.
    pub fn current_count(&self) -> (c: u32)
        ensures
            c == self.spec_count(),
            self.wf() ==> c <= self.spec_limit(),
    {
        self.action_count
    }

    /// The maximum actions per second.
    pub fn limit(&self) -> (l: u32)
        ensures
            l == self.spec_limit(),
    {
        self.actions_per_second
    }

    /// Reset the rate limiter: the count goes to zero and a new window starts.
    pub fn reset(&mut self)
        ensures
            final(self).wf(),
            final(self).spec_count() == 0,
            final(self).spec_limit() == old(self).spec_limit(),
    {
        self.window_start = now_instant();
        self.action_count = 0;
    }
}

/// The count after `n` decisions within one window, starting from `count`.
pub open spec fn count_after(count: u32, limit: u32, n: nat) -> u32
    decreases n,
{
    if n == 0 {
        count
    } else {
        decide(count_after(count, limit, (n - 1) as nat), limit).1
    }
}

/// Within one window, starting from an empty count, the first `limit`
/// actions are accepted and every later one is refused: after `n` actions the
/// count is `min(n, limit)`, and action number `n + 1` is accepted exactly
/// when `n < limit`.
pub proof fn lemma_window_accepts_exactly_limit(limit: u32, n: nat)
    ensures
        count_after(0, limit, n) == (if n < limit {
            n
        } else {
            limit as nat
        }),
        decide(count_after(0, limit, n), limit).0 == (n < limit),
    decreases n,
{
    if n > 0 {
        lemma_window_accepts_exactly_limit(limit, (n - 1) as nat);
    }
}

/// A refused action leaves the count unchanged, so refusals repeat until the
/// window expires.
pub proof fn lemma_refusal_is_stable(count: u32, limit: u32)
    requires
        !decide(count, limit).0,
    ensures
        decide(count, limit).1 == count,
        !decide(decide(count, limit).1, limit).0,
{
}

} // verus!
