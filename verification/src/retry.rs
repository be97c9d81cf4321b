//! Trying again, a limited number of times, with a pause between each two.

use vstd::prelude::*;

verus! {

/// How many attempts were made and may be made, and how long to wait between
/// two of them.
#[derive(Debug, Clone, Copy, PartialEq, Eq, Structural)]
pub struct Retry {
    pub attempts: u32,
    pub max_attempts: u32,
    pub delay_ms: u64,
}

impl Retry {
    /// Whether no more attempts were made than may be made.
    pub open spec fn wf(self) -> bool {
        self.attempts <= self.max_attempts
    }

    /// Whether another attempt may be made.
    pub open spec fn may_try(self) -> bool {
        self.attempts < self.max_attempts
    }

    /// What stands after one more attempt has failed.
    pub open spec fn after_failure(self) -> Retry {
        Retry { attempts: (self.attempts + 1) as u32, ..self }
    }

    /// No attempt made yet.
    pub fn new(max_attempts: u32, delay_ms: u64) -> (r: Retry)
        ensures
            r == (Retry { attempts: 0, max_attempts, delay_ms }),
            r.wf(),
    {
        Retry { attempts: 0, max_attempts, delay_ms }
    }

    /// Whether another attempt may be made.
    pub fn may_attempt(&self) -> (r: bool)
        ensures
            r == self.may_try(),
    {
        self.attempts < self.max_attempts
    }

    /// Takes note of a failed attempt. Returns how long to wait before the
    /// next one, `None` if it was the last.
    pub fn failed(&mut self) -> (r: Option<u64>)
        requires
            old(self).may_try(),
        ensures
            *final(self) == old(self).after_failure(),
            final(self).wf(),
            r == if final(self).may_try() {
                Some(final(self).delay_ms)
            } else {
                None
            },
    {
        self.attempts = self.attempts + 1;
        if self.attempts < self.max_attempts {
            Some(self.delay_ms)
        } else {
            None
        }
    }
}

/// What to do next towards something that may fail.
#[derive(Debug)]
pub enum RetryStep {
    /// Try, now.
    Attempt,
    /// Wait so many milliseconds, and try again.
    WaitAndAttempt(u64),
    /// Stop trying, for the reason given.
    GiveUp(String),
}

impl Retry {
    /// The first step. Where no attempt may be made at all, that is the reason
    /// to give up.
    pub fn begin(&self, none_allowed: String) -> (r: RetryStep)
        ensures
            if self.may_try() {
                r == RetryStep::Attempt
            } else {
                r is GiveUp && r->GiveUp_0@ == none_allowed@
            },
    {
        if self.may_attempt() {
            RetryStep::Attempt
        } else {
            RetryStep::GiveUp(none_allowed)
        }
    }

    /// The step after an attempt has failed: another one after a pause, or, if
    /// it was the last, giving up for the reason that it failed.
    pub fn again(&mut self, cause: String) -> (r: RetryStep)
        requires
            old(self).may_try(),
        ensures
            *final(self) == old(self).after_failure(),
            final(self).wf(),
            if final(self).may_try() {
                r == RetryStep::WaitAndAttempt(old(self).delay_ms)
            } else {
                r is GiveUp && r->GiveUp_0@ == cause@
            },
    {
        match self.failed() {
            Some(delay_ms) => RetryStep::WaitAndAttempt(delay_ms),
            None => RetryStep::GiveUp(cause),
        }
    }
}

/// What stands after `n` attempts have failed.
pub open spec fn after_failures(retry: Retry, n: nat) -> Retry
    decreases n,
{
    if n == 0 {
        retry
    } else {
        after_failures(retry, (n - 1) as nat).after_failure()
    }
}

/// Exactly as many attempts are made as were asked for: another one may be
/// made while fewer have failed, and none after that.
pub proof fn law_attempts_are_bounded(max_attempts: u32, delay_ms: u64, n: nat)
    requires
        n <= max_attempts,
    ensures
        after_failures(Retry { attempts: 0, max_attempts, delay_ms }, n).attempts == n,
        after_failures(Retry { attempts: 0, max_attempts, delay_ms }, n).wf(),
        after_failures(Retry { attempts: 0, max_attempts, delay_ms }, n).may_try() <==> n
            < max_attempts,
    decreases n,
{
    if n > 0 {
        law_attempts_are_bounded(max_attempts, delay_ms, (n - 1) as nat);
        lemma_max_unchanged(Retry { attempts: 0, max_attempts, delay_ms }, n);
    }
}

proof fn lemma_max_unchanged(retry: Retry, n: nat)
    ensures
        after_failures(retry, n).max_attempts == retry.max_attempts,
    decreases n,
{
    if n > 0 {
        lemma_max_unchanged(retry, (n - 1) as nat);
    }
}

/// A failed attempt counts once, and changes neither how many may be made nor
/// how long to wait; another may be made exactly while fewer have failed than
/// may be made.
pub proof fn law_failure_counts_once(retry: Retry)
    requires
        retry.attempts < retry.max_attempts,
    ensures
        retry.may_try(),
        retry.after_failure().attempts == retry.attempts + 1,
        retry.after_failure().max_attempts == retry.max_attempts,
        retry.after_failure().delay_ms == retry.delay_ms,
        retry.after_failure().may_try() <==> retry.attempts + 1 < retry.max_attempts,
{
}

/// The last failure is told, and every other is followed by the pause and
/// another attempt.
pub proof fn law_trying_again(retry: &mut Retry, cause: String, step: RetryStep)
    requires
        old(retry).attempts < old(retry).max_attempts,
        call_ensures(Retry::again, (retry, cause), step),
    ensures
        final(retry).attempts == old(retry).attempts + 1,
        final(retry).max_attempts == old(retry).max_attempts,
        old(retry).attempts + 1 < old(retry).max_attempts ==> step == RetryStep::WaitAndAttempt(
            old(retry).delay_ms,
        ),
        old(retry).attempts + 1 == old(retry).max_attempts ==> step is GiveUp && step->GiveUp_0@
            == cause@,
{
}

} // verus!
