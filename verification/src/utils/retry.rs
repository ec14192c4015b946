//! The retry loop's decisions: how many attempts are made, which failures
//! stop it at once, when it waits before the next attempt, and the error it
//! ends with. The caller runs the operation and sleeps.
use crate::text::{decimal, owned, push_all, push_decimal};
use vstd::prelude::*;

verus! {

/// What follows a failed attempt.
#[derive(Debug)]
pub enum RetryStep {
    /// The error is not worth retrying: stop with this error.
    GiveUp(String),
    /// Wait the backoff delay of this attempt number, then try again.
    WaitThenRetry(u32),
    /// That was the last attempt: stop with this error.
    Exhausted(String),
}

/// Progress of a retry loop.
pub struct RetryState {
    max_attempts: u32,
    attempt: u32,
    last_error: Option<String>,
}

/// Error after the last attempt failed.
pub open spec fn exhausted_message(op: Seq<char>, max_attempts: u32, last: Option<String>) -> Seq<char> {
    op + ": Failed after "@ + decimal(max_attempts as nat) + " attempts. Last error: "@ + match last {
        Some(m) => m@,
        None => "Unknown error"@,
    }
}

impl RetryState {
    /// Attempts made so far.
    pub closed spec fn attempts(&self) -> nat {
        self.attempt as nat
    }

    /// Attempts allowed.
    pub closed spec fn max(&self) -> nat {
        self.max_attempts as nat
    }

    /// Message of the last retryable failure.
    pub closed spec fn last(&self) -> Option<String> {
        self.last_error
    }

    #[verifier::type_invariant]
    closed spec fn bounded(self) -> bool {
        self.attempt <= self.max_attempts
    }

    /// A loop allowing `max_attempts` attempts, none made.
    pub fn new(max_attempts: u32) -> (s: Self)
        ensures
            s.attempts() == 0,
            s.max() == max_attempts,
            s.last() is None,
    {
        RetryState { max_attempts, attempt: 0, last_error: None }
    }

    /// The number of the next attempt (from 0), or `None` when all were made.
    pub fn next_attempt(&self) -> (r: Option<u32>)
        ensures
            self.attempts() < self.max() ==> r == Some(self.attempts() as u32),
            self.attempts() >= self.max() ==> r is None,
            self.attempts() <= self.max(),
    {
        proof {
            use_type_invariant(self);
        }
        if self.attempt < self.max_attempts {
            Some(self.attempt)
        } else {
            None
        }
    }

    /// Record a failed attempt with its message: a failure that is not
    /// retryable gives up with `op: Non-retryable error: message`; otherwise the attempt counts, and
    /// the loop waits and retries unless that was the last attempt.
    pub fn record_failure(&mut self, op_name: &str, error_msg: String, retryable: bool) -> (step:
        RetryStep)
        requires
            old(self).attempts() < old(self).max(),
        ensures
            final(self).max() == old(self).max(),
            !retryable ==> (step matches RetryStep::GiveUp(m) && m@ == op_name@ + ": Non-retryable error: "@ + error_msg@
                && final(self).attempts() == old(self).attempts() && final(self).last() == old(
                self,
            ).last()),
            retryable ==> final(self).attempts() == old(self).attempts() + 1 && final(self).last()
                == Some(error_msg),
            retryable && old(self).attempts() + 1 < old(self).max() ==> (step matches RetryStep::WaitThenRetry(
                a,
            ) && a == old(self).attempts()),
            retryable && old(self).attempts() + 1 >= old(self).max() ==> (step matches RetryStep::Exhausted(
                m,
            ) && m@ == exhausted_message(op_name@, old(self).max() as u32, Some(error_msg))),
    {
        if !retryable {
            let mut m = owned(op_name);
            push_all(&mut m, ": Non-retryable error: ");
            push_all(&mut m, error_msg.as_str());
            return RetryStep::GiveUp(m);
        }
        let attempt = self.attempt;
        let ghost msg = error_msg;
        self.last_error = Some(error_msg);
        self.attempt = self.attempt + 1;
        if self.attempt < self.max_attempts {
            RetryStep::WaitThenRetry(attempt)
        } else {
            RetryStep::Exhausted(self.exhausted_error(op_name))
        }
    }

    /// The error of a loop whose attempts all failed.
    pub fn exhausted_error(&self, op_name: &str) -> (r: String)
        ensures
            r@ == exhausted_message(op_name@, self.max() as u32, self.last()),
    {
        let mut m = owned(op_name);
        push_all(&mut m, ": Failed after ");
        push_decimal(&mut m, self.max_attempts as u64);
        push_all(&mut m, " attempts. Last error: ");
        match &self.last_error {
            Some(e) => push_all(&mut m, e.as_str()),
            None => push_all(&mut m, "Unknown error"),
        }
        m
    }
}

} // verus!
