use crate::time::Duration;
use vstd::prelude::*;

verus! {

/// Per-request settings that the retry loop reads.
#[derive(Clone, Copy, Debug, PartialEq, Eq, Structural)]
pub struct RequestOptions {
    attempt_timeout: Option<Duration>,
}

impl RequestOptions {
    pub closed spec fn attempt_timeout_spec(self) -> Option<Duration> {
        self.attempt_timeout
    }

    /// Options with no per-attempt timeout.
    pub fn new() -> (r: RequestOptions)
        ensures
            r.attempt_timeout_spec() is None,
    {
        RequestOptions { attempt_timeout: None }
    }

    /// The timeout applied to each attempt, if any.
    pub fn attempt_timeout(&self) -> (r: &Option<Duration>)
        ensures
            *r == self.attempt_timeout_spec(),
    {
        &self.attempt_timeout
    }

    /// Sets the timeout applied to each attempt.
    pub fn set_attempt_timeout(&mut self, timeout: Duration)
        ensures
            final(self).attempt_timeout_spec() == Some(timeout),
    {
        self.attempt_timeout = Some(timeout);
    }
}

/// The shorter of two optional timeouts, where `None` means unbounded.
pub open spec fn min_timeout(a: Option<Duration>, b: Option<Duration>) -> Option<Duration> {
    match (a, b) {
        (None, None) => None,
        (Some(t), None) => Some(t),
        (None, Some(t)) => Some(t),
        (Some(x), Some(y)) => if y.total_nanos() < x.total_nanos() { Some(y) } else { Some(x) },
    }
}

/// The timeout for the next attempt: the per-attempt timeout of `options`
/// bounded by the time left in the retry loop.
pub fn effective_timeout(options: &RequestOptions, remaining_time: Option<Duration>) -> (r: Option<
    Duration,
>)
    requires
        options.attempt_timeout_spec() matches Some(t) ==> t.wf(),
        remaining_time matches Some(t) ==> t.wf(),
    ensures
        r == min_timeout(options.attempt_timeout_spec(), remaining_time),
{
    match (options.attempt_timeout(), remaining_time) {
        (None, None) => None,
        (None, Some(t)) => Some(t),
        (Some(t), None) => Some(*t),
        (Some(a), Some(r)) => {
            if r.shorter_than(a) {
                Some(r)
            } else {
                Some(*a)
            }
        },
    }
}

} // verus!
