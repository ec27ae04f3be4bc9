//! The retry loop as a state machine.
//!
//! One logical call is driven by feeding the machine [`Event`]s: each answer
//! of a collaborator (the retry policy, the backoff policy, the throttler, the
//! inner operation, the sleep primitive) goes in, and the machine says in an
//! [`Action`] what to ask or do next. Every decision of the loop is taken
//! here; the driver only performs the actions.
use crate::time::Duration;
use vstd::prelude::*;

verus! {

/// How the retry policy classifies the error of a failed attempt.
#[derive(Clone, Debug, PartialEq, Eq)]
pub enum LoopState<E> {
    /// The error is transient: back off and try again.
    Continue(E),
    /// The error can never succeed on retry.
    Permanent(E),
    /// The retry budget (attempts or time) is spent.
    Exhausted(E),
}

/// What the loop is waiting for.
#[derive(Debug)]
pub enum Phase<E> {
    /// The retry policy's remaining time for the current attempt count.
    AwaitRemainingTime,
    /// The throttler's decision; holds the remaining time just computed.
    AwaitThrottle(Option<Duration>),
    /// The retry policy's verdict on a throttled attempt.
    AwaitThrottleVerdict,
    /// The backoff delay after a throttled attempt.
    AwaitThrottleDelay,
    /// The outcome of the inner operation.
    AwaitOutcome,
    /// The retry policy's classification of the last error.
    AwaitClassification,
    /// The backoff delay after a failed attempt; holds the classification.
    AwaitFailureDelay(LoopState<E>),
    /// The throttler recording the classification; holds the delay.
    AwaitRecorded(Duration),
    /// The end of a backoff sleep.
    AwaitSleep,
    /// Nothing: the loop has ended.
    Done,
}

/// An answer fed to the loop.
#[derive(Debug)]
pub enum Event<R, E> {
    /// The retry policy's `remaining_time`.
    RemainingTime(Option<Duration>),
    /// The throttler's `throttle_retry_attempt`.
    Throttle(bool),
    /// The retry policy's `on_throttle`.
    ThrottleVerdict(Option<E>),
    /// The backoff policy's `on_failure`.
    Delay(Duration),
    /// The result of the inner operation.
    Outcome(Result<R, E>),
    /// The retry policy's `on_error`.
    Classified(LoopState<E>),
    /// The classification, handed back once the throttler has recorded it.
    Recorded(LoopState<E>),
    /// The backoff sleep is over.
    Slept,
}

/// What the loop asks its driver to do next.
#[derive(Debug)]
pub enum Action<R, E> {
    /// Ask the retry policy for the remaining time, with this attempt count.
    RemainingTime(u32),
    /// Ask the throttler whether to skip the next attempt.
    CheckThrottle,
    /// Ask the retry policy whether throttling ends the loop, with this
    /// attempt count.
    OnThrottle(u32),
    /// Ask the backoff policy for a delay, with this attempt count.
    Backoff(u32),
    /// Invoke the inner operation with this timeout.
    Attempt(Option<Duration>),
    /// Ask the retry policy to classify this error, with this attempt count
    /// and idempotency.
    Classify(u32, bool, E),
    /// Have the throttler record this classification, then hand it back.
    RecordFailure(LoopState<E>),
    /// Sleep for this long.
    Sleep(Duration),
    /// Record the success with the throttler and return this response.
    Succeed(R),
    /// Return this error.
    Fail(E),
}

/// The state of one logical call.
#[derive(Debug)]
pub struct RetryLoop<E> {
    /// Attempts made so far; throttled attempts do not count.
    pub attempt_count: u32,
    /// Whether the call may be repeated without changing its effect.
    pub idempotent: bool,
    /// What the loop waits for.
    pub phase: Phase<E>,
}

/// Whether `ev` answers what `s` waits for.
pub open spec fn expects<R, E>(s: RetryLoop<E>, ev: Event<R, E>) -> bool {
    match (s.phase, ev) {
        (Phase::AwaitRemainingTime, Event::RemainingTime(_)) => true,
        (Phase::AwaitThrottle(_), Event::Throttle(_)) => true,
        (Phase::AwaitThrottleVerdict, Event::ThrottleVerdict(_)) => true,
        (Phase::AwaitThrottleDelay, Event::Delay(_)) => true,
        (Phase::AwaitOutcome, Event::Outcome(_)) => true,
        (Phase::AwaitClassification, Event::Classified(_)) => true,
        (Phase::AwaitFailureDelay(_), Event::Delay(_)) => true,
        (Phase::AwaitRecorded(_), Event::Recorded(_)) => true,
        (Phase::AwaitSleep, Event::Slept) => true,
        _ => false,
    }
}

/// `s` with another phase.
pub open spec fn with_phase<E>(s: RetryLoop<E>, phase: Phase<E>) -> RetryLoop<E> {
    RetryLoop { attempt_count: s.attempt_count, idempotent: s.idempotent, phase }
}

/// `s` after an attempt is started: one more attempt, waiting for its outcome.
pub open spec fn attempted<E>(s: RetryLoop<E>) -> RetryLoop<E> {
    RetryLoop {
        attempt_count: (s.attempt_count + 1) as u32,
        idempotent: s.idempotent,
        phase: Phase::AwaitOutcome,
    }
}

/// The state and the action that follow `s` on the event `ev`.
pub open spec fn next<R, E>(s: RetryLoop<E>, ev: Event<R, E>) -> (RetryLoop<E>, Action<R, E>) {
    let n = s.attempt_count;
    match (s.phase, ev) {
        (Phase::AwaitRemainingTime, Event::RemainingTime(t)) => {
            if n == 0 {
                (attempted(s), Action::Attempt(t))
            } else {
                (with_phase(s, Phase::AwaitThrottle(t)), Action::CheckThrottle)
            }
        },
        (Phase::AwaitThrottle(t), Event::Throttle(skip)) => {
            if skip {
                (with_phase(s, Phase::AwaitThrottleVerdict), Action::OnThrottle(n))
            } else {
                (attempted(s), Action::Attempt(t))
            }
        },
        (Phase::AwaitThrottleVerdict, Event::ThrottleVerdict(verdict)) => match verdict {
            Some(e) => (with_phase(s, Phase::Done), Action::Fail(e)),
            None => (with_phase(s, Phase::AwaitThrottleDelay), Action::Backoff(n)),
        },
        (Phase::AwaitThrottleDelay, Event::Delay(d)) => (
            with_phase(s, Phase::AwaitSleep),
            Action::Sleep(d),
        ),
        (Phase::AwaitOutcome, Event::Outcome(result)) => match result {
            Ok(r) => (with_phase(s, Phase::Done), Action::Succeed(r)),
            Err(e) => (with_phase(s, Phase::AwaitClassification), Action::Classify(n, s.idempotent, e)),
        },
        (Phase::AwaitClassification, Event::Classified(flow)) => (
            with_phase(s, Phase::AwaitFailureDelay(flow)),
            Action::Backoff(n),
        ),
        (Phase::AwaitFailureDelay(flow), Event::Delay(d)) => (
            with_phase(s, Phase::AwaitRecorded(d)),
            Action::RecordFailure(flow),
        ),
        (Phase::AwaitRecorded(d), Event::Recorded(flow)) => match flow {
            LoopState::Continue(_) => (with_phase(s, Phase::AwaitSleep), Action::Sleep(d)),
            LoopState::Permanent(e) => (with_phase(s, Phase::Done), Action::Fail(e)),
            LoopState::Exhausted(e) => (with_phase(s, Phase::Done), Action::Fail(e)),
        },
        (Phase::AwaitSleep, Event::Slept) => (
            with_phase(s, Phase::AwaitRemainingTime),
            Action::RemainingTime(n),
        ),
        _ => (s, arbitrary()),
    }
}

/// The state in which a logical call starts.
pub open spec fn initial<E>(idempotent: bool) -> RetryLoop<E> {
    RetryLoop { attempt_count: 0, idempotent, phase: Phase::AwaitRemainingTime }
}

impl<E> RetryLoop<E> {
    /// Starts a logical call: no attempt made yet, and the first thing to do
    /// is to ask the retry policy for the remaining time.
    pub fn start<R>(idempotent: bool) -> (r: (RetryLoop<E>, Action<R, E>))
        ensures
            r.0 == initial::<E>(idempotent),
            r.1 == Action::<R, E>::RemainingTime(0),
    {
        (RetryLoop { attempt_count: 0, idempotent, phase: Phase::AwaitRemainingTime }, Action::RemainingTime(0))
    }

    /// Whether the loop has ended.
    pub fn is_done(&self) -> (r: bool)
        ensures
            r == (self.phase is Done),
    {
        match self.phase {
            Phase::Done => true,
            _ => false,
        }
    }

    /// Whether `event` answers what the loop waits for.
    pub fn accepts<R>(&self, event: &Event<R, E>) -> (r: bool)
        ensures
            r == expects(*self, *event),
    {
        match (&self.phase, event) {
            (Phase::AwaitRemainingTime, Event::RemainingTime(_)) => true,
            (Phase::AwaitThrottle(_), Event::Throttle(_)) => true,
            (Phase::AwaitThrottleVerdict, Event::ThrottleVerdict(_)) => true,
            (Phase::AwaitThrottleDelay, Event::Delay(_)) => true,
            (Phase::AwaitOutcome, Event::Outcome(_)) => true,
            (Phase::AwaitClassification, Event::Classified(_)) => true,
            (Phase::AwaitFailureDelay(_), Event::Delay(_)) => true,
            (Phase::AwaitRecorded(_), Event::Recorded(_)) => true,
            (Phase::AwaitSleep, Event::Slept) => true,
            _ => false,
        }
    }

    /// Feeds `event` to the loop and returns what to do next.
    pub fn step<R>(&mut self, event: Event<R, E>) -> (a: Action<R, E>)
        requires
            expects(*old(self), event),
            old(self).attempt_count < u32::MAX,
        ensures
            (*final(self), a) == next(*old(self), event),
    {
        let n = self.attempt_count;
        let mut phase = Phase::Done;
        std::mem::swap(&mut self.phase, &mut phase);
        match (phase, event) {
            (Phase::AwaitRemainingTime, Event::RemainingTime(t)) => {
                if n == 0 {
                    self.attempt_count = n + 1;
                    self.phase = Phase::AwaitOutcome;
                    Action::Attempt(t)
                } else {
                    self.phase = Phase::AwaitThrottle(t);
                    Action::CheckThrottle
                }
            },
            (Phase::AwaitThrottle(t), Event::Throttle(skip)) => {
                if skip {
                    self.phase = Phase::AwaitThrottleVerdict;
                    Action::OnThrottle(n)
                } else {
                    self.attempt_count = n + 1;
                    self.phase = Phase::AwaitOutcome;
                    Action::Attempt(t)
                }
            },
            (Phase::AwaitThrottleVerdict, Event::ThrottleVerdict(verdict)) => match verdict {
                Some(e) => Action::Fail(e),
                None => {
                    self.phase = Phase::AwaitThrottleDelay;
                    Action::Backoff(n)
                },
            },
            (Phase::AwaitThrottleDelay, Event::Delay(d)) => {
                self.phase = Phase::AwaitSleep;
                Action::Sleep(d)
            },
            (Phase::AwaitOutcome, Event::Outcome(result)) => match result {
                Ok(r) => Action::Succeed(r),
                Err(e) => {
                    self.phase = Phase::AwaitClassification;
                    Action::Classify(n, self.idempotent, e)
                },
            },
            (Phase::AwaitClassification, Event::Classified(flow)) => {
                self.phase = Phase::AwaitFailureDelay(flow);
                Action::Backoff(n)
            },
            (Phase::AwaitFailureDelay(flow), Event::Delay(d)) => {
                self.phase = Phase::AwaitRecorded(d);
                Action::RecordFailure(flow)
            },
            (Phase::AwaitRecorded(d), Event::Recorded(flow)) => match flow {
                LoopState::Continue(_) => {
                    self.phase = Phase::AwaitSleep;
                    Action::Sleep(d)
                },
                LoopState::Permanent(e) => Action::Fail(e),
                LoopState::Exhausted(e) => Action::Fail(e),
            },
            (Phase::AwaitSleep, Event::Slept) => {
                self.phase = Phase::AwaitRemainingTime;
                Action::RemainingTime(n)
            },
            _ => {
                proof {
                    assert(false);
                }
                Action::CheckThrottle
            },
        }
    }
}

} // verus!
