//! Whole runs of the retry loop: what a sequence of answers makes it do.
use crate::retry_loop::{expects, initial, next, Action, Event, LoopState, Phase, RetryLoop};
use crate::time::Duration;
use vstd::prelude::*;

verus! {

/// The state reached and the actions asked for when `events` are fed to
/// the loop in order, starting from `s`.
pub open spec fn run<R, E>(s: RetryLoop<E>, events: Seq<Event<R, E>>) -> (RetryLoop<E>, Seq<
    Action<R, E>,
>)
    decreases events.len(),
{
    if events.len() == 0 {
        (s, Seq::empty())
    } else {
        let first = next(s, events[0]);
        let rest = run(first.0, events.subrange(1, events.len() as int));
        (rest.0, seq![first.1] + rest.1)
    }
}

/// Whether each of `events` answers what the loop waits for at that point,
/// with the attempt count below its limit.
pub open spec fn driven<R, E>(s: RetryLoop<E>, events: Seq<Event<R, E>>) -> bool
    decreases events.len(),
{
    events.len() == 0 || {
        &&& expects(s, events[0])
        &&& s.attempt_count < u32::MAX
        &&& driven(next(s, events[0]).0, events.subrange(1, events.len() as int))
    }
}

/// The answers that start an attempt: the remaining time and, after the
/// first attempt, a throttler that lets the attempt through.
pub open spec fn entry<R, E>(first: bool, timeout: Option<Duration>) -> Seq<Event<R, E>> {
    if first {
        seq![Event::RemainingTime(timeout)]
    } else {
        seq![Event::RemainingTime(timeout), Event::Throttle(false)]
    }
}

/// The answers of an attempt that fails with `error`, which the retry policy
/// classifies as `flow` and the backoff policy answers with `delay`.
pub open spec fn failure<R, E>(
    first: bool,
    timeout: Option<Duration>,
    error: E,
    flow: LoopState<E>,
    delay: Duration,
) -> Seq<Event<R, E>> {
    entry(first, timeout) + seq![
        Event::Outcome(Err(error)),
        Event::Classified(flow),
        Event::Delay(delay),
        Event::Recorded(flow),
    ]
}

/// What the loop asks for while an attempt is admitted: after the first
/// attempt, the throttler is consulted.
pub open spec fn entry_actions<R, E>(first: bool, timeout: Option<Duration>) -> Seq<Action<R, E>> {
    if first {
        seq![Action::Attempt(timeout)]
    } else {
        seq![Action::CheckThrottle, Action::Attempt(timeout)]
    }
}

/// What the loop asks for during a failed attempt, the `count`-th one.
pub open spec fn failure_actions<R, E>(
    first: bool,
    timeout: Option<Duration>,
    count: u32,
    idempotent: bool,
    error: E,
    flow: LoopState<E>,
) -> Seq<Action<R, E>> {
    entry_actions(first, timeout) + seq![
        Action::Classify(count, idempotent, error),
        Action::Backoff(count),
        Action::RecordFailure(flow),
    ]
}

/// One failed attempt that the retry policy lets go on: the error, the
/// remaining time before the attempt, the backoff delay after it.
pub struct Retried<E> {
    pub timeout: Option<Duration>,
    pub error: E,
    pub delay: Duration,
}

/// The answers of the failed attempts `tries`, each classified as
/// `Continue` and followed by its backoff sleep; `done` attempts were made
/// before them.
pub open spec fn retries<R, E>(done: nat, tries: Seq<Retried<E>>) -> Seq<Event<R, E>>
    decreases tries.len(),
{
    if tries.len() == 0 {
        Seq::empty()
    } else {
        let t = tries[0];
        failure(done == 0, t.timeout, t.error, LoopState::Continue(t.error), t.delay) + seq![
            Event::Slept,
        ] + retries(done + 1, tries.subrange(1, tries.len() as int))
    }
}

/// What the loop asks for during `retries(done, tries)`.
pub open spec fn retry_actions<R, E>(done: nat, idempotent: bool, tries: Seq<Retried<E>>) -> Seq<
    Action<R, E>,
>
    decreases tries.len(),
{
    if tries.len() == 0 {
        Seq::empty()
    } else {
        let t = tries[0];
        failure_actions(
            done == 0,
            t.timeout,
            (done + 1) as u32,
            idempotent,
            t.error,
            LoopState::Continue(t.error),
        ) + seq![Action::Sleep(t.delay), Action::RemainingTime((done + 1) as u32)]
            + retry_actions(done + 1, idempotent, tries.subrange(1, tries.len() as int))
    }
}

proof fn lemma_run_cons<R, E>(s: RetryLoop<E>, ev: Event<R, E>, rest: Seq<Event<R, E>>)
    ensures
        run(s, seq![ev] + rest) == (
            run(next(s, ev).0, rest).0,
            seq![next(s, ev).1] + run(next(s, ev).0, rest).1,
        ),
        driven(s, seq![ev] + rest) == (expects(s, ev) && s.attempt_count < u32::MAX && driven(
            next(s, ev).0,
            rest,
        )),
{
    let evs = seq![ev] + rest;
    assert(evs[0] == ev);
    assert(evs.subrange(1, evs.len() as int) =~= rest);
}

/// Feeding two batches of answers one after the other is feeding their
/// concatenation.
pub proof fn lemma_run_append<R, E>(s: RetryLoop<E>, a: Seq<Event<R, E>>, b: Seq<Event<R, E>>)
    ensures
        run(s, a + b) == (run(run(s, a).0, b).0, run(s, a).1 + run(run(s, a).0, b).1),
        driven(s, a + b) == (driven(s, a) && driven(run(s, a).0, b)),
    decreases a.len(),
{
    if a.len() == 0 {
        assert(a + b =~= b);
        assert(run(s, a).1 + run(s, b).1 =~= run(s, b).1);
    } else {
        let tail = a.subrange(1, a.len() as int);
        assert(a =~= seq![a[0]] + tail);
        assert(a + b =~= seq![a[0]] + (tail + b));
        lemma_run_cons(s, a[0], tail);
        lemma_run_cons(s, a[0], tail + b);
        let s1 = next(s, a[0]).0;
        lemma_run_append(s1, tail, b);
        assert(seq![next(s, a[0]).1] + (run(s1, tail).1 + run(run(s1, tail).0, b).1) =~= (seq![
            next(s, a[0]).1,
        ] + run(s1, tail).1) + run(run(s1, tail).0, b).1);
    }
}

proof fn lemma_run_empty<R, E>(s: RetryLoop<E>)
    ensures
        run(s, Seq::<Event<R, E>>::empty()) == (s, Seq::<Action<R, E>>::empty()),
        driven(s, Seq::<Event<R, E>>::empty()),
{
}

proof fn lemma_run_one<R, E>(s: RetryLoop<E>, ev: Event<R, E>)
    ensures
        run(s, seq![ev]) == (next(s, ev).0, seq![next(s, ev).1]),
        driven(s, seq![ev]) == (expects(s, ev) && s.attempt_count < u32::MAX),
{
    lemma_run_cons(s, ev, Seq::empty());
    assert(seq![ev] + Seq::<Event<R, E>>::empty() =~= seq![ev]);
    lemma_run_empty::<R, E>(next(s, ev).0);
    assert(seq![next(s, ev).1] + Seq::<Action<R, E>>::empty() =~= seq![next(s, ev).1]);
}

proof fn lemma_run_push<R, E>(s: RetryLoop<E>, events: Seq<Event<R, E>>, ev: Event<R, E>)
    ensures
        run(s, events.push(ev)) == (
            next(run(s, events).0, ev).0,
            run(s, events).1.push(next(run(s, events).0, ev).1),
        ),
        driven(s, events.push(ev)) == (driven(s, events) && expects(run(s, events).0, ev)
            && run(s, events).0.attempt_count < u32::MAX),
{
    assert(events.push(ev) =~= events + seq![ev]);
    lemma_run_append(s, events, seq![ev]);
    lemma_run_one(run(s, events).0, ev);
    assert(run(s, events).1 + seq![next(run(s, events).0, ev).1] =~= run(s, events).1.push(
        next(run(s, events).0, ev).1,
    ));
}

/// The state after the answers that start an attempt from `s`.
proof fn lemma_entry<R, E>(s: RetryLoop<E>, timeout: Option<Duration>)
    requires
        s.phase is AwaitRemainingTime,
        s.attempt_count < u32::MAX,
    ensures
        driven(s, entry::<R, E>(s.attempt_count == 0, timeout)),
        run(s, entry::<R, E>(s.attempt_count == 0, timeout)) == (
            RetryLoop::<E> {
                attempt_count: (s.attempt_count + 1) as u32,
                idempotent: s.idempotent,
                phase: Phase::AwaitOutcome,
            },
            entry_actions::<R, E>(s.attempt_count == 0, timeout),
        ),
{
    let e0 = Event::<R, E>::RemainingTime(timeout);
    let e1 = Event::<R, E>::Throttle(false);
    lemma_run_push(s, Seq::empty(), e0);
    if s.attempt_count != 0 {
        lemma_run_push(s, seq![e0], e1);
        assert(seq![e0, e1] =~= seq![e0].push(e1));
        assert(seq![Action::<R, E>::CheckThrottle, Action::Attempt(timeout)] =~= seq![
            Action::<R, E>::CheckThrottle,
        ].push(Action::Attempt(timeout)));
    }
}

/// The state waiting for the throttler to record a classification.
pub open spec fn recording<E>(s: RetryLoop<E>, delay: Duration) -> RetryLoop<E> {
    RetryLoop { attempt_count: s.attempt_count, idempotent: s.idempotent, phase: Phase::AwaitRecorded(delay) }
}

/// The four answers that follow the error of an attempt.
proof fn lemma_failure_tail<R, E>(s: RetryLoop<E>, error: E, flow: LoopState<E>, delay: Duration)
    requires
        s.phase is AwaitOutcome,
        s.attempt_count < u32::MAX,
    ensures
        ({
            let events = seq![
                Event::<R, E>::Outcome(Err(error)),
                Event::Classified(flow),
                Event::Delay(delay),
                Event::Recorded(flow),
            ];
            let last = next(recording(s, delay), Event::<R, E>::Recorded(flow));
            &&& driven(s, events)
            &&& run(s, events) == (
                last.0,
                seq![
                    Action::<R, E>::Classify(s.attempt_count, s.idempotent, error),
                    Action::Backoff(s.attempt_count),
                    Action::RecordFailure(flow),
                    last.1,
                ],
            )
        }),
{
    let e0 = Event::<R, E>::Outcome(Err(error));
    let e1 = Event::<R, E>::Classified(flow);
    let e2 = Event::<R, E>::Delay(delay);
    let e3 = Event::<R, E>::Recorded(flow);
    let last = next(recording(s, delay), e3);
    lemma_run_push(s, Seq::empty(), e0);
    lemma_run_push(s, seq![e0], e1);
    lemma_run_push(s, seq![e0].push(e1), e2);
    lemma_run_push(s, seq![e0].push(e1).push(e2), e3);
    assert(seq![e0, e1, e2, e3] =~= seq![e0].push(e1).push(e2).push(e3));
    assert(run(s, seq![e0, e1, e2, e3]).1 =~= seq![
        Action::<R, E>::Classify(s.attempt_count, s.idempotent, error),
        Action::Backoff(s.attempt_count),
        Action::RecordFailure(flow),
        last.1,
    ]);
}

/// The state just after an attempt is started from `s`.
pub open spec fn attempting<E>(s: RetryLoop<E>) -> RetryLoop<E> {
    RetryLoop {
        attempt_count: (s.attempt_count + 1) as u32,
        idempotent: s.idempotent,
        phase: Phase::AwaitOutcome,
    }
}

/// A whole failed attempt from the start of an iteration.
proof fn lemma_failure<R, E>(
    s: RetryLoop<E>,
    timeout: Option<Duration>,
    error: E,
    flow: LoopState<E>,
    delay: Duration,
)
    requires
        s.phase is AwaitRemainingTime,
        s.attempt_count + 1 < u32::MAX,
    ensures
        ({
            let first = s.attempt_count == 0;
            let events = failure::<R, E>(first, timeout, error, flow, delay);
            let last = next(recording(attempting(s), delay), Event::<R, E>::Recorded(flow));
            &&& driven(s, events)
            &&& run(s, events) == (
                last.0,
                failure_actions::<R, E>(
                    first,
                    timeout,
                    (s.attempt_count + 1) as u32,
                    s.idempotent,
                    error,
                    flow,
                ).push(last.1),
            )
        }),
{
    let first = s.attempt_count == 0;
    let head = entry::<R, E>(first, timeout);
    let tail = seq![
        Event::<R, E>::Outcome(Err(error)),
        Event::Classified(flow),
        Event::Delay(delay),
        Event::Recorded(flow),
    ];
    lemma_entry::<R, E>(s, timeout);
    lemma_failure_tail::<R, E>(attempting(s), error, flow, delay);
    lemma_run_append(s, head, tail);
    let last = next(recording(attempting(s), delay), Event::<R, E>::Recorded(flow));
    assert(entry_actions::<R, E>(first, timeout) + seq![
        Action::<R, E>::Classify((s.attempt_count + 1) as u32, s.idempotent, error),
        Action::Backoff((s.attempt_count + 1) as u32),
        Action::RecordFailure(flow),
        last.1,
    ] =~= failure_actions::<R, E>(
        first,
        timeout,
        (s.attempt_count + 1) as u32,
        s.idempotent,
        error,
        flow,
    ).push(last.1));
}

/// A failed attempt that the retry policy lets go on ends in one backoff
/// sleep for the delay of the backoff policy, then the next iteration starts
/// with one more attempt counted.
pub proof fn lemma_retry_cycle<R, E>(
    s: RetryLoop<E>,
    timeout: Option<Duration>,
    error: E,
    delay: Duration,
)
    requires
        s.phase is AwaitRemainingTime,
        s.attempt_count + 1 < u32::MAX,
    ensures
        ({
            let first = s.attempt_count == 0;
            let flow = LoopState::Continue(error);
            let events = failure::<R, E>(first, timeout, error, flow, delay) + seq![
                Event::<R, E>::Slept,
            ];
            &&& driven(s, events)
            &&& run(s, events) == (
                RetryLoop::<E> {
                    attempt_count: (s.attempt_count + 1) as u32,
                    idempotent: s.idempotent,
                    phase: Phase::AwaitRemainingTime,
                },
                failure_actions::<R, E>(
                    first,
                    timeout,
                    (s.attempt_count + 1) as u32,
                    s.idempotent,
                    error,
                    flow,
                ) + seq![
                    Action::<R, E>::Sleep(delay),
                    Action::RemainingTime((s.attempt_count + 1) as u32),
                ],
            )
        }),
{
    let first = s.attempt_count == 0;
    let flow = LoopState::Continue(error);
    let events = failure::<R, E>(first, timeout, error, flow, delay);
    lemma_failure::<R, E>(s, timeout, error, flow, delay);
    let mid = run(s, events).0;
    lemma_run_append(s, events, seq![Event::<R, E>::Slept]);
    lemma_run_one(mid, Event::<R, E>::Slept);
    let acts = failure_actions::<R, E>(first, timeout, (s.attempt_count + 1) as u32, s.idempotent, error, flow);
    assert(acts.push(Action::<R, E>::Sleep(delay)) + seq![
        Action::<R, E>::RemainingTime((s.attempt_count + 1) as u32),
    ] =~= acts + seq![
        Action::<R, E>::Sleep(delay),
        Action::RemainingTime((s.attempt_count + 1) as u32),
    ]);
}

/// Failed attempts that the retry policy lets go on, each followed by its
/// backoff sleep, bring the loop back to the start of an iteration with one
/// attempt counted for each.
pub proof fn lemma_retries<R, E>(s: RetryLoop<E>, tries: Seq<Retried<E>>)
    requires
        s.phase is AwaitRemainingTime,
        s.attempt_count + tries.len() + 1 < u32::MAX,
    ensures
        driven(s, retries::<R, E>(s.attempt_count as nat, tries)),
        run(s, retries::<R, E>(s.attempt_count as nat, tries)) == (
            RetryLoop::<E> {
                attempt_count: (s.attempt_count + tries.len()) as u32,
                idempotent: s.idempotent,
                phase: Phase::AwaitRemainingTime,
            },
            retry_actions::<R, E>(s.attempt_count as nat, s.idempotent, tries),
        ),
    decreases tries.len(),
{
    if tries.len() == 0 {
        lemma_run_empty::<R, E>(s);
        assert(s == RetryLoop::<E> {
            attempt_count: (s.attempt_count + tries.len()) as u32,
            idempotent: s.idempotent,
            phase: Phase::AwaitRemainingTime,
        });
    } else {
        let t = tries[0];
        let rest = tries.subrange(1, tries.len() as int);
        let first = s.attempt_count == 0;
        let cycle = failure::<R, E>(first, t.timeout, t.error, LoopState::Continue(t.error), t.delay)
            + seq![Event::<R, E>::Slept];
        lemma_retry_cycle::<R, E>(s, t.timeout, t.error, t.delay);
        let s1 = run(s, cycle).0;
        lemma_retries::<R, E>(s1, rest);
        lemma_run_append(s, cycle, retries::<R, E>(s1.attempt_count as nat, rest));
        assert(s1.attempt_count as nat == s.attempt_count as nat + 1);
    }
}

/// The answers of a successful attempt.
pub open spec fn success<R, E>(first: bool, timeout: Option<Duration>, response: R) -> Seq<
    Event<R, E>,
> {
    entry(first, timeout).push(Event::Outcome(Ok(response)))
}

/// A call whose attempts fail with errors that the retry policy lets go on,
/// and then succeed, returns that success: the last thing the loop asks for
/// is to record the success and return the response, no sleep follows the
/// last attempt, and the loop then waits for nothing.
pub proof fn retried_call_returns_success<R, E>(
    idempotent: bool,
    tries: Seq<Retried<E>>,
    timeout: Option<Duration>,
    response: R,
)
    requires
        tries.len() + 2 < u32::MAX,
    ensures
        ({
            let events = retries::<R, E>(0, tries) + success::<R, E>(tries.len() == 0, timeout, response);
            let end = run(initial::<E>(idempotent), events);
            &&& driven(initial::<E>(idempotent), events)
            &&& end.1 == retry_actions::<R, E>(0, idempotent, tries) + entry_actions::<R, E>(
                tries.len() == 0,
                timeout,
            ).push(Action::Succeed(response))
            &&& end.0.attempt_count == tries.len() + 1
            &&& end.0.phase is Done
            &&& forall|ev: Event<R, E>| !expects(end.0, ev)
        }),
{
    let s = initial::<E>(idempotent);
    lemma_retries::<R, E>(s, tries);
    let s1 = run(s, retries::<R, E>(0, tries)).0;
    let first = tries.len() == 0;
    lemma_entry::<R, E>(s1, timeout);
    lemma_run_push(s1, entry::<R, E>(first, timeout), Event::Outcome(Ok(response)));
    lemma_run_append(s, retries::<R, E>(0, tries), success::<R, E>(first, timeout, response));
}

/// A call whose attempts fail with errors that the retry policy lets go on,
/// until it declares the budget spent, returns the error of that last
/// attempt; no sleep follows it and the loop then waits for nothing.
pub proof fn exhausted_call_returns_last_error<R, E>(
    idempotent: bool,
    tries: Seq<Retried<E>>,
    timeout: Option<Duration>,
    error: E,
    delay: Duration,
)
    requires
        tries.len() + 2 < u32::MAX,
    ensures
        ({
            let first = tries.len() == 0;
            let flow = LoopState::Exhausted(error);
            let events = retries::<R, E>(0, tries) + failure::<R, E>(first, timeout, error, flow, delay);
            let end = run(initial::<E>(idempotent), events);
            &&& driven(initial::<E>(idempotent), events)
            &&& end.1 == retry_actions::<R, E>(0, idempotent, tries) + failure_actions::<R, E>(
                first,
                timeout,
                (tries.len() + 1) as u32,
                idempotent,
                error,
                flow,
            ).push(Action::Fail(error))
            &&& end.0.attempt_count == tries.len() + 1
            &&& end.0.phase is Done
            &&& forall|ev: Event<R, E>| !expects(end.0, ev)
        }),
{
    let s = initial::<E>(idempotent);
    let first = tries.len() == 0;
    let flow = LoopState::Exhausted(error);
    lemma_retries::<R, E>(s, tries);
    let s1 = run(s, retries::<R, E>(0, tries)).0;
    lemma_failure::<R, E>(s1, timeout, error, flow, delay);
    lemma_run_append(s, retries::<R, E>(0, tries), failure::<R, E>(first, timeout, error, flow, delay));
}

/// The first attempt of a call is made without asking the throttler: the
/// remaining time is the only answer that precedes it.
pub proof fn first_attempt_is_not_throttled<R, E>(idempotent: bool, timeout: Option<Duration>)
    ensures
        driven(initial::<E>(idempotent), seq![Event::<R, E>::RemainingTime(timeout)]),
        run(initial::<E>(idempotent), seq![Event::<R, E>::RemainingTime(timeout)]) == (
            attempting(initial::<E>(idempotent)),
            seq![Action::<R, E>::Attempt(timeout)],
        ),
{
    lemma_run_one(initial::<E>(idempotent), Event::<R, E>::RemainingTime(timeout));
}

/// Every later attempt asks the throttler first, once the remaining time
/// is known.
pub proof fn later_attempts_ask_throttler<R, E>(s: RetryLoop<E>, timeout: Option<Duration>)
    requires
        s.phase is AwaitRemainingTime,
        0 < s.attempt_count < u32::MAX,
    ensures
        next(s, Event::<R, E>::RemainingTime(timeout)).1 == Action::<R, E>::CheckThrottle,
        next(s, Event::<R, E>::RemainingTime(timeout)).0.attempt_count == s.attempt_count,
{
}

/// When the throttler blocks an attempt and the retry policy answers with an
/// error, the loop returns exactly that error without invoking the inner
/// operation again, and then waits for nothing.
pub proof fn throttle_verdict_ends_loop<R, E>(s: RetryLoop<E>, timeout: Option<Duration>, error: E)
    requires
        s.phase is AwaitRemainingTime,
        0 < s.attempt_count < u32::MAX,
    ensures
        ({
            let events = seq![
                Event::<R, E>::RemainingTime(timeout),
                Event::Throttle(true),
                Event::ThrottleVerdict(Some(error)),
            ];
            let end = run(s, events);
            &&& driven(s, events)
            &&& end.1 == seq![
                Action::<R, E>::CheckThrottle,
                Action::OnThrottle(s.attempt_count),
                Action::Fail(error),
            ]
            &&& end.0.attempt_count == s.attempt_count
            &&& end.0.phase is Done
            &&& forall|ev: Event<R, E>| !expects(end.0, ev)
        }),
{
    let e0 = Event::<R, E>::RemainingTime(timeout);
    let e1 = Event::<R, E>::Throttle(true);
    let e2 = Event::<R, E>::ThrottleVerdict(Some(error));
    lemma_run_push(s, Seq::empty(), e0);
    lemma_run_push(s, seq![e0], e1);
    lemma_run_push(s, seq![e0].push(e1), e2);
    assert(seq![e0, e1, e2] =~= seq![e0].push(e1).push(e2));
    assert(run(s, seq![e0, e1, e2]).1 =~= seq![
        Action::<R, E>::CheckThrottle,
        Action::OnThrottle(s.attempt_count),
        Action::Fail(error),
    ]);
}

/// When the throttler blocks an attempt and the retry policy lets the loop go
/// on, the loop sleeps for the backoff delay, asked with the current attempt
/// count, and starts the next iteration with the attempt count unchanged.
pub proof fn throttled_attempt_backs_off<R, E>(
    s: RetryLoop<E>,
    timeout: Option<Duration>,
    delay: Duration,
)
    requires
        s.phase is AwaitRemainingTime,
        0 < s.attempt_count < u32::MAX,
    ensures
        ({
            let events = seq![
                Event::<R, E>::RemainingTime(timeout),
                Event::Throttle(true),
                Event::ThrottleVerdict(None),
                Event::Delay(delay),
                Event::Slept,
            ];
            &&& driven(s, events)
            &&& run(s, events) == (
                s,
                seq![
                    Action::<R, E>::CheckThrottle,
                    Action::OnThrottle(s.attempt_count),
                    Action::Backoff(s.attempt_count),
                    Action::Sleep(delay),
                    Action::RemainingTime(s.attempt_count),
                ],
            )
        }),
{
    let e0 = Event::<R, E>::RemainingTime(timeout);
    let e1 = Event::<R, E>::Throttle(true);
    let e2 = Event::<R, E>::ThrottleVerdict(None);
    let e3 = Event::<R, E>::Delay(delay);
    let e4 = Event::<R, E>::Slept;
    lemma_run_push(s, Seq::empty(), e0);
    lemma_run_push(s, seq![e0], e1);
    lemma_run_push(s, seq![e0].push(e1), e2);
    lemma_run_push(s, seq![e0].push(e1).push(e2), e3);
    lemma_run_push(s, seq![e0].push(e1).push(e2).push(e3), e4);
    assert(seq![e0, e1, e2, e3, e4] =~= seq![e0].push(e1).push(e2).push(e3).push(e4));
    assert(run(s, seq![e0, e1, e2, e3, e4]).1 =~= seq![
        Action::<R, E>::CheckThrottle,
        Action::OnThrottle(s.attempt_count),
        Action::Backoff(s.attempt_count),
        Action::Sleep(delay),
        Action::RemainingTime(s.attempt_count),
    ]);
}

/// How many times `actions` invoke the inner operation.
pub open spec fn invocations<R, E>(actions: Seq<Action<R, E>>) -> nat
    decreases actions.len(),
{
    if actions.len() == 0 {
        0
    } else {
        (if actions[0] is Attempt {
            1nat
        } else {
            0nat
        }) + invocations(actions.subrange(1, actions.len() as int))
    }
}

proof fn lemma_invocations_cons<R, E>(a: Action<R, E>, rest: Seq<Action<R, E>>)
    ensures
        invocations(seq![a] + rest) == (if a is Attempt {
            1nat
        } else {
            0nat
        }) + invocations(rest),
{
    let all = seq![a] + rest;
    assert(all[0] == a);
    assert(all.subrange(1, all.len() as int) =~= rest);
}

/// The attempt count grows by exactly the number of invocations of the inner
/// operation: attempts that the throttler skips are not counted.
pub proof fn attempt_count_counts_invocations<R, E>(s: RetryLoop<E>, events: Seq<Event<R, E>>)
    requires
        driven(s, events),
    ensures
        run(s, events).0.attempt_count == s.attempt_count + invocations(run(s, events).1),
    decreases events.len(),
{
    if events.len() > 0 {
        let ev = events[0];
        let rest = events.subrange(1, events.len() as int);
        assert(events =~= seq![ev] + rest);
        lemma_run_cons(s, ev, rest);
        let s1 = next(s, ev).0;
        attempt_count_counts_invocations(s1, rest);
        lemma_invocations_cons(next(s, ev).1, run(s1, rest).1);
    }
}

/// A call ends exactly when the loop asks to return a response or an
/// error, and an ended call accepts no further answer: there is at most one
/// outcome.
pub proof fn outcome_ends_call<R, E>(s: RetryLoop<E>, ev: Event<R, E>)
    requires
        expects(s, ev),
    ensures
        (next(s, ev).1 is Succeed || next(s, ev).1 is Fail) <==> next(s, ev).0.phase is Done,
        next(s, ev).0.phase is Done ==> forall|later: Event<R, E>| !expects(next(s, ev).0, later),
{
}

} // verus!
