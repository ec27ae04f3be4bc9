use cloud_gax::options::{effective_timeout, RequestOptions};
use cloud_gax::retry_loop::{Action, Event, LoopState, RetryLoop};
use cloud_gax::time::Duration;

/// Scripted collaborators of the retry loop: each answer is taken from the
/// front of its list, and every call is logged. An unexpected call panics.
struct Mock {
    remaining: Vec<Option<Duration>>,
    throttles: Vec<bool>,
    verdicts: Vec<Option<String>>,
    delays: Vec<Duration>,
    outcomes: Vec<Result<String, String>>,
    classify: fn(u32, String) -> LoopState<String>,
    remaining_counts: Vec<u32>,
    throttle_counts: Vec<u32>,
    backoff_counts: Vec<u32>,
    classify_args: Vec<(u32, bool)>,
    calls: Vec<Option<Duration>>,
    sleeps: Vec<Duration>,
    throttler_log: Vec<&'static str>,
}

impl Mock {
    fn new(classify: fn(u32, String) -> LoopState<String>) -> Mock {
        Mock {
            remaining: Vec::new(),
            throttles: Vec::new(),
            verdicts: Vec::new(),
            delays: Vec::new(),
            outcomes: Vec::new(),
            classify,
            remaining_counts: Vec::new(),
            throttle_counts: Vec::new(),
            backoff_counts: Vec::new(),
            classify_args: Vec::new(),
            calls: Vec::new(),
            sleeps: Vec::new(),
            throttler_log: Vec::new(),
        }
    }

    fn successes(&self) -> usize {
        self.throttler_log.iter().filter(|e| **e == "on_success").count()
    }

    fn failures(&self) -> usize {
        self.throttler_log.iter().filter(|e| **e == "on_retry_failure").count()
    }
}

fn take<T>(answers: &mut Vec<T>, what: &str) -> T {
    assert!(!answers.is_empty(), "unexpected call: {what}");
    answers.remove(0)
}

/// Runs one logical call against the mock, performing each action the loop
/// asks for.
fn drive(idempotent: bool, mock: &mut Mock) -> Result<String, String> {
    let (mut state, mut action) = RetryLoop::<String>::start::<String>(idempotent);
    loop {
        let event = match action {
            Action::RemainingTime(n) => {
                mock.remaining_counts.push(n);
                Event::RemainingTime(take(&mut mock.remaining, "remaining_time"))
            }
            Action::CheckThrottle => {
                mock.throttler_log.push("throttle_retry_attempt");
                mock.throttle_counts.push(state.attempt_count);
                Event::Throttle(take(&mut mock.throttles, "throttle_retry_attempt"))
            }
            Action::OnThrottle(_) => Event::ThrottleVerdict(take(&mut mock.verdicts, "on_throttle")),
            Action::Backoff(n) => {
                mock.backoff_counts.push(n);
                Event::Delay(take(&mut mock.delays, "on_failure"))
            }
            Action::Attempt(timeout) => {
                mock.calls.push(timeout);
                Event::Outcome(take(&mut mock.outcomes, "inner"))
            }
            Action::Classify(n, idem, e) => {
                mock.classify_args.push((n, idem));
                Event::Classified((mock.classify)(n, e))
            }
            Action::RecordFailure(flow) => {
                mock.throttler_log.push("on_retry_failure");
                Event::Recorded(flow)
            }
            Action::Sleep(d) => {
                mock.sleeps.push(d);
                Event::Slept
            }
            Action::Succeed(r) => {
                mock.throttler_log.push("on_success");
                return Ok(r);
            }
            Action::Fail(e) => return Err(e),
        };
        assert!(state.accepts(&event), "{state:?} does not accept {event:?}");
        action = state.step(event);
    }
}

fn success() -> Result<String, String> {
    Ok("success".to_string())
}

fn transient() -> Result<String, String> {
    Err("unavailable: try-again".to_string())
}

fn permanent() -> Result<String, String> {
    Err("permission denied: uh-oh".to_string())
}

fn always_continue(_n: u32, e: String) -> LoopState<String> {
    LoopState::Continue(e)
}

fn always_permanent(_n: u32, e: String) -> LoopState<String> {
    LoopState::Permanent(e)
}

fn by_status(_n: u32, e: String) -> LoopState<String> {
    if e.starts_with("unavailable") {
        LoopState::Continue(e)
    } else {
        LoopState::Permanent(e)
    }
}

/// A policy that allows two attempts.
fn stop_after_two(n: u32, e: String) -> LoopState<String> {
    if n < 2 {
        LoopState::Continue(e)
    } else {
        LoopState::Exhausted(e)
    }
}

fn secs(s: u64) -> Duration {
    Duration::from_secs(s)
}

#[test]
fn effective_timeouts() {
    let cases = [
        (None, None, None),
        (Some(secs(4)), Some(secs(4)), None),
        (Some(secs(4)), None, Some(secs(4))),
        (Some(secs(2)), Some(secs(2)), Some(secs(4))),
        (Some(secs(2)), Some(secs(4)), Some(secs(2))),
    ];
    for (want, remaining, request) in cases {
        let mut options = RequestOptions::new();
        if let Some(t) = request {
            options.set_attempt_timeout(t);
        }
        assert_eq!(effective_timeout(&options, remaining), want);
    }
}

#[test]
fn effective_timeout_compares_sub_second_parts() {
    let mut options = RequestOptions::new();
    options.set_attempt_timeout(Duration::from_millis(1500));
    let got = effective_timeout(&options, Some(Duration::from_millis(1200)));
    assert_eq!(got, Some(Duration::from_millis(1200)));
    let got = effective_timeout(&options, Some(Duration::new(1, 600_000_000)));
    assert_eq!(got, Some(Duration::from_millis(1500)));
}

#[test]
fn immediate_success() {
    let mut mock = Mock::new(always_continue);
    mock.remaining = vec![None];
    mock.outcomes = vec![success()];
    let response = drive(true, &mut mock);
    assert_eq!(response, Ok("success".to_string()));
    assert_eq!(mock.throttler_log, vec!["on_success"]);
    assert!(mock.sleeps.is_empty());
}

#[test]
fn immediate_failure() {
    let mut mock = Mock::new(always_permanent);
    mock.remaining = vec![None];
    mock.outcomes = vec![permanent()];
    mock.delays = vec![secs(0)];
    let response = drive(true, &mut mock);
    assert!(response.is_err(), "{response:?}");
    assert_eq!(mock.calls.len(), 1);
    assert!(mock.sleeps.is_empty());
    assert_eq!(mock.throttler_log, vec!["on_retry_failure"]);
    assert_eq!(mock.backoff_counts, vec![1]);
}

fn retry_success_with(expected_idempotency: bool) {
    let mut mock = Mock::new(always_continue);
    mock.remaining = vec![Some(secs(3)), Some(secs(2)), Some(secs(1))];
    mock.outcomes = vec![transient(), transient(), success()];
    mock.throttles = vec![false, false];
    mock.delays = vec![Duration::from_millis(1), Duration::from_millis(2)];
    let response = drive(expected_idempotency, &mut mock);
    assert!(matches!(&response, Ok(s) if s == "success"), "{response:?}");
    assert_eq!(mock.calls, vec![Some(secs(3)), Some(secs(2)), Some(secs(1))]);
    assert_eq!(
        mock.throttler_log,
        vec![
            "on_retry_failure",
            "throttle_retry_attempt",
            "on_retry_failure",
            "throttle_retry_attempt",
            "on_success",
        ]
    );
    assert_eq!(mock.remaining_counts, vec![0, 1, 2]);
    assert_eq!(
        mock.classify_args,
        vec![(1, expected_idempotency), (2, expected_idempotency)]
    );
    assert_eq!(mock.backoff_counts, vec![1, 2]);
    assert_eq!(mock.sleeps, vec![Duration::from_millis(1), Duration::from_millis(2)]);
}

#[test]
fn retry_success() {
    retry_success_with(true);
    retry_success_with(false);
}

#[test]
fn too_many_transients() {
    let mut mock = Mock::new(stop_after_two);
    mock.remaining = vec![None, None];
    mock.outcomes = vec![transient(), Err("unavailable: second".to_string())];
    mock.throttles = vec![false];
    mock.delays = vec![secs(0), secs(0)];
    let response = drive(true, &mut mock);
    assert_eq!(response, Err("unavailable: second".to_string()));
    assert_eq!(mock.calls, vec![None, None]);
    assert_eq!(
        mock.throttler_log,
        vec!["on_retry_failure", "throttle_retry_attempt", "on_retry_failure"]
    );
    assert_eq!(mock.backoff_counts.len(), 2);
    assert_eq!(mock.sleeps.len(), 1);
}

#[test]
fn transient_then_permanent() {
    let mut mock = Mock::new(by_status);
    mock.remaining = vec![None, None];
    mock.outcomes = vec![transient(), permanent()];
    mock.throttles = vec![false];
    mock.delays = vec![secs(0), secs(0)];
    let response = drive(true, &mut mock);
    assert_eq!(response, permanent());
    assert_eq!(
        mock.throttler_log,
        vec!["on_retry_failure", "throttle_retry_attempt", "on_retry_failure"]
    );
    assert_eq!(mock.backoff_counts.len(), 2);
    assert_eq!(mock.sleeps.len(), 1);
}

#[test]
fn throttle_then_success() {
    let mut mock = Mock::new(always_continue);
    mock.remaining = vec![None, None, None];
    mock.outcomes = vec![transient(), success()];
    mock.throttles = vec![true, false];
    mock.verdicts = vec![None];
    mock.delays = vec![secs(0), secs(0)];
    let response = drive(true, &mut mock);
    assert!(matches!(&response, Ok(s) if s == "success"), "{response:?}");
    assert_eq!(
        mock.throttler_log,
        vec![
            "on_retry_failure",
            "throttle_retry_attempt",
            "throttle_retry_attempt",
            "on_success",
        ]
    );
    assert_eq!(mock.calls.len(), 2);
    assert_eq!(mock.sleeps.len(), 2);
    // The skipped attempt is not counted: the throttler is asked twice with
    // one attempt made, and the backoff after the skip uses that count.
    assert_eq!(mock.throttle_counts, vec![1, 1]);
    assert_eq!(mock.remaining_counts, vec![0, 1, 1]);
    assert_eq!(mock.backoff_counts, vec![1, 1]);
}

#[test]
fn throttle_and_retry_policy_stops_loop() {
    let mut mock = Mock::new(always_continue);
    mock.remaining = vec![None, None];
    mock.outcomes = vec![transient()];
    mock.throttles = vec![true];
    mock.verdicts = vec![Some("retry-policy-on-throttle".to_string())];
    mock.delays = vec![secs(0)];
    let response = drive(true, &mut mock);
    assert!(
        matches!(&response, Err(e) if e.contains("retry-policy-on-throttle")),
        "{response:?}"
    );
    assert_eq!(mock.calls.len(), 1);
    assert_eq!(mock.sleeps.len(), 1);
    assert_eq!(mock.throttler_log, vec!["on_retry_failure", "throttle_retry_attempt"]);
}

#[test]
fn two_transients_then_success_counts() {
    let mut mock = Mock::new(by_status);
    mock.remaining = vec![None, None, None];
    mock.outcomes = vec![transient(), transient(), success()];
    mock.throttles = vec![false, false];
    mock.delays = vec![secs(1), secs(2)];
    let response = drive(true, &mut mock);
    assert_eq!(response, success());
    assert_eq!(mock.calls.len(), 3);
    assert_eq!(mock.sleeps, vec![secs(1), secs(2)]);
    assert_eq!(mock.failures(), 2);
    assert_eq!(mock.successes(), 1);
}

#[test]
fn permission_denied_stops_at_once() {
    let mut mock = Mock::new(by_status);
    mock.remaining = vec![None];
    mock.outcomes = vec![permanent()];
    mock.delays = vec![secs(1)];
    let response = drive(false, &mut mock);
    assert_eq!(response, permanent());
    assert_eq!(mock.calls.len(), 1);
    assert!(mock.sleeps.is_empty());
    assert_eq!(mock.classify_args, vec![(1, false)]);
}

#[test]
fn first_attempt_skips_the_throttler() {
    // No throttler answer is scripted: asking it would panic.
    let mut mock = Mock::new(always_continue);
    mock.remaining = vec![Some(secs(5))];
    mock.outcomes = vec![success()];
    let response = drive(true, &mut mock);
    assert_eq!(response, success());
    assert_eq!(mock.calls, vec![Some(secs(5))]);
    assert!(mock.throttle_counts.is_empty());
}

#[test]
fn loop_ends_after_terminal_action() {
    let (mut state, action) = RetryLoop::<String>::start::<String>(true);
    assert!(matches!(action, Action::RemainingTime(0)));
    let action = state.step::<String>(Event::RemainingTime(None));
    assert!(matches!(action, Action::Attempt(None)));
    assert_eq!(state.attempt_count, 1);
    let action = state.step::<String>(Event::Outcome(Ok("done".to_string())));
    assert!(matches!(action, Action::Succeed(ref r) if r == "done"));
    assert!(state.is_done());
    assert!(!state.accepts(&Event::<String, String>::Slept));
    assert!(!state.accepts(&Event::<String, String>::RemainingTime(None)));
}

#[test]
fn duration_conversions() {
    let d = Duration::from_millis(2_345);
    assert_eq!(d.as_secs(), 2);
    assert_eq!(d.subsec_nanos(), 345_000_000);
    let d = Duration::new(1, 2_500_000_000);
    assert_eq!(d.as_secs(), 3);
    assert_eq!(d.subsec_nanos(), 500_000_000);
    assert!(secs(1).shorter_than(&Duration::from_millis(1001)));
    assert!(!secs(2).shorter_than(&secs(2)));
}
