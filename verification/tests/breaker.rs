use fleet_gateway::circuit_breaker::{BreakerState, CircuitBreaker};
use fleet_gateway::clock::Timestamp;
use std::sync::{mpsc, Arc, Mutex};
use std::time::{Duration, Instant};

fn at(secs: i64) -> Timestamp {
    Timestamp::new(secs, 0).unwrap()
}

fn sleep_ms(millis: u64) {
    let runtime = tokio::runtime::Builder::new_current_thread().enable_all().build().unwrap();
    runtime.block_on(async { tokio::time::sleep(Duration::from_millis(millis)).await });
}

#[test]
fn test_trips_after_threshold() {
    let mut breaker = CircuitBreaker::new(3, 60, 2);
    assert_eq!(breaker.state(), BreakerState::Closed);

    breaker.record_failure();
    breaker.record_failure();
    assert_eq!(breaker.state(), BreakerState::Closed);

    breaker.record_failure();
    assert_eq!(breaker.state(), BreakerState::Open);

    assert!(!breaker.allow_request());
}

#[test]
fn test_half_open_to_closed() {
    let mut breaker = CircuitBreaker::new(1, 0, 2);

    breaker.record_failure();
    assert_eq!(breaker.state(), BreakerState::Open);

    sleep_ms(10);
    assert!(breaker.allow_request());
    assert_eq!(breaker.state(), BreakerState::HalfOpen);

    breaker.record_success();
    assert_eq!(breaker.state(), BreakerState::HalfOpen);
    breaker.record_success();
    assert_eq!(breaker.state(), BreakerState::Closed);
}

#[test]
fn test_half_open_failure_reopens() {
    let mut breaker = CircuitBreaker::new(1, 0, 2);

    breaker.record_failure();
    sleep_ms(10);
    breaker.allow_request();
    breaker.record_failure();

    assert_eq!(breaker.state(), BreakerState::Open);
}

#[test]
fn test_success_resets_failures() {
    let mut breaker = CircuitBreaker::new(3, 60, 1);
    breaker.record_failure();
    breaker.record_failure();
    breaker.record_success();
    breaker.record_failure();
    breaker.record_failure();

    assert_eq!(breaker.state(), BreakerState::Closed);
}

#[test]
fn full_cycle() {
    let mut breaker = CircuitBreaker::new(2, 0, 1);
    assert_eq!(breaker.state(), BreakerState::Closed);

    breaker.record_failure();
    breaker.record_failure();
    assert_eq!(breaker.state(), BreakerState::Open);

    sleep_ms(10);
    assert!(breaker.allow_request());
    assert_eq!(breaker.state(), BreakerState::HalfOpen);

    breaker.record_success();
    assert_eq!(breaker.state(), BreakerState::Closed);
}

#[test]
fn closed_allows_all() {
    let mut breaker = CircuitBreaker::new(5, 60, 2);
    assert!(breaker.allow_request());
    assert!(breaker.allow_request());
    assert!(breaker.allow_request());
}

#[test]
fn open_rejects() {
    let mut breaker = CircuitBreaker::new(1, 600, 2);
    breaker.record_failure();
    assert!(!breaker.allow_request());
}

#[test]
fn half_open_failure_reopens() {
    let mut breaker = CircuitBreaker::new(1, 0, 2);
    breaker.record_failure();
    sleep_ms(10);
    breaker.allow_request();
    breaker.record_failure();
    assert_eq!(breaker.state(), BreakerState::Open);
}

#[test]
fn success_resets_failures() {
    let mut breaker = CircuitBreaker::new(3, 60, 1);
    breaker.record_failure();
    breaker.record_failure();
    breaker.record_success();
    breaker.record_failure();
    breaker.record_failure();
    assert_eq!(breaker.state(), BreakerState::Closed);
}

#[test]
fn cooldown_ends_to_the_second() {
    let mut breaker = CircuitBreaker::new(1, 60, 1);
    breaker.record_failure_at(at(1_000));
    assert!(!breaker.allow_request_at(Timestamp::new(1_059, 999_999_999).unwrap()));
    assert_eq!(breaker.state(), BreakerState::Open);
    assert!(breaker.allow_request_at(at(1_060)));
    assert_eq!(breaker.state(), BreakerState::HalfOpen);
}

#[test]
fn clock_going_back_keeps_the_breaker_open() {
    let mut breaker = CircuitBreaker::new(1, 0, 1);
    breaker.record_failure_at(at(1_000));
    assert!(!breaker.allow_request_at(at(998)));
    assert!(breaker.allow_request_at(Timestamp::new(999, 500_000_000).unwrap()));
}

#[test]
fn longest_cooldown_never_ends() {
    let mut breaker = CircuitBreaker::new(1, u64::MAX, 1);
    breaker.record_failure_at(at(0));
    assert!(!breaker.allow_request_at(at(8_000_000_000_000)));
}

#[test]
fn half_open_lets_one_probe_pass() {
    let mut breaker = CircuitBreaker::new(1, 0, 2);
    breaker.record_failure_at(at(5));
    assert!(breaker.allow_request_at(at(5)));
    assert!(!breaker.allow_request_at(at(5)));
    assert!(!breaker.allow_request_at(at(5_000)));
    assert_eq!(breaker.state(), BreakerState::HalfOpen);
    breaker.record_success();
    assert_eq!(breaker.state(), BreakerState::HalfOpen);
    assert!(breaker.allow_request_at(at(6)));
    assert!(!breaker.allow_request_at(at(6)));
    breaker.record_success();
    assert_eq!(breaker.state(), BreakerState::Closed);
    assert!(breaker.allow_request_at(at(7)));
    assert!(breaker.allow_request_at(at(7)));
}

#[test]
fn second_request_waits_for_the_probe() {
    let mut breaker = CircuitBreaker::new(1, 0, 2);
    breaker.record_failure();
    assert!(breaker.allow_request());
    assert!(!breaker.allow_request());
    assert_eq!(breaker.state(), BreakerState::HalfOpen);
}

#[test]
fn released_probe_makes_way() {
    let mut breaker = CircuitBreaker::new(1, 0, 2);
    breaker.record_failure_at(at(5));
    assert!(breaker.allow_request_at(at(5)));
    breaker.release_probe();
    assert_eq!(breaker.state(), BreakerState::HalfOpen);
    assert!(breaker.allow_request_at(at(5)));
    breaker.drop_lost_probe_at(30, at(34));
    assert!(!breaker.allow_request_at(at(34)));
    breaker.drop_lost_probe_at(30, at(35));
    assert!(breaker.allow_request_at(at(35)));
}

#[test]
fn probe_that_fails_is_over() {
    let mut breaker = CircuitBreaker::new(1, 10, 2);
    breaker.record_failure_at(at(0));
    assert!(breaker.allow_request_at(at(10)));
    breaker.record_failure_at(at(11));
    assert!(!breaker.allow_request_at(at(20)));
    assert!(breaker.allow_request_at(at(21)));
    breaker.reset();
    assert!(breaker.allow_request_at(at(21)));
    assert!(breaker.allow_request_at(at(21)));
}

#[test]
fn failed_probe_starts_the_cooldown_over() {
    let mut breaker = CircuitBreaker::new(1, 60, 1);
    breaker.record_failure_at(at(0));
    assert!(breaker.allow_request_at(at(60)));
    breaker.record_failure_at(at(70));
    assert!(!breaker.allow_request_at(at(129)));
    assert!(breaker.allow_request_at(at(130)));
}

#[test]
fn failure_while_open_does_not_extend_the_cooldown() {
    let mut breaker = CircuitBreaker::new(1, 60, 1);
    breaker.record_failure_at(at(0));
    breaker.record_failure_at(at(50));
    assert_eq!(breaker.consecutive_failures(), 2);
    assert!(breaker.allow_request_at(at(60)));
}

#[test]
fn success_while_open_begins_to_probe() {
    let mut breaker = CircuitBreaker::new(1, 60, 2);
    breaker.record_failure_at(at(0));
    breaker.record_success();
    assert_eq!(breaker.state(), BreakerState::HalfOpen);
    breaker.record_success();
    assert_eq!(breaker.state(), BreakerState::Closed);
    assert_eq!(breaker.consecutive_failures(), 0);
}

#[test]
fn thresholds_of_zero() {
    let mut breaker = CircuitBreaker::new(0, 0, 0);
    breaker.record_failure_at(at(0));
    assert_eq!(breaker.state(), BreakerState::Open);
    assert!(breaker.allow_request_at(at(0)));
    breaker.record_success();
    assert_eq!(breaker.state(), BreakerState::Closed);
}

#[test]
fn reset_closes() {
    let mut breaker = CircuitBreaker::new(2, 600, 1);
    breaker.record_failure_at(at(0));
    breaker.record_failure_at(at(1));
    assert_eq!(breaker.state(), BreakerState::Open);
    assert_eq!(breaker.consecutive_failures(), 2);
    breaker.reset();
    assert_eq!(breaker.state(), BreakerState::Closed);
    assert_eq!(breaker.consecutive_failures(), 0);
    assert!(breaker.allow_request_at(at(2)));
    breaker.record_failure_at(at(3));
    assert_eq!(breaker.state(), BreakerState::Closed);
}

#[test]
fn state_names() {
    assert_eq!(BreakerState::Closed.as_str(), "closed");
    assert_eq!(BreakerState::Open.as_str(), "open");
    assert_eq!(BreakerState::HalfOpen.as_str(), "half_open");
}

const POLL_INTERVAL: Duration = Duration::from_millis(1);
const OBSERVE_DEADLINE: Duration = Duration::from_millis(500);
const TEST_WALL: Duration = Duration::from_secs(5);

#[derive(Debug)]
struct Observation {
    polls_while_closed: u32,
    saw_open: bool,
    allowed_when_open: Option<bool>,
    observed_at: Option<Instant>,
}

fn observe(breaker: &Mutex<CircuitBreaker>, ready: mpsc::Sender<()>) -> Observation {
    let mut seen = Observation {
        polls_while_closed: 0,
        saw_open: false,
        allowed_when_open: None,
        observed_at: None,
    };
    let deadline = Instant::now() + TEST_WALL;
    while Instant::now() < deadline {
        if breaker.lock().unwrap().state() == BreakerState::Open {
            seen.saw_open = true;
            seen.allowed_when_open = Some(breaker.lock().unwrap().allow_request());
            seen.observed_at = Some(Instant::now());
            break;
        }
        seen.polls_while_closed += 1;
        if seen.polls_while_closed == 1 {
            ready.send(()).expect("ready send");
        }
        sleep_ms(POLL_INTERVAL.as_millis() as u64);
    }
    seen
}

#[test]
fn second_client_observes_open_after_first_trips_shared_breaker() {
    let runtime = tokio::runtime::Builder::new_multi_thread().enable_all().build().unwrap();
    let breaker = Arc::new(Mutex::new(CircuitBreaker::new(5, 600, 2)));
    let (ready_tx, ready_rx) = mpsc::channel::<()>();

    let watched = Arc::clone(&breaker);
    let observer = runtime.spawn_blocking(move || observe(&watched, ready_tx));
    ready_rx.recv_timeout(TEST_WALL).expect("observer never started polling");

    let offended = Arc::clone(&breaker);
    let offender = runtime.spawn_blocking(move || {
        for _ in 0..5 {
            offended.lock().unwrap().record_failure();
        }
        Instant::now()
    });
    let tripped_at = runtime.block_on(offender).expect("offender panicked");
    let observation = runtime.block_on(observer).expect("observer panicked");

    assert!(observation.saw_open, "second client never observed OPEN: {observation:?}");
    assert!(
        observation.polls_while_closed >= 1,
        "observer never polled while CLOSED; concurrency not established: {:?}",
        observation
    );
    assert_eq!(
        observation.allowed_when_open,
        Some(false),
        "breaker claimed OPEN but still allowed the second client's request"
    );
    let elapsed =
        observation.observed_at.expect("observed_at set when saw_open").duration_since(tripped_at);
    assert!(
        elapsed <= OBSERVE_DEADLINE,
        "second client took {:?} to observe OPEN (deadline {:?})",
        elapsed,
        OBSERVE_DEADLINE
    );
    assert!(elapsed >= Duration::ZERO, "observation timestamp predates the trip");
}

#[test]
fn fresh_client_sees_open_immediately() {
    let runtime = tokio::runtime::Builder::new_multi_thread().enable_all().build().unwrap();
    let breaker = Arc::new(Mutex::new(CircuitBreaker::new(3, 600, 2)));

    let offended = Arc::clone(&breaker);
    let offender = runtime.spawn_blocking(move || {
        for _ in 0..3 {
            offended.lock().unwrap().record_failure();
        }
    });
    runtime.block_on(offender).expect("offender panicked");

    let mut fresh = breaker.lock().unwrap();
    assert_eq!(fresh.state(), BreakerState::Open);
    assert!(!fresh.allow_request(), "fresh client must be rejected while OPEN");
}

#[test]
fn failures_beyond_the_threshold_are_counted() {
    for (threshold, failures) in [(0, 0), (0, 1), (1, 1), (3, 2), (3, 3), (3, 7)] {
        let mut breaker = CircuitBreaker::new(threshold, 60, 1);
        for i in 0..failures {
            breaker.record_failure_at(at(i as i64));
        }
        assert_eq!(breaker.consecutive_failures(), failures);
        let open = failures >= threshold && failures >= 1;
        assert_eq!(breaker.state() == BreakerState::Open, open);
        if open {
            let tripped = threshold.max(1) as i64 - 1;
            assert!(!breaker.allow_request_at(at(tripped + 59)));
            assert!(breaker.allow_request_at(at(tripped + 60)));
        }
    }
}

#[test]
fn closed_by_hand_answers_as_fresh() {
    let mut breaker = CircuitBreaker::new(1, 0, 2);
    breaker.record_failure_at(at(0));
    assert!(breaker.allow_request_at(at(0)));
    breaker.record_success();
    breaker.reset();
    breaker.record_failure_at(at(1));
    assert_eq!(breaker.state(), BreakerState::Open);
    assert!(breaker.allow_request_at(at(1)));
    breaker.record_success();
    assert_eq!(breaker.state(), BreakerState::HalfOpen);
}
