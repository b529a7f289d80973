use esplora_client::response::{HttpResponse, RETRYABLE_ERROR_CODES};
use esplora_client::retry::{
    single_attempt, RetryState, Step, BASE_BACKOFF_MILLIS, DEFAULT_MAX_RETRIES, MAX_DOUBLINGS,
};
use esplora_client::Error;
use std::time::Duration;

fn answer(status: u16) -> Result<HttpResponse, Error> {
    Ok(HttpResponse { status, version: "HTTP/1.1".to_string(), body: b"busy".to_vec() })
}

fn wait(step: Step) -> Duration {
    match step {
        Step::Wait(delay) => delay,
        Step::Done(_) => panic!("the request is over"),
    }
}

fn done(step: Step) -> Result<HttpResponse, Error> {
    match step {
        Step::Wait(delay) => panic!("the request is sent again after {delay:?}"),
        Step::Done(r) => r,
    }
}

#[test]
fn waits_double_until_the_retries_are_used_up() {
    let mut state = RetryState::new(DEFAULT_MAX_RETRIES);
    for millis in [256, 512, 1024, 2048, 4096, 8192] {
        assert_eq!(wait(state.step(answer(503))), Duration::from_millis(millis));
    }
    assert_eq!(state.attempts(), 6);
    match done(state.step(answer(503))) {
        Err(Error::HttpResponse { status, message }) => {
            assert_eq!(status, 503);
            assert_eq!(message, "busy");
        }
        _ => panic!("a busy server is no success"),
    }
    assert_eq!(state.attempts(), 6);
}

#[test]
fn first_wait_is_the_base() {
    let mut state = RetryState::new(1);
    assert_eq!(wait(state.step(answer(500))), Duration::from_millis(BASE_BACKOFF_MILLIS));
}

#[test]
fn retry_can_end_in_success() {
    let mut state = RetryState::new(3);
    wait(state.step(answer(429)));
    let response = done(state.step(answer(200))).ok().unwrap();
    assert_eq!(response.status, 200);
    assert_eq!(response.body, b"busy");
}

#[test]
fn without_retries_every_answer_is_final() {
    for status in RETRYABLE_ERROR_CODES {
        let mut state = RetryState::new(0);
        assert!(matches!(
            done(state.step(answer(status))),
            Err(Error::HttpResponse { status: s, .. }) if s == status
        ));
    }
}

#[test]
fn not_found_is_final() {
    let mut state = RetryState::new(5);
    assert!(matches!(
        done(state.step(answer(404))),
        Err(Error::HttpResponse { status: 404, .. })
    ));
    assert_eq!(state.attempts(), 0);
}

#[test]
fn errors_are_final() {
    let mut state = RetryState::new(5);
    assert!(matches!(done(state.step(Err(Error::InvalidResponse))), Err(Error::InvalidResponse)));
    assert_eq!(state.attempts(), 0);
}

#[test]
fn retryable_statuses() {
    for status in [429, 500, 503] {
        assert!(answer(status).ok().unwrap().is_retryable());
    }
    for status in [200, 301, 400, 404, 501, 502, 504] {
        assert!(!answer(status).ok().unwrap().is_retryable());
    }
}

#[test]
fn success_statuses() {
    for status in [200, 204, 299] {
        assert!(answer(status).ok().unwrap().error_for_status().is_ok());
    }
    for status in [100, 199, 300, 304, 404, 500] {
        assert!(matches!(
            answer(status).ok().unwrap().error_for_status(),
            Err(Error::HttpResponse { status: s, .. }) if s == status
        ));
    }
}

#[test]
fn message_of_an_error_is_the_body() {
    let response = HttpResponse {
        status: 400,
        version: "HTTP/1.1".to_string(),
        body: vec![b'a', 0xff, b'b'],
    };
    assert!(matches!(
        response.error_for_status(),
        Err(Error::HttpResponse { message, .. }) if message == "a\u{fffd}b"
    ));
}

#[test]
fn body_is_text_only_if_it_is_utf8() {
    let mut response = answer(200).ok().unwrap();
    assert_eq!(response.as_str().unwrap(), "busy");
    response.body = vec![0xc0];
    assert!(matches!(response.as_str(), Err(Error::Utf8(_))));
}

#[test]
fn single_attempts_are_judged_at_once() {
    assert!(matches!(
        single_attempt(answer(503)),
        Err(Error::HttpResponse { status: 503, .. })
    ));
    assert_eq!(single_attempt(answer(200)).ok().unwrap().status, 200);
    assert!(matches!(single_attempt(Err(Error::InvalidResponse)), Err(Error::InvalidResponse)));
}

#[test]
fn doubling_ends_where_a_duration_ends() {
    let mut state = RetryState::new(usize::MAX);
    let mut last = Duration::ZERO;
    while state.attempts() < MAX_DOUBLINGS {
        assert!(state.can_step(&answer(500)));
        last = wait(state.step(answer(500)));
    }
    assert!(!state.can_step(&answer(500)));
    assert!(state.can_step(&answer(200)));
    assert!(state.can_step(&Err(Error::InvalidResponse)));
    // The wait of the last step could be doubled once more, but not twice.
    assert!(last.checked_mul(2).is_some());
    assert!(last.checked_mul(4).is_none());
}

#[test]
fn waiting_ends_with_the_first_status_that_is_not_retried() {
    let statuses = [500, 429, 503, 400, 503];
    let mut state = RetryState::new(10);
    let mut waits = vec![];
    for status in statuses {
        match state.step(answer(status)) {
            Step::Wait(delay) => waits.push(delay.as_millis()),
            Step::Done(_) => break,
        }
    }
    assert_eq!(waits, [256, 512, 1024]);
}

#[test]
fn run_ends_with_an_error_of_the_transport() {
    let mut state = RetryState::new(10);
    assert_eq!(wait(state.step(answer(429))), Duration::from_millis(256));
    assert_eq!(wait(state.step(answer(503))), Duration::from_millis(512));
    assert!(matches!(done(state.step(Err(Error::InvalidResponse))), Err(Error::InvalidResponse)));
    assert_eq!(state.attempts(), 2);
}
