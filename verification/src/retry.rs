//! When a request is sent again, and how long is waited before that.
use std::time::Duration;
use vstd::arithmetic::power2::{lemma2_to64, lemma_pow2_adds, lemma_pow2_strictly_increases, lemma_pow2_unfold, pow2};
use vstd::prelude::*;

use crate::error::Error;
use crate::ext::time::{duration, duration_nanos};
use crate::ext::text::lossy_text;
use crate::response::{
    is_judged, is_retryable_status, law_success_and_not_found_are_final, HttpResponse,
};

verus! {

/// How long is waited before a request is sent again for the first time, in
/// milliseconds.
pub const BASE_BACKOFF_MILLIS: u64 = 256;

/// How often a request is sent again unless something else is asked for.
pub const DEFAULT_MAX_RETRIES: usize = 6;

/// The longest time that a `std::time::Duration` can hold, in whole milliseconds.
pub const DURATION_MAX_MILLIS: u128 = 18446744073709551615999;

/// How often the wait can be doubled until it is longer than a
/// `std::time::Duration` can hold.
pub const MAX_DOUBLINGS: usize = 65;

/// The wait before the retry number `attempts`, counted from zero: it starts at
/// the base and doubles with every retry.
pub open spec fn backoff_millis(attempts: nat) -> nat {
    BASE_BACKOFF_MILLIS as nat * pow2(attempts)
}

/// Whether a response with `status` is worth another attempt after `attempts`
/// retries out of `max_retries`.
pub open spec fn retries(max_retries: nat, attempts: nat, status: u16) -> bool {
    attempts < max_retries && is_retryable_status(status)
}

/// Whether a request is sent again after `attempts` retries out of
/// `max_retries`, once sending it came to `result`.
pub open spec fn is_retried(
    max_retries: nat,
    attempts: nat,
    result: Result<HttpResponse, Error>,
) -> bool {
    result matches Ok(response) && retries(max_retries, attempts, response.status)
}

/// Whether `outcome` is what `result` comes to in the end: a response is judged
/// by its status, and an error stays.
pub open spec fn comes_to(
    result: Result<HttpResponse, Error>,
    outcome: Result<HttpResponse, Error>,
) -> bool {
    match result {
        Ok(response) => is_judged(response, outcome),
        Err(e) => outcome == Err::<HttpResponse, Error>(e),
    }
}

/// What to do once a request has been answered, or could not be sent.
pub enum Step {
    /// Wait for so long, then send the request again.
    Wait(Duration),
    /// Stop, with this outcome.
    Done(Result<HttpResponse, Error>),
}

/// Whether `step` follows from `result` after `before` retries out of
/// `max_retries`, with `after` retries then: a wait where the request is sent
/// again, and otherwise the end.
pub open spec fn is_step(
    max_retries: nat,
    before: nat,
    result: Result<HttpResponse, Error>,
    step: Step,
    after: nat,
) -> bool {
    if is_retried(max_retries, before, result) {
        &&& step matches Step::Wait(delay) && duration_nanos(delay) == 1_000_000 * backoff_millis(
            before,
        )
        &&& after == before + 1
    } else {
        &&& step matches Step::Done(outcome) && comes_to(result, outcome)
        &&& after == before
    }
}

/// Whether `steps` is a whole run of a request, from the first attempt to the
/// end: sending it came to `results`, one after the other, each step follows
/// from its result, every step but the last is a wait, and the last is the end.
/// `attempts` counts the retries before each step, and after the last.
pub open spec fn is_run(
    max_retries: nat,
    results: Seq<Result<HttpResponse, Error>>,
    steps: Seq<Step>,
    attempts: Seq<nat>,
) -> bool {
    &&& steps.len() > 0
    &&& results.len() == steps.len()
    &&& attempts.len() == steps.len() + 1
    &&& attempts[0] == 0
    &&& forall|i: int|
        0 <= i < steps.len() ==> is_step(
            max_retries,
            attempts[i],
            results[i],
            #[trigger] steps[i],
            attempts[i + 1],
        )
    &&& forall|i: int| 0 <= i < steps.len() - 1 ==> #[trigger] steps[i] is Wait
    &&& steps.last() is Done
}

/// How far a request has come.
pub struct RetryState {
    max_retries: usize,
    attempts: usize,
    delay_millis: u128,
}

impl RetryState {
    #[verifier::type_invariant]
    spec fn wf(self) -> bool {
        &&& self.attempts <= MAX_DOUBLINGS
        &&& self.delay_millis == backoff_millis(self.attempts as nat)
    }

    /// How often the request may be sent again.
    pub closed spec fn spec_max_retries(&self) -> nat {
        self.max_retries as nat
    }

    /// How often the request has been sent again.
    pub closed spec fn spec_attempts(&self) -> nat {
        self.attempts as nat
    }

    /// Whether `result` makes the request be sent again.
    pub open spec fn will_retry(&self, result: Result<HttpResponse, Error>) -> bool {
        is_retried(self.spec_max_retries(), self.spec_attempts(), result)
    }

    /// A request that has not been sent yet.
    pub fn new(max_retries: usize) -> (state: RetryState)
        ensures
            state.spec_max_retries() == max_retries,
            state.spec_attempts() == 0,
    {
        proof {
            lemma2_to64();
        }
        RetryState { max_retries, attempts: 0, delay_millis: 256 }
    }

    /// How often the request has been sent again.
    pub fn attempts(&self) -> (n: usize)
        ensures
            n == self.spec_attempts(),
    {
        self.attempts
    }

    /// Whether [`RetryState::step`] can take `result`: it cannot once the wait
    /// would have to be doubled beyond what a duration can hold.
    pub fn can_step(&self, result: &Result<HttpResponse, Error>) -> (b: bool)
        ensures
            b <==> (self.will_retry(*result) ==> self.spec_attempts() < MAX_DOUBLINGS),
    {
        match result {
            Ok(response) => self.attempts < MAX_DOUBLINGS || self.attempts >= self.max_retries
                || !response.is_retryable(),
            Err(_) => true,
        }
    }

    /// Decides what follows from `result`.
    ///
    /// A response whose status may be retried makes the request be sent again,
    /// as long as that has not been done too often, after a wait that doubles
    /// each time. Any other response is the end, and so is an error.
    pub fn step(&mut self, result: Result<HttpResponse, Error>) -> (step: Step)
        requires
            old(self).will_retry(result) ==> old(self).spec_attempts() < MAX_DOUBLINGS,
        ensures
            final(self).spec_max_retries() == old(self).spec_max_retries(),
            is_step(
                old(self).spec_max_retries(),
                old(self).spec_attempts(),
                result,
                step,
                final(self).spec_attempts(),
            ),
            step is Wait <==> (result matches Ok(response) && old(self).spec_attempts() < old(
                self,
            ).spec_max_retries() && (response.status == 429 || response.status == 500
                || response.status == 503)),
            step matches Step::Wait(delay) ==> duration_nanos(delay) == 256_000_000 * pow2(
                old(self).spec_attempts(),
            ),
            result matches Err(e) ==> step == Step::Done(Err::<HttpResponse, Error>(e)),
    {
        proof {
            use_type_invariant(&*self);
            law_retries_go_by_the_status(&*self, result, 0, 0, 0);
        }
        match result {
            Err(e) => Step::Done(Err(e)),
            Ok(response) => {
                if self.attempts < self.max_retries && response.is_retryable() {
                    proof {
                        lemma_backoff_fits(self.attempts as nat);
                        lemma_backoff_doubles(self.attempts as nat);
                        lemma_backoff_fits((self.attempts + 1) as nat);
                    }
                    let delay = duration(
                        (self.delay_millis / 1000) as u64,
                        (self.delay_millis % 1000) as u32 * 1_000_000,
                    );
                    *self = RetryState {
                        max_retries: self.max_retries,
                        attempts: self.attempts + 1,
                        delay_millis: self.delay_millis * 2,
                    };
                    Step::Wait(delay)
                } else {
                    Step::Done(response.error_for_status())
                }
            },
        }
    }
}

/// What a request that is never sent again comes to.
pub fn single_attempt(result: Result<HttpResponse, Error>) -> (r: Result<HttpResponse, Error>)
    ensures
        comes_to(result, r),
        match result {
            Ok(response) => if 200 <= response.status < 300 {
                r == Ok::<HttpResponse, Error>(response)
            } else {
                r matches Err(Error::HttpResponse { status, message }) && status
                    == response.status && message@ == lossy_text(response.body@)
            },
            Err(e) => r == Err::<HttpResponse, Error>(e),
        },
{
    match result {
        Ok(response) => response.error_for_status(),
        Err(e) => Err(e),
    }
}

/// Each wait is twice as long as the one before.
proof fn lemma_backoff_doubles(attempts: nat)
    ensures
        backoff_millis(attempts + 1) == 2 * backoff_millis(attempts),
{
    lemma_pow2_unfold(attempts + 1);
}

/// Every wait up to the last one that is allowed fits in a duration.
proof fn lemma_backoff_fits(attempts: nat)
    requires
        attempts <= MAX_DOUBLINGS,
    ensures
        backoff_millis(attempts) <= DURATION_MAX_MILLIS,
{
    lemma2_to64();
    lemma_pow2_adds(64, 1);
    if attempts < 65 {
        lemma_pow2_strictly_increases(attempts, 65);
    }
}

/// The first wait is 256 milliseconds, and each following wait is twice as
/// long as the one before it.
pub proof fn law_backoff_is_exponential(attempts: nat)
    ensures
        backoff_millis(0) == 256,
        backoff_millis(attempts + 1) == 2 * backoff_millis(attempts),
{
    lemma2_to64();
    lemma_backoff_doubles(attempts);
}

/// A wait fits in a duration exactly up to the number of doublings that a
/// request allows for.
pub proof fn law_doublings_are_bounded_by_duration(attempts: nat)
    ensures
        backoff_millis(attempts) <= DURATION_MAX_MILLIS <==> attempts <= MAX_DOUBLINGS,
{
    if attempts <= MAX_DOUBLINGS {
        lemma_backoff_fits(attempts);
    } else {
        lemma2_to64();
        lemma_pow2_adds(64, 2);
        if attempts > 66 {
            lemma_pow2_strictly_increases(66, attempts);
        }
    }
}

/// In a whole run, the request is sent again at most `max_retries` times. Every
/// result but the last is a response whose status may be retried, and is
/// followed by a wait that is twice as long as the one before. The run ends with
/// what the last result comes to, and it ends there for a reason: the retries
/// are used up, or that result is an error or a response whose status may not be
/// retried.
pub proof fn law_run(
    max_retries: nat,
    results: Seq<Result<HttpResponse, Error>>,
    steps: Seq<Step>,
    attempts: Seq<nat>,
)
    requires
        is_run(max_retries, results, steps, attempts),
    ensures
        steps.len() - 1 <= max_retries,
        forall|i: int|
            0 <= i < steps.len() - 1 ==> (#[trigger] results[i] matches Ok(response)
                && is_retryable_status(response.status)),
        forall|i: int|
            0 <= i < steps.len() - 1 ==> (#[trigger] steps[i] matches Step::Wait(delay)
                && duration_nanos(delay) == 1_000_000 * backoff_millis(i as nat)),
        steps.last() matches Step::Done(outcome) && comes_to(results.last(), outcome),
        results.last() matches Ok(response) ==> steps.len() - 1 == max_retries
            || !is_retryable_status(response.status),
{
    let last = steps.len() - 1;
    lemma_run_counts(max_retries, results, steps, attempts, last);
    assert forall|i: int| 0 <= i < last implies (#[trigger] results[i] matches Ok(response)
        && is_retryable_status(response.status)) by {
        assert(steps[i] is Wait);
    }
    assert forall|i: int| 0 <= i < last implies (#[trigger] steps[i] matches Step::Wait(delay)
        && duration_nanos(delay) == 1_000_000 * backoff_millis(i as nat)) by {
        lemma_run_counts(max_retries, results, steps, attempts, i);
    }
    assert(is_step(max_retries, attempts[last], results[last], steps[last], attempts[last + 1]));
}

/// Where a run ends rests on the results alone: no run goes on behind a result
/// with which another run on the same results has ended.
pub proof fn law_run_end_is_determined(
    max_retries: nat,
    results: Seq<Result<HttpResponse, Error>>,
    more: Seq<Result<HttpResponse, Error>>,
    steps: Seq<Step>,
    more_steps: Seq<Step>,
    attempts: Seq<nat>,
    more_attempts: Seq<nat>,
)
    requires
        is_run(max_retries, results, steps, attempts),
        is_run(max_retries, more, more_steps, more_attempts),
        results.is_prefix_of(more),
    ensures
        results == more,
{
    if results.len() < more.len() {
        let last = steps.len() - 1;
        lemma_run_counts(max_retries, results, steps, attempts, last);
        lemma_run_counts(max_retries, more, more_steps, more_attempts, last);
        assert(more[last] == results[last]);
        assert(more_steps[last] is Wait);
        assert(steps[last] is Done);
    }
}

/// Before the step number `n` of a run, counted from zero, `n` retries have been
/// made, and no more than there may be.
proof fn lemma_run_counts(
    max_retries: nat,
    results: Seq<Result<HttpResponse, Error>>,
    steps: Seq<Step>,
    attempts: Seq<nat>,
    n: int,
)
    requires
        is_run(max_retries, results, steps, attempts),
        0 <= n < steps.len(),
    ensures
        attempts[n] == n,
        n <= max_retries,
    decreases n,
{
    if n > 0 {
        lemma_run_counts(max_retries, results, steps, attempts, n - 1);
        assert(steps[n - 1] is Wait);
    }
}

/// What follows from one result, from its status alone. There is a wait exactly
/// if the server answered with 429, 500 or 503 and a retry is left; it lasts 256
/// milliseconds, doubled once for every retry before. Otherwise it is the end: an
/// error stays as it is, a response with a status from 200 to 299 is handed on,
/// and any other is the error with its status.
pub proof fn law_step_goes_by_the_status(
    max_retries: nat,
    before: nat,
    result: Result<HttpResponse, Error>,
    step: Step,
    after: nat,
)
    requires
        is_step(max_retries, before, result, step, after),
    ensures
        step is Wait <==> (result matches Ok(response) && before < max_retries && (response.status
            == 429 || response.status == 500 || response.status == 503)),
        step matches Step::Wait(delay) ==> after == before + 1 && duration_nanos(delay)
            == 256_000_000 * pow2(before),
        step is Done ==> after == before,
        step matches Step::Done(outcome) ==> result matches Err(e) ==> outcome == Err::<
            HttpResponse,
            Error,
        >(e),
        step matches Step::Done(outcome) ==> result matches Ok(response) ==> 200 <= response.status
            < 300 ==> outcome == Ok::<HttpResponse, Error>(response),
        step matches Step::Done(outcome) ==> result matches Ok(response) ==> !(200
            <= response.status < 300) ==> (outcome matches Err(
            Error::HttpResponse { status, message },
        ) && status == response.status && message@ == lossy_text(response.body@)),
{
    if let Ok(response) = result {
        law_success_and_not_found_are_final(response.status);
    }
}

/// What a result comes to when nothing is sent again: an error stays as it is, a
/// response with a status from 200 to 299 is handed on, and any other is the
/// error with its status.
pub proof fn law_end_goes_by_the_status(
    result: Result<HttpResponse, Error>,
    outcome: Result<HttpResponse, Error>,
)
    requires
        comes_to(result, outcome),
    ensures
        result matches Err(e) ==> outcome == Err::<HttpResponse, Error>(e),
        result matches Ok(response) ==> 200 <= response.status < 300 ==> outcome == Ok::<
            HttpResponse,
            Error,
        >(response),
        result matches Ok(response) ==> !(200 <= response.status < 300) ==> (outcome matches Err(
            Error::HttpResponse { status, message },
        ) && status == response.status && message@ == lossy_text(response.body@)),
{
}

/// A request is sent again exactly if the server answered with 429, 500 or 503
/// and fewer retries were made than there may be.
pub proof fn law_retries_go_by_the_status(
    state: &RetryState,
    result: Result<HttpResponse, Error>,
    max_retries: nat,
    attempts: nat,
    status: u16,
)
    ensures
        state.will_retry(result) <==> (result matches Ok(response) && state.spec_attempts()
            < state.spec_max_retries() && (response.status == 429 || response.status == 500
            || response.status == 503)),
        is_retried(max_retries, attempts, result) <==> (result matches Ok(response) && attempts
            < max_retries && (response.status == 429 || response.status == 500 || response.status
            == 503)),
        retries(max_retries, attempts, status) <==> attempts < max_retries && (status == 429
            || status == 500 || status == 503),
{
    law_success_and_not_found_are_final(status);
    if let Ok(response) = result {
        law_success_and_not_found_are_final(response.status);
    }
}

/// The longest duration has all the seconds that 64 bits can count, and 999
/// milliseconds.
pub proof fn law_duration_holds_whole_seconds()
    ensures
        DURATION_MAX_MILLIS == u64::MAX * 1000 + 999,
        DEFAULT_MAX_RETRIES == 6,
{
}

} // verus!
