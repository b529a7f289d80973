//! A response of the server, and how far it is taken for an answer.
use vstd::prelude::*;
use vstd::utf8::{decode_utf8, decode_utf8_encode_utf8, encode_utf8, valid_utf8};

use crate::error::Error;
use crate::ext::text::{lossy_text, utf8_error, utf8_lossy, utf8_str};

verus! {

/// The statuses for which a request may be sent again: too many requests,
/// internal server error, service unavailable.
pub const RETRYABLE_ERROR_CODES: [u16; 3] = [429, 500, 503];

/// Whether a request that was answered with `status` may be sent again.
pub open spec fn is_retryable_status(status: u16) -> bool {
    RETRYABLE_ERROR_CODES@.contains(status)
}

/// Whether `status` stands for success.
pub open spec fn is_success_status(status: u16) -> bool {
    200 <= status < 300
}

/// A response of the server.
pub struct HttpResponse {
    /// The status code.
    pub status: u16,
    /// The version of HTTP in which the response came, as text.
    pub version: String,
    /// The bytes of the body.
    pub body: Vec<u8>,
}

/// Whether `r` is what the response comes to: the response itself if it was a
/// success, and otherwise the error with its status and the text of its body.
pub open spec fn is_judged(response: HttpResponse, r: Result<HttpResponse, Error>) -> bool {
    if is_success_status(response.status) {
        r == Ok::<HttpResponse, Error>(response)
    } else {
        r matches Err(Error::HttpResponse { status, message }) && status == response.status
            && message@ == lossy_text(response.body@) && (valid_utf8(response.body@) ==> message@
            == decode_utf8(response.body@))
    }
}

impl HttpResponse {
    /// Whether the request may be sent again.
    pub fn is_retryable(&self) -> (r: bool)
        ensures
            r == is_retryable_status(self.status),
            r == (self.status == 429 || self.status == 500 || self.status == 503),
    {
        proof {
            law_success_and_not_found_are_final(self.status);
        }
        let mut i: usize = 0;
        while i < 3
            invariant
                i <= 3,
                forall|j: int| 0 <= j < i ==> RETRYABLE_ERROR_CODES@[j] != self.status,
            decreases 3 - i,
        {
            if RETRYABLE_ERROR_CODES[i] == self.status {
                assert(RETRYABLE_ERROR_CODES@[i as int] == self.status);
                return true;
            }
            i = i + 1;
        }
        false
    }

    /// Takes a response for an error unless its status stands for success.
    pub fn error_for_status(self) -> (r: Result<HttpResponse, Error>)
        ensures
            is_judged(self, r),
            200 <= self.status < 300 ==> r == Ok::<HttpResponse, Error>(self),
            !(200 <= self.status < 300) ==> (r matches Err(Error::HttpResponse { status, message })
                && status == self.status && message@ == lossy_text(self.body@)),
    {
        if 200 <= self.status && self.status < 300 {
            Ok(self)
        } else {
            Err(Error::HttpResponse { status: self.status, message: utf8_lossy(&self.body) })
        }
    }

    /// The body as text.
    pub fn as_str(&self) -> (r: Result<&str, Error>)
        ensures
            if valid_utf8(self.body@) {
                r matches Ok(text) && text@ == decode_utf8(self.body@)
            } else {
                r == Err::<&str, Error>(Error::Utf8(utf8_error(self.body@)))
            },
    {
        match utf8_str(&self.body) {
            Ok(text) => Ok(text),
            Err(e) => Err(Error::Utf8(e)),
        }
    }
}

/// No status that may be retried stands for success, nor does "not found": such
/// an answer is final.
pub proof fn law_success_and_not_found_are_final(status: u16)
    ensures
        is_success_status(status) ==> !is_retryable_status(status),
        !is_retryable_status(404),
        is_retryable_status(status) <==> (status == 429 || status == 500 || status == 503),
{
    assert(RETRYABLE_ERROR_CODES@ =~= seq![429u16, 500, 503]);
    assert(RETRYABLE_ERROR_CODES@[0] == 429);
    assert(RETRYABLE_ERROR_CODES@[1] == 500);
    assert(RETRYABLE_ERROR_CODES@[2] == 503);
}

/// What a response comes to: a status from 200 to 299 hands the response on as
/// it is. Any other status is the error that carries this very status, with the
/// text whose encoding is the body, where the body is an encoding. So an outcome
/// has the status 404 only if the response had it.
pub proof fn law_outcome_has_the_status_of_the_response(
    response: HttpResponse,
    outcome: Result<HttpResponse, Error>,
)
    requires
        is_judged(response, outcome),
    ensures
        200 <= response.status && response.status <= 299 ==> outcome == Ok::<HttpResponse, Error>(
            response,
        ),
        response.status < 200 || 299 < response.status ==> (outcome matches Err(
            Error::HttpResponse { status, message },
        ) && status == response.status && message@ == lossy_text(response.body@) && (valid_utf8(
            response.body@,
        ) ==> encode_utf8(message@) == response.body@)),
        (outcome matches Err(Error::HttpResponse { status, .. }) && status == 404)
            <==> response.status == 404,
{
    if valid_utf8(response.body@) {
        decode_utf8_encode_utf8(response.body@);
    }
}

/// The statuses that stand for success are those from 200 to 299.
pub proof fn law_success_statuses(status: u16)
    ensures
        is_success_status(status) <==> status / 100 == 2,
{
}

} // verus!
