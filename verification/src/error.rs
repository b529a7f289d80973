//! What can go wrong with a request.
use bitcoin::consensus::encode;
use bitcoin::hex::{HexToArrayError, HexToBytesError};
use bitcoin::Txid;
use std::num::ParseIntError;
use std::str::Utf8Error;
use vstd::prelude::*;

verus! {

/// Why a request did not give what it was made for.
#[derive(Debug)]
pub enum Error {
    /// The HTTP client could not be set up, or could not send the request.
    Reqwest(reqwest::Error),
    /// The body is not the JSON that was expected.
    SerdeJson(serde_json::Error),
    /// The server answered with a status that does not stand for success.
    HttpResponse {
        /// The status of the response.
        status: u16,
        /// The body of the response.
        message: String,
    },
    /// The body is not a number.
    Parsing(ParseIntError),
    /// The bytes are not the consensus encoding that was expected.
    BitcoinEncoding(encode::Error),
    /// The text is not a hash.
    HexToArray(HexToArrayError),
    /// The text is not hexadecimal.
    HexToBytes(HexToBytesError),
    /// The body is not UTF-8.
    Utf8(Utf8Error),
    /// The server does not know the transaction.
    TransactionNotFound(Txid),
    /// The name of a header has characters that it may not have.
    InvalidHttpHeaderName(String),
    /// The value of a header has characters that it may not have.
    InvalidHttpHeaderValue(String),
    /// The server answered with something that no server should answer with.
    InvalidResponse,
}

impl Error {
    /// Whether the server said that it does not have what was asked for.
    pub open spec fn is_not_found(self) -> bool {
        self matches Error::HttpResponse { status, .. } && status == 404
    }
}

/// What a result comes to where "not found" is an answer: a value is handed on
/// in `Some`, the error of a response with status 404 becomes `None`, and any
/// other error stays.
pub open spec fn if_found<T>(result: Result<T, Error>) -> Result<Option<T>, Error> {
    match result {
        Ok(value) => Ok(Some(value)),
        Err(e) => if e.is_not_found() {
            Ok(None)
        } else {
            Err(e)
        },
    }
}

/// Turns "not found" into `None`.
pub fn none_if_not_found<T>(result: Result<T, Error>) -> (r: Result<Option<T>, Error>)
    ensures
        r == if_found(result),
        match result {
            Ok(value) => r == Ok::<Option<T>, Error>(Some(value)),
            Err(Error::HttpResponse { status: 404, .. }) => r == Ok::<Option<T>, Error>(None),
            Err(e) => r == Err::<Option<T>, Error>(e),
        },
{
    match result {
        Ok(value) => Ok(Some(value)),
        Err(Error::HttpResponse { status, message }) => if status == 404 {
            Ok(None)
        } else {
            Err(Error::HttpResponse { status, message })
        },
        Err(e) => Err(e),
    }
}

/// Turns `None` into an error that names the transaction.
pub fn found_or_error<T>(txid: &Txid, result: Result<Option<T>, Error>) -> (r: Result<T, Error>)
    ensures
        match result {
            Ok(Some(value)) => r == Ok::<T, Error>(value),
            Ok(None) => r == Err::<T, Error>(Error::TransactionNotFound(*txid)),
            Err(e) => r == Err::<T, Error>(e),
        },
{
    match result {
        Ok(Some(value)) => Ok(value),
        Ok(None) => Err(Error::TransactionNotFound(*txid)),
        Err(e) => Err(e),
    }
}

/// Hands on what was read from JSON, and wraps the error where nothing could be read.
pub fn json_or_error<T>(parsed: Result<T, serde_json::Error>) -> (r: Result<T, Error>)
    ensures
        match parsed {
            Ok(value) => r == Ok::<T, Error>(value),
            Err(e) => r == Err::<T, Error>(Error::SerdeJson(e)),
        },
{
    match parsed {
        Ok(value) => Ok(value),
        Err(e) => Err(Error::SerdeJson(e)),
    }
}

/// Refuses an empty list of blocks, which no server should answer with.
pub fn some_blocks<T>(result: Result<Vec<T>, Error>) -> (r: Result<Vec<T>, Error>)
    ensures
        match result {
            Ok(blocks) => if blocks@.len() == 0 {
                r == Err::<Vec<T>, Error>(Error::InvalidResponse)
            } else {
                r == Ok::<Vec<T>, Error>(blocks)
            },
            Err(e) => r == Err::<Vec<T>, Error>(e),
        },
{
    match result {
        Ok(blocks) => if blocks.len() == 0 {
            Err(Error::InvalidResponse)
        } else {
            Ok(blocks)
        },
        Err(e) => Err(e),
    }
}

/// `None` comes of a lookup exactly if the server answered it with status 404.
pub proof fn law_none_is_status_404<T>(result: Result<T, Error>)
    ensures
        if_found(result) == Ok::<Option<T>, Error>(None) <==> (result matches Err(
            Error::HttpResponse { status, .. },
        ) && status == 404),
        result matches Err(e) ==> (e.is_not_found() <==> (e matches Error::HttpResponse {
            status,
            ..
        } && status == 404)),
{
}

/// A lookup that is answered with any status but 404 keeps its error, status and
/// message, and so does one that fails in another way. What is found is handed
/// on.
pub proof fn law_lookup_keeps_everything_else<T>(
    value: T,
    status: u16,
    message: String,
    error: Error,
)
    requires
        status != 404,
        error !is HttpResponse,
    ensures
        if_found(Ok::<T, Error>(value)) == Ok::<Option<T>, Error>(Some(value)),
        if_found(Err::<T, Error>(Error::HttpResponse { status, message })) == Err::<
            Option<T>,
            Error,
        >(Error::HttpResponse { status, message }),
        if_found(Err::<T, Error>(error)) == Err::<Option<T>, Error>(error),
{
}

} // verus!
