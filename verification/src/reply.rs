//! What the outcome of a request comes to, endpoint by endpoint.
use bitcoin::block::Header as BlockHeader;
use bitcoin::consensus::encode::Error as EncodeError;
use bitcoin::{Block, BlockHash, MerkleBlock, Transaction, Txid};
use serde_json::Error as JsonError;
use vstd::prelude::*;
use vstd::utf8::{
    decode_utf8, decode_utf8_encode_utf8, encode_utf8, encode_utf8_decode_utf8,
    encode_utf8_valid_utf8, valid_utf8,
};

use crate::decimal::{is_u32_text, u32_value};
use crate::error::{found_or_error, if_found, json_or_error, none_if_not_found, Error};
use crate::ext::chain::{
    block_hash_bytes, block_hash_error, block_hash_from_str, bytes_from_hex, decoded_block,
    decoded_header, decoded_merkle_block, decoded_transaction, deserialize_block,
    deserialize_header, deserialize_merkle_block, deserialize_transaction, hex_error,
    is_block_hash_of, is_txid_of, txid_bytes, txid_error, txid_from_str,
};
use crate::ext::json::{json_txids, txids_from_json};
use crate::ext::text::{parse_u32, u32_error, utf8_error};
use crate::endpoints::{block_hash_text, txid_text};
use crate::hex::{
    all_hex_digits, hash_bytes, hex_bytes, hex_text, is_hash_text, is_hex_text,
    law_hash_reads_back, law_hex_reads_back,
};
use crate::response::{is_judged, law_success_and_not_found_are_final, HttpResponse};
use crate::retry::retries;

verus! {

/// What came of a request: the response of the server if it was a success, and
/// otherwise an error.
pub type Outcome = Result<HttpResponse, Error>;

/// The bytes of the body.
pub open spec fn body_bytes(outcome: Outcome) -> Result<Seq<u8>, Error> {
    match outcome {
        Ok(response) => Ok(response.body@),
        Err(e) => Err(e),
    }
}

/// The text of the body.
pub open spec fn body_text(outcome: Outcome) -> Result<Seq<char>, Error> {
    match outcome {
        Ok(response) => if valid_utf8(response.body@) {
            Ok(decode_utf8(response.body@))
        } else {
            Err(Error::Utf8(utf8_error(response.body@)))
        },
        Err(e) => Err(e),
    }
}

/// The bytes that the body writes out in hexadecimal.
pub open spec fn body_hex(outcome: Outcome) -> Result<Seq<u8>, Error> {
    match body_text(outcome) {
        Ok(text) => if is_hex_text(text) {
            Ok(hex_bytes(text))
        } else {
            Err(Error::HexToBytes(hex_error(text)))
        },
        Err(e) => Err(e),
    }
}

/// What decoding bytes gives.
pub open spec fn decoding<T>(decoded: Result<T, EncodeError>) -> Result<T, Error> {
    match decoded {
        Ok(value) => Ok(value),
        Err(e) => Err(Error::BitcoinEncoding(e)),
    }
}

/// Whether `r` is the transaction that `text` names.
pub open spec fn names_txid(text: Result<Seq<char>, Error>, r: Result<Txid, Error>) -> bool {
    match text {
        Ok(text) => if is_hash_text(text) {
            r matches Ok(txid) && is_txid_of(txid, hash_bytes(text))
        } else {
            r == Err::<Txid, Error>(Error::HexToArray(txid_error(text)))
        },
        Err(e) => r == Err::<Txid, Error>(e),
    }
}

/// Whether `r` is the block that `text` names.
pub open spec fn names_block(text: Result<Seq<char>, Error>, r: Result<BlockHash, Error>) -> bool {
    match text {
        Ok(text) => if is_hash_text(text) {
            r matches Ok(hash) && is_block_hash_of(hash, hash_bytes(text))
        } else {
            r == Err::<BlockHash, Error>(Error::HexToArray(block_hash_error(text)))
        },
        Err(e) => r == Err::<BlockHash, Error>(e),
    }
}

/// Hands on what was decoded, and wraps the error where nothing could be.
pub fn decoded_or_error<T>(decoded: Result<T, EncodeError>) -> (r: Result<T, Error>)
    ensures
        r == decoding(decoded),
{
    match decoded {
        Ok(value) => Ok(value),
        Err(e) => Err(Error::BitcoinEncoding(e)),
    }
}

/// The text of the body.
pub fn text(outcome: Outcome) -> (r: Result<String, Error>)
    ensures
        match body_text(outcome) {
            Ok(text) => r matches Ok(s) && s@ == text,
            Err(e) => r == Err::<String, Error>(e),
        },
{
    match outcome {
        Ok(response) => match response.as_str() {
            Ok(text) => Ok(text.to_owned()),
            Err(e) => Err(e),
        },
        Err(e) => Err(e),
    }
}

/// The bytes that the body writes out in hexadecimal.
pub fn hex(outcome: Outcome) -> (r: Result<Vec<u8>, Error>)
    ensures
        match body_hex(outcome) {
            Ok(bytes) => r matches Ok(v) && v@ == bytes,
            Err(e) => r == Err::<Vec<u8>, Error>(e),
        },
{
    match text(outcome) {
        Ok(text) => match bytes_from_hex(text.as_str()) {
            Ok(bytes) => Ok(bytes),
            Err(e) => Err(Error::HexToBytes(e)),
        },
        Err(e) => Err(e),
    }
}

/// What was read from the JSON of the body.
pub fn json<T>(outcome: Result<Result<T, JsonError>, Error>) -> (r: Result<T, Error>)
    ensures
        match outcome {
            Ok(Ok(value)) => r == Ok::<T, Error>(value),
            Ok(Err(e)) => r == Err::<T, Error>(Error::SerdeJson(e)),
            Err(e) => r == Err::<T, Error>(e),
        },
{
    match outcome {
        Ok(parsed) => json_or_error(parsed),
        Err(e) => Err(e),
    }
}

/// A transaction in raw bytes, or `None` where the server does not have it.
pub fn tx(outcome: Outcome) -> (r: Result<Option<Transaction>, Error>)
    ensures
        r == if_found(
            match body_bytes(outcome) {
                Ok(bytes) => decoding(decoded_transaction(bytes)),
                Err(e) => Err(e),
            },
        ),
        match outcome {
            Ok(response) => match decoded_transaction(response.body@) {
                Ok(value) => r == Ok::<Option<Transaction>, Error>(Some(value)),
                Err(e) => r == Err::<Option<Transaction>, Error>(Error::BitcoinEncoding(e)),
            },
            Err(Error::HttpResponse { status: 404, .. }) => r == Ok::<Option<Transaction>, Error>(None),
            Err(e) => r == Err::<Option<Transaction>, Error>(e),
        },
{
    none_if_not_found(
        match outcome {
            Ok(response) => decoded_or_error(deserialize_transaction(response.body.as_slice())),
            Err(e) => Err(e),
        },
    )
}

/// The transaction `txid` in raw bytes, which the server should have.
pub fn tx_no_opt(txid: &Txid, outcome: Outcome) -> (r: Result<Transaction, Error>)
    ensures
        r == match body_bytes(outcome) {
            Ok(bytes) => decoding(decoded_transaction(bytes)),
            Err(e) => if e.is_not_found() {
                Err(Error::TransactionNotFound(*txid))
            } else {
                Err(e)
            },
        },
{
    found_or_error(txid, tx(outcome))
}

/// A block in raw bytes, or `None` where the server does not have it.
pub fn block(outcome: Outcome) -> (r: Result<Option<Block>, Error>)
    ensures
        r == if_found(
            match body_bytes(outcome) {
                Ok(bytes) => decoding(decoded_block(bytes)),
                Err(e) => Err(e),
            },
        ),
        match outcome {
            Ok(response) => match decoded_block(response.body@) {
                Ok(value) => r == Ok::<Option<Block>, Error>(Some(value)),
                Err(e) => r == Err::<Option<Block>, Error>(Error::BitcoinEncoding(e)),
            },
            Err(Error::HttpResponse { status: 404, .. }) => r == Ok::<Option<Block>, Error>(None),
            Err(e) => r == Err::<Option<Block>, Error>(e),
        },
{
    none_if_not_found(
        match outcome {
            Ok(response) => decoded_or_error(deserialize_block(response.body.as_slice())),
            Err(e) => Err(e),
        },
    )
}

/// The header of a block in hexadecimal.
pub fn header(outcome: Outcome) -> (r: Result<BlockHeader, Error>)
    ensures
        r == match body_hex(outcome) {
            Ok(bytes) => decoding(decoded_header(bytes)),
            Err(e) => Err(e),
        },
{
    match hex(outcome) {
        Ok(bytes) => decoded_or_error(deserialize_header(bytes.as_slice())),
        Err(e) => Err(e),
    }
}

/// A merkle block in hexadecimal, or `None` where the server does not have it.
pub fn merkle_block(outcome: Outcome) -> (r: Result<Option<MerkleBlock>, Error>)
    ensures
        r == if_found(
            match body_hex(outcome) {
                Ok(bytes) => decoding(decoded_merkle_block(bytes)),
                Err(e) => Err(e),
            },
        ),
{
    none_if_not_found(
        match hex(outcome) {
            Ok(bytes) => decoded_or_error(deserialize_merkle_block(bytes.as_slice())),
            Err(e) => Err(e),
        },
    )
}

/// The id of a transaction.
pub fn txid(outcome: Outcome) -> (r: Result<Txid, Error>)
    ensures
        names_txid(body_text(outcome), r),
{
    match text(outcome) {
        Ok(text) => match txid_from_str(text.as_str()) {
            Ok(txid) => Ok(txid),
            Err(e) => Err(Error::HexToArray(e)),
        },
        Err(e) => Err(e),
    }
}

/// The id of a transaction, or `None` where the server does not have it.
pub fn opt_txid(outcome: Outcome) -> (r: Result<Option<Txid>, Error>)
    ensures
        match body_text(outcome) {
            Ok(text) => if is_hash_text(text) {
                r matches Ok(Some(txid)) && is_txid_of(txid, hash_bytes(text))
            } else {
                r == Err::<Option<Txid>, Error>(Error::HexToArray(txid_error(text)))
            },
            Err(e) => if e.is_not_found() {
                r == Ok::<Option<Txid>, Error>(None)
            } else {
                r == Err::<Option<Txid>, Error>(e)
            },
        },
{
    none_if_not_found(txid(outcome))
}

/// The hash of a block.
pub fn block_hash(outcome: Outcome) -> (r: Result<BlockHash, Error>)
    ensures
        names_block(body_text(outcome), r),
{
    match text(outcome) {
        Ok(text) => match block_hash_from_str(text.as_str()) {
            Ok(hash) => Ok(hash),
            Err(e) => Err(Error::HexToArray(e)),
        },
        Err(e) => Err(e),
    }
}

/// The height of a block.
pub fn height(outcome: Outcome) -> (r: Result<u32, Error>)
    ensures
        match body_text(outcome) {
            Ok(text) => if is_u32_text(text) {
                r matches Ok(height) && height == u32_value(text)
            } else {
                r == Err::<u32, Error>(Error::Parsing(u32_error(text)))
            },
            Err(e) => r == Err::<u32, Error>(e),
        },
{
    match text(outcome) {
        Ok(text) => match parse_u32(text.as_str()) {
            Ok(height) => Ok(height),
            Err(e) => Err(Error::Parsing(e)),
        },
        Err(e) => Err(e),
    }
}

/// The ids of transactions, in JSON.
pub fn txids(outcome: Outcome) -> (r: Result<Vec<Txid>, Error>)
    ensures
        match body_bytes(outcome) {
            Ok(bytes) => match json_txids(bytes) {
                Ok(txids) => r matches Ok(v) && v@ == txids,
                Err(e) => r == Err::<Vec<Txid>, Error>(Error::SerdeJson(e)),
            },
            Err(e) => r == Err::<Vec<Txid>, Error>(e),
        },
{
    match outcome {
        Ok(response) => json_or_error(txids_from_json(response.body.as_slice())),
        Err(e) => Err(e),
    }
}

/// A response with status 404 is not worth another attempt, whatever is left of
/// them, and where "not found" is an answer it comes to `None`.
pub proof fn law_not_found_is_none(
    response: HttpResponse,
    outcome: Outcome,
    max_retries: nat,
    attempts: nat,
)
    requires
        response.status == 404,
        is_judged(response, outcome),
    ensures
        !retries(max_retries, attempts, response.status),
        if_found(body_bytes(outcome)) == Ok::<Option<Seq<u8>>, Error>(None),
        if_found(body_text(outcome)) == Ok::<Option<Seq<char>>, Error>(None),
        if_found(body_hex(outcome)) == Ok::<Option<Seq<u8>>, Error>(None),
{
    law_success_and_not_found_are_final(404);
}

/// Reading the text under which a transaction is known gives back that very
/// transaction id, for every id of 32 bytes.
pub proof fn law_txid_reads_back(txid: Txid, r: Result<Txid, Error>)
    requires
        txid_bytes(txid).len() == 32,
        names_txid(Ok(txid_text(txid)), r),
    ensures
        r == Ok::<Txid, Error>(txid),
{
    law_hash_reads_back(txid_bytes(txid));
}

/// Reading the text under which a block is known gives back that very block
/// hash, for every hash of 32 bytes.
pub proof fn law_block_hash_reads_back(hash: BlockHash, r: Result<BlockHash, Error>)
    requires
        block_hash_bytes(hash).len() == 32,
        names_block(Ok(block_hash_text(hash)), r),
    ensures
        r == Ok::<BlockHash, Error>(hash),
{
    law_hash_reads_back(block_hash_bytes(hash));
}

/// Nothing but "not found" comes to `None`: neither a value nor another error
/// gets lost.
pub proof fn law_only_not_found_is_none<T>(result: Result<T, Error>)
    ensures
        if_found(result) == Ok::<Option<T>, Error>(None) <==> (result matches Err(e)
            && e.is_not_found()),
        result matches Ok(value) ==> if_found(result) == Ok::<Option<T>, Error>(Some(value)),
        result matches Err(e) ==> !e.is_not_found() ==> if_found(result) == Err::<
            Option<T>,
            Error,
        >(e),
{
}

/// An error is what every reading of it comes to, and the bytes of a response
/// are its body, all of it.
pub proof fn law_errors_stay(response: HttpResponse, error: Error)
    ensures
        body_bytes(Ok(response)) == Ok::<Seq<u8>, Error>(response.body@),
        body_bytes(Err(error)) == Err::<Seq<u8>, Error>(error),
        body_text(Err(error)) == Err::<Seq<char>, Error>(error),
        body_hex(Err(error)) == Err::<Seq<u8>, Error>(error),
{
}

/// The text of a response is the one whose encoding is the whole body. A body
/// that encodes no text is an error.
pub proof fn law_text_encodes_to_the_body(response: HttpResponse, text: Seq<char>)
    ensures
        response.body@ == encode_utf8(text) ==> body_text(Ok(response)) == Ok::<Seq<char>, Error>(
            text,
        ),
        valid_utf8(response.body@) ==> (body_text(Ok(response)) matches Ok(read) && encode_utf8(
            read,
        ) == response.body@),
        !valid_utf8(response.body@) ==> body_text(Ok(response)) == Err::<Seq<char>, Error>(
            Error::Utf8(utf8_error(response.body@)),
        ),
{
    encode_utf8_valid_utf8(text);
    encode_utf8_decode_utf8(text);
    if valid_utf8(response.body@) {
        decode_utf8_encode_utf8(response.body@);
    }
}

/// A response that writes bytes out in hexadecimal gives back these bytes. A text
/// is refused exactly if it has an odd number of characters or one that is no
/// hexadecimal digit.
pub proof fn law_hex_body_reads_back(response: HttpResponse, bytes: Seq<u8>, text: Seq<char>)
    ensures
        response.body@ == encode_utf8(hex_text(bytes)) ==> body_hex(Ok(response)) == Ok::<
            Seq<u8>,
            Error,
        >(bytes),
        response.body@ == encode_utf8(text) && text.len() % 2 == 0 && all_hex_digits(text)
            ==> body_hex(Ok(response)) == Ok::<Seq<u8>, Error>(hex_bytes(text)),
        response.body@ == encode_utf8(text) && !(text.len() % 2 == 0 && all_hex_digits(text))
            ==> body_hex(Ok(response)) == Err::<Seq<u8>, Error>(
            Error::HexToBytes(hex_error(text)),
        ),
        !valid_utf8(response.body@) ==> body_hex(Ok(response)) == Err::<Seq<u8>, Error>(
            Error::Utf8(utf8_error(response.body@)),
        ),
{
    law_hex_reads_back(bytes);
    law_text_encodes_to_the_body(response, hex_text(bytes));
    law_text_encodes_to_the_body(response, text);
}

/// What was decoded is handed on, and an error of the decoding says so.
pub proof fn law_decoding_hands_on<T>(value: T, error: EncodeError)
    ensures
        decoding(Ok::<T, EncodeError>(value)) == Ok::<T, Error>(value),
        decoding(Err::<T, EncodeError>(error)) == Err::<T, Error>(Error::BitcoinEncoding(error)),
{
}

/// A text names a transaction exactly if it has 64 characters, all of them
/// hexadecimal digits, and then it names the one with these bytes.
pub proof fn law_txid_is_the_one_named(
    text: Seq<char>,
    r: Result<Txid, Error>,
    error: Error,
    stays: Result<Txid, Error>,
)
    requires
        names_txid(Ok(text), r),
        names_txid(Err(error), stays),
    ensures
        r is Ok <==> text.len() == 64 && all_hex_digits(text),
        r matches Ok(txid) ==> txid_bytes(txid) == hex_bytes(text).reverse(),
        r matches Err(e) ==> e == Error::HexToArray(txid_error(text)),
        stays == Err::<Txid, Error>(error),
{
}

/// A text names a block exactly if it has 64 characters, all of them hexadecimal
/// digits, and then it names the one with these bytes.
pub proof fn law_block_is_the_one_named(
    text: Seq<char>,
    r: Result<BlockHash, Error>,
    error: Error,
    stays: Result<BlockHash, Error>,
)
    requires
        names_block(Ok(text), r),
        names_block(Err(error), stays),
    ensures
        r is Ok <==> text.len() == 64 && all_hex_digits(text),
        r matches Ok(hash) ==> block_hash_bytes(hash) == hex_bytes(text).reverse(),
        r matches Err(e) ==> e == Error::HexToArray(block_hash_error(text)),
        stays == Err::<BlockHash, Error>(error),
{
}

} // verus!
