//! Laws on what the outcome of a request comes to.
use bitcoin::block::Header as BlockHeader;
use bitcoin::consensus::encode::Error as EncodeError;
use bitcoin::{Block, BlockHash, MerkleBlock, Transaction, Txid};
use serde_json::Error as JsonError;
use vstd::arithmetic::power2::pow2;
use vstd::prelude::*;
use vstd::utf8::{encode_utf8, valid_utf8};

use crate::decimal::{decimal, is_u32_text, law_u32_reads_back, u32_value};
use crate::error::{found_or_error, json_or_error, none_if_not_found, some_blocks, Error};
use crate::ext::chain::{
    block_hash_bytes, block_hash_error, decoded_block, decoded_header, decoded_merkle_block,
    decoded_transaction, hex_error, txid_bytes, txid_error,
};
use crate::ext::json::json_txids;
use crate::ext::text::{lossy_text, u32_error, utf8_error};
use crate::ext::time::duration_nanos;
use crate::hex::{all_hex_digits, hash_text, hex_bytes, hex_text, law_hash_reads_back};
use crate::reply::{
    block, block_hash, decoded_or_error, header, height, hex, json, law_hex_body_reads_back,
    law_text_encodes_to_the_body, merkle_block, opt_txid, text, tx, tx_no_opt, txid, txids,
};
use crate::response::HttpResponse;
use crate::retry::{
    law_retries_go_by_the_status, law_step_goes_by_the_status, single_attempt, RetryState, Step,
};

verus! {

/// A response goes by its status: 429, 500 and 503 may be retried and no other,
/// 200 to 299 are handed on, and any other is the error that has this very status
/// and the text of the body.
pub proof fn law_response_goes_by_its_status(
    response: HttpResponse,
    retryable: bool,
    outcome: Result<HttpResponse, Error>,
    single: Result<HttpResponse, Error>,
)
    requires
        call_ensures(HttpResponse::is_retryable, (&response,), retryable),
        call_ensures(HttpResponse::error_for_status, (response,), outcome),
        call_ensures(single_attempt, (Ok::<HttpResponse, Error>(response),), single),
    ensures
        retryable <==> (response.status == 429 || response.status == 500 || response.status == 503),
        200 <= response.status < 300 ==> outcome == Ok::<HttpResponse, Error>(response) && single
            == outcome,
        !(200 <= response.status < 300) ==> (outcome matches Err(
            Error::HttpResponse { status, message },
        ) && status == response.status && message@ == lossy_text(response.body@)),
        !(200 <= response.status < 300) ==> (single matches Err(
            Error::HttpResponse { status, message },
        ) && status == response.status && message@ == lossy_text(response.body@)),
{
}

/// A request that is not retried and could not be sent keeps its error.
pub proof fn law_single_attempt_keeps_errors(error: Error, single: Result<HttpResponse, Error>)
    requires
        call_ensures(single_attempt, (Err::<HttpResponse, Error>(error),), single),
    ensures
        single == Err::<HttpResponse, Error>(error),
{
}

/// A new request has made no retries and has all of them left. It can take every
/// result but one that would make the wait be doubled beyond what a duration can
/// hold.
pub proof fn law_request_starts_afresh(
    max_retries: usize,
    state: RetryState,
    attempts: usize,
    result: Result<HttpResponse, Error>,
    can: bool,
)
    requires
        call_ensures(RetryState::new, (max_retries,), state),
        call_ensures(RetryState::attempts, (&state,), attempts),
        call_ensures(RetryState::can_step, (&state, &result), can),
    ensures
        state.spec_max_retries() == max_retries,
        attempts == 0,
        can,
{
}

/// A request can take every result but a response with status 429, 500 or 503
/// after 65 doublings of the wait, with a retry left.
pub proof fn law_results_can_be_taken(
    state: RetryState,
    result: Result<HttpResponse, Error>,
    can: bool,
)
    requires
        call_ensures(RetryState::can_step, (&state, &result), can),
    ensures
        !can <==> (result matches Ok(response) && 65 <= state.spec_attempts()
            && state.spec_attempts() < state.spec_max_retries() && (response.status == 429
            || response.status == 500 || response.status == 503)),
{
    law_retries_go_by_the_status(&state, result, 0, 0, 0);
}

/// What a request does with a result, from the status alone. It waits exactly if
/// the server answered with 429, 500 or 503 and a retry is left, for 256
/// milliseconds doubled once for every retry before, and then counts one retry
/// more. Otherwise it is done: with an error as it is, with a response that has a
/// status from 200 to 299, or with the error that has the status of the response.
/// How many retries there may be never changes.
pub proof fn law_request_takes_a_step(
    state: &mut RetryState,
    result: Result<HttpResponse, Error>,
    step: Step,
)
    requires
        call_ensures(RetryState::step, (state, result), step),
    ensures
        final(state).spec_max_retries() == old(state).spec_max_retries(),
        step is Wait <==> (result matches Ok(response) && old(state).spec_attempts() < old(
            state,
        ).spec_max_retries() && (response.status == 429 || response.status == 500
            || response.status == 503)),
        step matches Step::Wait(delay) ==> duration_nanos(delay) == 256_000_000 * pow2(
            old(state).spec_attempts(),
        ) && final(state).spec_attempts() == old(state).spec_attempts() + 1,
        step is Done ==> final(state).spec_attempts() == old(state).spec_attempts(),
        step matches Step::Done(outcome) ==> result matches Err(e) ==> outcome == Err::<
            HttpResponse,
            Error,
        >(e),
        step matches Step::Done(outcome) ==> result matches Ok(response) ==> 200 <= response.status
            < 300 ==> outcome == Ok::<HttpResponse, Error>(response),
        step matches Step::Done(outcome) ==> result matches Ok(response) ==> !(200
            <= response.status < 300) ==> (outcome matches Err(
            Error::HttpResponse { status, message },
        ) && status == response.status && message@ == lossy_text(response.body@)),
{
    law_step_goes_by_the_status(
        old(state).spec_max_retries(),
        old(state).spec_attempts(),
        result,
        step,
        final(state).spec_attempts(),
    );
}

/// The text of a response is the one whose encoding is the whole body.
pub proof fn law_text_is_the_body(
    response: HttpResponse,
    error: Error,
    as_str: Result<&str, Error>,
    read: Result<String, Error>,
    stays: Result<String, Error>,
)
    requires
        call_ensures(HttpResponse::as_str, (&response,), as_str),
        call_ensures(text, (Ok::<HttpResponse, Error>(response),), read),
        call_ensures(text, (Err::<HttpResponse, Error>(error),), stays),
    ensures
        valid_utf8(response.body@) ==> (as_str matches Ok(s) && encode_utf8(s@) == response.body@),
        valid_utf8(response.body@) ==> (read matches Ok(s) && encode_utf8(s@) == response.body@),
        !valid_utf8(response.body@) ==> as_str == Err::<&str, Error>(
            Error::Utf8(utf8_error(response.body@)),
        ),
        !valid_utf8(response.body@) ==> read == Err::<String, Error>(
            Error::Utf8(utf8_error(response.body@)),
        ),
        stays == Err::<String, Error>(error),
{
    law_text_encodes_to_the_body(response, Seq::empty());
}

/// A response that writes bytes out in hexadecimal comes to these bytes.
pub proof fn law_hex_is_read_back(
    response: HttpResponse,
    bytes: Seq<u8>,
    wrong: Seq<char>,
    error: Error,
    read: Result<Vec<u8>, Error>,
    stays: Result<Vec<u8>, Error>,
)
    requires
        call_ensures(hex, (Ok::<HttpResponse, Error>(response),), read),
        call_ensures(hex, (Err::<HttpResponse, Error>(error),), stays),
    ensures
        response.body@ == encode_utf8(hex_text(bytes)) ==> (read matches Ok(v) && v@ == bytes),
        response.body@ == encode_utf8(wrong) && !(wrong.len() % 2 == 0 && all_hex_digits(wrong))
            ==> read == Err::<Vec<u8>, Error>(Error::HexToBytes(hex_error(wrong))),
        stays == Err::<Vec<u8>, Error>(error),
{
    law_hex_body_reads_back(response, bytes, wrong);
}

/// Only the status 404 comes to `None`. A value, a response with any other
/// status, and any other error are handed on as they are.
pub proof fn law_lookup_is_none_on_404_only<T>(
    value: T,
    status: u16,
    message: String,
    error: Error,
    found: Result<Option<T>, Error>,
    answered: Result<Option<T>, Error>,
    failed: Result<Option<T>, Error>,
)
    requires
        error !is HttpResponse,
        call_ensures(none_if_not_found::<T>, (Ok::<T, Error>(value),), found),
        call_ensures(
            none_if_not_found::<T>,
            (Err::<T, Error>(Error::HttpResponse { status, message }),),
            answered,
        ),
        call_ensures(none_if_not_found::<T>, (Err::<T, Error>(error),), failed),
    ensures
        found == Ok::<Option<T>, Error>(Some(value)),
        status == 404 ==> answered == Ok::<Option<T>, Error>(None),
        status != 404 ==> answered == Err::<Option<T>, Error>(
            Error::HttpResponse { status, message },
        ),
        failed == Err::<Option<T>, Error>(error),
{
}

/// What is missing is an error that names the transaction, and everything else is
/// handed on as it is.
pub proof fn law_missing_transaction_is_named<T>(
    id: &Txid,
    value: T,
    error: Error,
    found: Result<T, Error>,
    missing: Result<T, Error>,
    failed: Result<T, Error>,
)
    requires
        call_ensures(found_or_error::<T>, (id, Ok::<Option<T>, Error>(Some(value))), found),
        call_ensures(found_or_error::<T>, (id, Ok::<Option<T>, Error>(None)), missing),
        call_ensures(found_or_error::<T>, (id, Err::<Option<T>, Error>(error)), failed),
    ensures
        found == Ok::<T, Error>(value),
        missing == Err::<T, Error>(Error::TransactionNotFound(*id)),
        failed == Err::<T, Error>(error),
{
}

/// What was read from JSON is handed on, and so is an error that came before it.
/// An error of the reading is wrapped.
pub proof fn law_json_is_handed_on<T>(
    value: T,
    wrong: JsonError,
    error: Error,
    read: Result<T, Error>,
    refused: Result<T, Error>,
    failed: Result<T, Error>,
    parsed: Result<T, Error>,
    unparsed: Result<T, Error>,
)
    requires
        call_ensures(json::<T>, (Ok::<Result<T, JsonError>, Error>(Ok(value)),), read),
        call_ensures(json::<T>, (Ok::<Result<T, JsonError>, Error>(Err(wrong)),), refused),
        call_ensures(json::<T>, (Err::<Result<T, JsonError>, Error>(error),), failed),
        call_ensures(json_or_error::<T>, (Ok::<T, JsonError>(value),), parsed),
        call_ensures(json_or_error::<T>, (Err::<T, JsonError>(wrong),), unparsed),
    ensures
        read == Ok::<T, Error>(value),
        refused == Err::<T, Error>(Error::SerdeJson(wrong)),
        failed == Err::<T, Error>(error),
        parsed == Ok::<T, Error>(value),
        unparsed == Err::<T, Error>(Error::SerdeJson(wrong)),
{
}

/// A list of blocks is handed on unless it is empty, which is an invalid
/// response, and errors stay.
pub proof fn law_only_empty_blocks_are_refused<T>(
    blocks: Vec<T>,
    error: Error,
    listed: Result<Vec<T>, Error>,
    failed: Result<Vec<T>, Error>,
)
    requires
        call_ensures(some_blocks::<T>, (Ok::<Vec<T>, Error>(blocks),), listed),
        call_ensures(some_blocks::<T>, (Err::<Vec<T>, Error>(error),), failed),
    ensures
        blocks@.len() > 0 ==> listed == Ok::<Vec<T>, Error>(blocks),
        blocks@.len() == 0 ==> listed == Err::<Vec<T>, Error>(Error::InvalidResponse),
        failed == Err::<Vec<T>, Error>(error),
{
}

/// What was decoded is handed on, and an error of the decoding is wrapped.
pub proof fn law_decoded_is_handed_on<T>(
    value: T,
    wrong: EncodeError,
    read: Result<T, Error>,
    refused: Result<T, Error>,
)
    requires
        call_ensures(decoded_or_error::<T>, (Ok::<T, EncodeError>(value),), read),
        call_ensures(decoded_or_error::<T>, (Err::<T, EncodeError>(wrong),), refused),
    ensures
        read == Ok::<T, Error>(value),
        refused == Err::<T, Error>(Error::BitcoinEncoding(wrong)),
{
}

/// A transaction is what the whole body decodes to. The two ways to ask for it
/// agree, except that where the server has none, one gives `None` and the other
/// the error that names it.
pub proof fn law_transaction_is_decoded_from_the_body(
    id: &Txid,
    response: HttpResponse,
    status: u16,
    message: String,
    optional: Result<Option<Transaction>, Error>,
    required: Result<Transaction, Error>,
    answered: Result<Option<Transaction>, Error>,
    demanded: Result<Transaction, Error>,
)
    requires
        call_ensures(tx, (Ok::<HttpResponse, Error>(response),), optional),
        call_ensures(tx_no_opt, (id, Ok::<HttpResponse, Error>(response)), required),
        call_ensures(
            tx,
            (Err::<HttpResponse, Error>(Error::HttpResponse { status, message }),),
            answered,
        ),
        call_ensures(
            tx_no_opt,
            (id, Err::<HttpResponse, Error>(Error::HttpResponse { status, message })),
            demanded,
        ),
    ensures
        decoded_transaction(response.body@) matches Ok(value) ==> optional == Ok::<
            Option<Transaction>,
            Error,
        >(Some(value)) && required == Ok::<Transaction, Error>(value),
        decoded_transaction(response.body@) matches Err(e) ==> optional == Err::<
            Option<Transaction>,
            Error,
        >(Error::BitcoinEncoding(e)) && required == Err::<Transaction, Error>(
            Error::BitcoinEncoding(e),
        ),
        status == 404 ==> answered == Ok::<Option<Transaction>, Error>(None) && demanded == Err::<
            Transaction,
            Error,
        >(Error::TransactionNotFound(*id)),
        status != 404 ==> answered == Err::<Option<Transaction>, Error>(
            Error::HttpResponse { status, message },
        ) && demanded == Err::<Transaction, Error>(Error::HttpResponse { status, message }),
{
}

/// A block is what the whole body decodes to, and `None` on status 404 alone.
pub proof fn law_block_is_decoded_from_the_body(
    response: HttpResponse,
    status: u16,
    message: String,
    read: Result<Option<Block>, Error>,
    answered: Result<Option<Block>, Error>,
)
    requires
        call_ensures(block, (Ok::<HttpResponse, Error>(response),), read),
        call_ensures(
            block,
            (Err::<HttpResponse, Error>(Error::HttpResponse { status, message }),),
            answered,
        ),
    ensures
        decoded_block(response.body@) matches Ok(value) ==> read == Ok::<Option<Block>, Error>(
            Some(value),
        ),
        decoded_block(response.body@) matches Err(e) ==> read == Err::<Option<Block>, Error>(
            Error::BitcoinEncoding(e),
        ),
        status == 404 ==> answered == Ok::<Option<Block>, Error>(None),
        status != 404 ==> answered == Err::<Option<Block>, Error>(
            Error::HttpResponse { status, message },
        ),
{
}

/// A header and a merkle block are what the bytes decode to that the body writes
/// out in hexadecimal. On status 404 there is no merkle block, while a header is
/// an error, as on any other status.
pub proof fn law_header_and_merkle_block_are_decoded_from_hex(
    response: HttpResponse,
    bytes: Seq<u8>,
    status: u16,
    message: String,
    read: Result<BlockHeader, Error>,
    proved: Result<Option<MerkleBlock>, Error>,
    answered: Result<BlockHeader, Error>,
    unproved: Result<Option<MerkleBlock>, Error>,
)
    requires
        response.body@ == encode_utf8(hex_text(bytes)),
        call_ensures(header, (Ok::<HttpResponse, Error>(response),), read),
        call_ensures(merkle_block, (Ok::<HttpResponse, Error>(response),), proved),
        call_ensures(
            header,
            (Err::<HttpResponse, Error>(Error::HttpResponse { status, message }),),
            answered,
        ),
        call_ensures(
            merkle_block,
            (Err::<HttpResponse, Error>(Error::HttpResponse { status, message }),),
            unproved,
        ),
    ensures
        decoded_header(bytes) matches Ok(value) ==> read == Ok::<BlockHeader, Error>(value),
        decoded_header(bytes) matches Err(e) ==> read == Err::<BlockHeader, Error>(
            Error::BitcoinEncoding(e),
        ),
        decoded_merkle_block(bytes) matches Ok(value) ==> proved == Ok::<
            Option<MerkleBlock>,
            Error,
        >(Some(value)),
        decoded_merkle_block(bytes) matches Err(e) ==> proved == Err::<Option<MerkleBlock>, Error>(
            Error::BitcoinEncoding(e),
        ),
        answered == Err::<BlockHeader, Error>(Error::HttpResponse { status, message }),
        status == 404 ==> unproved == Ok::<Option<MerkleBlock>, Error>(None),
        status != 404 ==> unproved == Err::<Option<MerkleBlock>, Error>(
            Error::HttpResponse { status, message },
        ),
{
    law_hex_body_reads_back(response, bytes, Seq::empty());
}

/// A response that writes out the id of a transaction or the hash of a block
/// comes to that very one.
pub proof fn law_ids_are_read_back(
    id: Txid,
    hash: BlockHash,
    names_tx: HttpResponse,
    names_block: HttpResponse,
    read: Result<Txid, Error>,
    optional: Result<Option<Txid>, Error>,
    block_read: Result<BlockHash, Error>,
)
    requires
        txid_bytes(id).len() == 32,
        block_hash_bytes(hash).len() == 32,
        names_tx.body@ == encode_utf8(hash_text(txid_bytes(id))),
        names_block.body@ == encode_utf8(hash_text(block_hash_bytes(hash))),
        call_ensures(txid, (Ok::<HttpResponse, Error>(names_tx),), read),
        call_ensures(opt_txid, (Ok::<HttpResponse, Error>(names_tx),), optional),
        call_ensures(block_hash, (Ok::<HttpResponse, Error>(names_block),), block_read),
    ensures
        read == Ok::<Txid, Error>(id),
        optional == Ok::<Option<Txid>, Error>(Some(id)),
        block_read == Ok::<BlockHash, Error>(hash),
{
    law_hash_reads_back(txid_bytes(id));
    law_hash_reads_back(block_hash_bytes(hash));
    law_text_encodes_to_the_body(names_tx, hash_text(txid_bytes(id)));
    law_text_encodes_to_the_body(names_block, hash_text(block_hash_bytes(hash)));
}

/// A text is an id exactly if it is 64 hexadecimal digits, and then it stands for
/// these bytes, the last one first. The id at a position of a block is `None` on
/// status 404 alone.
pub proof fn law_ids_are_64_digits(
    written: Seq<char>,
    response: HttpResponse,
    status: u16,
    message: String,
    read: Result<Txid, Error>,
    optional: Result<Option<Txid>, Error>,
    block_read: Result<BlockHash, Error>,
    answered: Result<Txid, Error>,
    missing: Result<Option<Txid>, Error>,
    block_answered: Result<BlockHash, Error>,
)
    requires
        response.body@ == encode_utf8(written),
        call_ensures(txid, (Ok::<HttpResponse, Error>(response),), read),
        call_ensures(opt_txid, (Ok::<HttpResponse, Error>(response),), optional),
        call_ensures(block_hash, (Ok::<HttpResponse, Error>(response),), block_read),
        call_ensures(
            txid,
            (Err::<HttpResponse, Error>(Error::HttpResponse { status, message }),),
            answered,
        ),
        call_ensures(
            opt_txid,
            (Err::<HttpResponse, Error>(Error::HttpResponse { status, message }),),
            missing,
        ),
        call_ensures(
            block_hash,
            (Err::<HttpResponse, Error>(Error::HttpResponse { status, message }),),
            block_answered,
        ),
    ensures
        written.len() == 64 && all_hex_digits(written) ==> (read matches Ok(id) && txid_bytes(id)
            == hex_bytes(written).reverse()),
        written.len() == 64 && all_hex_digits(written) ==> (optional matches Ok(Some(id))
            && txid_bytes(id) == hex_bytes(written).reverse()),
        written.len() == 64 && all_hex_digits(written) ==> (block_read matches Ok(hash)
            && block_hash_bytes(hash) == hex_bytes(written).reverse()),
        !(written.len() == 64 && all_hex_digits(written)) ==> read == Err::<Txid, Error>(
            Error::HexToArray(txid_error(written)),
        ) && optional == Err::<Option<Txid>, Error>(Error::HexToArray(txid_error(written)))
            && block_read == Err::<BlockHash, Error>(
            Error::HexToArray(block_hash_error(written)),
        ),
        answered == Err::<Txid, Error>(Error::HttpResponse { status, message }),
        status == 404 ==> missing == Ok::<Option<Txid>, Error>(None),
        status != 404 ==> missing == Err::<Option<Txid>, Error>(
            Error::HttpResponse { status, message },
        ),
        block_answered == Err::<BlockHash, Error>(Error::HttpResponse { status, message }),
{
    law_text_encodes_to_the_body(response, written);
}

/// A response that writes out a height in decimal comes to that height, and one
/// that writes out no 32-bit number is an error.
pub proof fn law_height_is_read_back(
    n: u32,
    written: String,
    wrong: Seq<char>,
    error: Error,
    response: HttpResponse,
    no_height: HttpResponse,
    read: Result<u32, Error>,
    refused: Result<u32, Error>,
    failed: Result<u32, Error>,
)
    requires
        call_ensures(decimal, (n as u64,), written),
        response.body@ == encode_utf8(written@),
        no_height.body@ == encode_utf8(wrong),
        call_ensures(height, (Ok::<HttpResponse, Error>(response),), read),
        call_ensures(height, (Ok::<HttpResponse, Error>(no_height),), refused),
        call_ensures(height, (Err::<HttpResponse, Error>(error),), failed),
    ensures
        read == Ok::<u32, Error>(n),
        is_u32_text(wrong) ==> (refused matches Ok(value) && value == u32_value(wrong)),
        !is_u32_text(wrong) ==> refused == Err::<u32, Error>(Error::Parsing(u32_error(wrong))),
        failed == Err::<u32, Error>(error),
{
    law_u32_reads_back(n);
    law_text_encodes_to_the_body(response, written@);
    law_text_encodes_to_the_body(no_height, wrong);
}

/// A list of ids is what is read from the whole body, in its order, and errors
/// stay.
pub proof fn law_txids_are_those_listed(
    response: HttpResponse,
    error: Error,
    read: Result<Vec<Txid>, Error>,
    failed: Result<Vec<Txid>, Error>,
)
    requires
        call_ensures(txids, (Ok::<HttpResponse, Error>(response),), read),
        call_ensures(txids, (Err::<HttpResponse, Error>(error),), failed),
    ensures
        json_txids(response.body@) matches Ok(listed) ==> (read matches Ok(v) && v@ == listed),
        json_txids(response.body@) matches Err(e) ==> read == Err::<Vec<Txid>, Error>(
            Error::SerdeJson(e),
        ),
        failed == Err::<Vec<Txid>, Error>(error),
{
}

} // verus!
