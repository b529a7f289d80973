//! Laws on the requests that the endpoints take.
use bitcoin::{BlockHash, Script, Transaction, Txid};
use std::fmt::Display;
use vstd::prelude::*;
use vstd::string::to_string_from_display_ensures;
use vstd::utf8::{decode_utf8, encode_utf8};

use crate::address::Address;
use crate::broadcast::{law_broadcast_reads_back, limits, package_body, transaction_text};
use crate::client::AsyncClient;
use crate::decimal::{decimal, decimal_text, digits_value, law_decimal_is_unique, law_decimal_reads_back};
use crate::endpoints::{blocks_path, law_script_hash_text_is_the_digest, txs_path};
use crate::error::Error;
use crate::ext::chain::{
    block_hash_bytes, btc_text, script_bytes, sha256_digest, transaction_bytes, txid_bytes,
};
use crate::ext::json::json_list;
use crate::hex::{hash_bytes, hash_text, hex_bytes, hex_text, law_reversed_hex_reads_back};
use crate::log::{answered_line, failed_line};
use crate::request::{get, post, surround, Method, Request};
use crate::segment::{first_path_segment, first_segment, law_first_segment_ends_at_a_slash};
use crate::sleeper::Sleeper;

verus! {

/// Whether a request asks for `path` of the server at `url`, and for nothing
/// else.
pub open spec fn asks_for(request: Request, url: Seq<char>, path: Seq<char>) -> bool {
    &&& request.method == Method::Get
    &&& request.path@ == path
    &&& request.url@ == url + path
    &&& request.body@.len() == 0
    &&& request.query@.len() == 0
}

/// Everything about a transaction is asked for under its id, at the URL that the
/// client has.
pub proof fn law_tx_requests<S: Sleeper>(
    client: &AsyncClient<S>,
    url: &str,
    txid: &Txid,
    index: u64,
    raw: Request,
    no_opt: Request,
    status: Request,
    info: Request,
    outspends: Request,
    merkle_proof: Request,
    merkle_block: Request,
    output: Request,
)
    requires
        call_ensures(AsyncClient::<S>::url, (client,), url),
        call_ensures(AsyncClient::<S>::get_tx, (client, txid), raw),
        call_ensures(AsyncClient::<S>::get_tx_no_opt, (client, txid), no_opt),
        call_ensures(AsyncClient::<S>::get_tx_status, (client, txid), status),
        call_ensures(AsyncClient::<S>::get_tx_info, (client, txid), info),
        call_ensures(AsyncClient::<S>::get_tx_outspends, (client, txid), outspends),
        call_ensures(AsyncClient::<S>::get_merkle_proof, (client, txid), merkle_proof),
        call_ensures(AsyncClient::<S>::get_merkle_block, (client, txid), merkle_block),
        call_ensures(AsyncClient::<S>::get_output_status, (client, txid, index), output),
    ensures
        asks_for(raw, url@, "/tx/"@ + hash_text(txid_bytes(*txid)) + "/raw"@),
        asks_for(no_opt, url@, "/tx/"@ + hash_text(txid_bytes(*txid)) + "/raw"@),
        asks_for(status, url@, "/tx/"@ + hash_text(txid_bytes(*txid)) + "/status"@),
        asks_for(info, url@, "/tx/"@ + hash_text(txid_bytes(*txid))),
        asks_for(outspends, url@, "/tx/"@ + hash_text(txid_bytes(*txid)) + "/outspends"@),
        asks_for(merkle_proof, url@, "/tx/"@ + hash_text(txid_bytes(*txid)) + "/merkle-proof"@),
        asks_for(merkle_block, url@, "/tx/"@ + hash_text(txid_bytes(*txid)) + "/merkleblock-proof"@),
        asks_for(output, url@, "/tx/"@ + hash_text(txid_bytes(*txid)) + "/outspend/"@ + decimal_text(index as nat)),
{
}

/// Everything about a block is asked for under its hash, at the URL that the
/// client has.
pub proof fn law_block_requests<S: Sleeper>(
    client: &AsyncClient<S>,
    url: &str,
    hash: &BlockHash,
    index: usize,
    start: u32,
    at_index: Request,
    header: Request,
    status: Request,
    raw: Request,
    info: Request,
    txids: Request,
    txs: Request,
    txs_from: Request,
)
    requires
        call_ensures(AsyncClient::<S>::url, (client,), url),
        call_ensures(AsyncClient::<S>::get_txid_at_block_index, (client, hash, index), at_index),
        call_ensures(AsyncClient::<S>::get_header_by_hash, (client, hash), header),
        call_ensures(AsyncClient::<S>::get_block_status, (client, hash), status),
        call_ensures(AsyncClient::<S>::get_block_by_hash, (client, hash), raw),
        call_ensures(AsyncClient::<S>::get_block_info, (client, hash), info),
        call_ensures(AsyncClient::<S>::get_block_txids, (client, hash), txids),
        call_ensures(AsyncClient::<S>::get_block_txs, (client, hash, None), txs),
        call_ensures(AsyncClient::<S>::get_block_txs, (client, hash, Some(start)), txs_from),
    ensures
        asks_for(at_index, url@, "/block/"@ + hash_text(block_hash_bytes(*hash)) + "/txid/"@ + decimal_text(index as nat)),
        asks_for(header, url@, "/block/"@ + hash_text(block_hash_bytes(*hash)) + "/header"@),
        asks_for(status, url@, "/block/"@ + hash_text(block_hash_bytes(*hash)) + "/status"@),
        asks_for(raw, url@, "/block/"@ + hash_text(block_hash_bytes(*hash)) + "/raw"@),
        asks_for(info, url@, "/block/"@ + hash_text(block_hash_bytes(*hash))),
        asks_for(txids, url@, "/block/"@ + hash_text(block_hash_bytes(*hash)) + "/txids"@),
        asks_for(txs, url@, "/block/"@ + hash_text(block_hash_bytes(*hash)) + "/txs"@),
        asks_for(txs_from, url@, "/block/"@ + hash_text(block_hash_bytes(*hash)) + "/txs/"@ + decimal_text(start as nat)),
{
}

/// What is asked about the chain and the mempool goes by heights in decimal, or
/// by nothing.
pub proof fn law_chain_requests<S: Sleeper>(
    client: &AsyncClient<S>,
    url: &str,
    height: u32,
    tip_height: Request,
    tip_hash: Request,
    hash: Request,
    blocks: Request,
    blocks_from: Request,
    infos: Request,
    infos_from: Request,
    mempool: Request,
    recent: Request,
    txids: Request,
    fees: Request,
)
    requires
        call_ensures(AsyncClient::<S>::url, (client,), url),
        call_ensures(AsyncClient::<S>::get_height, (client,), tip_height),
        call_ensures(AsyncClient::<S>::get_tip_hash, (client,), tip_hash),
        call_ensures(AsyncClient::<S>::get_block_hash, (client, height), hash),
        call_ensures(AsyncClient::<S>::get_blocks, (client, None), blocks),
        call_ensures(AsyncClient::<S>::get_blocks, (client, Some(height)), blocks_from),
        call_ensures(AsyncClient::<S>::get_block_infos, (client, None), infos),
        call_ensures(AsyncClient::<S>::get_block_infos, (client, Some(height)), infos_from),
        call_ensures(AsyncClient::<S>::get_mempool_stats, (client,), mempool),
        call_ensures(AsyncClient::<S>::get_mempool_recent_txs, (client,), recent),
        call_ensures(AsyncClient::<S>::get_mempool_txids, (client,), txids),
        call_ensures(AsyncClient::<S>::get_fee_estimates, (client,), fees),
    ensures
        asks_for(tip_height, url@, "/blocks/tip/height"@),
        asks_for(tip_hash, url@, "/blocks/tip/hash"@),
        asks_for(hash, url@, "/block-height/"@ + decimal_text(height as nat)),
        asks_for(blocks, url@, "/blocks"@),
        asks_for(blocks_from, url@, "/blocks/"@ + decimal_text(height as nat)),
        asks_for(infos, url@, "/blocks"@),
        asks_for(infos_from, url@, "/blocks/"@ + decimal_text(height as nat)),
        asks_for(mempool, url@, "/mempool"@),
        asks_for(recent, url@, "/mempool/recent"@),
        asks_for(txids, url@, "/mempool/txids"@),
        asks_for(fees, url@, "/fee-estimates"@),
{
}

/// Everything about an address is asked for under its text, and a page of its
/// transactions by the id of the last one that was seen.
pub proof fn law_address_requests<S: Sleeper>(
    client: &AsyncClient<S>,
    url: &str,
    address: &Address,
    last_seen: Txid,
    stats: Request,
    txs: Request,
    page: Request,
    mempool: Request,
    utxos: Request,
)
    requires
        call_ensures(AsyncClient::<S>::url, (client,), url),
        call_ensures(AsyncClient::<S>::get_address_stats, (client, address), stats),
        call_ensures(AsyncClient::<S>::get_address_txs, (client, address, None), txs),
        call_ensures(AsyncClient::<S>::get_address_txs, (client, address, Some(last_seen)), page),
        call_ensures(AsyncClient::<S>::get_mempool_address_txs, (client, address), mempool),
        call_ensures(AsyncClient::<S>::get_address_utxos, (client, address), utxos),
    ensures
        asks_for(stats, url@, "/address/"@ + address.text@),
        asks_for(txs, url@, "/address/"@ + address.text@ + "/txs"@),
        asks_for(page, url@, "/address/"@ + address.text@ + "/txs/chain/"@ + hash_text(txid_bytes(last_seen))),
        asks_for(mempool, url@, "/address/"@ + address.text@ + "/txs/mempool"@),
        asks_for(utxos, url@, "/address/"@ + address.text@ + "/utxo"@),
{
}

/// Everything about a script is asked for under the SHA-256 digest of all its
/// bytes, and a page of its transactions by the id of the last one that was seen.
pub proof fn law_script_requests<S: Sleeper>(
    client: &AsyncClient<S>,
    url: &str,
    script: &Script,
    last_seen: Txid,
    stats: Request,
    txs: Request,
    page: Request,
    mempool: Request,
    utxos: Request,
)
    requires
        call_ensures(AsyncClient::<S>::url, (client,), url),
        call_ensures(AsyncClient::<S>::get_scripthash_stats, (client, script), stats),
        call_ensures(AsyncClient::<S>::get_scripthash_txs, (client, script, None), txs),
        call_ensures(AsyncClient::<S>::get_scripthash_txs, (client, script, Some(last_seen)), page),
        call_ensures(AsyncClient::<S>::get_mempool_scripthash_txs, (client, script), mempool),
        call_ensures(AsyncClient::<S>::get_scripthash_utxos, (client, script), utxos),
    ensures
        asks_for(stats, url@, "/scripthash/"@ + hex_text(sha256_digest(script_bytes(script)))),
        asks_for(txs, url@, "/scripthash/"@ + hex_text(sha256_digest(script_bytes(script))) + "/txs"@),
        asks_for(page, url@, "/scripthash/"@ + hex_text(sha256_digest(script_bytes(script))) + "/txs/chain/"@ + hash_text(txid_bytes(last_seen))),
        asks_for(mempool, url@, "/scripthash/"@ + hex_text(sha256_digest(script_bytes(script))) + "/txs/mempool"@),
        asks_for(utxos, url@, "/scripthash/"@ + hex_text(sha256_digest(script_bytes(script))) + "/utxo"@),
{
}

/// What is asked for about a script can be read from the path: behind
/// `/scripthash/` stand 64 digits, and they are the digest of all bytes of the
/// script.
pub proof fn law_script_path_holds_the_digest<S: Sleeper>(
    client: &AsyncClient<S>,
    script: &Script,
    stats: Request,
    utxos: Request,
)
    requires
        call_ensures(AsyncClient::<S>::get_scripthash_stats, (client, script), stats),
        call_ensures(AsyncClient::<S>::get_scripthash_utxos, (client, script), utxos),
    ensures
        stats.path@.len() == 12 + 64,
        hex_bytes(stats.path@.subrange(12, 76)) == sha256_digest(script_bytes(script)),
        utxos.path@.len() == 12 + 64 + 5,
        hex_bytes(utxos.path@.subrange(12, 76)) == sha256_digest(script_bytes(script)),
{
    reveal_strlit("/scripthash/");
    reveal_strlit("/utxo");
    let text = hex_text(sha256_digest(script_bytes(script)));
    law_script_hash_text_is_the_digest(script);
    assert(stats.path@.subrange(12, 76) =~= text);
    assert(utxos.path@.subrange(12, 76) =~= text);
}

/// Paging gets on: pages behind different transactions are asked for under
/// different paths, and none of them is the first page.
pub proof fn law_paging_gets_on<S: Sleeper>(
    client: &AsyncClient<S>,
    address: &Address,
    script: &Script,
    a: Txid,
    b: Txid,
    address_first: Request,
    address_a: Request,
    address_b: Request,
    script_first: Request,
    script_a: Request,
    script_b: Request,
)
    requires
        txid_bytes(a) != txid_bytes(b),
        call_ensures(AsyncClient::<S>::get_address_txs, (client, address, None), address_first),
        call_ensures(AsyncClient::<S>::get_address_txs, (client, address, Some(a)), address_a),
        call_ensures(AsyncClient::<S>::get_address_txs, (client, address, Some(b)), address_b),
        call_ensures(AsyncClient::<S>::get_scripthash_txs, (client, script, None), script_first),
        call_ensures(AsyncClient::<S>::get_scripthash_txs, (client, script, Some(a)), script_a),
        call_ensures(AsyncClient::<S>::get_scripthash_txs, (client, script, Some(b)), script_b),
    ensures
        address_a.path@ != address_first.path@,
        address_a.path@ != address_b.path@,
        script_a.path@ != script_first.path@,
        script_a.path@ != script_b.path@,
{
    lemma_page_is_read_back("/address/"@ + address.text@, a);
    lemma_page_is_read_back("/address/"@ + address.text@, b);
    let owner = "/scripthash/"@ + hex_text(sha256_digest(script_bytes(script)));
    lemma_page_is_read_back(owner, a);
    lemma_page_is_read_back(owner, b);
    reveal_strlit("/txs");
    reveal_strlit("/txs/chain/");
    assert(address_a.path@.len() > address_first.path@.len());
    assert(script_a.path@.len() > script_first.path@.len());
}

/// What stands at the end of the path of a page reads back as an id.
proof fn lemma_page_is_read_back(owner: Seq<char>, txid: Txid)
    ensures
        hash_bytes(
            (owner + "/txs/chain/"@ + hash_text(txid_bytes(txid))).skip(
                (owner + "/txs/chain/"@).len() as int,
            ),
        ) == txid_bytes(txid),
{
    let before = owner + "/txs/chain/"@;
    assert((before + hash_text(txid_bytes(txid))).skip(before.len() as int) =~= hash_text(
        txid_bytes(txid),
    ));
    law_reversed_hex_reads_back(txid_bytes(txid));
}

/// An address is taken over as it writes itself out.
pub proof fn law_address_is_written_out<A: Display>(address: &A, taken: Address)
    requires
        call_ensures(Address::new::<A>, (address,), taken),
    ensures
        to_string_from_display_ensures(address, taken.text),
        taken@ == taken.text@,
{
}

/// Paths are put together from all their parts, in their order.
pub proof fn law_paths_are_put_together(
    before: &str,
    middle: &str,
    after: &str,
    surrounded: String,
    owner: &str,
    last_seen: Txid,
    first_page: String,
    page: String,
    height: u32,
    tip: String,
    from_height: String,
)
    requires
        call_ensures(surround, (before, middle, after), surrounded),
        call_ensures(txs_path, (owner, None), first_page),
        call_ensures(txs_path, (owner, Some(last_seen)), page),
        call_ensures(blocks_path, (None,), tip),
        call_ensures(blocks_path, (Some(height),), from_height),
    ensures
        surrounded@ == before@ + middle@ + after@,
        first_page@ == owner@ + "/txs"@,
        page@ == owner@ + "/txs/chain/"@ + hash_text(txid_bytes(last_seen)),
        tip@ == "/blocks"@,
        from_height@ == "/blocks/"@ + decimal_text(height as nat),
{
}

/// A request goes to the URL with the path behind it. One that asks carries
/// nothing, and one that hands over carries the body and the query as they are.
pub proof fn law_requests_go_to_the_path(
    url: &str,
    path: String,
    asking: Request,
    target: &str,
    body: Vec<u8>,
    query: Vec<(String, String)>,
    handing: Request,
)
    requires
        call_ensures(get, (url, path), asking),
        call_ensures(post, (url, target, body, query), handing),
    ensures
        asks_for(asking, url@, path@),
        handing.method == Method::Post,
        handing.path@ == target@,
        handing.url@ == url@ + target@,
        handing.body@ == body@,
        handing.query@ == query@,
{
}

/// Decimal text reads back as the number, and different numbers have different
/// texts.
pub proof fn law_decimal_is_read_back(a: u64, b: u64, text: String, other: String)
    requires
        call_ensures(decimal, (a,), text),
        call_ensures(decimal, (b,), other),
    ensures
        text@.len() > 0,
        digits_value(text@) == a,
        forall|i: int| 0 <= i < text@.len() ==> '0' <= #[trigger] text@[i] <= '9',
        a != b ==> text@ != other@,
{
    law_decimal_reads_back(a as nat);
    if text@ == other@ {
        law_decimal_is_unique(a as nat, b as nat);
    }
}

/// A transaction is handed over to `/tx` with a body from which its whole
/// encoding can be read back, and without a query.
pub proof fn law_broadcast_hands_over_the_transaction<S: Sleeper>(
    client: &AsyncClient<S>,
    url: &str,
    transaction: &Transaction,
    request: Request,
)
    requires
        call_ensures(AsyncClient::<S>::url, (client,), url),
        call_ensures(AsyncClient::<S>::broadcast, (client, transaction), request),
    ensures
        request.method == Method::Post,
        request.path@ == "/tx"@,
        request.url@ == url@ + "/tx"@,
        request.body@ == encode_utf8(hex_text(transaction_bytes(*transaction))),
        hex_bytes(decode_utf8(request.body@)) == transaction_bytes(*transaction),
        request.query@.len() == 0,
{
    law_broadcast_reads_back(*transaction);
}

/// Whether a query holds a value under a name.
pub open spec fn query_holds(query: Seq<(String, String)>, name: Seq<char>, value: Seq<char>) -> bool {
    exists|i: int| 0 <= i < query.len() && (#[trigger] query[i]).0@ == name && query[i].1@ == value
}

/// Each limit of a package goes into the query exactly if it is given, whatever
/// the other limit is, and nothing else does.
pub proof fn law_limits_are_handed_over(
    maxfeerate: Option<u64>,
    maxburnamount: Option<String>,
    query: Vec<(String, String)>,
    value: Seq<char>,
)
    requires
        call_ensures(limits, (maxfeerate, maxburnamount), query),
    ensures
        query_holds(query@, "maxfeerate"@, value) <==> (maxfeerate matches Some(rate) && value
            == decimal_text(rate as nat)),
        query_holds(query@, "maxburnamount"@, value) <==> (maxburnamount matches Some(amount)
            && value == amount@),
        maxfeerate is None && maxburnamount is None ==> query@.len() == 0,
        maxfeerate is Some && maxburnamount is Some ==> query@.len() == 2,
        maxfeerate is Some != maxburnamount is Some ==> query@.len() == 1,
{
    reveal_strlit("maxfeerate");
    reveal_strlit("maxburnamount");
    assert("maxfeerate"@.len() != "maxburnamount"@.len());
    if let Some(rate) = maxfeerate {
        assert(query@[0].0@ == "maxfeerate"@);
    }
    if let Some(amount) = maxburnamount {
        assert(query@[query@.len() - 1].0@ == "maxburnamount"@);
    }
}

/// A package is handed over to `/txs/package` as the JSON list of all its
/// transactions. The highest fee rate goes into the query exactly if it is given,
/// rounded up to whole satoshis per virtual byte, and the most that may be burnt
/// exactly if it is given.
pub proof fn law_package_is_handed_over<S: Sleeper>(
    client: &AsyncClient<S>,
    url: &str,
    transactions: &[Transaction],
    maxfeerate: Option<u64>,
    maxburnamount: Option<u64>,
    r: Result<Request, Error>,
    value: Seq<char>,
)
    requires
        call_ensures(AsyncClient::<S>::url, (client,), url),
        call_ensures(
            AsyncClient::<S>::submit_package,
            (client, transactions, maxfeerate, maxburnamount),
            r,
        ),
    ensures
        r is Ok,
        r matches Ok(request) ==> request.method == Method::Post && request.path@
            == "/txs/package"@ && request.url@ == url@ + "/txs/package"@,
        r matches Ok(request) ==> request.body@ == encode_utf8(
            json_list(
                transactions@.map_values(|t: Transaction| hex_text(transaction_bytes(t))),
            ),
        ),
        r matches Ok(request) ==> (query_holds(request.query@, "maxfeerate"@, value) <==> (
        maxfeerate matches Some(rate) && value == decimal_text(((rate + 249) / 250) as nat))),
        r matches Ok(request) ==> (query_holds(request.query@, "maxburnamount"@, value) <==> (
        maxburnamount matches Some(amount) && value == btc_text(amount))),
        r matches Ok(request) ==> request.query@.len() <= 2,
{
    reveal_strlit("maxfeerate");
    reveal_strlit("maxburnamount");
    assert("maxfeerate"@.len() != "maxburnamount"@.len());
    assert(transactions@.map_values(|t: Transaction| hex_text(transaction_bytes(t)))
        =~= transactions@.map_values(
        |t: Transaction| transaction_text(t),
    ));
    if let Ok(request) = r {
        if maxfeerate is Some {
            assert(request.query@[0].0@ == "maxfeerate"@);
        }
        if maxburnamount is Some {
            assert(request.query@[request.query@.len() - 1].0@ == "maxburnamount"@);
        }
    }
}

/// Texts that JSON writes as they are become the list of all of them.
pub proof fn law_package_body_lists_every_text(texts: &Vec<String>, r: Result<Vec<u8>, Error>)
    requires
        call_ensures(package_body, (texts,), r),
    ensures
        r matches Ok(body) && body@ == encode_utf8(json_list(texts@.map_values(|t: String| t@))),
{
}

/// The first segment of a path begins as the path does, has no slash behind its
/// leading character, and ends at a slash or with the path. A path whose leading
/// character is not ASCII is kept whole.
pub proof fn law_first_path_segment_ends_at_a_slash(path: &str, segment: &str)
    requires
        call_ensures(first_path_segment, (path,), segment),
    ensures
        segment@.is_prefix_of(path@),
        path@.len() > 0 && path@[0] > '\u{7f}' ==> segment@ == path@,
        path@.len() > 0 && path@[0] <= '\u{7f}' ==> segment@.len() > 0 && forall|i: int|
            1 <= i < segment@.len() ==> #[trigger] path@[i] != '/',
        segment@.len() < path@.len() ==> path@[segment@.len() as int] == '/',
{
    law_first_segment_ends_at_a_slash(path@);
}

/// A request is logged with its method, its server, the first segment of its path
/// and nothing else of it, and with what came of it.
pub proof fn law_lines_show_what_came(
    url: &str,
    path: &str,
    status: u16,
    version: &str,
    ms: &str,
    kib: &str,
    error: &str,
    got: String,
    posted: String,
    not_got: String,
    not_posted: String,
)
    requires
        call_ensures(answered_line, (Method::Get, url, path, status, version, ms, kib), got),
        call_ensures(answered_line, (Method::Post, url, path, status, version, ms, kib), posted),
        call_ensures(failed_line, (Method::Get, url, path, ms, error), not_got),
        call_ensures(failed_line, (Method::Post, url, path, ms, error), not_posted),
    ensures
        got@ == "GET"@ + " "@ + url@ + first_segment(path@) + " => "@ + decimal_text(status as nat)
            + ", "@ + version@ + ", "@ + ms@ + "ms, "@ + kib@ + "KiB"@,
        posted@ == "POST"@ + " "@ + url@ + first_segment(path@) + " => "@ + decimal_text(
            status as nat,
        ) + ", "@ + version@ + ", "@ + ms@ + "ms, "@ + kib@ + "KiB"@,
        not_got@ == "GET"@ + " "@ + url@ + first_segment(path@) + " => error, "@ + ms@ + "ms: "@
            + error@,
        not_posted@ == "POST"@ + " "@ + url@ + first_segment(path@) + " => error, "@ + ms@
            + "ms: "@ + error@,
{
}

} // verus!
