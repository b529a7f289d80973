use bitcoin::block::Header;
use bitcoin::constants::genesis_block;
use bitcoin::{BlockHash, Network, Script, Transaction, Txid};
use esplora_client::broadcast::{limits, package_body, MAX_FEE_RATE};
use esplora_client::endpoints::{blocks_path, txs_path};
use esplora_client::reply;
use esplora_client::request::{get, post, surround, Method, Request};
use esplora_client::response::HttpResponse;
use esplora_client::{Address, AsyncClient, Sleeper};
use std::str::FromStr;
use std::time::Duration;

const BASE: &str = "https://example.org/api";
const TXID: &str = "4a5e1e4baab89f3a32518a88c31bc87f618f76673e2cc77ab2127b7afdeda33b";
const HASH: &str = "000000000019d6689c085ae165831e934ff763ae46a2a6c172b3f1b60a8ce26f";
const ABC_DIGEST: &str = "ba7816bf8f01cfea414140de5dae2223b00361a396177a9cb410ff61f20015ad";
const ADDRESS: &str = "1A1zP1eP5QGefi2DMPTfTL5SLmv7DivfNa";
const COINBASE: &str = "01000000010000000000000000000000000000000000000000000000000000000000000000ffffffff4d04ffff001d0104455468652054696d65732030332f4a616e2f32303039204368616e63656c6c6f72206f6e206272696e6b206f66207365636f6e64206261696c6f757420666f722062616e6b73ffffffff0100f2052a01000000434104678afdb0fe5548271967f1a67130b7105cd6a828e03909a67962e0ea1f61deb649f6bc3f4cef38c4f35504e51ec112de5c384df7ba0b8d578a4c702b6bf11d5fac00000000";

struct NoWait;

impl Sleeper for NoWait {
    type Sleep = std::future::Ready<()>;

    fn sleep(_dur: Duration) -> Self::Sleep {
        std::future::ready(())
    }
}

fn client() -> AsyncClient<NoWait> {
    AsyncClient::from_client(BASE.to_string(), reqwest::Client::new())
}

fn txid() -> Txid {
    Txid::from_str(TXID).unwrap()
}

fn hash() -> BlockHash {
    BlockHash::from_str(HASH).unwrap()
}

fn script() -> &'static Script {
    Script::from_bytes(b"abc")
}

fn address() -> Address {
    Address::new(&bitcoin::Address::from_str(ADDRESS).unwrap().assume_checked())
}

fn coinbase() -> Transaction {
    genesis_block(Network::Bitcoin).txdata[0].clone()
}

fn assert_get(request: Request, path: &str) {
    assert_eq!(request.method, Method::Get);
    assert_eq!(request.path, path);
    assert_eq!(request.url, format!("{BASE}{path}"));
    assert!(request.body.is_empty());
    assert!(request.query.is_empty());
}

#[test]
fn transaction_requests() {
    let c = client();
    assert_get(c.get_tx(&txid()), &format!("/tx/{TXID}/raw"));
    assert_get(c.get_tx_no_opt(&txid()), &format!("/tx/{TXID}/raw"));
    assert_get(c.get_tx_status(&txid()), &format!("/tx/{TXID}/status"));
    assert_get(c.get_tx_info(&txid()), &format!("/tx/{TXID}"));
    assert_get(c.get_tx_outspends(&txid()), &format!("/tx/{TXID}/outspends"));
    assert_get(c.get_merkle_proof(&txid()), &format!("/tx/{TXID}/merkle-proof"));
    assert_get(c.get_merkle_block(&txid()), &format!("/tx/{TXID}/merkleblock-proof"));
    assert_get(c.get_output_status(&txid(), 0), &format!("/tx/{TXID}/outspend/0"));
    assert_get(
        c.get_output_status(&txid(), u64::MAX),
        &format!("/tx/{TXID}/outspend/18446744073709551615"),
    );
}

#[test]
fn block_requests() {
    let c = client();
    assert_get(c.get_txid_at_block_index(&hash(), 120), &format!("/block/{HASH}/txid/120"));
    assert_get(c.get_header_by_hash(&hash()), &format!("/block/{HASH}/header"));
    assert_get(c.get_block_status(&hash()), &format!("/block/{HASH}/status"));
    assert_get(c.get_block_by_hash(&hash()), &format!("/block/{HASH}/raw"));
    assert_get(c.get_block_info(&hash()), &format!("/block/{HASH}"));
    assert_get(c.get_block_txids(&hash()), &format!("/block/{HASH}/txids"));
    assert_get(c.get_block_txs(&hash(), None), &format!("/block/{HASH}/txs"));
    assert_get(c.get_block_txs(&hash(), Some(25)), &format!("/block/{HASH}/txs/25"));
    assert_get(c.get_height(), "/blocks/tip/height");
    assert_get(c.get_tip_hash(), "/blocks/tip/hash");
    assert_get(c.get_block_hash(0), "/block-height/0");
    assert_get(c.get_block_hash(840_000), "/block-height/840000");
    assert_get(c.get_block_hash(u32::MAX), "/block-height/4294967295");
    assert_get(c.get_blocks(None), "/blocks");
    assert_get(c.get_blocks(Some(7)), "/blocks/7");
    assert_get(c.get_block_infos(None), "/blocks");
    assert_get(c.get_block_infos(Some(10)), "/blocks/10");
}

#[test]
fn address_requests() {
    let c = client();
    let a = address();
    assert_get(c.get_address_stats(&a), &format!("/address/{ADDRESS}"));
    assert_get(c.get_address_txs(&a, None), &format!("/address/{ADDRESS}/txs"));
    assert_get(
        c.get_address_txs(&a, Some(txid())),
        &format!("/address/{ADDRESS}/txs/chain/{TXID}"),
    );
    assert_get(c.get_mempool_address_txs(&a), &format!("/address/{ADDRESS}/txs/mempool"));
    assert_get(c.get_address_utxos(&a), &format!("/address/{ADDRESS}/utxo"));
}

#[test]
fn script_requests_go_by_the_digest_of_the_script() {
    let c = client();
    assert_get(c.get_scripthash_stats(script()), &format!("/scripthash/{ABC_DIGEST}"));
    assert_get(c.get_scripthash_txs(script(), None), &format!("/scripthash/{ABC_DIGEST}/txs"));
    assert_get(
        c.get_scripthash_txs(script(), Some(txid())),
        &format!("/scripthash/{ABC_DIGEST}/txs/chain/{TXID}"),
    );
    assert_get(
        c.get_mempool_scripthash_txs(script()),
        &format!("/scripthash/{ABC_DIGEST}/txs/mempool"),
    );
    assert_get(c.get_scripthash_utxos(script()), &format!("/scripthash/{ABC_DIGEST}/utxo"));
}

#[test]
fn script_digest_is_not_reversed() {
    let empty = "e3b0c44298fc1c149afbf4c8996fb92427ae41e4649b934ca495991b7852b855";
    assert_get(
        client().get_scripthash_stats(Script::from_bytes(b"")),
        &format!("/scripthash/{empty}"),
    );
}

#[test]
fn mempool_and_fee_requests() {
    let c = client();
    assert_get(c.get_mempool_stats(), "/mempool");
    assert_get(c.get_mempool_recent_txs(), "/mempool/recent");
    assert_get(c.get_mempool_txids(), "/mempool/txids");
    assert_get(c.get_fee_estimates(), "/fee-estimates");
}

#[test]
fn broadcast_sends_lowercase_hex() {
    let request = client().broadcast(&coinbase());
    assert_eq!(request.method, Method::Post);
    assert_eq!(request.path, "/tx");
    assert_eq!(request.url, format!("{BASE}/tx"));
    assert_eq!(request.body, COINBASE.as_bytes());
    assert!(request.query.is_empty());
}

#[test]
fn package_is_a_json_list_of_what_broadcast_sends() {
    let c = client();
    let request = c.submit_package(&[coinbase(), coinbase()], None, None).unwrap();
    assert_eq!(request.method, Method::Post);
    assert_eq!(request.path, "/txs/package");
    assert_eq!(request.url, format!("{BASE}/txs/package"));
    assert_eq!(request.body, format!("[\"{COINBASE}\",\"{COINBASE}\"]").as_bytes());
    assert!(request.query.is_empty());

    let alone = String::from_utf8(c.broadcast(&coinbase()).body).unwrap();
    let single = c.submit_package(&[coinbase()], None, None).unwrap();
    assert_eq!(single.body, format!("[\"{alone}\"]").as_bytes());
}

#[test]
fn empty_package_is_an_empty_list() {
    assert_eq!(client().submit_package(&[], None, None).unwrap().body, b"[]");
}

#[test]
fn package_limits_go_into_the_query() {
    let request = client().submit_package(&[], Some(2501), Some(150_000_000)).unwrap();
    assert_eq!(
        request.query,
        [
            ("maxfeerate".to_string(), "11".to_string()),
            ("maxburnamount".to_string(), "1.5".to_string()),
        ]
    );
}

#[test]
fn fee_rate_is_rounded_up_to_virtual_bytes() {
    let rate = |sat_per_kwu: u64| {
        client().submit_package(&[], Some(sat_per_kwu), None).unwrap().query[0].1.clone()
    };
    assert_eq!(rate(0), "0");
    assert_eq!(rate(1), "1");
    assert_eq!(rate(250), "1");
    assert_eq!(rate(251), "2");
    assert_eq!(rate(MAX_FEE_RATE), "73786976294838206");
}

#[test]
fn burn_amount_is_in_bitcoin() {
    let amount = |sats: u64| {
        client().submit_package(&[], None, Some(sats)).unwrap().query[0].1.clone()
    };
    assert_eq!(amount(1), "0.00000001");
    assert_eq!(amount(100_000_000), "1");
    assert_eq!(amount(123_456_789), "1.23456789");
}

#[test]
fn limits_keep_what_they_are_given() {
    assert!(limits(None, None).is_empty());
    assert_eq!(
        limits(Some(3), Some("0.5".to_string())),
        [
            ("maxfeerate".to_string(), "3".to_string()),
            ("maxburnamount".to_string(), "0.5".to_string()),
        ]
    );
}

#[test]
fn paths_are_put_together() {
    assert_eq!(surround("/tx/", "ab", "/raw"), "/tx/ab/raw");
    assert_eq!(txs_path("/address/a", None), "/address/a/txs");
    assert_eq!(txs_path("/address/a", Some(txid())), format!("/address/a/txs/chain/{TXID}"));
    assert_eq!(blocks_path(None), "/blocks");
    assert_eq!(blocks_path(Some(100)), "/blocks/100");
}

#[test]
fn url_is_the_base_and_the_path() {
    let asked = get("http://a/", "/b".to_string());
    assert_eq!(asked.url, "http://a//b");
    let handed = post("http://a", "/b", vec![1, 2], vec![("k".to_string(), "v".to_string())]);
    assert_eq!(handed.method, Method::Post);
    assert_eq!(handed.url, "http://a/b");
    assert_eq!(handed.path, "/b");
    assert_eq!(handed.body, [1, 2]);
    assert_eq!(handed.query, [("k".to_string(), "v".to_string())]);
}

#[test]
fn header_of_the_genesis_block_is_known_by_its_hash() {
    let header: Header = genesis_block(Network::Bitcoin).header;
    assert_get(client().get_block_info(&header.block_hash()), &format!("/block/{HASH}"));
}

#[test]
fn broadcast_body_reads_back() {
    let body = client().broadcast(&coinbase()).body;
    let outcome = Ok(HttpResponse { status: 200, version: String::new(), body });
    let bytes = reply::hex(outcome).unwrap();
    assert_eq!(bytes, bitcoin::consensus::serialize(&coinbase()));
}

#[test]
fn different_transactions_are_asked_for_under_different_urls() {
    let mut other = TXID.to_string();
    other.replace_range(63..64, "c");
    let other = Txid::from_str(&other).unwrap();
    assert_ne!(client().get_tx(&txid()).url, client().get_tx(&other).url);
}

#[test]
fn hash_text_reads_back() {
    let url = client().get_tx_info(&txid()).url;
    let body = url[BASE.len() + 4..].as_bytes().to_vec();
    let outcome = Ok(HttpResponse { status: 200, version: String::new(), body });
    assert_eq!(reply::txid(outcome).unwrap(), txid());
}

#[test]
fn package_body_quotes_each_text() {
    let texts = vec!["00".to_string(), "ff".to_string(), String::new()];
    assert_eq!(package_body(&texts).unwrap(), b"[\"00\",\"ff\",\"\"]");
}

#[test]
fn address_is_held_as_it_is_written() {
    assert_eq!(address().text, ADDRESS);
    assert_eq!(Address::new(&7).text, "7");
}
