use bitcoin::consensus::encode::{serialize, serialize_hex};
use bitcoin::constants::genesis_block;
use bitcoin::{MerkleBlock, Network, Txid};
use esplora_client::error::{found_or_error, json_or_error, none_if_not_found, some_blocks};
use esplora_client::reply;
use esplora_client::response::HttpResponse;
use esplora_client::Error;
use std::str::FromStr;

const TXID: &str = "4a5e1e4baab89f3a32518a88c31bc87f618f76673e2cc77ab2127b7afdeda33b";
const HASH: &str = "000000000019d6689c085ae165831e934ff763ae46a2a6c172b3f1b60a8ce26f";
const HEADER: &str = "0100000000000000000000000000000000000000000000000000000000000000000000003ba3edfd7a7b12b27ac72c3e67768f617fc81bc3888a51323a9fb8aa4b1e5e4a29ab5f49ffff001d1dac2b7c";

fn body(bytes: &[u8]) -> reply::Outcome {
    Ok(HttpResponse { status: 200, version: "HTTP/1.1".to_string(), body: bytes.to_vec() })
}

fn status(status: u16) -> reply::Outcome {
    Err(Error::HttpResponse { status, message: "no".to_string() })
}

#[test]
fn raw_transaction_is_decoded() {
    let tx = genesis_block(Network::Bitcoin).txdata[0].clone();
    assert_eq!(reply::tx(body(&serialize(&tx))).unwrap(), Some(tx.clone()));
    let txid = tx.compute_txid();
    assert_eq!(reply::tx_no_opt(&txid, body(&serialize(&tx))).unwrap(), tx);
}

#[test]
fn transaction_that_is_not_there_is_none() {
    assert_eq!(reply::tx(status(404)).unwrap(), None);
    assert!(matches!(reply::tx(status(400)), Err(Error::HttpResponse { status: 400, .. })));
    assert!(matches!(reply::tx(body(b"")), Err(Error::BitcoinEncoding(_))));
}

#[test]
fn transaction_that_should_be_there_is_an_error() {
    let txid = Txid::from_str(TXID).unwrap();
    match reply::tx_no_opt(&txid, status(404)) {
        Err(Error::TransactionNotFound(id)) => assert_eq!(id, txid),
        other => panic!("{other:?}"),
    }
    assert!(matches!(
        reply::tx_no_opt(&txid, status(500)),
        Err(Error::HttpResponse { status: 500, .. })
    ));
}

#[test]
fn raw_block_is_decoded() {
    let block = genesis_block(Network::Bitcoin);
    assert_eq!(reply::block(body(&serialize(&block))).unwrap(), Some(block));
    assert_eq!(reply::block(status(404)).unwrap(), None);
    assert!(matches!(reply::block(body(&[1])), Err(Error::BitcoinEncoding(_))));
}

#[test]
fn header_is_decoded_from_hex_of_either_case() {
    let header = genesis_block(Network::Bitcoin).header;
    assert_eq!(reply::header(body(HEADER.as_bytes())).unwrap(), header);
    assert_eq!(reply::header(body(HEADER.to_uppercase().as_bytes())).unwrap(), header);
}

#[test]
fn header_can_fail_at_each_stage() {
    assert!(matches!(reply::header(status(404)), Err(Error::HttpResponse { status: 404, .. })));
    assert!(matches!(reply::header(body(&[0xff])), Err(Error::Utf8(_))));
    assert!(matches!(reply::header(body(b"0")), Err(Error::HexToBytes(_))));
    assert!(matches!(reply::header(body(b"zz")), Err(Error::HexToBytes(_))));
    assert!(matches!(reply::header(body(b"00")), Err(Error::BitcoinEncoding(_))));
}

#[test]
fn merkle_block_is_decoded_from_hex() {
    let proof = MerkleBlock::from_block_with_predicate(&genesis_block(Network::Bitcoin), |_| true);
    let text = serialize_hex(&proof);
    let read = reply::merkle_block(body(text.as_bytes())).unwrap().unwrap();
    assert_eq!(read.header, proof.header);
    assert_eq!(serialize_hex(&read), text);
    assert!(reply::merkle_block(status(404)).unwrap().is_none());
    assert!(matches!(reply::merkle_block(body(b"00")), Err(Error::BitcoinEncoding(_))));
}

#[test]
fn hex_body_gives_its_bytes() {
    assert_eq!(reply::hex(body(b"00fFa1")).unwrap(), [0x00, 0xff, 0xa1]);
    assert_eq!(reply::hex(body(b"")).unwrap(), b"");
}

#[test]
fn text_body_gives_its_text() {
    assert_eq!(reply::text(body("h\u{e9}llo".as_bytes())).unwrap(), "h\u{e9}llo");
    assert!(matches!(reply::text(body(&[0xc3])), Err(Error::Utf8(_))));
    assert!(matches!(reply::text(status(503)), Err(Error::HttpResponse { status: 503, .. })));
}

#[test]
fn txid_is_read_from_text() {
    let txid = Txid::from_str(TXID).unwrap();
    assert_eq!(reply::txid(body(TXID.as_bytes())).unwrap(), txid);
    assert_eq!(reply::txid(body(TXID.to_uppercase().as_bytes())).unwrap().to_string(), TXID);
    assert!(matches!(reply::txid(body(&TXID.as_bytes()[1..])), Err(Error::HexToArray(_))));
    assert!(matches!(
        reply::txid(body(format!("{TXID}\n").as_bytes())),
        Err(Error::HexToArray(_))
    ));
    assert!(matches!(reply::txid(status(400)), Err(Error::HttpResponse { status: 400, .. })));
}

#[test]
fn txid_at_a_position_may_be_none() {
    let txid = Txid::from_str(TXID).unwrap();
    assert_eq!(reply::opt_txid(body(TXID.as_bytes())).unwrap(), Some(txid));
    assert_eq!(reply::opt_txid(status(404)).unwrap(), None);
    assert!(matches!(reply::opt_txid(body(b"")), Err(Error::HexToArray(_))));
    assert!(matches!(reply::opt_txid(status(401)), Err(Error::HttpResponse { status: 401, .. })));
}

#[test]
fn block_hash_is_read_from_text() {
    assert_eq!(reply::block_hash(body(HASH.as_bytes())).unwrap().to_string(), HASH);
    assert!(matches!(reply::block_hash(body(b"12")), Err(Error::HexToArray(_))));
    assert!(matches!(
        reply::block_hash(status(404)),
        Err(Error::HttpResponse { status: 404, .. })
    ));
}

#[test]
fn height_is_read_from_text() {
    assert_eq!(reply::height(body(b"0")).unwrap(), 0);
    assert_eq!(reply::height(body(b"840000")).unwrap(), 840_000);
    assert_eq!(reply::height(body(b"+7")).unwrap(), 7);
    assert_eq!(reply::height(body(b"4294967295")).unwrap(), u32::MAX);
}

#[test]
fn height_that_is_no_number_is_an_error() {
    for text in ["", "+", "-1", " 1", "1\n", "4294967296", "0x1"] {
        assert!(matches!(reply::height(body(text.as_bytes())), Err(Error::Parsing(_))), "{text}");
    }
}

#[test]
fn txids_are_read_from_json() {
    let txid = Txid::from_str(TXID).unwrap();
    let json = format!("[\"{TXID}\", \"{TXID}\"]");
    assert_eq!(reply::txids(body(json.as_bytes())).unwrap(), [txid, txid]);
    assert!(reply::txids(body(b"[]")).unwrap().is_empty());
    assert!(matches!(reply::txids(body(b"[1]")), Err(Error::SerdeJson(_))));
    assert!(matches!(reply::txids(status(404)), Err(Error::HttpResponse { status: 404, .. })));
}

#[test]
fn json_errors_are_wrapped() {
    assert_eq!(reply::json(Ok(serde_json::from_str::<u8>("7"))).unwrap(), 7);
    assert!(matches!(
        reply::json(Ok(serde_json::from_str::<u8>("x"))),
        Err(Error::SerdeJson(_))
    ));
    assert!(matches!(reply::json::<u8>(Err(Error::InvalidResponse)), Err(Error::InvalidResponse)));
    assert!(matches!(
        json_or_error(serde_json::from_str::<u8>("[]")),
        Err(Error::SerdeJson(_))
    ));
}

#[test]
fn only_status_404_becomes_none() {
    assert_eq!(none_if_not_found(Ok(1)).unwrap(), Some(1));
    let refused = |status: u16| {
        none_if_not_found::<u8>(Err(Error::HttpResponse { status, message: "m".to_string() }))
    };
    assert_eq!(refused(404).unwrap(), None);
    match refused(410) {
        Err(Error::HttpResponse { status, message }) => {
            assert_eq!(status, 410);
            assert_eq!(message, "m");
        }
        other => panic!("{other:?}"),
    }
    assert!(matches!(
        none_if_not_found::<u8>(Err(Error::InvalidResponse)),
        Err(Error::InvalidResponse)
    ));
}

#[test]
fn found_value_is_handed_on() {
    let txid = Txid::from_str(TXID).unwrap();
    assert_eq!(found_or_error(&txid, Ok(Some(3))).unwrap(), 3);
    assert!(matches!(
        found_or_error::<u8>(&txid, Ok(None)),
        Err(Error::TransactionNotFound(id)) if id == txid
    ));
}

#[test]
fn empty_list_of_blocks_is_refused() {
    assert_eq!(some_blocks(Ok(vec![1, 2])).unwrap(), [1, 2]);
    assert!(matches!(some_blocks::<u8>(Ok(vec![])), Err(Error::InvalidResponse)));
    assert!(matches!(
        some_blocks::<u8>(Err(Error::HttpResponse { status: 500, message: String::new() })),
        Err(Error::HttpResponse { status: 500, .. })
    ));
}

#[test]
fn decoding_errors_are_wrapped() {
    let refused = bitcoin::consensus::deserialize::<u32>(&[1]);
    assert!(matches!(reply::decoded_or_error(refused), Err(Error::BitcoinEncoding(_))));
    let read = bitcoin::consensus::deserialize::<u32>(&[1, 0, 0, 0]);
    assert_eq!(reply::decoded_or_error(read).unwrap(), 1);
}

#[test]
fn not_found_is_none_without_another_attempt() {
    let mut state = esplora_client::retry::RetryState::new(6);
    let response = HttpResponse { status: 404, version: String::new(), body: b"x".to_vec() };
    match state.step(Ok(response)) {
        esplora_client::retry::Step::Done(outcome) => {
            assert_eq!(reply::tx(outcome).unwrap(), None);
        }
        esplora_client::retry::Step::Wait(_) => panic!("not found is final"),
    }
}
