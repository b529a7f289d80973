use esplora_client::log::{answered_line, failed_line};
use esplora_client::request::Method;

const BASE: &str = "https://blockstream.info/api";

#[test]
fn answered_request() {
    assert_eq!(
        answered_line(Method::Get, BASE, "/address/abc/txs", 200, "HTTP/2.0", "3.000", "1.200"),
        "GET https://blockstream.info/api/address => 200, HTTP/2.0, 3.000ms, 1.200KiB"
    );
}

#[test]
fn failed_request() {
    assert_eq!(
        failed_line(Method::Get, BASE, "/address/abc", "30000.000", "error sending request"),
        "GET https://blockstream.info/api/address => error, 30000.000ms: error sending request"
    );
}

#[test]
fn posted_request() {
    assert_eq!(
        answered_line(Method::Post, BASE, "/tx", 400, "HTTP/1.1", "0.001", "0.000"),
        "POST https://blockstream.info/api/tx => 400, HTTP/1.1, 0.001ms, 0.000KiB"
    );
}

#[test]
fn lines_do_not_tell_parameters_apart() {
    let line = |path: &str| failed_line(Method::Get, BASE, path, "1", "e");
    for (a, b) in [
        ("/tx/1", "/tx/2/raw"),
        ("/block/1", "/block/2/txs/25"),
        ("/block-height/1", "/block-height/2"),
        ("/blocks/1", "/blocks/2"),
        ("/address/1", "/address/2/txs/chain/3"),
        ("/scripthash/1", "/scripthash/2/utxo"),
    ] {
        assert_eq!(line(a), line(b));
    }
}
