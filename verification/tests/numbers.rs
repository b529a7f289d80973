use esplora_client::decimal::decimal;
use esplora_client::reply;
use esplora_client::response::HttpResponse;

#[test]
fn decimal_text_of_numbers() {
    assert_eq!(decimal(0), "0");
    assert_eq!(decimal(9), "9");
    assert_eq!(decimal(10), "10");
    assert_eq!(decimal(1_000_203), "1000203");
    assert_eq!(decimal(u64::MAX), "18446744073709551615");
}

#[test]
fn decimal_text_reads_back() {
    for n in [0, 1, 9, 10, 99, 100, 123_456_789, u64::MAX] {
        assert_eq!(decimal(n).parse::<u64>().unwrap(), n);
    }
}

#[test]
fn height_text_reads_back() {
    for n in [0, 10, 840_000, u32::MAX] {
        let body = decimal(n as u64).into_bytes();
        let outcome = Ok(HttpResponse { status: 200, version: String::new(), body });
        assert_eq!(reply::height(outcome).unwrap(), n);
    }
}
