use esplora_client::builder::{
    client_builder, client_builder_with, header_map, header_parts, Builder,
    DEFAULT_MAX_CONNECTIONS, MAX_HEADERS,
};
use esplora_client::{AsyncClient, DefaultSleeper, Error, Sleeper};
use std::time::Duration;

#[derive(Clone)]
struct NoWait;

impl Sleeper for NoWait {
    type Sleep = std::future::Ready<()>;

    fn sleep(_dur: Duration) -> Self::Sleep {
        std::future::ready(())
    }
}

fn headers(pairs: &[(&str, &str)]) -> Vec<(String, String)> {
    pairs.iter().map(|(k, v)| (k.to_string(), v.to_string())).collect()
}

fn build(builder: Builder) -> Result<AsyncClient<NoWait>, Error> {
    AsyncClient::from_builder(builder)
}

#[test]
fn builder_starts_plain() {
    let builder = Builder::new("https://example.org/api/");
    assert_eq!(builder.base_url, "https://example.org/api/");
    assert!(builder.proxy.is_none());
    assert!(builder.timeout.is_none());
    assert!(builder.headers.is_empty());
    assert_eq!(builder.max_retries, 6);
    assert_eq!(builder.max_connections, DEFAULT_MAX_CONNECTIONS);
}

#[test]
fn url_is_the_string_that_the_builder_was_given() {
    let client = build(Builder::new("not even a url/")).ok().unwrap();
    assert_eq!(client.url(), "not even a url/");
}

#[test]
fn client_has_the_retries_of_the_builder() {
    let mut builder = Builder::new("http://a");
    builder.max_retries = 1;
    let client = build(builder).ok().unwrap();
    let mut state = client.retry_state();
    let busy = || {
        Ok(esplora_client::response::HttpResponse {
            status: 503,
            version: String::new(),
            body: vec![],
        })
    };
    assert!(matches!(state.step(busy()), esplora_client::retry::Step::Wait(_)));
    assert!(matches!(state.step(busy()), esplora_client::retry::Step::Done(Err(_))));
}

#[test]
fn clone_keeps_the_url() {
    let client = build(Builder::new("http://a")).ok().unwrap();
    assert_eq!(client.clone().url(), "http://a");
}

#[test]
fn injected_client_is_kept() {
    let http = reqwest::Client::builder().timeout(Duration::from_secs(77)).build().unwrap();
    let client: AsyncClient<NoWait> = AsyncClient::from_client("http://b".to_string(), http);
    assert_eq!(client.url(), "http://b");
    assert!(format!("{:?}", client.client()).contains("77s"));
}

#[test]
fn from_built_wraps_the_error() {
    let error = reqwest::Proxy::all("").err().unwrap();
    let refused = AsyncClient::<NoWait>::from_built("http://c".to_string(), 2, Err(error));
    assert!(matches!(refused, Err(Error::Reqwest(_))));
    let built = AsyncClient::<NoWait>::from_built(
        "http://c".to_string(),
        2,
        Ok(reqwest::Client::new()),
    );
    assert_eq!(built.ok().unwrap().url(), "http://c");
}

#[test]
fn timeout_and_proxy_and_headers_reach_the_client() {
    let mut builder = Builder::new("http://a");
    builder.timeout = Some(Duration::from_secs(41));
    builder.proxy = Some("http://proxy.example:8080".to_string());
    builder.headers = headers(&[("X-Token", "abc")]);
    let client = build(builder).ok().unwrap();
    let shown = format!("{:?}", client.client());
    assert!(shown.contains("41s"), "{shown}");
    assert!(shown.contains("proxy.example"), "{shown}");
    assert!(shown.contains("\"x-token\": \"abc\""), "{shown}");
    assert!(shown.contains("\"accept\": \"*/*\""), "{shown}");
}

#[test]
fn headers_can_replace_the_accept_header() {
    let mut builder = Builder::new("http://a");
    builder.headers = headers(&[("Accept", "application/json")]);
    let shown = format!("{:?}", client_builder(&builder).ok().unwrap());
    assert!(shown.contains("\"accept\": \"application/json\""), "{shown}");
    assert!(!shown.contains("*/*"), "{shown}");
}

#[test]
fn proxy_without_a_url_is_refused() {
    let mut builder = Builder::new("http://a");
    builder.proxy = Some(String::new());
    assert!(matches!(build(builder), Err(Error::Reqwest(_))));
}

#[test]
fn proxy_is_refused_before_headers_are() {
    let mut builder = Builder::new("http://a");
    builder.proxy = Some(String::new());
    builder.headers = headers(&[("bad name", "v")]);
    assert!(matches!(build(builder), Err(Error::Reqwest(_))));
}

#[test]
fn header_names_go_in_lowercase() {
    let map = header_map(&headers(&[("X-Token", "abc"), ("Accept-Charset", "utf-8")])).unwrap();
    assert_eq!(map.len(), 2);
    assert_eq!(map.get("x-token").unwrap(), "abc");
    assert_eq!(map.get("accept-charset").unwrap(), "utf-8");
}

#[test]
fn later_header_of_the_same_name_counts() {
    let map = header_map(&headers(&[("A", "1"), ("b", "2"), ("a", "3")])).unwrap();
    assert_eq!(map.len(), 2);
    assert_eq!(map.get("a").unwrap(), "3");
    assert_eq!(map.get("b").unwrap(), "2");
}

#[test]
fn header_name_that_is_refused_is_named_as_given() {
    for name in ["", "Bad Name", "a:b", "caf\u{e9}", "x\n"] {
        match header_map(&headers(&[("ok", "v"), (name, "v")])) {
            Err(Error::InvalidHttpHeaderName(refused)) => assert_eq!(refused, name),
            other => panic!("{other:?}"),
        }
    }
}

#[test]
fn header_value_that_is_refused_is_named_as_given() {
    for value in ["a\nb", "a\rb", "\u{0}", "\u{7f}"] {
        match header_map(&headers(&[("ok", value)])) {
            Err(Error::InvalidHttpHeaderValue(refused)) => assert_eq!(refused, value),
            other => panic!("{other:?}"),
        }
    }
}

#[test]
fn header_values_may_hold_tabs_and_more_than_ascii() {
    let map = header_map(&headers(&[("a", "x\ty"), ("b", "\u{e9}"), ("c", "")])).unwrap();
    assert_eq!(map.get("a").unwrap().as_bytes(), b"x\ty");
    assert_eq!(map.get("b").unwrap().as_bytes(), "\u{e9}".as_bytes());
    assert_eq!(map.get("c").unwrap().as_bytes(), b"");
}

#[test]
fn first_refused_header_is_the_error() {
    let both = headers(&[("ok", "bad\n"), ("bad name", "v")]);
    assert!(matches!(header_map(&both), Err(Error::InvalidHttpHeaderValue(_))));
    let name_first = headers(&[("bad name", "bad\n")]);
    assert!(matches!(header_map(&name_first), Err(Error::InvalidHttpHeaderName(_))));
}

#[test]
fn header_names_may_hold_all_token_characters() {
    let name = "!\"#$%&'*+-.^_`|~09az";
    let map = header_map(&headers(&[(name, "v")])).unwrap();
    assert_eq!(map.len(), 1);
    assert_eq!(map.keys().next().unwrap().as_str(), name);
}

#[test]
fn as_many_headers_as_allowed_fit() {
    let many: Vec<(String, String)> =
        (0..MAX_HEADERS).map(|i| (format!("h{i}"), i.to_string())).collect();
    let mut builder = Builder::new("http://a");
    builder.headers = many;
    assert_eq!(header_map(&builder.headers).unwrap().len(), MAX_HEADERS);
    assert!(client_builder(&builder).is_ok());
}

#[test]
fn header_parts_go_by_the_name_in_lowercase() {
    let header = ("X-A".to_string(), "v".to_string());
    let (name, value) = header_parts("x-a", &header).unwrap();
    assert_eq!(name.as_str(), "x-a");
    assert_eq!(value, "v");
    match header_parts("X-A", &header) {
        Err(Error::InvalidHttpHeaderName(refused)) => assert_eq!(refused, "X-A"),
        other => panic!("{other:?}"),
    }
}

#[test]
fn builder_takes_the_proxy_that_it_is_given() {
    let builder = Builder::new("http://a");
    let proxy = reqwest::Proxy::all("http://given.example").unwrap();
    let shown = format!("{:?}", client_builder_with(Some(Ok(proxy)), &builder).unwrap());
    assert!(shown.contains("given.example"), "{shown}");
    let refused = reqwest::Proxy::all("").err().unwrap();
    assert!(matches!(client_builder_with(Some(Err(refused)), &builder), Err(Error::Reqwest(_))));
    assert!(client_builder_with(None, &builder).is_ok());
}

#[test]
fn case_of_a_header_name_makes_no_difference() {
    let upper = header_map(&headers(&[("X-Key", "a"), ("ACCEPT", "b")])).unwrap();
    let lower = header_map(&headers(&[("x-key", "a"), ("accept", "b")])).unwrap();
    assert_eq!(upper, lower);
    for name in ["BAD NAME", "bad name"] {
        assert!(matches!(
            header_map(&headers(&[(name, "v")])),
            Err(Error::InvalidHttpHeaderName(_))
        ));
    }
}

#[test]
fn default_sleeper_is_a_mark() {
    assert_eq!(format!("{:?}", DefaultSleeper), "DefaultSleeper");
}
