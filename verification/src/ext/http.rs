//! Types and functions of the reqwest crate.
use reqwest::header::{
    HeaderMap, HeaderName, HeaderValue, InvalidHeaderName, InvalidHeaderValue,
};
use reqwest::{Client, ClientBuilder, Error as ReqwestError, Proxy};
use std::time::Duration;
use vstd::prelude::*;
use vstd::utf8::encode_utf8;

verus! {

#[verifier::external_type_specification]
#[verifier::external_body]
pub struct ExClient(Client);

#[verifier::external_type_specification]
#[verifier::external_body]
pub struct ExClientBuilder(ClientBuilder);

#[verifier::external_type_specification]
#[verifier::external_body]
pub struct ExProxy(Proxy);

#[verifier::external_type_specification]
#[verifier::external_body]
pub struct ExReqwestError(ReqwestError);

#[verifier::external_type_specification]
#[verifier::external_body]
#[verifier::reject_recursive_types(T)]
pub struct ExHeaderMap<T>(HeaderMap<T>);

#[verifier::external_type_specification]
#[verifier::external_body]
pub struct ExHeaderName(HeaderName);

#[verifier::external_type_specification]
#[verifier::external_body]
pub struct ExHeaderValue(HeaderValue);

#[verifier::external_type_specification]
#[verifier::external_body]
pub struct ExInvalidHeaderName(InvalidHeaderName);

#[verifier::external_type_specification]
#[verifier::external_body]
pub struct ExInvalidHeaderValue(InvalidHeaderValue);

/// What a header map holds: the values under each name, in the order in which
/// they were added.
pub type HeaderEntries = Map<Seq<u8>, Seq<Seq<u8>>>;

/// What an HTTP client is set up with, as far as this library decides it.
pub struct ClientSettings {
    /// The proxies, in the order in which they are tried.
    pub proxies: Seq<Proxy>,
    /// Whether the proxy of the system is used.
    pub system_proxy: bool,
    /// The time after which a request is given up.
    pub timeout: Option<Duration>,
    /// How many idle connections are kept for each host.
    pub pool_max_idle_per_host: usize,
    /// The headers that every request carries.
    pub headers: HeaderEntries,
}

/// The most entries that a header map may have before another is inserted, for
/// the insertion to succeed whatever the names hash to.
///
/// The map has at most 2^15 slots. Once its hashes have collided too often, it
/// wants to double them as soon as a fifth of them is taken.
pub const MAX_HEADER_ENTRIES: usize = 6553;

/// The bytes of a header name.
pub uninterp spec fn header_name_bytes(name: HeaderName) -> Seq<u8>;

/// The bytes of a header value.
pub uninterp spec fn header_value_bytes(value: HeaderValue) -> Seq<u8>;

/// What a header map holds.
pub uninterp spec fn header_entries(map: HeaderMap<HeaderValue>) -> HeaderEntries;

/// What `Proxy::all` makes of the text of a URL.
pub uninterp spec fn proxy_for_all(url: Seq<char>) -> Result<Proxy, ReqwestError>;

/// What a client builder is set up with.
pub uninterp spec fn builder_settings(builder: ClientBuilder) -> ClientSettings;

/// What a client was set up with when it was built.
pub uninterp spec fn client_settings(client: Client) -> ClientSettings;

/// Whether a byte may stand in the name of a header in lowercase.
pub open spec fn is_name_byte(b: u8) -> bool {
    ||| 0x21 <= b <= 0x27  // ! " # $ % & '
    ||| b == 0x2a || b == 0x2b  // * +
    ||| b == 0x2d || b == 0x2e  // - .
    ||| 0x30 <= b <= 0x39  // 0 to 9
    ||| 0x5e <= b <= 0x7a  // ^ _ ` a to z
    ||| b == 0x7c || b == 0x7e  // | ~
}

/// Whether bytes are the name of a header in lowercase.
pub open spec fn is_header_name(bytes: Seq<u8>) -> bool {
    &&& 1 <= bytes.len() <= 65535
    &&& forall|i: int| 0 <= i < bytes.len() ==> is_name_byte(#[trigger] bytes[i])
}

/// Whether a byte may stand in the value of a header.
pub open spec fn is_value_byte(b: u8) -> bool {
    b == 0x09 || (b >= 0x20 && b != 0x7f)
}

/// Whether bytes are the value of a header.
pub open spec fn is_header_value(bytes: Seq<u8>) -> bool {
    forall|i: int| 0 <= i < bytes.len() ==> is_value_byte(#[trigger] bytes[i])
}

/// The settings of a client builder that nothing was changed in.
pub open spec fn initial_settings() -> ClientSettings {
    ClientSettings {
        proxies: Seq::empty(),
        system_proxy: true,
        timeout: None,
        pool_max_idle_per_host: usize::MAX,
        headers: Map::empty().insert(encode_utf8("accept"@), seq![encode_utf8("*/*"@)]),
    }
}

/// The entries `base` after the last value under each name of `added` has taken
/// the place of what stood under that name.
pub open spec fn overridden(base: HeaderEntries, added: HeaderEntries) -> HeaderEntries {
    base.union_prefer_right(added.map_values(|values: Seq<Seq<u8>>| seq![values.last()]))
}

/// Calls `HeaderMap::new`: the map is empty.
#[verifier::external_body]
pub(crate) fn new_header_map() -> (map: HeaderMap<HeaderValue>)
    ensures
        header_entries(map) == HeaderEntries::empty(),
{
    HeaderMap::new()
}

/// Calls `HeaderName::from_lowercase`: bytes that name a header in lowercase
/// are that name, and others are refused.
#[verifier::external_body]
pub(crate) fn header_name_from_lowercase(bytes: &[u8]) -> (r: Result<HeaderName, InvalidHeaderName>)
    ensures
        r is Ok <==> is_header_name(bytes@),
        r matches Ok(name) ==> header_name_bytes(name) == bytes@,
{
    HeaderName::from_lowercase(bytes)
}

/// Calls `HeaderValue::from_str`: a text without control characters, tabs
/// aside, is the value of its bytes, and any other is refused.
#[verifier::external_body]
pub(crate) fn header_value_from_str(text: &str) -> (r: Result<HeaderValue, InvalidHeaderValue>)
    ensures
        r is Ok <==> is_header_value(encode_utf8(text@)),
        r matches Ok(value) ==> header_value_bytes(value) == encode_utf8(text@),
{
    HeaderValue::from_str(text)
}

/// Calls `HeaderMap::insert`: `value` takes the place of everything that stood
/// under `name`, and the other names keep what they had. A map that has grown
/// too large panics instead, which the bound leaves out.
#[verifier::external_body]
pub(crate) fn insert_header(map: &mut HeaderMap<HeaderValue>, name: HeaderName, value: HeaderValue)
    requires
        header_entries(*old(map)).dom().finite(),
        header_entries(*old(map)).len() <= MAX_HEADER_ENTRIES,
    ensures
        header_entries(*final(map)) == header_entries(*old(map)).insert(
            header_name_bytes(name),
            seq![header_value_bytes(value)],
        ),
{
    map.insert(name, value);
}

/// Calls `Proxy::all`: what comes back, proxy or error, depends on the text of
/// the URL alone.
#[verifier::external_body]
pub(crate) fn proxy_all(url: &str) -> (r: Result<Proxy, ReqwestError>)
    ensures
        r == proxy_for_all(url@),
{
    Proxy::all(url)
}

/// Calls `Client::builder`: the builder has no proxy of its own, no timeout, no
/// limit on idle connections, and sends `accept: */*`.
#[verifier::external_body]
pub(crate) fn new_client_builder() -> (builder: ClientBuilder)
    ensures
        builder_settings(builder) == initial_settings(),
{
    Client::builder()
}

/// Calls `ClientBuilder::proxy`: adds a proxy behind those there are, and gives
/// up the proxy of the system.
#[verifier::external_body]
pub(crate) fn set_proxy(builder: ClientBuilder, proxy: Proxy) -> (r: ClientBuilder)
    ensures
        builder_settings(r) == (ClientSettings {
            proxies: builder_settings(builder).proxies.push(proxy),
            system_proxy: false,
            ..builder_settings(builder)
        }),
{
    builder.proxy(proxy)
}

/// Calls `ClientBuilder::timeout`: sets the timeout.
#[verifier::external_body]
pub(crate) fn set_timeout(builder: ClientBuilder, timeout: Duration) -> (r: ClientBuilder)
    ensures
        builder_settings(r) == (ClientSettings {
            timeout: Some(timeout),
            ..builder_settings(builder)
        }),
{
    builder.timeout(timeout)
}

/// Calls `ClientBuilder::pool_max_idle_per_host`: sets how many idle
/// connections are kept for each host.
#[verifier::external_body]
pub(crate) fn set_pool_max_idle_per_host(builder: ClientBuilder, max: usize) -> (r: ClientBuilder)
    ensures
        builder_settings(r) == (ClientSettings {
            pool_max_idle_per_host: max,
            ..builder_settings(builder)
        }),
{
    builder.pool_max_idle_per_host(max)
}

/// Calls `ClientBuilder::default_headers`: the last value under each name of
/// `headers` takes the place of what stood under that name. Too many names in
/// all make it panic, which the bound leaves out.
#[verifier::external_body]
pub(crate) fn set_default_headers(
    builder: ClientBuilder,
    headers: HeaderMap<HeaderValue>,
) -> (r: ClientBuilder)
    requires
        overridden(builder_settings(builder).headers, header_entries(headers)).dom().finite(),
        overridden(builder_settings(builder).headers, header_entries(headers)).len()
            <= MAX_HEADER_ENTRIES,
    ensures
        builder_settings(r) == (ClientSettings {
            headers: overridden(builder_settings(builder).headers, header_entries(headers)),
            ..builder_settings(builder)
        }),
{
    builder.default_headers(headers)
}

/// Calls `ClientBuilder::build`: a client that comes back is set up as the
/// builder was. Whether one comes back is left unsaid, since it rests on the
/// machine: the TLS backend and the resolver have to load.
#[verifier::external_body]
pub(crate) fn build_client(builder: ClientBuilder) -> (r: Result<Client, ReqwestError>)
    ensures
        r matches Ok(client) ==> client_settings(client) == builder_settings(builder),
{
    builder.build()
}

/// Specifies `Clone` of `reqwest::Client`, which shares one client: the copy is
/// the client that was copied.
pub assume_specification[ <Client as Clone>::clone ](client: &Client) -> (r: Client)
    ensures
        r == *client,
;

} // verus!
