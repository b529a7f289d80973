//! How a client is to be set up.
use reqwest::header::{HeaderMap, HeaderName, HeaderValue};
use reqwest::{ClientBuilder, Error as ReqwestError, Proxy};
use std::time::Duration;
use vstd::prelude::*;
use vstd::utf8::{encode_utf8, is_ascii_chars, is_ascii_chars_encode_utf8};

use crate::error::Error;
use crate::ext::http::{
    builder_settings, header_entries, header_name_bytes, header_name_from_lowercase,
    header_value_bytes, header_value_from_str, initial_settings, insert_header, is_header_name,
    is_header_value, new_client_builder, new_header_map, overridden, proxy_all, proxy_for_all,
    set_default_headers, set_pool_max_idle_per_host, set_proxy, set_timeout, ClientSettings,
    HeaderEntries,
};
use crate::ext::text::{ascii_lowercase, lowercase_text, to_lowercase};
use crate::retry::DEFAULT_MAX_RETRIES;

verus! {

/// How many idle connections are kept for each host unless something else is
/// asked for.
pub const DEFAULT_MAX_CONNECTIONS: usize = 10;

/// The most headers that a client can be set up with, for the header map to
/// hold them whatever their names hash to.
pub const MAX_HEADERS: usize = 6552;

/// How a client is to be set up.
pub struct Builder {
    /// The URL of the server, to which the path of each request is added.
    pub base_url: String,
    /// The URL of the proxy, if requests go through one.
    pub proxy: Option<String>,
    /// The time after which a request is given up.
    pub timeout: Option<Duration>,
    /// The name and value of each header that every request carries. Where two
    /// names are the same in lowercase, the later value counts.
    pub headers: Vec<(String, String)>,
    /// How often a request is sent again.
    pub max_retries: usize,
    /// How many idle connections are kept for each host.
    pub max_connections: usize,
}

impl Builder {
    /// A client for the server at `base_url`, with nothing out of the ordinary.
    pub fn new(base_url: &str) -> (builder: Builder)
        ensures
            builder.base_url@ == base_url@,
            builder.proxy is None,
            builder.timeout is None,
            builder.headers@.len() == 0,
            builder.max_retries == DEFAULT_MAX_RETRIES,
            builder.max_connections == DEFAULT_MAX_CONNECTIONS,
            builder.max_retries == 6,
            builder.max_connections == 10,
    {
        Builder {
            base_url: base_url.to_owned(),
            proxy: None,
            timeout: None,
            headers: Vec::new(),
            max_retries: DEFAULT_MAX_RETRIES,
            max_connections: DEFAULT_MAX_CONNECTIONS,
        }
    }
}

/// An ASCII text in lowercase.
pub open spec fn ascii_lowered(text: Seq<char>) -> Seq<char> {
    text.map_values(|c: char| ascii_lowercase(c))
}

/// The bytes under which a header goes: its name in lowercase.
pub open spec fn header_key(name: Seq<char>) -> Seq<u8> {
    if is_ascii_chars(name) {
        encode_utf8(ascii_lowered(name))
    } else {
        encode_utf8(lowercase_text(name))
    }
}

/// Whether two names differ in the case of ASCII letters at most.
pub open spec fn same_name(a: Seq<char>, b: Seq<char>) -> bool {
    a == b || (is_ascii_chars(a) && is_ascii_chars(b) && ascii_lowered(a) == ascii_lowered(b))
}

/// Whether two lists hold the same headers, up to the case of ASCII letters in
/// their names.
pub open spec fn same_headers(a: Seq<(String, String)>, b: Seq<(String, String)>) -> bool {
    &&& a.len() == b.len()
    &&& forall|i: int|
        0 <= i < a.len() ==> same_name(#[trigger] a[i].0@, b[i].0@) && a[i].1@ == b[i].1@
}

/// Why a header that goes under `key` is refused, if it is: for its name, or
/// else for its value.
pub open spec fn refusal(key: Seq<u8>, header: (String, String)) -> Option<Error> {
    if !is_header_name(key) {
        Some(Error::InvalidHttpHeaderName(header.0))
    } else if !is_header_value(encode_utf8(header.1@)) {
        Some(Error::InvalidHttpHeaderValue(header.1))
    } else {
        None
    }
}

/// Why the first of `headers` that is refused is refused, if one is.
pub open spec fn first_refusal(headers: Seq<(String, String)>) -> Option<Error>
    decreases headers.len(),
{
    if headers.len() == 0 {
        None
    } else if first_refusal(headers.drop_last()) is Some {
        first_refusal(headers.drop_last())
    } else {
        refusal(header_key(headers.last().0@), headers.last())
    }
}

/// The entries that `headers` make: each value under its name in lowercase,
/// later ones in the place of earlier ones.
pub open spec fn entries(headers: Seq<(String, String)>) -> HeaderEntries
    decreases headers.len(),
{
    if headers.len() == 0 {
        Map::empty()
    } else {
        entries(headers.drop_last()).insert(
            header_key(headers.last().0@),
            seq![encode_utf8(headers.last().1@)],
        )
    }
}

/// The proxy of a client, or why it is refused, if it is to have one.
pub open spec fn proxy_of(builder: Builder) -> Option<Result<Proxy, ReqwestError>> {
    match builder.proxy {
        Some(url) => Some(proxy_for_all(url@)),
        None => None,
    }
}

/// Why no client can be set up with a proxy and headers, if none can: for the
/// proxy, or else for the first header that is refused.
pub open spec fn setup_error(
    proxy: Option<Result<Proxy, ReqwestError>>,
    headers: Seq<(String, String)>,
) -> Option<Error> {
    match proxy {
        Some(Err(e)) => Some(Error::Reqwest(e)),
        _ => first_refusal(headers),
    }
}

/// What a client is set up with, given its proxy.
pub open spec fn settings(
    proxy: Option<Result<Proxy, ReqwestError>>,
    builder: Builder,
) -> ClientSettings {
    ClientSettings {
        proxies: match proxy {
            Some(Ok(proxy)) => seq![proxy],
            _ => Seq::empty(),
        },
        system_proxy: proxy is None,
        timeout: builder.timeout,
        pool_max_idle_per_host: builder.max_connections,
        headers: overridden(initial_settings().headers, entries(builder.headers@)),
    }
}

/// There are no more entries than headers.
proof fn lemma_entries_count(headers: Seq<(String, String)>)
    ensures
        entries(headers).dom().finite(),
        entries(headers).len() <= headers.len(),
    decreases headers.len(),
{
    if headers.len() > 0 {
        lemma_entries_count(headers.drop_last());
    }
}

/// Once a header is refused, more headers change nothing.
proof fn lemma_refusal_stays(headers: Seq<(String, String)>, n: int)
    requires
        0 <= n <= headers.len(),
        first_refusal(headers.take(n)) is Some,
    ensures
        first_refusal(headers) == first_refusal(headers.take(n)),
    decreases headers.len() - n,
{
    if n < headers.len() {
        assert(headers.take(n + 1).drop_last() =~= headers.take(n));
        lemma_refusal_stays(headers, n + 1);
    } else {
        assert(headers.take(n) =~= headers);
    }
}

/// What each header that is not followed by another of its name stands for: the
/// entry under its name in lowercase holds its value alone.
pub proof fn law_last_header_counts(headers: Seq<(String, String)>, i: int)
    requires
        0 <= i < headers.len(),
        forall|j: int|
            i < j < headers.len() ==> header_key(#[trigger] headers[j].0@) != header_key(
                headers[i].0@,
            ),
    ensures
        entries(headers).contains_key(header_key(headers[i].0@)),
        entries(headers)[header_key(headers[i].0@)] == seq![encode_utf8(headers[i].1@)],
    decreases headers.len(),
{
    if i < headers.len() - 1 {
        let shorter = headers.drop_last();
        assert forall|j: int| i < j < shorter.len() implies header_key(#[trigger] shorter[j].0@)
            != header_key(shorter[i].0@) by {
            assert(shorter[j] == headers[j]);
        }
        law_last_header_counts(shorter, i);
        assert(headers.last() == headers[headers.len() - 1]);
    }
}

/// A client that is set up with headers carries nothing but them, besides the
/// `accept` header that every client carries.
pub proof fn law_no_other_headers(builder: Builder, key: Seq<u8>)
    requires
        settings(proxy_of(builder), builder).headers.contains_key(key),
    ensures
        key == encode_utf8("accept"@) || exists|i: int|
            0 <= i < builder.headers@.len() && header_key(#[trigger] builder.headers@[i].0@) == key,
{
    if key != encode_utf8("accept"@) {
        lemma_entry_has_header(builder.headers@, key);
    }
}

/// The lowercase form of an ASCII name is the same name.
pub proof fn law_lowercase_is_same_name(name: Seq<char>)
    requires
        is_ascii_chars(name),
    ensures
        same_name(name, ascii_lowered(name)),
        header_key(name) == header_key(ascii_lowered(name)),
{
    assert(is_ascii_chars(ascii_lowered(name)));
    assert(ascii_lowered(ascii_lowered(name)) =~= ascii_lowered(name));
}

/// The case of ASCII letters in the name of a header makes no difference: a
/// client can be set up with the one list of headers exactly if one can be with
/// the other, and it is set up with the same headers.
pub proof fn law_header_case_makes_no_difference(a: Builder, b: Builder)
    requires
        same_headers(a.headers@, b.headers@),
        a.proxy == b.proxy,
        a.timeout == b.timeout,
        a.max_connections == b.max_connections,
    ensures
        setup_error(proxy_of(a), a.headers@) is None <==> setup_error(
            proxy_of(b),
            b.headers@,
        ) is None,
        settings(proxy_of(a), a) == settings(proxy_of(b), b),
{
    lemma_same_headers(a.headers@, b.headers@);
}

/// Lists of the same headers make the same entries, and are refused alike.
proof fn lemma_same_headers(a: Seq<(String, String)>, b: Seq<(String, String)>)
    requires
        same_headers(a, b),
    ensures
        first_refusal(a) is None <==> first_refusal(b) is None,
        entries(a) == entries(b),
    decreases a.len(),
{
    if a.len() > 0 {
        assert forall|i: int| 0 <= i < a.drop_last().len() implies same_name(
            #[trigger] a.drop_last()[i].0@,
            b.drop_last()[i].0@,
        ) && a.drop_last()[i].1@ == b.drop_last()[i].1@ by {
            assert(a.drop_last()[i] == a[i] && b.drop_last()[i] == b[i]);
        }
        lemma_same_headers(a.drop_last(), b.drop_last());
        let last = a.len() - 1;
        assert(same_name(a[last].0@, b[last].0@));
    }
}

/// Every entry comes from a header.
proof fn lemma_entry_has_header(headers: Seq<(String, String)>, key: Seq<u8>)
    requires
        entries(headers).contains_key(key),
    ensures
        exists|i: int| 0 <= i < headers.len() && header_key(#[trigger] headers[i].0@) == key,
    decreases headers.len(),
{
    if header_key(headers.last().0@) == key {
        assert(headers[headers.len() - 1].0@ == headers.last().0@);
    } else {
        let shorter = headers.drop_last();
        lemma_entry_has_header(shorter, key);
        let i = choose|i: int|
            0 <= i < shorter.len() && header_key(#[trigger] shorter[i].0@) == key;
        assert(headers[i].0@ == shorter[i].0@);
    }
}

/// The name and the value of a header whose name is `lowered` in lowercase, or
/// why it is refused.
pub fn header_parts(lowered: &str, header: &(String, String)) -> (r: Result<
    (HeaderName, HeaderValue),
    Error,
>)
    ensures
        match refusal(encode_utf8(lowered@), *header) {
            Some(e) => r == Err::<(HeaderName, HeaderValue), Error>(e),
            None => r matches Ok(parts) && header_name_bytes(parts.0) == encode_utf8(lowered@)
                && header_value_bytes(parts.1) == encode_utf8(header.1@),
        },
{
    match header_name_from_lowercase(lowered.as_bytes()) {
        Ok(name) => match header_value_from_str(header.1.as_str()) {
            Ok(value) => Ok((name, value)),
            Err(_) => Err(Error::InvalidHttpHeaderValue(header.1.clone())),
        },
        Err(_) => Err(Error::InvalidHttpHeaderName(header.0.clone())),
    }
}

/// Collects headers into a header map, or says why the first of them that is
/// refused is refused. A name goes in lowercase.
pub fn header_map(headers: &Vec<(String, String)>) -> (r: Result<HeaderMap<HeaderValue>, Error>)
    requires
        headers@.len() <= MAX_HEADERS,
    ensures
        match first_refusal(headers@) {
            Some(e) => r == Err::<HeaderMap<HeaderValue>, Error>(e),
            None => r matches Ok(map) && header_entries(map) == entries(headers@),
        },
{
    let mut map = new_header_map();
    let mut i: usize = 0;
    assert(headers@.take(0) =~= Seq::empty());
    while i < headers.len()
        invariant
            headers@.len() <= MAX_HEADERS,
            i <= headers@.len(),
            first_refusal(headers@.take(i as int)) is None,
            header_entries(map) == entries(headers@.take(i as int)),
        decreases headers.len() - i,
    {
        let header: &(String, String) = &headers[i];
        let lowered = to_lowercase(header.0.as_str());
        proof {
            assert(headers@.take(i + 1).drop_last() =~= headers@.take(i as int));
            assert(headers@.take(i + 1).last() == headers@[i as int]);
            lemma_entries_count(headers@.take(i as int));
        }
        let (name, value) = match header_parts(lowered.as_str(), header) {
            Ok(parts) => parts,
            Err(e) => {
                proof {
                    lemma_refusal_stays(headers@, i + 1);
                }
                return Err(e);
            },
        };
        insert_header(&mut map, name, value);
        i = i + 1;
    }
    assert(headers@.take(i as int) =~= headers@);
    Ok(map)
}

/// Sets up the builder of an HTTP client, or says why none can be set up.
pub fn client_builder(builder: &Builder) -> (r: Result<ClientBuilder, Error>)
    requires
        builder.headers@.len() <= MAX_HEADERS,
    ensures
        match setup_error(proxy_of(*builder), builder.headers@) {
            Some(e) => r == Err::<ClientBuilder, Error>(e),
            None => r matches Ok(b) && builder_settings(b) == settings(proxy_of(*builder), *builder),
        },
{
    let proxy = match &builder.proxy {
        Some(url) => Some(proxy_all(url.as_str())),
        None => None,
    };
    client_builder_with(proxy, builder)
}

/// Sets up the builder of an HTTP client with a proxy, where one was asked for,
/// or says why none can be set up.
pub fn client_builder_with(
    proxy: Option<Result<Proxy, ReqwestError>>,
    builder: &Builder,
) -> (r: Result<ClientBuilder, Error>)
    requires
        builder.headers@.len() <= MAX_HEADERS,
    ensures
        match setup_error(proxy, builder.headers@) {
            Some(e) => r == Err::<ClientBuilder, Error>(e),
            None => r matches Ok(b) && builder_settings(b) == settings(proxy, *builder),
        },
{
    let mut result = new_client_builder();
    match proxy {
        Some(Ok(proxy)) => {
            result = set_proxy(result, proxy);
        },
        Some(Err(e)) => {
            return Err(Error::Reqwest(e));
        },
        None => {},
    }
    if let Some(timeout) = builder.timeout {
        result = set_timeout(result, timeout);
    }
    result = set_pool_max_idle_per_host(result, builder.max_connections);
    if builder.headers.len() > 0 {
        match header_map(&builder.headers) {
            Ok(map) => {
                proof {
                    lemma_entries_count(builder.headers@);
                    lemma_overridden_count(initial_settings().headers, entries(builder.headers@));
                }
                result = set_default_headers(result, map);
            },
            Err(e) => {
                return Err(e);
            },
        }
    } else {
        assert(overridden(initial_settings().headers, entries(builder.headers@))
            =~= initial_settings().headers);
    }
    assert(builder_settings(result).proxies =~= settings(proxy, *builder).proxies);
    Ok(result)
}

/// Overriding adds no more entries than there are overriding ones.
proof fn lemma_overridden_count(base: HeaderEntries, added: HeaderEntries)
    requires
        base.dom().finite(),
        added.dom().finite(),
    ensures
        overridden(base, added).dom().finite(),
        overridden(base, added).len() <= base.len() + added.len(),
{
    assert(overridden(base, added).dom() =~= base.dom() + added.dom());
    vstd::set_lib::lemma_len_union(base.dom(), added.dom());
}

/// The bytes under which a header goes. An ASCII name goes byte by byte, with 32
/// added to those of `A` to `Z`, and any other as its lowercase text is encoded.
pub proof fn law_header_key_is_lowercase(name: Seq<char>)
    ensures
        is_ascii_chars(name) ==> header_key(name).len() == name.len(),
        is_ascii_chars(name) ==> forall|i: int|
            0 <= i < name.len() ==> #[trigger] header_key(name)[i] == (if 'A' <= name[i] <= 'Z' {
                (name[i] as u8 + 32) as u8
            } else {
                name[i] as u8
            }),
        !is_ascii_chars(name) ==> header_key(name) == encode_utf8(lowercase_text(name)),
{
    if is_ascii_chars(name) {
        let lowered = ascii_lowered(name);
        assert(is_ascii_chars(lowered));
        is_ascii_chars_encode_utf8(lowered);
        assert forall|i: int| 0 <= i < name.len() implies #[trigger] header_key(name)[i] == (
        if 'A' <= name[i] <= 'Z' {
            (name[i] as u8 + 32) as u8
        } else {
            name[i] as u8
        }) by {
            assert(lowered[i] as u8 == encode_utf8(lowered)[i]);
            lemma_lowercase_byte(name[i]);
        }
    }
}

/// A lowercase ASCII letter as a byte.
proof fn lemma_lowercase_byte(c: char)
    requires
        c <= '\u{7f}',
    ensures
        ascii_lowercase(c) as u8 == (if 'A' <= c <= 'Z' {
            (c as u8 + 32) as u8
        } else {
            c as u8
        }),
{
}

/// A header is refused exactly if its name or its value is not allowed: for its
/// name, as it was given, where the name is not allowed, and else for its value,
/// as it was given.
pub proof fn law_refusal_names_what_was_given(key: Seq<u8>, header: (String, String))
    ensures
        refusal(key, header) is None <==> is_header_name(key) && is_header_value(
            encode_utf8(header.1@),
        ),
        !is_header_name(key) ==> refusal(key, header) == Some(
            Error::InvalidHttpHeaderName(header.0),
        ),
        is_header_name(key) && !is_header_value(encode_utf8(header.1@)) ==> refusal(key, header)
            == Some(Error::InvalidHttpHeaderValue(header.1)),
{
}

/// No header is refused exactly if every one of them has a name and a value that
/// are allowed.
pub proof fn law_no_refusal_is_all_allowed(headers: Seq<(String, String)>)
    ensures
        first_refusal(headers) is None <==> forall|i: int|
            0 <= i < headers.len() ==> is_header_name(header_key((#[trigger] headers[i]).0@))
                && is_header_value(encode_utf8(headers[i].1@)),
    decreases headers.len(),
{
    if headers.len() > 0 {
        let shorter = headers.drop_last();
        law_no_refusal_is_all_allowed(shorter);
        assert(headers.last() == headers[headers.len() - 1]);
        if first_refusal(shorter) is None && refusal(
            header_key(headers.last().0@),
            headers.last(),
        ) is None {
            assert forall|i: int| 0 <= i < headers.len() implies is_header_name(
                header_key((#[trigger] headers[i]).0@),
            ) && is_header_value(encode_utf8(headers[i].1@)) by {
                if i < shorter.len() {
                    assert(shorter[i] == headers[i]);
                }
            }
        }
        if forall|i: int|
            0 <= i < headers.len() ==> is_header_name(header_key((#[trigger] headers[i]).0@))
                && is_header_value(encode_utf8(headers[i].1@)) {
            assert forall|i: int| 0 <= i < shorter.len() implies is_header_name(
                header_key((#[trigger] shorter[i]).0@),
            ) && is_header_value(encode_utf8(shorter[i].1@)) by {
                assert(shorter[i] == headers[i]);
            }
        }
    }
}

/// The first header that is not allowed is the one that is refused, with its name
/// or value as it was given, whatever follows it.
pub proof fn law_first_refusal_is_the_first(headers: Seq<(String, String)>, n: int)
    requires
        0 <= n < headers.len(),
        forall|i: int|
            0 <= i < n ==> is_header_name(header_key((#[trigger] headers[i]).0@))
                && is_header_value(encode_utf8(headers[i].1@)),
        !(is_header_name(header_key(headers[n].0@)) && is_header_value(
            encode_utf8(headers[n].1@),
        )),
    ensures
        !is_header_name(header_key(headers[n].0@)) ==> first_refusal(headers) == Some(
            Error::InvalidHttpHeaderName(headers[n].0),
        ),
        is_header_name(header_key(headers[n].0@)) ==> first_refusal(headers) == Some(
            Error::InvalidHttpHeaderValue(headers[n].1),
        ),
{
    let allowed = headers.take(n);
    assert forall|i: int| 0 <= i < allowed.len() implies is_header_name(
        header_key((#[trigger] allowed[i]).0@),
    ) && is_header_value(encode_utf8(allowed[i].1@)) by {
        assert(allowed[i] == headers[i]);
    }
    law_no_refusal_is_all_allowed(allowed);
    assert(headers.take(n + 1).drop_last() =~= allowed);
    assert(headers.take(n + 1).last() == headers[n]);
    lemma_refusal_stays(headers, n + 1);
}

/// There is an entry under a name exactly if a header has that name.
pub proof fn law_every_header_has_an_entry(headers: Seq<(String, String)>, key: Seq<u8>)
    ensures
        entries(headers).contains_key(key) <==> exists|i: int|
            0 <= i < headers.len() && header_key(#[trigger] headers[i].0@) == key,
    decreases headers.len(),
{
    if entries(headers).contains_key(key) {
        lemma_entry_has_header(headers, key);
    }
    if exists|i: int| 0 <= i < headers.len() && header_key(#[trigger] headers[i].0@) == key {
        let i = choose|i: int| 0 <= i < headers.len() && header_key(#[trigger] headers[i].0@)
            == key;
        if i < headers.len() - 1 {
            assert(headers.drop_last()[i].0@ == headers[i].0@);
            law_every_header_has_an_entry(headers.drop_last(), key);
        } else {
            assert(headers.last() == headers[i]);
        }
    }
}

/// Why no client can be set up: a proxy that is refused comes first, whatever the
/// headers are, and otherwise the headers decide alone.
pub proof fn law_proxy_is_refused_first(
    builder: Builder,
    proxy: Proxy,
    error: ReqwestError,
    headers: Seq<(String, String)>,
)
    ensures
        setup_error(Some(Err(error)), headers) == Some(Error::Reqwest(error)),
        setup_error(Some(Ok(proxy)), headers) == first_refusal(headers),
        setup_error(None, headers) == first_refusal(headers),
        builder.proxy is None ==> proxy_of(builder) is None,
        builder.proxy matches Some(url) ==> proxy_of(builder) == Some(proxy_for_all(url@)),
{
}

/// A client is set up with the timeout and the number of connections that were
/// asked for. With a proxy it uses that one and no other, and without one it uses
/// the proxy of the system.
pub proof fn law_settings_are_those_asked_for(builder: Builder, proxy: Proxy)
    ensures
        settings(None, builder).timeout == builder.timeout,
        settings(Some(Ok(proxy)), builder).timeout == builder.timeout,
        settings(None, builder).pool_max_idle_per_host == builder.max_connections,
        settings(Some(Ok(proxy)), builder).pool_max_idle_per_host == builder.max_connections,
        settings(Some(Ok(proxy)), builder).proxies == seq![proxy],
        !settings(Some(Ok(proxy)), builder).system_proxy,
        settings(None, builder).proxies.len() == 0,
        settings(None, builder).system_proxy,
        settings(None, builder).headers == settings(Some(Ok(proxy)), builder).headers,
{
}

/// Every request carries each header that is not followed by another of its
/// name, with its value alone.
pub proof fn law_settings_hold_every_header(
    builder: Builder,
    proxy: Option<Result<Proxy, ReqwestError>>,
    i: int,
)
    requires
        0 <= i < builder.headers@.len(),
        forall|j: int|
            i < j < builder.headers@.len() ==> header_key(#[trigger] builder.headers@[j].0@)
                != header_key(builder.headers@[i].0@),
    ensures
        settings(proxy, builder).headers.contains_key(header_key(builder.headers@[i].0@)),
        settings(proxy, builder).headers[header_key(builder.headers@[i].0@)] == seq![
            encode_utf8(builder.headers@[i].1@),
        ],
{
    law_last_header_counts(builder.headers@, i);
    let values = entries(builder.headers@)[header_key(builder.headers@[i].0@)];
    assert(values.last() == encode_utf8(builder.headers@[i].1@));
}

/// A client to which no `accept` header is given accepts everything.
pub proof fn law_settings_accept_everything(
    builder: Builder,
    proxy: Option<Result<Proxy, ReqwestError>>,
)
    requires
        forall|i: int|
            0 <= i < builder.headers@.len() ==> header_key(#[trigger] builder.headers@[i].0@)
                != encode_utf8("accept"@),
    ensures
        settings(proxy, builder).headers.contains_key(encode_utf8("accept"@)),
        settings(proxy, builder).headers[encode_utf8("accept"@)] == seq![encode_utf8("*/*"@)],
{
    law_every_header_has_an_entry(builder.headers@, encode_utf8("accept"@));
}

} // verus!
