//! Laws on how a client is set up.
use reqwest::header::{HeaderMap, HeaderName, HeaderValue};
use reqwest::{Client, ClientBuilder, Error as ReqwestError, Proxy};
use vstd::prelude::*;
use vstd::utf8::encode_utf8;

use crate::builder::{
    client_builder, client_builder_with, header_key, header_map, header_parts,
    law_first_refusal_is_the_first, law_last_header_counts, law_no_refusal_is_all_allowed,
    law_settings_accept_everything, law_settings_hold_every_header, proxy_of, Builder,
};
use crate::client::AsyncClient;
use crate::error::Error;
use crate::ext::http::{
    builder_settings, client_settings, header_entries, header_name_bytes, header_value_bytes,
    is_header_name, is_header_value, proxy_for_all,
};
use crate::retry::RetryState;
use crate::sleeper::Sleeper;

verus! {

/// Whether every header has a name and a value that are allowed.
pub open spec fn all_allowed(headers: Seq<(String, String)>) -> bool {
    forall|i: int|
        0 <= i < headers.len() ==> is_header_name(header_key((#[trigger] headers[i]).0@))
            && is_header_value(encode_utf8(headers[i].1@))
}

/// The URL of a client is the exact text that its builder was made with, and a
/// client that is set up with nothing out of the ordinary makes six retries.
pub proof fn law_url_is_what_the_builder_was_given<S: Sleeper>(
    given: &str,
    builder: Builder,
    client: AsyncClient<S>,
    url: &str,
    state: RetryState,
)
    requires
        call_ensures(Builder::new, (given,), builder),
        call_ensures(AsyncClient::<S>::from_builder, (builder,), Ok(client)),
        call_ensures(AsyncClient::<S>::url, (&client,), url),
        call_ensures(AsyncClient::<S>::retry_state, (&client,), state),
    ensures
        url@ == given@,
        state.spec_max_retries() == 6,
        state.spec_attempts() == 0,
{
}

/// A client that is set up from a builder has the URL and the retries of the
/// builder, and the HTTP client in it has the timeout and the connections of the
/// builder.
pub proof fn law_client_is_set_up_as_asked<S: Sleeper>(
    builder: Builder,
    client: AsyncClient<S>,
    url: &str,
    http: &Client,
    state: RetryState,
)
    requires
        call_ensures(AsyncClient::<S>::from_builder, (builder,), Ok(client)),
        call_ensures(AsyncClient::<S>::url, (&client,), url),
        call_ensures(AsyncClient::<S>::client, (&client,), http),
        call_ensures(AsyncClient::<S>::retry_state, (&client,), state),
    ensures
        url@ == builder.base_url@,
        state.spec_max_retries() == builder.max_retries,
        state.spec_attempts() == 0,
        client_settings(*http).timeout == builder.timeout,
        client_settings(*http).pool_max_idle_per_host == builder.max_connections,
        builder.proxy is None ==> client_settings(*http).proxies.len() == 0 && client_settings(
            *http,
        ).system_proxy,
        builder.proxy matches Some(proxy) ==> (proxy_for_all(proxy@) matches Ok(used)
            && client_settings(*http).proxies == seq![used] && !client_settings(
            *http,
        ).system_proxy),
        all_allowed(builder.headers@),
{
    law_no_refusal_is_all_allowed(builder.headers@);
}

/// Every request of a client carries each header of its builder that is not
/// followed by another of its name, with its value alone.
pub proof fn law_client_carries_the_headers<S: Sleeper>(
    builder: Builder,
    client: AsyncClient<S>,
    http: &Client,
    i: int,
)
    requires
        call_ensures(AsyncClient::<S>::from_builder, (builder,), Ok(client)),
        call_ensures(AsyncClient::<S>::client, (&client,), http),
        0 <= i < builder.headers@.len(),
        forall|j: int|
            i < j < builder.headers@.len() ==> header_key(#[trigger] builder.headers@[j].0@)
                != header_key(builder.headers@[i].0@),
    ensures
        client_settings(*http).headers.contains_key(header_key(builder.headers@[i].0@)),
        client_settings(*http).headers[header_key(builder.headers@[i].0@)] == seq![
            encode_utf8(builder.headers@[i].1@),
        ],
{
    law_settings_hold_every_header(builder, proxy_of(builder), i);
}

/// A client that is given no `accept` header accepts everything.
pub proof fn law_client_accepts_everything<S: Sleeper>(
    builder: Builder,
    client: AsyncClient<S>,
    http: &Client,
)
    requires
        call_ensures(AsyncClient::<S>::from_builder, (builder,), Ok(client)),
        call_ensures(AsyncClient::<S>::client, (&client,), http),
        forall|i: int|
            0 <= i < builder.headers@.len() ==> header_key(#[trigger] builder.headers@[i].0@)
                != encode_utf8("accept"@),
    ensures
        client_settings(*http).headers[encode_utf8("accept"@)] == seq![encode_utf8("*/*"@)],
{
    law_settings_accept_everything(builder, proxy_of(builder));
}

/// Why no client is set up: a proxy that is refused is the error, whatever the
/// headers are, and otherwise the first header that is not allowed is, by its name
/// or else by its value, as it was given.
pub proof fn law_client_is_refused_for_a_reason<S: Sleeper>(
    builder: Builder,
    r: Result<AsyncClient<S>, Error>,
    n: int,
)
    requires
        call_ensures(AsyncClient::<S>::from_builder, (builder,), r),
        0 <= n < builder.headers@.len(),
        all_allowed(builder.headers@.take(n)),
        !(is_header_name(header_key(builder.headers@[n].0@)) && is_header_value(
            encode_utf8(builder.headers@[n].1@),
        )),
    ensures
        builder.proxy matches Some(url) ==> proxy_for_all(url@) matches Err(e) ==> r == Err::<
            AsyncClient<S>,
            Error,
        >(Error::Reqwest(e)),
        (builder.proxy matches Some(url) ==> proxy_for_all(url@) is Ok) && !is_header_name(
            header_key(builder.headers@[n].0@),
        ) ==> r == Err::<AsyncClient<S>, Error>(
            Error::InvalidHttpHeaderName(builder.headers@[n].0),
        ),
        (builder.proxy matches Some(url) ==> proxy_for_all(url@) is Ok) && is_header_name(
            header_key(builder.headers@[n].0@),
        ) ==> r == Err::<AsyncClient<S>, Error>(
            Error::InvalidHttpHeaderValue(builder.headers@[n].1),
        ),
{
    lemma_allowed_before(builder.headers@, n);
    law_first_refusal_is_the_first(builder.headers@, n);
}

/// What is allowed in the first headers is allowed in each of them.
proof fn lemma_allowed_before(headers: Seq<(String, String)>, n: int)
    requires
        0 <= n <= headers.len(),
        all_allowed(headers.take(n)),
    ensures
        forall|i: int|
            0 <= i < n ==> is_header_name(header_key((#[trigger] headers[i]).0@))
                && is_header_value(encode_utf8(headers[i].1@)),
{
    assert forall|i: int| 0 <= i < n implies is_header_name(header_key((#[trigger] headers[i]).0@))
        && is_header_value(encode_utf8(headers[i].1@)) by {
        assert(headers.take(n)[i] == headers[i]);
    }
}

/// A client around an HTTP client keeps it, and its URL, as they were given. One
/// that was set up elsewhere makes six retries.
pub proof fn law_given_client_is_kept<S: Sleeper + Clone>(
    url: String,
    http: Client,
    max_retries: usize,
    error: ReqwestError,
    client: AsyncClient<S>,
    kept: &Client,
    shown: &str,
    state: RetryState,
    copy: AsyncClient<S>,
    built: Result<AsyncClient<S>, Error>,
    unbuilt: Result<AsyncClient<S>, Error>,
)
    requires
        call_ensures(AsyncClient::<S>::from_client, (url, http), client),
        call_ensures(AsyncClient::<S>::client, (&client,), kept),
        call_ensures(AsyncClient::<S>::url, (&client,), shown),
        call_ensures(AsyncClient::<S>::retry_state, (&client,), state),
        call_ensures(AsyncClient::<S>::clone, (&client,), copy),
        call_ensures(AsyncClient::<S>::from_built, (url, max_retries, Ok(http)), built),
        call_ensures(AsyncClient::<S>::from_built, (url, max_retries, Err(error)), unbuilt),
    ensures
        *kept == http,
        shown@ == url@,
        state.spec_max_retries() == 6,
        copy.base_url() == client.base_url() && copy.http() == client.http() && copy.retry_limit()
            == client.retry_limit(),
        built matches Ok(c) && c.base_url() == url@ && c.http() == http && c.retry_limit()
            == max_retries,
        unbuilt == Err::<AsyncClient<S>, Error>(Error::Reqwest(error)),
{
}

/// Headers make a map exactly if all of them are allowed. It holds each one that
/// is not followed by another of its name, with its value alone.
pub proof fn law_header_map_holds_the_headers(
    headers: &Vec<(String, String)>,
    r: Result<HeaderMap<HeaderValue>, Error>,
    i: int,
)
    requires
        call_ensures(header_map, (headers,), r),
        0 <= i < headers@.len(),
        forall|j: int|
            i < j < headers@.len() ==> header_key(#[trigger] headers@[j].0@) != header_key(
                headers@[i].0@,
            ),
    ensures
        r is Ok <==> all_allowed(headers@),
        r matches Ok(map) ==> header_entries(map).contains_key(header_key(headers@[i].0@))
            && header_entries(map)[header_key(headers@[i].0@)] == seq![
            encode_utf8(headers@[i].1@),
        ],
{
    law_no_refusal_is_all_allowed(headers@);
    law_last_header_counts(headers@, i);
}

/// A header goes under the name that it is given in lowercase, with its value, or
/// is refused for the one or the other as it was given.
pub proof fn law_header_parts_are_those_given(
    lowered: &str,
    header: &(String, String),
    r: Result<(HeaderName, HeaderValue), Error>,
)
    requires
        call_ensures(header_parts, (lowered, header), r),
    ensures
        !is_header_name(encode_utf8(lowered@)) ==> r == Err::<(HeaderName, HeaderValue), Error>(
            Error::InvalidHttpHeaderName(header.0),
        ),
        is_header_name(encode_utf8(lowered@)) && !is_header_value(encode_utf8(header.1@)) ==> r
            == Err::<(HeaderName, HeaderValue), Error>(Error::InvalidHttpHeaderValue(header.1)),
        is_header_name(encode_utf8(lowered@)) && is_header_value(encode_utf8(header.1@)) ==> (
        r matches Ok(parts) && header_name_bytes(parts.0) == encode_utf8(lowered@)
            && header_value_bytes(parts.1) == encode_utf8(header.1@)),
{
}

/// The builder of an HTTP client is set up with the timeout, the connections and
/// the proxy that were asked for, if all headers are allowed.
pub proof fn law_http_client_is_set_up_as_asked(
    builder: &Builder,
    proxy: Proxy,
    error: ReqwestError,
    plain: Result<ClientBuilder, Error>,
    proxied: Result<ClientBuilder, Error>,
    refused: Result<ClientBuilder, Error>,
    whole: Result<ClientBuilder, Error>,
)
    requires
        call_ensures(client_builder_with, (None, builder), plain),
        call_ensures(client_builder_with, (Some(Ok(proxy)), builder), proxied),
        call_ensures(client_builder_with, (Some(Err(error)), builder), refused),
        call_ensures(client_builder, (builder,), whole),
    ensures
        plain is Ok <==> all_allowed(builder.headers@),
        proxied is Ok <==> all_allowed(builder.headers@),
        refused == Err::<ClientBuilder, Error>(Error::Reqwest(error)),
        plain matches Ok(b) ==> builder_settings(b).timeout == builder.timeout && builder_settings(
            b,
        ).pool_max_idle_per_host == builder.max_connections && builder_settings(b).system_proxy
            && builder_settings(b).proxies.len() == 0,
        proxied matches Ok(b) ==> builder_settings(b).timeout == builder.timeout
            && builder_settings(b).pool_max_idle_per_host == builder.max_connections
            && !builder_settings(b).system_proxy && builder_settings(b).proxies == seq![proxy],
        whole is Ok <==> all_allowed(builder.headers@) && (builder.proxy matches Some(url)
            ==> proxy_for_all(url@) is Ok),
        whole matches Ok(b) ==> builder_settings(b).timeout == builder.timeout && builder_settings(
            b,
        ).pool_max_idle_per_host == builder.max_connections,
{
    law_no_refusal_is_all_allowed(builder.headers@);
}

} // verus!
