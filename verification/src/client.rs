//! The client: where its server is, and with what it asks.
use reqwest::Client;
use std::marker::PhantomData;
use vstd::prelude::*;

use crate::builder::{client_builder, proxy_of, settings, setup_error, Builder, MAX_HEADERS};
use crate::error::Error;
use crate::ext::http::{build_client, client_settings};
use crate::retry::{RetryState, DEFAULT_MAX_RETRIES};
use crate::sleeper::{DefaultSleeper, Sleeper};

verus! {

/// A client for an Esplora API server.
///
/// It says which request each endpoint takes, and what each response means.
/// Sending the requests is up to whoever holds it, with the HTTP client in it;
/// `S` says how to wait between two attempts.
pub struct AsyncClient<S = DefaultSleeper> {
    url: String,
    max_retries: usize,
    client: Client,
    marker: PhantomData<S>,
}

impl<S> AsyncClient<S> {
    /// The URL of the server.
    pub closed spec fn base_url(&self) -> Seq<char> {
        self.url@
    }

    /// How often a request is sent again.
    pub closed spec fn retry_limit(&self) -> nat {
        self.max_retries as nat
    }

    /// The HTTP client.
    pub closed spec fn http(&self) -> Client {
        self.client
    }
}

impl<S: Clone> Clone for AsyncClient<S> {
    fn clone(&self) -> (r: Self)
        ensures
            r.base_url() == self.base_url(),
            r.retry_limit() == self.retry_limit(),
            r.http() == self.http(),
    {
        AsyncClient {
            url: self.url.clone(),
            max_retries: self.max_retries,
            client: self.client.clone(),
            marker: PhantomData,
        }
    }
}

impl<S: Sleeper> AsyncClient<S> {
    /// A client that is set up as `builder` says.
    ///
    /// Where the proxy or a header is refused, that is the error. Otherwise the
    /// HTTP client decides, and what it decides is handed on. No request is
    /// made.
    pub fn from_builder(builder: Builder) -> (r: Result<Self, Error>)
        requires
            builder.headers@.len() <= MAX_HEADERS,
        ensures
            match setup_error(proxy_of(builder), builder.headers@) {
                Some(e) => r == Err::<Self, Error>(e),
                None => match r {
                    Ok(client) => {
                        &&& client.base_url() == builder.base_url@
                        &&& client.retry_limit() == builder.max_retries
                        &&& client_settings(client.http()) == settings(proxy_of(builder), builder)
                        &&& client_settings(client.http()).timeout == builder.timeout
                        &&& client_settings(client.http()).pool_max_idle_per_host
                            == builder.max_connections
                    },
                    Err(e) => e is Reqwest,
                },
            },
    {
        match client_builder(&builder) {
            Ok(http) => Self::from_built(builder.base_url, builder.max_retries, build_client(http)),
            Err(e) => Err(e),
        }
    }

    /// A client around an HTTP client, if one could be built.
    pub fn from_built(
        url: String,
        max_retries: usize,
        built: Result<Client, reqwest::Error>,
    ) -> (r: Result<Self, Error>)
        ensures
            match built {
                Ok(http) => r matches Ok(client) && client.base_url() == url@
                    && client.retry_limit() == max_retries && client.http() == http,
                Err(e) => r == Err::<Self, Error>(Error::Reqwest(e)),
            },
    {
        match built {
            Ok(client) => Ok(AsyncClient { url, max_retries, client, marker: PhantomData }),
            Err(e) => Err(Error::Reqwest(e)),
        }
    }

    /// A client around an HTTP client that was set up elsewhere.
    pub fn from_client(url: String, client: Client) -> (r: Self)
        ensures
            r.base_url() == url@,
            r.retry_limit() == DEFAULT_MAX_RETRIES,
            r.retry_limit() == 6,
            r.http() == client,
    {
        AsyncClient { url, max_retries: DEFAULT_MAX_RETRIES, client, marker: PhantomData }
    }

    /// The URL of the server, as it was given.
    pub fn url(&self) -> (url: &str)
        ensures
            url@ == self.base_url(),
    {
        self.url.as_str()
    }

    /// The HTTP client.
    pub fn client(&self) -> (client: &Client)
        ensures
            *client == self.http(),
    {
        &self.client
    }

    /// A request of this client that has not been sent yet.
    pub fn retry_state(&self) -> (state: RetryState)
        ensures
            state.spec_max_retries() == self.retry_limit(),
            state.spec_attempts() == 0,
    {
        RetryState::new(self.max_retries)
    }
}

} // verus!
