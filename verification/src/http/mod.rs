//! HTTP client configuration and the REST API modules.

pub mod questions;

use vstd::prelude::*;
use crate::client::HttpConfig;
use crate::duration::Duration;
use crate::error::OpencodeError;

verus! {

#[verifier::external_type_specification]
#[verifier::external_body]
pub struct ExReqwestClient(reqwest::Client);

#[verifier::external_type_specification]
#[verifier::external_body]
pub struct ExReqwestError(reqwest::Error);

/// `reqwest::Client` clones share one connection pool; nothing is claimed of
/// the copy.
pub assume_specification[ <reqwest::Client as Clone>::clone ](c: &reqwest::Client) -> reqwest::Client;

/// The total request timeout that a `reqwest::Client` applies to its
/// requests.
pub uninterp spec fn reqwest_client_timeout(c: reqwest::Client) -> Duration;

/// Builds a `reqwest::Client` with a total request timeout, through
/// `reqwest::Client::builder().timeout(..).build()`: a built client applies
/// `timeout` to its requests (`ClientBuilder::timeout` stores it, `build`
/// hands it to the client). Whether the build succeeds is not stated: the
/// crate fails when a TLS backend or the system resolver configuration
/// cannot be loaded.
#[verifier::external_body]
fn build_reqwest_client(timeout: Duration) -> (r: Result<reqwest::Client, reqwest::Error>)
    ensures
        r matches Ok(c) ==> reqwest_client_timeout(c) == timeout,
{
    let timeout = std::time::Duration::new(timeout.as_secs(), timeout.subsec_nanos());
    reqwest::Client::builder().timeout(timeout).build()
}

/// The message of a `reqwest::Error`, through its `Display` impl. Nothing is
/// claimed of the text.
#[verifier::external_body]
fn reqwest_error_text(e: &reqwest::Error) -> String {
    e.to_string()
}

/// HTTP client bound to one OpenCode server and directory.
#[derive(Clone)]
pub struct HttpClient {
    config: HttpConfig,
    client: reqwest::Client,
}

impl HttpClient {
    /// The settings the client was built with.
    pub closed spec fn spec_config(self) -> HttpConfig {
        self.config
    }

    /// The `reqwest` client that the requests go through.
    pub closed spec fn spec_client(self) -> reqwest::Client {
        self.client
    }

    /// Builds a client for the given settings, whose requests time out after
    /// `config.timeout`; fails with [`OpencodeError::InvalidConfig`] when the
    /// HTTP stack cannot be set up.
    pub fn new(config: HttpConfig) -> (r: Result<HttpClient, OpencodeError>)
        ensures
            r matches Ok(c) ==> c.spec_config() == config,
            r matches Ok(c) ==> reqwest_client_timeout(c.spec_client()) == config.timeout,
            r matches Err(e) ==> e is InvalidConfig,
    {
        match build_reqwest_client(config.timeout) {
            Ok(client) => Ok(HttpClient { config, client }),
            Err(e) => Err(OpencodeError::InvalidConfig(reqwest_error_text(&e))),
        }
    }

    /// The server base URL.
    pub fn base(&self) -> (r: &str)
        ensures
            r@ == self.spec_config().base_url@,
    {
        self.config.base_url.as_str()
    }

    /// The directory sent as `x-opencode-directory`, if any.
    pub fn directory(&self) -> (r: Option<&str>)
        ensures
            r matches Some(d) ==> self.spec_config().directory matches Some(e) && d@ == e@,
            r is None ==> self.spec_config().directory is None,
    {
        match &self.config.directory {
            Some(d) => Some(d.as_str()),
            None => None,
        }
    }

    /// The request timeout.
    pub fn timeout(&self) -> (r: Duration)
        ensures
            r == self.spec_config().timeout,
    {
        self.config.timeout
    }

    /// The underlying `reqwest` client: the one this client was built with.
    pub fn inner(&self) -> (r: &reqwest::Client)
        ensures
            *r == self.spec_client(),
    {
        &self.client
    }
}

} // verus!
