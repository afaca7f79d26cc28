//! The client's configuration: credential, base URL, timeout and the shared
//! HTTP connection pool.
use vstd::prelude::*;
use core::time::Duration;
use crate::endpoints::AddressApi;
use crate::error::TelnyxError;

verus! {

#[verifier::external_type_specification]
#[verifier::external_body]
pub struct ExHttpClient(reqwest::Client);

/// Relies on core::time::Duration::from_secs, of which nothing is stated.
pub assume_specification[ core::time::Duration::from_secs ](secs: u64) -> Duration;

/// Relies on reqwest::ClientBuilder::timeout and build: a connection pool,
/// with TLS through rustls and its ring provider, whose requests time out
/// after `timeout`. Building can fail where the platform's HTTP backend
/// cannot start; nothing is stated of the result.
#[verifier::external_body]
fn http_client(timeout: Duration) -> (r: Result<reqwest::Client, reqwest::Error>) {
    reqwest::Client::builder().timeout(timeout).build()
}

/// The API root used when no base URL is configured.
pub const DEFAULT_BASE_URL: &'static str = "https://api.telnyx.com/v2";

/// The request timeout, in seconds, used when none is configured.
pub const DEFAULT_TIMEOUT_SECS: u64 = 30;

/// A configured client: every request carries its credential as a bearer
/// token and goes to a path under its base URL.
#[derive(Debug)]
pub struct TelnyxClient {
    pub http_client: reqwest::Client,
    pub api_key: String,
    pub base_url: String,
    pub timeout: Duration,
}

/// Builder for a [`TelnyxClient`].
#[derive(Debug)]
pub struct TenlyxClientBuilder {
    pub api_key: Option<String>,
    pub base_url: Option<String>,
    pub timeout: Option<Duration>,
}

impl Default for TenlyxClientBuilder {
    fn default() -> (r: Self)
        ensures
            r.api_key is None,
            r.base_url is None,
            r.timeout is None,
    {
        TenlyxClientBuilder { api_key: None, base_url: None, timeout: None }
    }
}

impl TenlyxClientBuilder {
    /// Sets the API key (required).
    pub fn api_key(self, key: String) -> (r: Self)
        ensures
            r.api_key == Some(key),
            r.base_url == self.base_url,
            r.timeout == self.timeout,
    {
        TenlyxClientBuilder { api_key: Some(key), ..self }
    }

    /// Sets the base URL (optional; the production API root by default).
    pub fn base_url(self, url: String) -> (r: Self)
        ensures
            r.api_key == self.api_key,
            r.base_url == Some(url),
            r.timeout == self.timeout,
    {
        TenlyxClientBuilder { base_url: Some(url), ..self }
    }

    /// Sets the request timeout (optional; 30 seconds by default).
    pub fn timeout(self, timeout: Duration) -> (r: Self)
        ensures
            r.api_key == self.api_key,
            r.base_url == self.base_url,
            r.timeout == Some(timeout),
    {
        TenlyxClientBuilder { timeout: Some(timeout), ..self }
    }

    /// Builds the client.
    ///
    /// Fails with a `Config` error when no API key was set, and with an `Http`
    /// error when the connection pool cannot be built.
    pub fn build(self) -> (r: Result<TelnyxClient, TelnyxError>)
        ensures
            self.api_key is None ==> (r matches Err(TelnyxError::Config(m)) && m@
                == "API key is required"@),
            self.api_key is Some ==> (r is Ok || r matches Err(TelnyxError::Http(_))),
            r matches Ok(c) ==> {
                &&& self.api_key == Some(c.api_key)
                &&& c.base_url@ == (match self.base_url {
                    Some(u) => u@,
                    None => DEFAULT_BASE_URL@,
                })
                &&& self.timeout matches Some(t) ==> c.timeout == t
            },
    {
        let api_key = match self.api_key {
            Some(k) => k,
            None => return Err(TelnyxError::Config("API key is required".to_string())),
        };
        let base_url = match self.base_url {
            Some(u) => u,
            None => DEFAULT_BASE_URL.to_string(),
        };
        let timeout = match self.timeout {
            Some(t) => t,
            None => Duration::from_secs(DEFAULT_TIMEOUT_SECS),
        };
        match http_client(timeout) {
            Ok(http_client) => Ok(TelnyxClient { http_client, api_key, base_url, timeout }),
            Err(e) => Err(TelnyxError::Http(e)),
        }
    }
}

impl TelnyxClient {
    /// A builder with nothing set.
    pub fn builder() -> (r: TenlyxClientBuilder)
        ensures
            r.api_key is None,
            r.base_url is None,
            r.timeout is None,
    {
        TenlyxClientBuilder::default()
    }

    /// The full URL of a path of the API.
    pub fn url_for(&self, path: &str) -> (r: String)
        ensures
            r@ == self.base_url@ + path@,
    {
        let mut url = self.base_url.clone();
        url.append(path);
        url
    }

    /// The address operations of this client.
    pub fn addresses(&self) -> (r: AddressApi<'_>)
        ensures
            r.client == self,
    {
        AddressApi::new(self)
    }
}

} // verus!
