//! The Hermes Agent runtime through its OpenAI Responses-compatible API, by
//! default at `http://127.0.0.1:8642/v1`.
use vstd::prelude::*;

use crate::text::{concat2, trim_end_char, trim_end_matches_char, IntoText};
use crate::types::message::opt_str_view;

verus! {

/// The default API root.
pub const HERMES_BASE_URL: &'static str = "http://127.0.0.1:8642/v1";

/// The API key and root URL of a connection to a Hermes Agent runtime.
#[derive(Debug, Clone)]
pub struct HermesAgentProvider {
    pub api_key: Option<String>,
    pub base_url: String,
}

/// The bearer token of a connection: its API key, unless absent or empty.
pub open spec fn hermes_token(key: Option<String>) -> Option<Seq<char>> {
    match key {
        Some(k) => if k@.len() > 0 {
            Some(k@)
        } else {
            None
        },
        None => None,
    }
}

impl HermesAgentProvider {
    /// A connection with the given API key to the default API root.
    pub fn new<K: IntoText>(api_key: K) -> (r: Self)
        ensures
            r.api_key matches Some(k) && k@ == api_key.text_view(),
            r.base_url@ == HERMES_BASE_URL@,
    {
        HermesAgentProvider { api_key: Some(api_key.into_text()), base_url: String::from_str(HERMES_BASE_URL) }
    }

    /// A connection without an API key to the default API root.
    pub fn no_key() -> (r: Self)
        ensures
            r.api_key is None,
            r.base_url@ == HERMES_BASE_URL@,
    {
        HermesAgentProvider { api_key: None, base_url: String::from_str(HERMES_BASE_URL) }
    }

    /// Override the API root (the `/v1` root); it is stored as given.
    pub fn with_base_url<U: IntoText>(self, base_url: U) -> (r: Self)
        ensures
            r.api_key == self.api_key,
            r.base_url@ == base_url.text_view(),
    {
        HermesAgentProvider { base_url: base_url.into_text(), ..self }
    }

    /// The provider's name.
    pub fn name(&self) -> (r: &'static str)
        ensures
            r@ == "hermes-agent"@,
    {
        "hermes-agent"
    }

    /// `{base}/responses`, the root's trailing slashes removed.
    pub fn responses_url(&self) -> (r: String)
        ensures
            r@ == trim_end_char(self.base_url@, '/') + "/responses"@,
    {
        let b = trim_end_matches_char(self.base_url.as_str(), '/');
        concat2(b.as_str(), "/responses")
    }

    /// The bearer token that authenticates each request: the API key, when
    /// one is set and not empty.
    pub fn bearer_token(&self) -> (r: Option<&str>)
        ensures
            opt_str_view(r) == hermes_token(self.api_key),
    {
        match &self.api_key {
            Some(k) => if k.as_str().is_empty() {
                None
            } else {
                Some(k.as_str())
            },
            None => None,
        }
    }
}

} // verus!
