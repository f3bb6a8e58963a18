//! A local llama.cpp server (`llama-server`), OpenAI-compatible, by default
//! at `http://localhost:8080/v1` and without an API key.
use vstd::prelude::*;

use crate::providers::openai_compat::OpenAICompatClient;
use crate::text::{concat2, trim_end_char, trim_end_matches_char, IntoText};

verus! {

/// The default API root.
pub const LLAMACPP_BASE_URL: &'static str = "http://localhost:8080/v1";

/// A connection to a llama.cpp server.
#[derive(Debug, Clone)]
pub struct LlamaCppProvider {
    pub inner: OpenAICompatClient,
}

impl LlamaCppProvider {
    /// A connection to the default local server, without an API key.
    pub fn new() -> (r: Self)
        ensures
            r.inner.api_key is None,
            r.inner.base_url@ == LLAMACPP_BASE_URL@,
    {
        LlamaCppProvider { inner: OpenAICompatClient::no_key(LLAMACPP_BASE_URL) }
    }

    /// Point at another server, given by its address (e.g.
    /// `http://gpu-box:8080`): `/v1` is appended after the trailing slashes
    /// are removed.
    pub fn with_base_url<U: IntoText>(self, base_url: U) -> (r: Self)
        ensures
            r.inner.api_key == self.inner.api_key,
            r.inner.base_url@ == trim_end_char(base_url.text_view(), '/') + "/v1"@,
    {
        let b = base_url.into_text();
        let trimmed = trim_end_matches_char(b.as_str(), '/');
        LlamaCppProvider {
            inner: OpenAICompatClient { base_url: concat2(trimmed.as_str(), "/v1"), ..self.inner },
        }
    }

    /// The provider's name.
    pub fn name(&self) -> (r: &'static str)
        ensures
            r@ == "llamacpp"@,
    {
        "llamacpp"
    }
}

impl Default for LlamaCppProvider {
    fn default() -> (r: Self)
        ensures
            r.inner.api_key is None,
            r.inner.base_url@ == LLAMACPP_BASE_URL@,
    {
        Self::new()
    }
}

} // verus!
