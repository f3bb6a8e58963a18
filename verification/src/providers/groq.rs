//! Groq at `https://api.groq.com/openai/v1`, an OpenAI-compatible provider.
use vstd::prelude::*;

use crate::providers::openai_compat::OpenAICompatClient;
use crate::text::IntoText;

verus! {

/// The default API root.
pub const GROQ_BASE_URL: &'static str = "https://api.groq.com/openai/v1";

/// A connection to Groq.
#[derive(Debug, Clone)]
pub struct GroqProvider {
    pub inner: OpenAICompatClient,
}

impl GroqProvider {
    /// A connection with the given API key to the default API root.
    pub fn new<K: IntoText>(api_key: K) -> (r: Self)
        ensures
            r.inner.api_key matches Some(k) && k@ == api_key.text_view(),
            r.inner.base_url@ == GROQ_BASE_URL@,
    {
        GroqProvider { inner: OpenAICompatClient::with_key(api_key, GROQ_BASE_URL) }
    }

    /// Override the API root; it is used as given.
    pub fn with_base_url<U: IntoText>(self, base_url: U) -> (r: Self)
        ensures
            r.inner.api_key == self.inner.api_key,
            r.inner.base_url@ == base_url.text_view(),
    {
        GroqProvider { inner: OpenAICompatClient { base_url: base_url.into_text(), ..self.inner } }
    }

    /// The provider's name.
    pub fn name(&self) -> (r: &'static str)
        ensures
            r@ == "groq"@,
    {
        "groq"
    }
}

} // verus!
