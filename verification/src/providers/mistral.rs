//! Mistral AI at `https://api.mistral.ai/v1`, an OpenAI-compatible provider.
use vstd::prelude::*;

use crate::providers::openai_compat::OpenAICompatClient;
use crate::text::IntoText;

verus! {

/// The default API root.
pub const MISTRAL_BASE_URL: &'static str = "https://api.mistral.ai/v1";

/// A connection to Mistral AI.
#[derive(Debug, Clone)]
pub struct MistralProvider {
    pub inner: OpenAICompatClient,
}

impl MistralProvider {
    /// A connection with the given API key to the default API root.
    pub fn new<K: IntoText>(api_key: K) -> (r: Self)
        ensures
            r.inner.api_key matches Some(k) && k@ == api_key.text_view(),
            r.inner.base_url@ == MISTRAL_BASE_URL@,
    {
        MistralProvider { inner: OpenAICompatClient::with_key(api_key, MISTRAL_BASE_URL) }
    }

    /// Override the API root; it is used as given.
    pub fn with_base_url<U: IntoText>(self, base_url: U) -> (r: Self)
        ensures
            r.inner.api_key == self.inner.api_key,
            r.inner.base_url@ == base_url.text_view(),
    {
        MistralProvider { inner: OpenAICompatClient { base_url: base_url.into_text(), ..self.inner } }
    }

    /// The provider's name.
    pub fn name(&self) -> (r: &'static str)
        ensures
            r@ == "mistral"@,
    {
        "mistral"
    }
}

} // verus!
