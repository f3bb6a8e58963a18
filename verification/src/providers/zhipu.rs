//! Zhipu AI (GLM) at `https://api.z.ai/api/paas/v4`, an OpenAI-compatible provider.
use vstd::prelude::*;

use crate::providers::openai_compat::OpenAICompatClient;
use crate::text::IntoText;

verus! {

/// The default API root.
pub const ZHIPU_BASE_URL: &'static str = "https://api.z.ai/api/paas/v4";

/// The API root for accounts in mainland China (BigModel).
pub const CHINA_BASE_URL: &'static str = "https://open.bigmodel.cn/api/paas/v4";

/// A connection to Zhipu AI (GLM).
#[derive(Debug, Clone)]
pub struct ZhipuProvider {
    pub inner: OpenAICompatClient,
}

impl ZhipuProvider {
    /// A connection with the given API key to the default API root.
    pub fn new<K: IntoText>(api_key: K) -> (r: Self)
        ensures
            r.inner.api_key matches Some(k) && k@ == api_key.text_view(),
            r.inner.base_url@ == ZHIPU_BASE_URL@,
    {
        ZhipuProvider { inner: OpenAICompatClient::with_key(api_key, ZHIPU_BASE_URL) }
    }

    /// Override the API root; it is used as given.
    pub fn with_base_url<U: IntoText>(self, base_url: U) -> (r: Self)
        ensures
            r.inner.api_key == self.inner.api_key,
            r.inner.base_url@ == base_url.text_view(),
    {
        ZhipuProvider { inner: OpenAICompatClient { base_url: base_url.into_text(), ..self.inner } }
    }

    /// The provider's name.
    pub fn name(&self) -> (r: &'static str)
        ensures
            r@ == "zhipu"@,
    {
        "zhipu"
    }
}

} // verus!
