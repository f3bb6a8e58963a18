//! OpenRouter at `https://openrouter.ai/api/v1`, an OpenAI-compatible
//! gateway with optional app attribution headers and a richer model
//! listing.
use vstd::prelude::*;

use crate::providers::openai_compat::{
    headers_view, optional_header_pairs, optional_headers, OpenAICompatClient,
};
use crate::text::IntoText;
use crate::types::model::ModelInfo;
use crate::vecs::reversed;

verus! {

/// The default API root.
pub const OPENROUTER_BASE_URL: &'static str = "https://openrouter.ai/api/v1";

/// An entry of OpenRouter's model listing.
#[derive(Debug, Clone)]
pub struct OpenRouterModel {
    pub id: String,
    pub name: Option<String>,
    pub context_length: Option<u32>,
}

/// A connection to OpenRouter.
#[derive(Debug, Clone)]
pub struct OpenRouterProvider {
    pub inner: OpenAICompatClient,
    /// Sent as `HTTP-Referer` when set.
    pub site_url: Option<String>,
    /// Sent as `X-Title` when set.
    pub site_name: Option<String>,
}

impl OpenRouterProvider {
    /// A connection with the given API key to the default API root, with no
    /// attribution headers.
    pub fn new<K: IntoText>(api_key: K) -> (r: Self)
        ensures
            r.inner.api_key matches Some(k) && k@ == api_key.text_view(),
            r.inner.base_url@ == OPENROUTER_BASE_URL@,
            r.site_url is None,
            r.site_name is None,
    {
        OpenRouterProvider {
            inner: OpenAICompatClient::with_key(api_key, OPENROUTER_BASE_URL),
            site_url: None,
            site_name: None,
        }
    }

    /// Override the API root; it is used as given.
    pub fn with_base_url<U: IntoText>(self, base_url: U) -> (r: Self)
        ensures
            r.inner.api_key == self.inner.api_key,
            r.inner.base_url@ == base_url.text_view(),
            r.site_url == self.site_url,
            r.site_name == self.site_name,
    {
        OpenRouterProvider {
            inner: OpenAICompatClient { base_url: base_url.into_text(), ..self.inner },
            ..self
        }
    }

    /// Set the site URL sent as `HTTP-Referer` (for OpenRouter rankings).
    pub fn site_url<U: IntoText>(self, url: U) -> (r: Self)
        ensures
            r.inner == self.inner,
            r.site_url matches Some(v) && v@ == url.text_view(),
            r.site_name == self.site_name,
    {
        OpenRouterProvider { site_url: Some(url.into_text()), ..self }
    }

    /// Set the site name sent as `X-Title`.
    pub fn site_name<N: IntoText>(self, name: N) -> (r: Self)
        ensures
            r.inner == self.inner,
            r.site_url == self.site_url,
            r.site_name matches Some(v) && v@ == name.text_view(),
    {
        OpenRouterProvider { site_name: Some(name.into_text()), ..self }
    }

    /// The provider's name.
    pub fn name(&self) -> (r: &'static str)
        ensures
            r@ == "openrouter"@,
    {
        "openrouter"
    }

    /// The attribution headers sent with each chat request: `HTTP-Referer`,
    /// then `X-Title`, each when set.
    pub fn extra_headers(&self) -> (r: Vec<(String, String)>)
        ensures
            headers_view(r@) == optional_headers(
                "HTTP-Referer"@,
                self.site_url,
                "X-Title"@,
                self.site_name,
            ),
    {
        optional_header_pairs("HTTP-Referer", &self.site_url, "X-Title", &self.site_name)
    }
}

/// `mi` is the model of a listing entry: shown by its name.
pub open spec fn openrouter_model(e: OpenRouterModel, mi: ModelInfo) -> bool {
    &&& mi.id == e.id
    &&& mi.owned_by is None
    &&& mi.context_length == e.context_length
    &&& mi.display_name == e.name
}

/// The models of an OpenRouter listing, in order.
pub fn models_from_openrouter(entries: Vec<OpenRouterModel>) -> (r: Vec<ModelInfo>)
    ensures
        r@.len() == entries@.len(),
        forall|i: int| 0 <= i < r@.len() ==> openrouter_model(entries@[i], #[trigger] r@[i]),
{
    let mut rest = reversed(entries);
    let mut out: Vec<ModelInfo> = Vec::new();
    while rest.len() > 0
        invariant
            rest@.len() + out@.len() == entries@.len(),
            forall|j: int| 0 <= j < rest@.len() ==> #[trigger] rest@[j] == entries@[entries@.len() - 1 - j],
            forall|i: int| 0 <= i < out@.len() ==> openrouter_model(entries@[i], #[trigger] out@[i]),
        decreases rest.len(),
    {
        let e = rest.pop().unwrap();
        out.push(
            ModelInfo { id: e.id, owned_by: None, context_length: e.context_length, display_name: e.name },
        );
    }
    out
}

} // verus!
