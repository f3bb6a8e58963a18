//! A local LM Studio server through its native `/api/v0` API (OpenAI
//! compatible for chat), by default at `http://localhost:1234/api/v0` and
//! without an API key, with its richer model listing.
use vstd::prelude::*;

use crate::providers::openai_compat::OpenAICompatClient;
use crate::providers::sse::opt_view;
use crate::text::{concat2, concat3, trim_end_char, trim_end_matches_char, IntoText};
use crate::types::model::ModelInfo;
use crate::vecs::reversed;

verus! {

/// The default API root.
pub const LMSTUDIO_BASE_URL: &'static str = "http://localhost:1234/api/v0";

/// An entry of LM Studio's native model listing.
#[derive(Debug, Clone)]
pub struct LmsModel {
    pub id: String,
    pub publisher: Option<String>,
    pub arch: Option<String>,
    pub quantization: Option<String>,
    pub max_context_length: Option<u32>,
}

/// A connection to an LM Studio server.
#[derive(Debug, Clone)]
pub struct LmStudioProvider {
    pub inner: OpenAICompatClient,
}

impl LmStudioProvider {
    /// A connection to the default local server, without an API key.
    pub fn new() -> (r: Self)
        ensures
            r.inner.api_key is None,
            r.inner.base_url@ == LMSTUDIO_BASE_URL@,
    {
        LmStudioProvider { inner: OpenAICompatClient::no_key(LMSTUDIO_BASE_URL) }
    }

    /// Point at another server, given by its address (e.g.
    /// `http://192.168.1.10:1234`): `/api/v0` is appended after the trailing
    /// slashes are removed.
    pub fn with_base_url<U: IntoText>(self, base_url: U) -> (r: Self)
        ensures
            r.inner.api_key == self.inner.api_key,
            r.inner.base_url@ == trim_end_char(base_url.text_view(), '/') + "/api/v0"@,
    {
        let b = base_url.into_text();
        let trimmed = trim_end_matches_char(b.as_str(), '/');
        LmStudioProvider {
            inner: OpenAICompatClient { base_url: concat2(trimmed.as_str(), "/api/v0"), ..self.inner },
        }
    }

    /// Set an API key (when the server requires authentication).
    pub fn with_api_key<K: IntoText>(self, key: K) -> (r: Self)
        ensures
            r.inner.api_key matches Some(k) && k@ == key.text_view(),
            r.inner.base_url == self.inner.base_url,
    {
        LmStudioProvider {
            inner: OpenAICompatClient { api_key: Some(key.into_text()), ..self.inner },
        }
    }

    /// The provider's name.
    pub fn name(&self) -> (r: &'static str)
        ensures
            r@ == "lmstudio"@,
    {
        "lmstudio"
    }
}

impl Default for LmStudioProvider {
    fn default() -> (r: Self)
        ensures
            r.inner.api_key is None,
            r.inner.base_url@ == LMSTUDIO_BASE_URL@,
    {
        Self::new()
    }
}

/// The display name of an LM Studio model: `"<arch> · <quantization>"`, or
/// the architecture alone.
pub open spec fn lms_display(arch: Option<String>, quantization: Option<String>) -> Option<Seq<char>> {
    match (arch, quantization) {
        (Some(a), Some(q)) => Some(a@ + " · "@ + q@),
        (Some(a), None) => Some(a@),
        _ => None,
    }
}

/// `mi` is the model of a listing entry: owned by its publisher.
pub open spec fn lms_model(e: LmsModel, mi: ModelInfo) -> bool {
    &&& mi.id == e.id
    &&& mi.owned_by == e.publisher
    &&& mi.context_length == e.max_context_length
    &&& opt_view(mi.display_name) == lms_display(e.arch, e.quantization)
}

/// The models of an LM Studio listing, in order.
pub fn models_from_lmstudio(entries: Vec<LmsModel>) -> (r: Vec<ModelInfo>)
    ensures
        r@.len() == entries@.len(),
        forall|i: int| 0 <= i < r@.len() ==> lms_model(entries@[i], #[trigger] r@[i]),
{
    let mut rest = reversed(entries);
    let mut out: Vec<ModelInfo> = Vec::new();
    while rest.len() > 0
        invariant
            rest@.len() + out@.len() == entries@.len(),
            forall|j: int| 0 <= j < rest@.len() ==> #[trigger] rest@[j] == entries@[entries@.len() - 1 - j],
            forall|i: int| 0 <= i < out@.len() ==> lms_model(entries@[i], #[trigger] out@[i]),
        decreases rest.len(),
    {
        let e = rest.pop().unwrap();
        let display = match (&e.arch, &e.quantization) {
            (Some(a), Some(q)) => Some(concat3(a.as_str(), " · ", q.as_str())),
            (Some(a), None) => Some(a.clone()),
            _ => None,
        };
        out.push(
            ModelInfo {
                id: e.id,
                owned_by: e.publisher,
                context_length: e.max_context_length,
                display_name: display,
            },
        );
    }
    out
}

} // verus!
