//! Model listings.
use vstd::prelude::*;

use crate::text::IntoText;

verus! {

/// Information about a model available from a provider.
///
/// Only [`id`](ModelInfo::id) is guaranteed to be present; everything else
/// depends on what the provider returns.
#[derive(Debug, Clone)]
pub struct ModelInfo {
    /// The model identifier used in `ChatRequestBuilder::new`.
    pub id: String,
    /// Who owns or hosts this model (e.g. `"openai"`, `"meta"`, `"mistralai"`).
    pub owned_by: Option<String>,
    /// Maximum context window in tokens, if reported by the provider.
    pub context_length: Option<u32>,
    /// Human-readable display name, if available.
    pub display_name: Option<String>,
}

impl ModelInfo {
    pub fn new<I: IntoText>(id: I) -> (r: Self)
        ensures
            r.id@ == id.text_view(),
            r.owned_by is None,
            r.context_length is None,
            r.display_name is None,
    {
        ModelInfo { id: id.into_text(), owned_by: None, context_length: None, display_name: None }
    }

    /// The model described by one entry of an OpenAI-compatible `/models`
    /// listing.
    pub fn from_openai_entry(e: OpenAIModelEntry) -> (r: Self)
        ensures
            r.id == e.id,
            r.owned_by == e.owned_by,
            r.context_length is None,
            r.display_name is None,
    {
        ModelInfo { id: e.id, owned_by: e.owned_by, context_length: None, display_name: None }
    }
}

/// An OpenAI-compatible model list (`GET /models`), shared by OpenAI,
/// DeepSeek, Grok, Mistral, llama.cpp and the other compatible providers.
#[derive(Debug, Clone)]
pub struct OpenAIModelList {
    pub data: Vec<OpenAIModelEntry>,
}

/// One entry of an [`OpenAIModelList`].
#[derive(Debug, Clone)]
pub struct OpenAIModelEntry {
    pub id: String,
    pub owned_by: Option<String>,
}

impl From<OpenAIModelEntry> for ModelInfo {
    fn from(e: OpenAIModelEntry) -> (r: Self) {
        ModelInfo::from_openai_entry(e)
    }
}

impl vstd::std_specs::convert::FromSpecImpl<OpenAIModelEntry> for ModelInfo {
    open spec fn obeys_from_spec() -> bool {
        true
    }

    open spec fn from_spec(e: OpenAIModelEntry) -> Self {
        ModelInfo { id: e.id, owned_by: e.owned_by, context_length: None, display_name: None }
    }
}

/// The models of an OpenAI-compatible listing, in order.
pub fn models_from_openai_list(list: OpenAIModelList) -> (r: Vec<ModelInfo>)
    ensures
        r@.len() == list.data@.len(),
        forall|i: int|
            0 <= i < r@.len() ==> {
                &&& (#[trigger] r@[i]).id == list.data@[i].id
                &&& r@[i].owned_by == list.data@[i].owned_by
                &&& r@[i].context_length is None
                &&& r@[i].display_name is None
            },
{
    let ghost orig = list.data@;
    let mut data = list.data;
    let mut out: Vec<ModelInfo> = Vec::new();
    let mut rest: Vec<OpenAIModelEntry> = Vec::new();
    // Take the entries from the back, then restore their order.
    while data.len() > 0
        invariant
            rest@.len() + data@.len() == orig.len(),
            data@ == orig.subrange(0, data@.len() as int),
            forall|j: int| 0 <= j < rest@.len() ==> #[trigger] rest@[j] == orig[orig.len() - 1 - j],
        decreases data.len(),
    {
        let e = data.pop().unwrap();
        rest.push(e);
    }
    while rest.len() > 0
        invariant
            rest@.len() + out@.len() == orig.len(),
            forall|j: int| 0 <= j < rest@.len() ==> #[trigger] rest@[j] == orig[orig.len() - 1 - j],
            forall|i: int|
                0 <= i < out@.len() ==> {
                    &&& (#[trigger] out@[i]).id == orig[i].id
                    &&& out@[i].owned_by == orig[i].owned_by
                    &&& out@[i].context_length is None
                    &&& out@[i].display_name is None
                },
        decreases rest.len(),
    {
        let e = rest.pop().unwrap();
        out.push(ModelInfo::from_openai_entry(e));
    }
    out
}

} // verus!
