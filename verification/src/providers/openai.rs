//! OpenAI at `https://api.openai.com/v1`, an OpenAI-compatible provider that also offers text-to-speech.
use vstd::prelude::*;

use crate::providers::openai_compat::OpenAICompatClient;
use crate::text::{chars_of, IntoText};
use crate::types::request::ChatRequest;

verus! {

/// The default API root.
pub const OPENAI_BASE_URL: &'static str = "https://api.openai.com/v1";

/// A connection to OpenAI.
#[derive(Debug, Clone)]
pub struct OpenAIProvider {
    pub inner: OpenAICompatClient,
}

impl OpenAIProvider {
    /// A connection with the given API key to the default API root.
    pub fn new<K: IntoText>(api_key: K) -> (r: Self)
        ensures
            r.inner.api_key matches Some(k) && k@ == api_key.text_view(),
            r.inner.base_url@ == OPENAI_BASE_URL@,
    {
        OpenAIProvider { inner: OpenAICompatClient::with_key(api_key, OPENAI_BASE_URL) }
    }

    /// Override the API root; it is used as given.
    pub fn with_base_url<U: IntoText>(self, base_url: U) -> (r: Self)
        ensures
            r.inner.api_key == self.inner.api_key,
            r.inner.base_url@ == base_url.text_view(),
    {
        OpenAIProvider { inner: OpenAICompatClient { base_url: base_url.into_text(), ..self.inner } }
    }

    /// The provider's name.
    pub fn name(&self) -> (r: &'static str)
        ensures
            r@ == "openai"@,
    {
        "openai"
    }
}

/// Whether a model is one of OpenAI's o-series reasoning models: its name
/// is `o` followed by a digit (`o1`, `o3-mini`, `o4-mini`, ...).
pub open spec fn is_o_series(model: Seq<char>) -> bool {
    model.len() >= 2 && model[0] == 'o' && '0' <= model[1] && model[1] <= '9'
}

/// The token limits that OpenAI receives: `max_completion_tokens` when set,
/// and then no `max_tokens`; for an o-series model a bare `max_tokens` is
/// sent as `max_completion_tokens`; otherwise the limits as given.
pub open spec fn openai_limits(model: Seq<char>, max_tokens: Option<u32>, max_completion_tokens: Option<u32>) -> (
    Option<u32>,
    Option<u32>,
) {
    if max_completion_tokens is Some {
        (None, max_completion_tokens)
    } else if is_o_series(model) && max_tokens is Some {
        (None, max_tokens)
    } else {
        (max_tokens, max_completion_tokens)
    }
}

/// The request as OpenAI receives it: only the token limits change (see
/// [`openai_limits`]).
pub fn openai_request_body(request: ChatRequest) -> (r: ChatRequest)
    ensures
        r == (ChatRequest {
            max_tokens: openai_limits(request.model@, request.max_tokens, request.max_completion_tokens).0,
            max_completion_tokens: openai_limits(
                request.model@,
                request.max_tokens,
                request.max_completion_tokens,
            ).1,
            ..request
        }),
{
    if request.max_completion_tokens.is_some() {
        return ChatRequest { max_tokens: None, ..request };
    }
    let name = chars_of(request.model.as_str());
    let o_series = name.len() >= 2 && name[0] == 'o' && '0' <= name[1] && name[1] <= '9';
    if o_series && request.max_tokens.is_some() {
        let limit = request.max_tokens;
        ChatRequest { max_tokens: None, max_completion_tokens: limit, ..request }
    } else {
        request
    }
}

/// The OpenAI body never carries both token limits, and the limit that the
/// caller asked for is kept: the completion limit when set, else the plain
/// limit (moved to the completion limit for o-series models).
pub proof fn law_openai_sends_one_limit(model: Seq<char>, max_tokens: Option<u32>, max_completion_tokens: Option<u32>)
    ensures
        ({
            let (mt, mct) = openai_limits(model, max_tokens, max_completion_tokens);
            &&& !(mt is Some && mct is Some)
            &&& mt is Some || mct is Some <==> max_tokens is Some || max_completion_tokens is Some
            &&& max_completion_tokens is Some ==> mct == max_completion_tokens
            &&& max_completion_tokens is None ==> (if is_o_series(model) {
                mct == max_tokens && mt is None
            } else {
                mt == max_tokens && mct is None
            })
        }),
{
}

} // verus!
