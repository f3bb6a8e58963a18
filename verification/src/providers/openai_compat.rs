//! The connection settings shared by the OpenAI-compatible providers (API
//! key and root URL) with their endpoint URLs, and the handling of the
//! payloads of an OpenAI-compatible stream.
use vstd::prelude::*;

use crate::error::BaochuanError;
use crate::providers::sse::opt_view;
use crate::text::{concat2, IntoText};
use crate::types::message::opt_str_view;
use crate::types::request::ChatRequest;
use crate::types::response::StreamChunk;

verus! {

/// API key and root URL of an OpenAI-compatible endpoint.
#[derive(Debug, Clone)]
pub struct OpenAICompatClient {
    /// Sent as a bearer token when present.
    pub api_key: Option<String>,
    pub base_url: String,
}

impl OpenAICompatClient {
    /// Settings with a required API key.
    pub fn with_key<K: IntoText, U: IntoText>(api_key: K, base_url: U) -> (r: Self)
        ensures
            r.api_key matches Some(k) && k@ == api_key.text_view(),
            r.base_url@ == base_url.text_view(),
    {
        OpenAICompatClient { api_key: Some(api_key.into_text()), base_url: base_url.into_text() }
    }

    /// Settings with no API key (e.g. llama.cpp, local LM Studio without
    /// auth).
    pub fn no_key<U: IntoText>(base_url: U) -> (r: Self)
        ensures
            r.api_key is None,
            r.base_url@ == base_url.text_view(),
    {
        OpenAICompatClient { api_key: None, base_url: base_url.into_text() }
    }

    /// The bearer token that authenticates each request: the API key, when
    /// one is set.
    pub fn bearer_token(&self) -> (r: Option<&str>)
        ensures
            opt_str_view(r) == opt_view(self.api_key),
    {
        match &self.api_key {
            Some(k) => Some(k.as_str()),
            None => None,
        }
    }

    /// `{base}/chat/completions`.
    pub fn chat_url(&self) -> (r: String)
        ensures
            r@ == self.base_url@ + "/chat/completions"@,
    {
        concat2(self.base_url.as_str(), "/chat/completions")
    }

    /// `{base}/models`.
    pub fn models_url(&self) -> (r: String)
        ensures
            r@ == self.base_url@ + "/models"@,
    {
        concat2(self.base_url.as_str(), "/models")
    }

    /// `{base}/audio/speech`.
    pub fn tts_url(&self) -> (r: String)
        ensures
            r@ == self.base_url@ + "/audio/speech"@,
    {
        concat2(self.base_url.as_str(), "/audio/speech")
    }
}

/// The body of a streaming chat request: the request itself with `stream`
/// set.
pub fn streaming_request(request: ChatRequest) -> (r: ChatRequest)
    ensures
        r == (ChatRequest { stream: true, ..request }),
{
    ChatRequest { stream: true, ..request }
}

/// One payload of an OpenAI-compatible stream, given its parse as a chunk
/// (or the parser's error message): the chunk itself, or a stream error.
pub fn openai_chunk_result(parsed: Result<StreamChunk, String>) -> (r: Result<StreamChunk, BaochuanError>)
    ensures
        parsed is Ok ==> r == Ok::<StreamChunk, BaochuanError>(parsed->Ok_0),
        parsed matches Err(e) ==> (r matches Err(BaochuanError::Stream(m)) && m@
            == "failed to parse chunk: "@ + e@),
{
    match parsed {
        Ok(c) => Ok(c),
        Err(e) => Err(BaochuanError::Stream(concat2("failed to parse chunk: ", e.as_str()))),
    }
}

/// Whether an HTTP status code is a success (200 to 299).
pub fn is_success_status(status: u16) -> (r: bool)
    ensures
        r == (200 <= status && status <= 299),
{
    200 <= status && status <= 299
}

/// The error for a reply whose HTTP status is not a success: an API error
/// carrying the status and the reply's body.
pub fn api_status_error(status: u16, body: String) -> (r: BaochuanError)
    ensures
        r == (BaochuanError::Api { status, message: body }),
{
    BaochuanError::Api { status, message: body }
}

/// The error of a provider that offers no text-to-speech:
/// `<name> does not support text-to-speech`.
pub fn tts_unsupported(name: &str) -> (r: BaochuanError)
    ensures
        r matches BaochuanError::InvalidRequest(m) && m@ == name@ + " does not support text-to-speech"@,
{
    BaochuanError::InvalidRequest(concat2(name, " does not support text-to-speech"))
}

/// The texts of a list of HTTP header (name, value) pairs.
pub open spec fn headers_view(v: Seq<(String, String)>) -> Seq<(Seq<char>, Seq<char>)> {
    v.map_values(|h: (String, String)| (h.0@, h.1@))
}

/// The header pairs for the optional values, in order: `(name_a, a)` when
/// `a` is set, then `(name_b, b)` when `b` is set.
pub open spec fn optional_headers(
    name_a: Seq<char>,
    a: Option<String>,
    name_b: Seq<char>,
    b: Option<String>,
) -> Seq<(Seq<char>, Seq<char>)> {
    let first: Seq<(Seq<char>, Seq<char>)> = match a {
        Some(v) => seq![(name_a, v@)],
        None => Seq::empty(),
    };
    match b {
        Some(v) => first.push((name_b, v@)),
        None => first,
    }
}

/// The header pairs for two optional values (see [`optional_headers`]).
pub fn optional_header_pairs(name_a: &str, a: &Option<String>, name_b: &str, b: &Option<String>) -> (r:
    Vec<(String, String)>)
    ensures
        headers_view(r@) == optional_headers(name_a@, *a, name_b@, *b),
{
    let mut out: Vec<(String, String)> = Vec::new();
    match a {
        Some(v) => {
            out.push((String::from_str(name_a), v.clone()));
        },
        None => {},
    }
    let ghost first = headers_view(out@);
    match b {
        Some(v) => {
            out.push((String::from_str(name_b), v.clone()));
            assert(headers_view(out@) =~= first.push((name_b@, v@)));
        },
        None => {},
    }
    assert(headers_view(out@) =~= optional_headers(name_a@, *a, name_b@, *b));
    out
}

} // verus!
