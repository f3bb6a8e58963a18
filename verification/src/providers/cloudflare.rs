//! Cloudflare Workers AI through its native `/ai/run/` API: the account's
//! URLs, request and response conversion, the response envelope, the
//! streamed chunks and the model search listing.
use vstd::prelude::*;

use crate::error::BaochuanError;
use crate::providers::convert::{join, lemma_join_push};
use crate::text::{concat2, copy_opt, u64_to_decimal, IntoText};
use crate::types::message::{content_text, is_plain_message, role_name, ChatMessage, Role};
use crate::types::model::ModelInfo;
use crate::types::request::ChatRequest;
use crate::types::response::{simple_chunk, ChatChoice, ChatResponse, StreamChunk};
use crate::vecs::reversed;

verus! {

/// The default API root.
pub const CLOUDFLARE_BASE_URL: &'static str = "https://api.cloudflare.com/client/v4";

/// A `/ai/run/{model}` request body.
#[derive(Debug, Clone)]
pub struct CfChatRequest {
    pub messages: Vec<CfMessage>,
    /// Sent only when set.
    pub stream: bool,
    pub max_tokens: Option<u32>,
    /// As the bit pattern of an `f32`.
    pub temperature: Option<u32>,
}

/// A message in Cloudflare's format: a role name and plain text.
#[derive(Debug, Clone)]
pub struct CfMessage {
    pub role: String,
    pub content: String,
}

/// The envelope of a non-streaming `/ai/run/` response.
#[derive(Debug, Clone)]
pub struct CfResponse {
    pub result: Option<CfChatResult>,
    pub success: bool,
    pub errors: Vec<CfError>,
}

/// One error of an envelope.
#[derive(Debug, Clone)]
pub struct CfError {
    pub message: String,
}

/// The result of a text-generation run.
#[derive(Debug, Clone)]
pub struct CfChatResult {
    pub response: String,
}

/// One payload of a streamed run.
#[derive(Debug, Clone)]
pub struct CfStreamChunkData {
    pub response: Option<String>,
}

/// An entry of the model search listing.
#[derive(Debug, Clone)]
pub struct CfModel {
    pub id: String,
    pub description: Option<String>,
    pub task: Option<CfModelTask>,
}

/// The task a model performs.
#[derive(Debug, Clone)]
pub struct CfModelTask {
    pub name: String,
}

/// `cm` is the Cloudflare message of `m`: its role name and its text.
pub open spec fn cf_message(m: ChatMessage, cm: CfMessage) -> bool {
    &&& cm.role@ == role_name(m.role)
    &&& cm.content@ == content_text(m.content)
}

/// The Cloudflare messages of a conversation, one for each message, in order.
pub fn to_cf_messages(messages: &Vec<ChatMessage>) -> (r: Vec<CfMessage>)
    ensures
        r@.len() == messages@.len(),
        forall|i: int| 0 <= i < r@.len() ==> cf_message(messages@[i], #[trigger] r@[i]),
{
    let mut out: Vec<CfMessage> = Vec::new();
    let mut i: usize = 0;
    while i < messages.len()
        invariant
            0 <= i <= messages.len(),
            out@.len() == i,
            forall|j: int| 0 <= j < i ==> cf_message(messages@[j], #[trigger] out@[j]),
        decreases messages.len() - i,
    {
        let m = &messages[i];
        out.push(CfMessage { role: m.role.to_string(), content: m.content.to_text_lossy() });
        i = i + 1;
    }
    out
}

/// The `/ai/run/` body of a chat request.
pub fn to_cf_request(request: &ChatRequest, stream: bool) -> (r: CfChatRequest)
    ensures
        r.messages@.len() == request.messages@.len(),
        forall|i: int|
            0 <= i < r.messages@.len() ==> cf_message(request.messages@[i], #[trigger] r.messages@[i]),
        r.stream == stream,
        r.max_tokens == request.max_tokens,
        r.temperature == request.temperature,
{
    CfChatRequest {
        messages: to_cf_messages(&request.messages),
        stream,
        max_tokens: request.max_tokens,
        temperature: request.temperature,
    }
}

/// `r` is the unified response of a run's result: no id, the requested
/// model, one assistant choice holding the generated text, finished (`stop`).
pub open spec fn cf_chat_response(result: CfChatResult, model: Seq<char>, r: ChatResponse) -> bool {
    &&& r.id@.len() == 0
    &&& r.model@ == model
    &&& r.choices@.len() == 1
    &&& r.choices@[0].index == 0
    &&& is_plain_message(r.choices@[0].message, Role::Assistant, result.response@)
    &&& r.choices@[0].finish_reason matches Some(f) && f@ == "stop"@
    &&& r.usage is None
    &&& r.citations is None
}

/// The unified response of a run's result.
pub fn from_cf_response(result: CfChatResult, model: &str) -> (r: ChatResponse)
    ensures
        cf_chat_response(result, model@, r),
{
    let mut choices: Vec<ChatChoice> = Vec::new();
    choices.push(
        ChatChoice {
            index: 0,
            message: ChatMessage::assistant(result.response),
            finish_reason: Some(String::from_str("stop")),
        },
    );
    ChatResponse {
        id: String::new(),
        model: String::from_str(model),
        choices,
        usage: None,
        citations: None,
    }
}

/// The messages of an envelope's errors, in order.
pub open spec fn error_messages(errors: Seq<CfError>) -> Seq<Seq<char>> {
    errors.map_values(|e: CfError| e.message@)
}

fn joined_errors(errors: &Vec<CfError>) -> (r: String)
    ensures
        r@ == join(error_messages(errors@), "; "@),
{
    let mut s = String::new();
    let mut i: usize = 0;
    while i < errors.len()
        invariant
            0 <= i <= errors.len(),
            s@ == join(error_messages(errors@.subrange(0, i as int)), "; "@),
        decreases errors.len() - i,
    {
        let ghost pre = error_messages(errors@.subrange(0, i as int));
        let msg = &errors[i].message;
        proof {
            assert(error_messages(errors@.subrange(0, i + 1)) =~= pre.push(msg@));
            lemma_join_push(pre, "; "@, msg@);
        }
        if i > 0 {
            s.append("; ");
        }
        s.append(msg.as_str());
        i = i + 1;
    }
    assert(errors@.subrange(0, errors@.len() as int) =~= errors@);
    s
}

/// The outcome of a non-streaming run (HTTP 200): a failed envelope is an
/// API error carrying its error messages joined with `"; "`; a successful
/// one without a result is the API error `empty result from Cloudflare`;
/// otherwise the result's unified response.
pub fn cf_chat_outcome(envelope: CfResponse, model: &str) -> (r: Result<ChatResponse, BaochuanError>)
    ensures
        !envelope.success ==> (r matches Err(BaochuanError::Api { status, message }) && status == 200
            && message@ == join(error_messages(envelope.errors@), "; "@)),
        envelope.success && envelope.result is None ==> (r matches Err(
            BaochuanError::Api { status, message },
        ) && status == 200 && message@ == "empty result from Cloudflare"@),
        envelope.success ==> (envelope.result matches Some(res) ==> (r matches Ok(resp)
            && cf_chat_response(res, model@, resp))),
{
    if !envelope.success {
        let message = joined_errors(&envelope.errors);
        return Err(BaochuanError::Api { status: 200, message });
    }
    match envelope.result {
        Some(res) => Ok(from_cf_response(res, model)),
        None => Err(
            BaochuanError::Api {
                status: 200,
                message: String::from_str("empty result from Cloudflare"),
            },
        ),
    }
}

/// The reading state of a Cloudflare stream: the number of chunks made so
/// far.
#[derive(Debug, Clone, Copy)]
pub struct CfStreamState {
    pub chunk_index: u64,
}

impl CfStreamState {
    pub fn new() -> (r: Self)
        ensures
            r.chunk_index == 0,
    {
        CfStreamState { chunk_index: 0 }
    }

    /// Handle one payload of the stream, given its parse (or the parser's
    /// error message). A parsed payload becomes chunk `cf-chunk-<n>`
    /// (counting from 1) of the requested model, carrying the payload's
    /// `response` as its text, unfinished; a parse failure becomes a stream
    /// error.
    pub fn on_parsed(&mut self, parsed: Result<CfStreamChunkData, String>, model: &str) -> (r: Result<
        StreamChunk,
        BaochuanError,
    >)
        requires
            old(self).chunk_index < u64::MAX,
        ensures
            match parsed {
                Ok(c) => {
                    &&& final(self).chunk_index == old(self).chunk_index + 1
                    &&& r matches Ok(k) && crate::types::response::is_simple_chunk(
                        k,
                        "cf-chunk-"@ + crate::text::decimal(final(self).chunk_index as nat),
                        model@,
                        crate::providers::sse::opt_view(c.response),
                        None,
                    )
                },
                Err(e) => {
                    &&& final(self).chunk_index == old(self).chunk_index
                    &&& r matches Err(BaochuanError::Stream(m)) && m@ == "failed to parse CF chunk: "@
                        + e@
                },
            },
    {
        match parsed {
            Ok(c) => {
                self.chunk_index = self.chunk_index + 1;
                let n = u64_to_decimal(self.chunk_index);
                let id = concat2("cf-chunk-", n.as_str());
                Ok(simple_chunk(id, String::from_str(model), c.response, None))
            },
            Err(e) => Err(BaochuanError::Stream(concat2("failed to parse CF chunk: ", e.as_str()))),
        }
    }
}

/// `mi` is the model of a search entry: owned by its task's name, shown by
/// its description.
pub open spec fn cf_model(e: CfModel, mi: ModelInfo) -> bool {
    &&& mi.id == e.id
    &&& mi.owned_by == (match e.task {
        Some(t) => Some(t.name),
        None => None,
    })
    &&& mi.context_length is None
    &&& mi.display_name == e.description
}

/// The models of a search listing, in order.
pub fn models_from_cf(entries: Vec<CfModel>) -> (r: Vec<ModelInfo>)
    ensures
        r@.len() == entries@.len(),
        forall|i: int| 0 <= i < r@.len() ==> cf_model(entries@[i], #[trigger] r@[i]),
{
    let mut rest = reversed(entries);
    let mut out: Vec<ModelInfo> = Vec::new();
    while rest.len() > 0
        invariant
            rest@.len() + out@.len() == entries@.len(),
            forall|j: int| 0 <= j < rest@.len() ==> #[trigger] rest@[j] == entries@[entries@.len() - 1 - j],
            forall|i: int| 0 <= i < out@.len() ==> cf_model(entries@[i], #[trigger] out@[i]),
        decreases rest.len(),
    {
        let e = rest.pop().unwrap();
        let owned_by = match e.task {
            Some(t) => Some(t.name),
            None => None,
        };
        out.push(ModelInfo { id: e.id, owned_by, context_length: None, display_name: e.description });
    }
    out
}

/// The account and credentials of a Cloudflare Workers AI connection.
#[derive(Debug, Clone)]
pub struct CloudflareProvider {
    pub account_id: String,
    pub api_token: String,
    pub base_url: String,
}

impl CloudflareProvider {
    /// A connection to the default API root.
    pub fn new<A: IntoText, T: IntoText>(account_id: A, api_token: T) -> (r: Self)
        ensures
            r.account_id@ == account_id.text_view(),
            r.api_token@ == api_token.text_view(),
            r.base_url@ == CLOUDFLARE_BASE_URL@,
    {
        CloudflareProvider {
            account_id: account_id.into_text(),
            api_token: api_token.into_text(),
            base_url: String::from_str(CLOUDFLARE_BASE_URL),
        }
    }

    /// Override the API root (useful for testing or proxies); it is used as
    /// given.
    pub fn with_base_url<U: IntoText>(self, base_url: U) -> (r: Self)
        ensures
            r.account_id == self.account_id,
            r.api_token == self.api_token,
            r.base_url@ == base_url.text_view(),
    {
        CloudflareProvider { base_url: base_url.into_text(), ..self }
    }

    /// The provider's name.
    pub fn name(&self) -> (r: &'static str)
        ensures
            r@ == "cloudflare"@,
    {
        "cloudflare"
    }

    /// `{base}/accounts/{account}/ai/run/{model}`.
    pub fn run_url(&self, model: &str) -> (r: String)
        ensures
            r@ == self.base_url@ + "/accounts/"@ + self.account_id@ + "/ai/run/"@ + model@,
    {
        let mut s = concat2(self.base_url.as_str(), "/accounts/");
        s.append(self.account_id.as_str());
        s.append("/ai/run/");
        s.append(model);
        s
    }

    /// `{base}/accounts/{account}/ai/models/search`.
    pub fn models_url(&self) -> (r: String)
        ensures
            r@ == self.base_url@ + "/accounts/"@ + self.account_id@ + "/ai/models/search"@,
    {
        let mut s = concat2(self.base_url.as_str(), "/accounts/");
        s.append(self.account_id.as_str());
        s.append("/ai/models/search");
        s
    }
}

} // verus!
