//! A local Ollama server through its native `/api/` API: request and
//! response conversion, the newline-delimited JSON stream, and the model
//! listing.
use vstd::prelude::*;

use crate::error::BaochuanError;
use crate::providers::helpers::{data_url_parts, parse_data_url};
use crate::text::{concat2, concat3, copy_opt, str_eq, u64_to_decimal};
use crate::types::message::{content_text, role_name, ChatMessage, ContentPart, MessageContent, Role};
use crate::types::model::ModelInfo;
use crate::types::request::ChatRequest;
use crate::types::response::{simple_chunk, ChatChoice, ChatResponse, StreamChunk, Usage};
use crate::vecs::reversed;

verus! {

/// The default server address.
pub const OLLAMA_BASE_URL: &'static str = "http://localhost:11434";

/// A `/api/chat` request body.
#[derive(Debug, Clone)]
pub struct OllamaChatRequest {
    pub model: String,
    pub messages: Vec<OllamaMessage>,
    pub stream: bool,
    pub options: Option<OllamaOptions>,
}

/// A message in Ollama's format: text content plus base64 images.
#[derive(Debug, Clone)]
pub struct OllamaMessage {
    pub role: String,
    pub content: String,
    pub images: Option<Vec<String>>,
}

/// Generation options; fields are omitted when absent.
#[derive(Debug, Clone, Copy)]
pub struct OllamaOptions {
    pub num_predict: Option<u32>,
    /// As the bit pattern of an `f32`.
    pub temperature: Option<u32>,
    /// As the bit pattern of an `f32`.
    pub top_p: Option<u32>,
}

/// A `/api/chat` response.
#[derive(Debug, Clone)]
pub struct OllamaChatResponse {
    pub model: String,
    pub message: OllamaResponseMessage,
    pub done: bool,
    pub prompt_eval_count: Option<u32>,
    pub eval_count: Option<u32>,
}

/// One line of a streamed `/api/chat` response.
#[derive(Debug, Clone)]
pub struct OllamaStreamChunk {
    pub model: String,
    pub message: OllamaResponseMessage,
    pub done: bool,
}

/// The message of a response.
#[derive(Debug, Clone)]
pub struct OllamaResponseMessage {
    pub role: String,
    pub content: String,
}

/// An entry of `/api/tags`.
#[derive(Debug, Clone)]
pub struct OllamaModelEntry {
    pub name: String,
    pub details: Option<OllamaModelDetails>,
}

/// Model details of an `/api/tags` entry.
#[derive(Debug, Clone)]
pub struct OllamaModelDetails {
    pub family: Option<String>,
    pub parameter_size: Option<String>,
    pub quantization_level: Option<String>,
}

/// The base64 data of the data-URL images among `parts`, in order; images
/// given by plain URL are not supported by Ollama and are left out.
pub open spec fn part_images(parts: Seq<ContentPart>) -> Seq<Seq<char>>
    decreases parts.len(),
{
    if parts.len() == 0 {
        Seq::empty()
    } else {
        let init = part_images(parts.drop_last());
        match parts.last() {
            ContentPart::ImageUrl { image_url } => match data_url_parts(image_url.url@) {
                Some((_, d)) => init.push(d),
                None => init,
            },
            _ => init,
        }
    }
}

/// The images of a message's content.
pub open spec fn content_images(c: MessageContent) -> Seq<Seq<char>> {
    match c {
        MessageContent::Parts(ps) => part_images(ps@),
        MessageContent::Text(_) => Seq::empty(),
    }
}

/// `om` is the Ollama message of `m`.
pub open spec fn ollama_message(m: ChatMessage, om: OllamaMessage) -> bool {
    let imgs = content_images(m.content);
    &&& om.role@ == role_name(m.role)
    &&& om.content@ == content_text(m.content)
    &&& imgs.len() == 0 ==> om.images is None
    &&& imgs.len() > 0 ==> (om.images matches Some(v) && v@.len() == imgs.len() && forall|k: int|
        0 <= k < imgs.len() ==> (#[trigger] v@[k])@ == imgs[k])
}

fn images_of(content: &MessageContent) -> (r: Vec<String>)
    ensures
        r@.len() == content_images(*content).len(),
        forall|k: int| 0 <= k < r@.len() ==> (#[trigger] r@[k])@ == content_images(*content)[k],
{
    let mut out: Vec<String> = Vec::new();
    match content {
        MessageContent::Parts(parts) => {
            let mut i: usize = 0;
            while i < parts.len()
                invariant
                    0 <= i <= parts.len(),
                    out@.len() == part_images(parts@.subrange(0, i as int)).len(),
                    forall|k: int|
                        0 <= k < out@.len() ==> (#[trigger] out@[k])@ == part_images(
                            parts@.subrange(0, i as int),
                        )[k],
                decreases parts.len() - i,
            {
                let ghost pre = parts@.subrange(0, i as int);
                assert(parts@.subrange(0, i + 1).drop_last() =~= pre);
                assert(parts@.subrange(0, i + 1).last() == parts@[i as int]);
                if let ContentPart::ImageUrl { image_url } = &parts[i] {
                    if let Some((_mime, data)) = parse_data_url(image_url.url.as_str()) {
                        out.push(data);
                        proof {
                            let pi = part_images(parts@.subrange(0, i + 1));
                            assert forall|k: int| 0 <= k < out@.len() implies (
                            #[trigger] out@[k])@ == pi[k] by {
                                if k < out@.len() - 1 {
                                    assert(pi[k] == part_images(pre)[k]);
                                }
                            }
                        }
                    }
                }
                i = i + 1;
            }
            assert(parts@.subrange(0, parts@.len() as int) =~= parts@);
        },
        MessageContent::Text(_) => {},
    }
    out
}

/// The Ollama messages of a conversation: every message keeps its role (as
/// its lower-case name) and its text; data-URL images travel separately.
pub fn to_ollama_messages(messages: &Vec<ChatMessage>) -> (r: Vec<OllamaMessage>)
    ensures
        r@.len() == messages@.len(),
        forall|i: int| 0 <= i < r@.len() ==> ollama_message(messages@[i], #[trigger] r@[i]),
{
    let mut out: Vec<OllamaMessage> = Vec::new();
    let mut i: usize = 0;
    while i < messages.len()
        invariant
            0 <= i <= messages.len(),
            out@.len() == i,
            forall|j: int| 0 <= j < i ==> ollama_message(messages@[j], #[trigger] out@[j]),
        decreases messages.len() - i,
    {
        let m = &messages[i];
        let images = images_of(&m.content);
        out.push(
            OllamaMessage {
                role: m.role.to_string(),
                content: m.content.to_text_lossy(),
                images: if images.len() == 0 {
                    None
                } else {
                    Some(images)
                },
            },
        );
        i = i + 1;
    }
    out
}

/// The generation options of a request: present when any of max tokens,
/// temperature or top-p is set.
pub open spec fn ollama_options(request: ChatRequest) -> Option<OllamaOptions> {
    if request.max_tokens is Some || request.temperature is Some || request.top_p is Some {
        Some(
            OllamaOptions {
                num_predict: request.max_tokens,
                temperature: request.temperature,
                top_p: request.top_p,
            },
        )
    } else {
        None
    }
}

/// Ollama's options carry the request's sampling settings as they are: the
/// token limit as `num_predict`, the temperature and top-p unchanged; they
/// are sent whenever any of the three is set, and only then.
pub proof fn law_ollama_options_carry_sampling(request: ChatRequest)
    ensures
        ollama_options(request) matches Some(o) ==> o.num_predict == request.max_tokens
            && o.temperature == request.temperature && o.top_p == request.top_p,
        ollama_options(request) is Some <==> (request.max_tokens is Some || request.temperature is Some
            || request.top_p is Some),
{
}

/// The `/api/chat` body of a chat request.
pub fn to_ollama_request(request: &ChatRequest, stream: bool) -> (r: OllamaChatRequest)
    ensures
        r.model == request.model,
        r.messages@.len() == request.messages@.len(),
        forall|i: int|
            0 <= i < r.messages@.len() ==> ollama_message(request.messages@[i], #[trigger] r.messages@[i]),
        r.stream == stream,
        r.options == ollama_options(*request),
        r.options matches Some(o) ==> o.num_predict == request.max_tokens && o.temperature
            == request.temperature && o.top_p == request.top_p,
        r.options is None <==> (request.max_tokens is None && request.temperature is None
            && request.top_p is None),
{
    let options = if request.max_tokens.is_some() || request.temperature.is_some()
        || request.top_p.is_some() {
        Some(
            OllamaOptions {
                num_predict: request.max_tokens,
                temperature: request.temperature,
                top_p: request.top_p,
            },
        )
    } else {
        None
    };
    OllamaChatRequest {
        model: request.model.clone(),
        messages: to_ollama_messages(&request.messages),
        stream,
        options,
    }
}

/// The unified response of an `/api/chat` response: one choice, assistant
/// when Ollama says so and user otherwise, finished (`stop`) when `done`;
/// counts absent as zero, total their sum.
pub fn from_ollama_response(resp: OllamaChatResponse) -> (r: ChatResponse)
    requires
        (match resp.prompt_eval_count {
            Some(n) => n,
            None => 0u32,
        }) + (match resp.eval_count {
            Some(n) => n,
            None => 0u32,
        }) <= u32::MAX,
    ensures
        ({
            let p: u32 = match resp.prompt_eval_count {
                Some(n) => n,
                None => 0u32,
            };
            let c: u32 = match resp.eval_count {
                Some(n) => n,
                None => 0u32,
            };
            r.usage == Some(
                Usage { prompt_tokens: p, completion_tokens: c, total_tokens: (p + c) as u32 },
            )
        }),
        r.id@.len() == 0,
        r.model == resp.model,
        r.choices@.len() == 1,
        r.choices@[0].index == 0,
        r.choices@[0].message.role == (if resp.message.role@ == "assistant"@ {
            Role::Assistant
        } else {
            Role::User
        }),
        r.choices@[0].message.content == MessageContent::Text(resp.message.content),
        r.choices@[0].message.audio is None,
        r.choices@[0].message.tool_calls is None,
        r.choices@[0].message.tool_call_id is None,
        resp.done ==> (r.choices@[0].finish_reason matches Some(f) && f@ == "stop"@),
        !resp.done ==> r.choices@[0].finish_reason is None,
        r.citations is None,
{
    let prompt_tokens = match resp.prompt_eval_count {
        Some(n) => n,
        None => 0,
    };
    let completion_tokens = match resp.eval_count {
        Some(n) => n,
        None => 0,
    };
    let role = if str_eq(resp.message.role.as_str(), "assistant") {
        Role::Assistant
    } else {
        Role::User
    };
    let mut choices: Vec<ChatChoice> = Vec::new();
    choices.push(
        ChatChoice {
            index: 0,
            message: ChatMessage {
                role,
                content: MessageContent::Text(resp.message.content),
                audio: None,
                tool_calls: None,
                tool_call_id: None,
            },
            finish_reason: if resp.done {
                Some(String::from_str("stop"))
            } else {
                None
            },
        },
    );
    ChatResponse {
        id: String::new(),
        model: resp.model,
        choices,
        usage: Some(
            Usage {
                prompt_tokens,
                completion_tokens,
                total_tokens: prompt_tokens + completion_tokens,
            },
        ),
        citations: None,
    }
}

/// The reading state of an Ollama stream: the number of chunks made so far.
#[derive(Debug, Clone, Copy)]
pub struct OllamaStreamState {
    pub chunk_index: u64,
}

impl OllamaStreamState {
    pub fn new() -> (r: Self)
        ensures
            r.chunk_index == 0,
    {
        OllamaStreamState { chunk_index: 0 }
    }

    /// Handle one line of the stream, given its parse (or the parser's error
    /// message). A parsed line becomes chunk `ollama-chunk-<n>` (counting
    /// from 1) with the line's model, its text (none when empty), and finish
    /// reason `stop` when `done`; a parse failure becomes a stream error.
    pub fn on_parsed(&mut self, parsed: Result<OllamaStreamChunk, String>) -> (r: Result<
        StreamChunk,
        BaochuanError,
    >)
        requires
            old(self).chunk_index < u64::MAX,
        ensures
            match parsed {
                Ok(c) => {
                    &&& final(self).chunk_index == old(self).chunk_index + 1
                    &&& r matches Ok(k) && crate::types::response::is_simple_chunk(
                        k,
                        "ollama-chunk-"@ + crate::text::decimal(final(self).chunk_index as nat),
                        c.model@,
                        if c.message.content@.len() == 0 {
                            None
                        } else {
                            Some(c.message.content@)
                        },
                        if c.done {
                            Some("stop"@)
                        } else {
                            None
                        },
                    )
                },
                Err(e) => {
                    &&& final(self).chunk_index == old(self).chunk_index
                    &&& r matches Err(BaochuanError::Stream(m)) && m@ == "failed to parse Ollama chunk: "@
                        + e@
                },
            },
    {
        match parsed {
            Ok(c) => {
                self.chunk_index = self.chunk_index + 1;
                let n = u64_to_decimal(self.chunk_index);
                let id = concat2("ollama-chunk-", n.as_str());
                let finish = if c.done {
                    Some(String::from_str("stop"))
                } else {
                    None
                };
                let content = if c.message.content.as_str().is_empty() {
                    None
                } else {
                    Some(c.message.content)
                };
                Ok(simple_chunk(id, c.model, content, finish))
            },
            Err(e) => Err(BaochuanError::Stream(concat2("failed to parse Ollama chunk: ", e.as_str()))),
        }
    }
}

/// The display name of an Ollama model: `"<size> · <quantization>"`, or the
/// size alone.
pub open spec fn ollama_display(d: Option<OllamaModelDetails>) -> Option<Seq<char>> {
    match d {
        Some(det) => match (det.parameter_size, det.quantization_level) {
            (Some(p), Some(q)) => Some(p@ + " · "@ + q@),
            (Some(p), None) => Some(p@),
            _ => None,
        },
        None => None,
    }
}

/// `mi` is the model of an `/api/tags` entry.
pub open spec fn ollama_model(e: OllamaModelEntry, mi: ModelInfo) -> bool {
    &&& mi.id == e.name
    &&& mi.owned_by == (match e.details {
        Some(d) => d.family,
        None => None,
    })
    &&& mi.context_length is None
    &&& crate::providers::sse::opt_view(mi.display_name) == ollama_display(e.details)
}

/// The models of an `/api/tags` listing, owned by their family.
pub fn models_from_ollama(entries: Vec<OllamaModelEntry>) -> (r: Vec<ModelInfo>)
    ensures
        r@.len() == entries@.len(),
        forall|i: int| 0 <= i < r@.len() ==> ollama_model(entries@[i], #[trigger] r@[i]),
{
    let mut rest = reversed(entries);
    let mut out: Vec<ModelInfo> = Vec::new();
    while rest.len() > 0
        invariant
            rest@.len() + out@.len() == entries@.len(),
            forall|j: int| 0 <= j < rest@.len() ==> #[trigger] rest@[j] == entries@[entries@.len() - 1 - j],
            forall|i: int| 0 <= i < out@.len() ==> ollama_model(entries@[i], #[trigger] out@[i]),
        decreases rest.len(),
    {
        let e = rest.pop().unwrap();
        let (display, owned_by) = match &e.details {
            Some(d) => {
                let display = match (&d.parameter_size, &d.quantization_level) {
                    (Some(p), Some(q)) => Some(concat3(p.as_str(), " · ", q.as_str())),
                    (Some(p), None) => Some(p.clone()),
                    _ => None,
                };
                (display, copy_opt(&d.family))
            },
            None => (None, None),
        };
        out.push(ModelInfo { id: e.name, owned_by, context_length: None, display_name: display });
    }
    out
}

/// The address of an Ollama server.
#[derive(Debug, Clone)]
pub struct OllamaProvider {
    pub base_url: String,
}

impl OllamaProvider {
    /// A connection to the default local server.
    pub fn new() -> (r: Self)
        ensures
            r.base_url@ == OLLAMA_BASE_URL@,
    {
        OllamaProvider { base_url: String::from_str(OLLAMA_BASE_URL) }
    }

    /// Point at another server; the address is used as given.
    pub fn with_base_url<U: crate::text::IntoText>(self, base_url: U) -> (r: Self)
        ensures
            r.base_url@ == base_url.text_view(),
    {
        OllamaProvider { base_url: base_url.into_text() }
    }

    /// The provider's name.
    pub fn name(&self) -> (r: &'static str)
        ensures
            r@ == "ollama"@,
    {
        "ollama"
    }

    /// `{base}/api/chat`.
    pub fn chat_url(&self) -> (r: String)
        ensures
            r@ == self.base_url@ + "/api/chat"@,
    {
        concat2(self.base_url.as_str(), "/api/chat")
    }

    /// `{base}/api/tags`.
    pub fn tags_url(&self) -> (r: String)
        ensures
            r@ == self.base_url@ + "/api/tags"@,
    {
        concat2(self.base_url.as_str(), "/api/tags")
    }
}

impl Default for OllamaProvider {
    fn default() -> (r: Self)
        ensures
            r.base_url@ == OLLAMA_BASE_URL@,
    {
        Self::new()
    }
}

} // verus!
