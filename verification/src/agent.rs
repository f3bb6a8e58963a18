//! Stateful agent runtimes (OpenAI Responses-compatible endpoints): the run
//! request and its builder, the completed response, and the events of a
//! streamed run.
use vstd::prelude::*;

use crate::error::BaochuanError;
use crate::providers::convert::text_or_empty;
use crate::text::{chars_of, concat2, str_eq, trim, trimmed_range, IntoText};

verus! {

/// Input accepted by the OpenAI Responses-compatible agent endpoint.
#[derive(Debug, Clone)]
pub enum AgentInput {
    /// Plain text input for the next turn.
    Text(String),
    /// Structured Responses API input items.
    Items(Vec<AgentInputItem>),
}

/// Whether an input carries nothing: blank text, or no items.
pub open spec fn input_is_empty(i: AgentInput) -> bool {
    match i {
        AgentInput::Text(t) => trim(t@).len() == 0,
        AgentInput::Items(v) => v@.len() == 0,
    }
}

impl AgentInput {
    /// Whether the input carries nothing: text that is empty or all
    /// whitespace, or an empty list of items.
    pub fn is_empty(&self) -> (r: bool)
        ensures
            r == input_is_empty(*self),
    {
        match self {
            AgentInput::Text(text) => {
                let v = chars_of(text.as_str());
                let t = trimmed_range(&v, 0, v.len());
                assert(v@.subrange(0, v@.len() as int) =~= v@);
                t.len() == 0
            },
            AgentInput::Items(items) => items.len() == 0,
        }
    }
}

impl From<String> for AgentInput {
    fn from(value: String) -> (r: Self) {
        AgentInput::Text(value)
    }
}

impl vstd::std_specs::convert::FromSpecImpl<String> for AgentInput {
    open spec fn obeys_from_spec() -> bool {
        true
    }

    open spec fn from_spec(v: String) -> Self {
        AgentInput::Text(v)
    }
}

/// What can be given as the input of a run: text or a ready input.
pub trait IntoAgentInput: Sized {
    /// Whether `i` is the input that `into_agent_input` makes of this value.
    spec fn is_input_of(&self, i: AgentInput) -> bool;

    fn into_agent_input(self) -> (r: AgentInput)
        ensures
            self.is_input_of(r),
    ;
}

impl IntoAgentInput for AgentInput {
    open spec fn is_input_of(&self, i: AgentInput) -> bool {
        i == *self
    }

    fn into_agent_input(self) -> (r: AgentInput) {
        self
    }
}

impl IntoAgentInput for String {
    open spec fn is_input_of(&self, i: AgentInput) -> bool {
        i == AgentInput::Text(*self)
    }

    fn into_agent_input(self) -> (r: AgentInput) {
        AgentInput::Text(self)
    }
}

impl<'a> IntoAgentInput for &'a str {
    open spec fn is_input_of(&self, i: AgentInput) -> bool {
        i matches AgentInput::Text(t) && t@ == (*self)@
    }

    fn into_agent_input(self) -> (r: AgentInput) {
        AgentInput::Text(String::from_str(self))
    }
}

/// A structured Responses API input item.
#[derive(Debug, Clone)]
pub struct AgentInputItem {
    pub role: String,
    pub content: AgentInputContent,
}

/// Content for a structured agent input item.
#[derive(Debug, Clone)]
pub enum AgentInputContent {
    Text(String),
    Parts(Vec<AgentInputContentPart>),
}

/// One content part in a structured agent input item.
#[derive(Debug, Clone)]
pub struct AgentInputContentPart {
    /// The part's `type`.
    pub part_type: String,
    pub text: Option<String>,
    pub image_url: Option<String>,
}

/// A request to a stateful agent runtime.
#[derive(Debug, Clone)]
pub struct AgentRunRequest {
    pub model: String,
    pub input: AgentInput,
    pub instructions: Option<String>,
    pub previous_response_id: Option<String>,
    pub conversation: Option<String>,
    pub store: Option<bool>,
    pub stream: bool,
}

/// What an [`AgentRunRequestBuilder`] has collected so far.
pub struct AgentRunDraft {
    pub model: Option<String>,
    pub input: Option<AgentInput>,
    pub instructions: Option<String>,
    pub previous_response_id: Option<String>,
    pub conversation: Option<String>,
    pub store: Option<bool>,
    pub stream: bool,
}

/// Builder for [`AgentRunRequest`].
#[derive(Debug)]
pub struct AgentRunRequestBuilder {
    model: Option<String>,
    input: Option<AgentInput>,
    instructions: Option<String>,
    previous_response_id: Option<String>,
    conversation: Option<String>,
    store: Option<bool>,
    stream: bool,
}

impl View for AgentRunRequestBuilder {
    type V = AgentRunDraft;

    closed spec fn view(&self) -> AgentRunDraft {
        AgentRunDraft {
            model: self.model,
            input: self.input,
            instructions: self.instructions,
            previous_response_id: self.previous_response_id,
            conversation: self.conversation,
            store: self.store,
            stream: self.stream,
        }
    }
}

/// The draft of a builder with nothing set.
pub open spec fn empty_agent_draft() -> AgentRunDraft {
    AgentRunDraft {
        model: None,
        input: None,
        instructions: None,
        previous_response_id: None,
        conversation: None,
        store: None,
        stream: false,
    }
}

impl AgentRunRequestBuilder {
    /// A builder for a run of `model` on `input`, with nothing else set.
    pub fn new<M: IntoText, I: IntoAgentInput>(model: M, input: I) -> (r: Self)
        ensures
            r@.model matches Some(m) && m@ == model.text_view(),
            r@.input matches Some(i) && input.is_input_of(i),
            r@ == (AgentRunDraft { model: r@.model, input: r@.input, ..empty_agent_draft() }),
    {
        AgentRunRequestBuilder {
            model: Some(model.into_text()),
            input: Some(input.into_agent_input()),
            instructions: None,
            previous_response_id: None,
            conversation: None,
            store: None,
            stream: false,
        }
    }

    /// Set the system-level instructions.
    pub fn instructions<T: IntoText>(self, instructions: T) -> (r: Self)
        ensures
            r@.instructions matches Some(s) && s@ == instructions.text_view(),
            r@ == (AgentRunDraft { instructions: r@.instructions, ..self@ }),
    {
        AgentRunRequestBuilder { instructions: Some(instructions.into_text()), ..self }
    }

    /// Continue from an earlier response.
    pub fn previous_response_id<T: IntoText>(self, previous_response_id: T) -> (r: Self)
        ensures
            r@.previous_response_id matches Some(s) && s@ == previous_response_id.text_view(),
            r@ == (AgentRunDraft { previous_response_id: r@.previous_response_id, ..self@ }),
    {
        AgentRunRequestBuilder { previous_response_id: Some(previous_response_id.into_text()), ..self }
    }

    /// Attach the run to a named conversation.
    pub fn conversation<T: IntoText>(self, conversation: T) -> (r: Self)
        ensures
            r@.conversation matches Some(s) && s@ == conversation.text_view(),
            r@ == (AgentRunDraft { conversation: r@.conversation, ..self@ }),
    {
        AgentRunRequestBuilder { conversation: Some(conversation.into_text()), ..self }
    }

    /// Ask the runtime to store (or not store) the response.
    pub fn store(self, store: bool) -> (r: Self)
        ensures
            r@ == (AgentRunDraft { store: Some(store), ..self@ }),
    {
        AgentRunRequestBuilder { store: Some(store), ..self }
    }

    /// Ask for a streamed run.
    pub fn stream(self, stream: bool) -> (r: Self)
        ensures
            r@ == (AgentRunDraft { stream, ..self@ }),
    {
        AgentRunRequestBuilder { stream, ..self }
    }

    /// Build the request. Fails when no model or no input is set, or when
    /// the input is empty (blank text or no items).
    pub fn build(self) -> (r: Result<AgentRunRequest, BaochuanError>)
        ensures
            self@.model is None ==> crate::error::is_invalid_request(r, "model must be specified"@),
            self@.model is Some && self@.input is None ==> crate::error::is_invalid_request(
                r,
                "input must be specified"@,
            ),
            self@.model is Some && self@.input is Some && input_is_empty(self@.input->Some_0)
                ==> crate::error::is_invalid_request(r, "input must not be empty"@),
            self@.model is Some && self@.input is Some && !input_is_empty(self@.input->Some_0) ==> (
            r matches Ok(req) && self@.model == Some(req.model) && self@.input == Some(req.input)
                && req.instructions == self@.instructions && req.previous_response_id
                == self@.previous_response_id && req.conversation == self@.conversation && req.store
                == self@.store && req.stream == self@.stream),
    {
        let model = match self.model {
            Some(m) => m,
            None => {
                return Err(BaochuanError::InvalidRequest(String::from_str("model must be specified")));
            },
        };
        let input = match self.input {
            Some(i) => i,
            None => {
                return Err(BaochuanError::InvalidRequest(String::from_str("input must be specified")));
            },
        };
        if input.is_empty() {
            return Err(BaochuanError::InvalidRequest(String::from_str("input must not be empty")));
        }
        Ok(
            AgentRunRequest {
                model,
                input,
                instructions: self.instructions,
                previous_response_id: self.previous_response_id,
                conversation: self.conversation,
                store: self.store,
                stream: self.stream,
            },
        )
    }
}

impl Default for AgentRunRequestBuilder {
    /// A builder with nothing set, not even the model or the input.
    fn default() -> (r: Self)
        ensures
            r@ == empty_agent_draft(),
    {
        AgentRunRequestBuilder {
            model: None,
            input: None,
            instructions: None,
            previous_response_id: None,
            conversation: None,
            store: None,
            stream: false,
        }
    }
}

/// A completed response from an agent runtime.
#[derive(Debug, Clone)]
pub struct AgentResponse {
    pub id: String,
    pub object: Option<String>,
    pub status: String,
    pub model: Option<String>,
    pub output: Vec<AgentOutputItem>,
    pub usage: Option<AgentUsage>,
}

/// One output item in a Responses API response.
#[derive(Debug, Clone)]
pub struct AgentOutputItem {
    /// The item's `type`.
    pub item_type: String,
    pub role: Option<String>,
    pub name: Option<String>,
    pub arguments: Option<String>,
    pub call_id: Option<String>,
    pub output: Option<String>,
    pub content: Option<Vec<AgentOutputContent>>,
}

/// A content block in an agent message output item.
#[derive(Debug, Clone)]
pub struct AgentOutputContent {
    /// The block's `type`.
    pub content_type: String,
    pub text: Option<String>,
}

/// Token usage reported by a Responses-compatible agent endpoint.
#[derive(Debug, Clone, Copy)]
pub struct AgentUsage {
    pub input_tokens: u32,
    pub output_tokens: u32,
    pub total_tokens: u32,
}

/// The text of a content block: its text when it is `output_text`.
pub open spec fn block_output_text(b: AgentOutputContent) -> Seq<char> {
    if b.content_type@ == "output_text"@ {
        text_or_empty(b.text)
    } else {
        Seq::empty()
    }
}

/// The texts of the `output_text` blocks, concatenated.
pub open spec fn blocks_output_text(bs: Seq<AgentOutputContent>) -> Seq<char>
    decreases bs.len(),
{
    if bs.len() == 0 {
        Seq::empty()
    } else {
        blocks_output_text(bs.drop_last()) + block_output_text(bs.last())
    }
}

/// The output text of an item: that of its content blocks, if any.
pub open spec fn item_text(it: AgentOutputItem) -> Seq<char> {
    match it.content {
        Some(bs) => blocks_output_text(bs@),
        None => Seq::empty(),
    }
}

/// The output text of a response: that of its items, concatenated.
pub open spec fn response_output_text(items: Seq<AgentOutputItem>) -> Seq<char>
    decreases items.len(),
{
    if items.len() == 0 {
        Seq::empty()
    } else {
        response_output_text(items.drop_last()) + item_text(items.last())
    }
}

impl AgentResponse {
    /// Concatenate every `output_text` content block in the response, in
    /// order, over all output items.
    pub fn output_text(&self) -> (r: String)
        ensures
            r@ == response_output_text(self.output@),
    {
        let mut text = String::new();
        let mut i: usize = 0;
        while i < self.output.len()
            invariant
                0 <= i <= self.output.len(),
                text@ == response_output_text(self.output@.subrange(0, i as int)),
            decreases self.output.len() - i,
        {
            let ghost pre = self.output@.subrange(0, i as int);
            assert(self.output@.subrange(0, i + 1).drop_last() =~= pre);
            assert(self.output@.subrange(0, i + 1).last() == self.output@[i as int]);
            match &self.output[i].content {
                Some(blocks) => {
                    let mut j: usize = 0;
                    while j < blocks.len()
                        invariant
                            0 <= j <= blocks.len(),
                            text@ == response_output_text(pre) + blocks_output_text(
                                blocks@.subrange(0, j as int),
                            ),
                        decreases blocks.len() - j,
                    {
                        let ghost before = text@;
                        assert(blocks@.subrange(0, j + 1).drop_last() =~= blocks@.subrange(0, j as int));
                        assert(blocks@.subrange(0, j + 1).last() == blocks@[j as int]);
                        let b = &blocks[j];
                        if str_eq(b.content_type.as_str(), "output_text") {
                            match &b.text {
                                Some(t) => {
                                    text.append(t.as_str());
                                },
                                None => {},
                            }
                        }
                        assert(text@ =~= before + block_output_text(blocks@[j as int]));
                        assert(text@ =~= response_output_text(pre) + blocks_output_text(
                            blocks@.subrange(0, j + 1),
                        ));
                        j = j + 1;
                    }
                    assert(blocks@.subrange(0, blocks@.len() as int) =~= blocks@);
                },
                None => {
                    assert(text@ =~= response_output_text(pre) + item_text(self.output@[i as int]));
                },
            }
            i = i + 1;
        }
        assert(self.output@.subrange(0, self.output@.len() as int) =~= self.output@);
        text
    }
}

/// One server-sent event from an agent run.
#[derive(Debug, Clone)]
pub struct AgentEvent {
    /// The SSE event name, such as `response.output_text.delta` or
    /// `hermes.tool.progress`.
    pub event: Option<String>,
    /// The event's JSON payload.
    pub data: serde_json::Value,
}

/// What `Value::get` returns for a string key: the member `key` of a JSON
/// object, none for a missing key or a value that is not an object.
pub uninterp spec fn json_member_of(v: serde_json::Value, key: Seq<char>) -> Option<serde_json::Value>;

/// What `Value::as_str` returns: the text of a JSON string, none for any
/// other value.
pub uninterp spec fn json_string_text(v: serde_json::Value) -> Option<Seq<char>>;

/// `Value::get` with a string key. The result is the named member of the
/// value; what that member is, is named, not stated.
#[verifier::external_body]
pub(crate) fn json_member<'a>(v: &'a serde_json::Value, key: &str) -> (r: Option<&'a serde_json::Value>)
    ensures
        r is None <==> json_member_of(*v, key@) is None,
        r matches Some(m) ==> json_member_of(*v, key@) == Some(*m),
{
    v.get(key)
}

/// `Value::as_str`: the text of a JSON string, named, not stated.
#[verifier::external_body]
fn json_text<'a>(v: &'a serde_json::Value) -> (r: Option<&'a str>)
    ensures
        r is None <==> json_string_text(*v) is None,
        r matches Some(t) ==> json_string_text(*v) == Some(t@),
{
    v.as_str()
}

/// The text of the member `key` of a JSON value, when the value is an
/// object whose member `key` is a string.
pub open spec fn member_text(v: serde_json::Value, key: Seq<char>) -> Option<Seq<char>> {
    match json_member_of(v, key) {
        Some(m) => json_string_text(m),
        None => None,
    }
}

/// The text of the member `key` of a JSON value, when it is a string.
pub fn json_member_text<'a>(v: &'a serde_json::Value, key: &str) -> (r: Option<&'a str>)
    ensures
        crate::types::message::opt_str_view(r) == member_text(*v, key@),
{
    match json_member(v, key) {
        Some(m) => json_text(m),
        None => None,
    }
}

/// The text of an event's `delta` member, when the payload is an object
/// whose `delta` is a string.
pub open spec fn event_delta(data: serde_json::Value) -> Option<Seq<char>> {
    member_text(data, "delta"@)
}

impl AgentEvent {
    /// The payload's `delta` member when it is a string (the text of a
    /// `response.output_text.delta` event).
    pub fn output_text_delta(&self) -> (r: Option<&str>)
        ensures
            crate::types::message::opt_str_view(r) == event_delta(self.data),
    {
        json_member_text(&self.data, "delta")
    }
}

/// One payload of an agent event stream, under the current event, given its
/// parse as JSON (or the parser's error message): the event, or a stream
/// error.
pub fn agent_event_result(event: Option<String>, parsed: Result<serde_json::Value, String>) -> (r:
    Result<AgentEvent, BaochuanError>)
    ensures
        parsed is Ok ==> (r matches Ok(e) && e.event == event && e.data == parsed->Ok_0),
        parsed matches Err(m) ==> (r matches Err(BaochuanError::Stream(s)) && s@
            == "failed to parse agent event: "@ + m@),
{
    match parsed {
        Ok(value) => Ok(AgentEvent { event, data: value }),
        Err(e) => Err(BaochuanError::Stream(concat2("failed to parse agent event: ", e.as_str()))),
    }
}

/// One frame of an agent event stream: its payload read as JSON, under the
/// frame's event; a payload that is not JSON is a stream error that carries
/// the parser's message.
pub fn agent_event_of_frame(frame: crate::providers::sse::StreamFrame) -> (r: Result<
    AgentEvent,
    BaochuanError,
>)
    ensures
        match crate::types::tools::json_parse_result(frame.data@) {
            Ok(v) => r matches Ok(e) && e.event == frame.event && e.data == v,
            Err(m) => r matches Err(BaochuanError::Stream(s)) && s@ == "failed to parse agent event: "@
                + m,
        },
{
    let parsed = crate::types::tools::json_parse_or_error(frame.data.as_str());
    agent_event_result(frame.event, parsed)
}

} // verus!
