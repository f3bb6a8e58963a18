//! Chat completion responses and streaming chunks.
use vstd::prelude::*;

use crate::types::message::{content_first_text, opt_str_view, ChatMessage, Role};
use crate::types::tools::ToolCallDelta;

verus! {

/// Top-level event envelope of the Anthropic streaming API.
#[derive(Debug, Clone)]
pub struct AnthropicStreamEvent {
    pub message: Option<AnthropicStreamMessage>,
    pub delta: Option<AnthropicStreamDelta>,
}

/// The `message` field inside a `message_start` event.
#[derive(Debug, Clone)]
pub struct AnthropicStreamMessage {
    pub id: Option<String>,
    pub model: Option<String>,
}

/// The `delta` field inside a `content_block_delta` event.
#[derive(Debug, Clone)]
pub struct AnthropicStreamDelta {
    /// The delta's `type`, e.g. `text_delta`.
    pub delta_type: Option<String>,
    pub text: Option<String>,
}

/// A complete (non-streaming) chat completion response.
#[derive(Debug, Clone)]
pub struct ChatResponse {
    pub id: String,
    pub model: String,
    pub choices: Vec<ChatChoice>,
    pub usage: Option<Usage>,
    /// Source URLs returned by search-augmented providers (e.g. Perplexity).
    pub citations: Option<Vec<String>>,
}

/// The text of the first choice of a response, as [`ChatResponse::content`]
/// returns it.
pub open spec fn response_text(choices: Seq<ChatChoice>) -> Option<Seq<char>> {
    if choices.len() == 0 {
        None
    } else {
        content_first_text(choices[0].message.content)
    }
}

impl ChatResponse {
    /// Returns the text content of the first choice, if present.
    pub fn content(&self) -> (r: Option<&str>)
        ensures
            opt_str_view(r) == response_text(self.choices@),
    {
        if self.choices.len() == 0 {
            None
        } else {
            self.choices[0].message.content.as_str()
        }
    }
}

/// A single completion choice in a [`ChatResponse`].
#[derive(Debug, Clone)]
pub struct ChatChoice {
    pub index: u32,
    pub message: ChatMessage,
    pub finish_reason: Option<String>,
}

/// Token usage statistics for a request.
#[derive(Debug, Clone, Copy)]
pub struct Usage {
    pub prompt_tokens: u32,
    pub completion_tokens: u32,
    pub total_tokens: u32,
}

/// A single chunk received during a streaming response.
#[derive(Debug, Clone)]
pub struct StreamChunk {
    pub id: String,
    pub model: String,
    pub choices: Vec<StreamChoice>,
}

/// The text delta of the first choice of a chunk.
pub open spec fn chunk_delta(choices: Seq<StreamChoice>) -> Option<Seq<char>> {
    if choices.len() == 0 {
        None
    } else {
        match choices[0].delta.content {
            Some(s) => Some(s@),
            None => None,
        }
    }
}

/// Whether the first choice of a chunk carries a finish reason.
pub open spec fn chunk_finished(choices: Seq<StreamChoice>) -> bool {
    choices.len() > 0 && choices[0].finish_reason is Some
}

impl StreamChunk {
    /// Returns the incremental text delta of the first choice, if any.
    pub fn delta_content(&self) -> (r: Option<&str>)
        ensures
            opt_str_view(r) == chunk_delta(self.choices@),
    {
        if self.choices.len() == 0 {
            None
        } else {
            match &self.choices[0].delta.content {
                Some(s) => Some(s.as_str()),
                None => None,
            }
        }
    }

    /// Returns true if this chunk signals the end of the stream.
    pub fn is_finished(&self) -> (r: bool)
        ensures
            r == chunk_finished(self.choices@),
    {
        self.choices.len() > 0 && self.choices[0].finish_reason.is_some()
    }
}

/// A streaming choice containing a partial delta.
#[derive(Debug, Clone)]
pub struct StreamChoice {
    pub index: u32,
    pub delta: Delta,
    pub finish_reason: Option<String>,
}

/// The incremental content delta within a stream chunk.
#[derive(Debug, Clone)]
pub struct Delta {
    pub role: Option<Role>,
    pub content: Option<String>,
    /// Streaming tool call fragments, if the model is calling a function.
    pub tool_calls: Option<Vec<ToolCallDelta>>,
}

/// A chunk with a single choice at index 0 that carries only a text delta
/// and a finish reason.
pub open spec fn is_simple_chunk(
    c: StreamChunk,
    id: Seq<char>,
    model: Seq<char>,
    content: Option<Seq<char>>,
    finish: Option<Seq<char>>,
) -> bool {
    &&& c.id@ == id
    &&& c.model@ == model
    &&& c.choices@.len() == 1
    &&& c.choices@[0].index == 0
    &&& c.choices@[0].delta.role is None
    &&& c.choices@[0].delta.tool_calls is None
    &&& match (c.choices@[0].delta.content, content) {
        (Some(a), Some(b)) => a@ == b,
        (None, None) => true,
        _ => false,
    }
    &&& match (c.choices@[0].finish_reason, finish) {
        (Some(a), Some(b)) => a@ == b,
        (None, None) => true,
        _ => false,
    }
}

/// A chunk with one choice at index 0 holding only the given text delta and
/// finish reason.
pub fn simple_chunk(
    id: String,
    model: String,
    content: Option<String>,
    finish_reason: Option<String>,
) -> (r: StreamChunk)
    ensures
        r.id == id,
        r.model == model,
        r.choices@.len() == 1,
        r.choices@[0].index == 0,
        r.choices@[0].delta.role is None,
        r.choices@[0].delta.tool_calls is None,
        r.choices@[0].delta.content == content,
        r.choices@[0].finish_reason == finish_reason,
{
    let mut choices: Vec<StreamChoice> = Vec::new();
    choices.push(
        StreamChoice {
            index: 0,
            delta: Delta { role: None, content, tool_calls: None },
            finish_reason,
        },
    );
    StreamChunk { id, model, choices }
}

} // verus!
