//! Chat and text-to-speech requests and their builders.
//!
//! Sampling parameters that the providers take as floating-point numbers
//! (temperature, top-p, speech speed) are carried as the IEEE-754 bit
//! pattern of the `f32` value (`f32::to_bits`); the library never computes
//! with them, it only hands them on.
use vstd::prelude::*;

use crate::error::BaochuanError;
use crate::text::IntoText;
use crate::types::message::ChatMessage;
use crate::types::tools::{Tool, ToolChoice};

verus! {

/// Controls whether a reasoning/thinking model should produce chain-of-thought
/// tokens (DeepSeek V4, Kimi, and similar OpenAI-compatible APIs).
#[derive(Debug, Clone)]
pub struct ThinkingConfig {
    /// `"enabled"` or `"disabled"`.
    pub thinking_type: String,
}

impl ThinkingConfig {
    /// Enable thinking / chain-of-thought generation.
    pub fn enabled() -> (r: Self)
        ensures
            r.thinking_type@ == "enabled"@,
    {
        ThinkingConfig { thinking_type: String::from_str("enabled") }
    }

    /// Disable thinking (non-reasoning chat mode).
    pub fn disabled() -> (r: Self)
        ensures
            r.thinking_type@ == "disabled"@,
    {
        ThinkingConfig { thinking_type: String::from_str("disabled") }
    }
}

/// A fully constructed chat completion request ready to send.
#[derive(Debug, Clone)]
pub struct ChatRequest {
    pub model: String,
    pub messages: Vec<ChatMessage>,
    pub stream: bool,
    pub max_tokens: Option<u32>,
    /// Preferred token limit for OpenAI (including o-series / reasoning models).
    pub max_completion_tokens: Option<u32>,
    /// Sampling temperature, as the bit pattern of an `f32`.
    pub temperature: Option<u32>,
    /// Nucleus sampling mass, as the bit pattern of an `f32`.
    pub top_p: Option<u32>,
    /// Output modalities to request, e.g. `["text", "audio"]`.
    pub modalities: Option<Vec<String>>,
    /// Audio output configuration required when `modalities` includes `"audio"`.
    pub audio_output: Option<AudioOutputConfig>,
    /// Tools (functions) the model may call.
    pub tools: Option<Vec<Tool>>,
    /// Controls whether/how the model uses tools.
    pub tool_choice: Option<ToolChoice>,
    /// Enable or disable thinking mode (DeepSeek V4, Kimi, etc.).
    pub thinking: Option<ThinkingConfig>,
    /// Reasoning effort hint (`"low"`, `"medium"`, `"high"`, `"max"`).
    pub reasoning_effort: Option<String>,
}

/// Configuration for audio output in a chat completion (GPT-4o audio).
#[derive(Debug, Clone)]
pub struct AudioOutputConfig {
    /// Voice to use (e.g. `"alloy"`, `"echo"`, `"fable"`, `"onyx"`, `"nova"`, `"shimmer"`).
    pub voice: String,
    /// Output format: `"wav"`, `"mp3"`, `"flac"`, `"opus"`, `"pcm16"`.
    pub format: String,
}

/// What a [`ChatRequestBuilder`] has collected so far.
pub struct ChatRequestDraft {
    pub model: Option<String>,
    pub messages: Seq<ChatMessage>,
    pub stream: bool,
    pub max_tokens: Option<u32>,
    pub max_completion_tokens: Option<u32>,
    pub temperature: Option<u32>,
    pub top_p: Option<u32>,
    pub modalities: Option<Vec<String>>,
    pub audio_output: Option<AudioOutputConfig>,
    pub tools: Option<Seq<Tool>>,
    pub tool_choice: Option<ToolChoice>,
    pub thinking: Option<ThinkingConfig>,
    pub reasoning_effort: Option<String>,
}

/// Builder for [`ChatRequest`].
#[derive(Debug)]
pub struct ChatRequestBuilder {
    model: Option<String>,
    messages: Vec<ChatMessage>,
    stream: bool,
    max_tokens: Option<u32>,
    max_completion_tokens: Option<u32>,
    temperature: Option<u32>,
    top_p: Option<u32>,
    modalities: Option<Vec<String>>,
    audio_output: Option<AudioOutputConfig>,
    tools: Option<Vec<Tool>>,
    tool_choice: Option<ToolChoice>,
    thinking: Option<ThinkingConfig>,
    reasoning_effort: Option<String>,
}

impl View for ChatRequestBuilder {
    type V = ChatRequestDraft;

    closed spec fn view(&self) -> ChatRequestDraft {
        ChatRequestDraft {
            model: self.model,
            messages: self.messages@,
            stream: self.stream,
            max_tokens: self.max_tokens,
            max_completion_tokens: self.max_completion_tokens,
            temperature: self.temperature,
            top_p: self.top_p,
            modalities: self.modalities,
            audio_output: self.audio_output,
            tools: match self.tools {
                Some(t) => Some(t@),
                None => None,
            },
            tool_choice: self.tool_choice,
            thinking: self.thinking,
            reasoning_effort: self.reasoning_effort,
        }
    }
}

/// The draft of a fresh builder: nothing set.
pub open spec fn empty_draft() -> ChatRequestDraft {
    ChatRequestDraft {
        model: None,
        messages: Seq::empty(),
        stream: false,
        max_tokens: None,
        max_completion_tokens: None,
        temperature: None,
        top_p: None,
        modalities: None,
        audio_output: None,
        tools: None,
        tool_choice: None,
        thinking: None,
        reasoning_effort: None,
    }
}

/// The request that a draft builds into: its settings, with the model taken
/// out of its option.
pub open spec fn draft_request(d: ChatRequestDraft, r: ChatRequest) -> bool {
    &&& d.model == Some(r.model)
    &&& r.messages@ == d.messages
    &&& r.stream == d.stream
    &&& r.max_tokens == d.max_tokens
    &&& r.max_completion_tokens == d.max_completion_tokens
    &&& r.temperature == d.temperature
    &&& r.top_p == d.top_p
    &&& r.modalities == d.modalities
    &&& r.audio_output == d.audio_output
    &&& match (r.tools, d.tools) {
        (Some(a), Some(b)) => a@ == b,
        (None, None) => true,
        _ => false,
    }
    &&& r.tool_choice == d.tool_choice
    &&& r.thinking == d.thinking
    &&& r.reasoning_effort == d.reasoning_effort
}

impl ChatRequestBuilder {
    pub fn new<M: IntoText>(model: M) -> (r: Self)
        ensures
            r@.model matches Some(m) && m@ == model.text_view(),
            r@ == (ChatRequestDraft { model: r@.model, ..empty_draft() }),
    {
        ChatRequestBuilder {
            model: Some(model.into_text()),
            messages: Vec::new(),
            stream: false,
            max_tokens: None,
            max_completion_tokens: None,
            temperature: None,
            top_p: None,
            modalities: None,
            audio_output: None,
            tools: None,
            tool_choice: None,
            thinking: None,
            reasoning_effort: None,
        }
    }

    /// Append a message to the conversation.
    pub fn message(self, message: ChatMessage) -> (r: Self)
        ensures
            r@ == (ChatRequestDraft { messages: self@.messages.push(message), ..self@ }),
    {
        let mut b = self;
        b.messages.push(message);
        b
    }

    /// Replace the whole conversation.
    pub fn messages(self, messages: Vec<ChatMessage>) -> (r: Self)
        ensures
            r@ == (ChatRequestDraft { messages: messages@, ..self@ }),
    {
        let mut b = self;
        b.messages = messages;
        b
    }

    pub fn stream(self, stream: bool) -> (r: Self)
        ensures
            r@ == (ChatRequestDraft { stream, ..self@ }),
    {
        let mut b = self;
        b.stream = stream;
        b
    }

    pub fn max_tokens(self, max_tokens: u32) -> (r: Self)
        ensures
            r@ == (ChatRequestDraft { max_tokens: Some(max_tokens), ..self@ }),
    {
        let mut b = self;
        b.max_tokens = Some(max_tokens);
        b
    }

    /// Set `max_completion_tokens` (preferred by OpenAI, including o-series).
    pub fn max_completion_tokens(self, max_completion_tokens: u32) -> (r: Self)
        ensures
            r@ == (ChatRequestDraft { max_completion_tokens: Some(max_completion_tokens), ..self@ }),
    {
        let mut b = self;
        b.max_completion_tokens = Some(max_completion_tokens);
        b
    }

    /// Set the sampling temperature, given as the bit pattern of an `f32`
    /// (`f32::to_bits`).
    pub fn temperature(self, temperature: u32) -> (r: Self)
        ensures
            r@ == (ChatRequestDraft { temperature: Some(temperature), ..self@ }),
    {
        let mut b = self;
        b.temperature = Some(temperature);
        b
    }

    /// Set top-p, given as the bit pattern of an `f32` (`f32::to_bits`).
    pub fn top_p(self, top_p: u32) -> (r: Self)
        ensures
            r@ == (ChatRequestDraft { top_p: Some(top_p), ..self@ }),
    {
        let mut b = self;
        b.top_p = Some(top_p);
        b
    }

    /// Request specific output modalities (e.g. `["text", "audio"]`).
    pub fn modalities(self, modalities: Vec<String>) -> (r: Self)
        ensures
            r@ == (ChatRequestDraft { modalities: Some(modalities), ..self@ }),
    {
        let mut b = self;
        b.modalities = Some(modalities);
        b
    }

    /// Configure audio output for models that support it.
    pub fn audio_output<V: IntoText, F: IntoText>(self, voice: V, format: F) -> (r: Self)
        ensures
            r@.audio_output matches Some(a) && a.voice@ == voice.text_view() && a.format@
                == format.text_view(),
            r@ == (ChatRequestDraft { audio_output: r@.audio_output, ..self@ }),
    {
        let mut b = self;
        b.audio_output = Some(AudioOutputConfig { voice: voice.into_text(), format: format.into_text() });
        b
    }

    /// Add a single tool (function) the model may call.
    pub fn tool(self, tool: Tool) -> (r: Self)
        ensures
            r@ == (ChatRequestDraft {
                tools: Some(
                    match self@.tools {
                        Some(t) => t.push(tool),
                        None => seq![tool],
                    },
                ),
                ..self@
            }),
    {
        let mut b = self;
        let mut tools = match b.tools {
            Some(t) => t,
            None => Vec::new(),
        };
        tools.push(tool);
        b.tools = Some(tools);
        b
    }

    /// Set all tools at once.
    pub fn tools(self, tools: Vec<Tool>) -> (r: Self)
        ensures
            r@ == (ChatRequestDraft { tools: Some(tools@), ..self@ }),
    {
        let mut b = self;
        b.tools = Some(tools);
        b
    }

    /// Control whether/how the model uses tools.
    pub fn tool_choice(self, choice: ToolChoice) -> (r: Self)
        ensures
            r@ == (ChatRequestDraft { tool_choice: Some(choice), ..self@ }),
    {
        let mut b = self;
        b.tool_choice = Some(choice);
        b
    }

    /// Enable or disable thinking mode for reasoning models.
    pub fn thinking(self, thinking: ThinkingConfig) -> (r: Self)
        ensures
            r@ == (ChatRequestDraft { thinking: Some(thinking), ..self@ }),
    {
        let mut b = self;
        b.thinking = Some(thinking);
        b
    }

    /// Set reasoning effort (`"low"`, `"medium"`, `"high"`, `"max"`).
    pub fn reasoning_effort<E: IntoText>(self, effort: E) -> (r: Self)
        ensures
            r@.reasoning_effort matches Some(e) && e@ == effort.text_view(),
            r@ == (ChatRequestDraft { reasoning_effort: r@.reasoning_effort, ..self@ }),
    {
        let mut b = self;
        b.reasoning_effort = Some(effort.into_text());
        b
    }

    /// Build the request. Fails when no model is set or no message was added.
    pub fn build(self) -> (r: Result<ChatRequest, BaochuanError>)
        ensures
            self@.model is None ==> crate::error::is_invalid_request(r, "model must be specified"@),
            self@.model is Some && self@.messages.len() == 0 ==> crate::error::is_invalid_request(r, "at least one message is required"@),
            self@.model is Some && self@.messages.len() > 0 ==> (r matches Ok(req) && draft_request(
                self@,
                req,
            )),
    {
        let model = match self.model {
            Some(m) => m,
            None => {
                return Err(BaochuanError::InvalidRequest(String::from_str("model must be specified")));
            },
        };
        if self.messages.len() == 0 {
            return Err(
                BaochuanError::InvalidRequest(String::from_str("at least one message is required")),
            );
        }
        Ok(
            ChatRequest {
                model,
                messages: self.messages,
                stream: self.stream,
                max_tokens: self.max_tokens,
                max_completion_tokens: self.max_completion_tokens,
                temperature: self.temperature,
                top_p: self.top_p,
                modalities: self.modalities,
                audio_output: self.audio_output,
                tools: self.tools,
                tool_choice: self.tool_choice,
                thinking: self.thinking,
                reasoning_effort: self.reasoning_effort,
            },
        )
    }
}

impl Default for ChatRequestBuilder {
    /// A builder with nothing set, not even the model.
    fn default() -> (r: Self)
        ensures
            r@ == empty_draft(),
    {
        ChatRequestBuilder {
            model: None,
            messages: Vec::new(),
            stream: false,
            max_tokens: None,
            max_completion_tokens: None,
            temperature: None,
            top_p: None,
            modalities: None,
            audio_output: None,
            tools: None,
            tool_choice: None,
            thinking: None,
            reasoning_effort: None,
        }
    }
}

/// A text-to-speech request.
#[derive(Debug, Clone)]
pub struct TtsRequest {
    pub model: String,
    pub input: String,
    pub voice: String,
    /// Output audio format (sent as `response_format`).
    pub format: Option<String>,
    /// Speaking speed multiplier, as the bit pattern of an `f32`.
    pub speed: Option<u32>,
}

/// Builder for [`TtsRequest`].
#[derive(Debug)]
pub struct TtsRequestBuilder {
    model: Option<String>,
    input: Option<String>,
    voice: Option<String>,
    format: Option<String>,
    speed: Option<u32>,
}

/// What a [`TtsRequestBuilder`] has collected so far.
pub struct TtsDraft {
    pub model: Option<String>,
    pub input: Option<String>,
    pub voice: Option<String>,
    pub format: Option<String>,
    pub speed: Option<u32>,
}

impl View for TtsRequestBuilder {
    type V = TtsDraft;

    closed spec fn view(&self) -> TtsDraft {
        TtsDraft {
            model: self.model,
            input: self.input,
            voice: self.voice,
            format: self.format,
            speed: self.speed,
        }
    }
}

impl Default for TtsRequestBuilder {
    fn default() -> (r: Self)
        ensures
            r@ == (TtsDraft { model: None, input: None, voice: None, format: None, speed: None }),
    {
        TtsRequestBuilder { model: None, input: None, voice: None, format: None, speed: None }
    }
}

impl TtsRequestBuilder {
    /// Create a new builder with the required model and input text.
    pub fn new<M: IntoText, I: IntoText>(model: M, input: I) -> (r: Self)
        ensures
            r@.model matches Some(m) && m@ == model.text_view(),
            r@.input matches Some(i) && i@ == input.text_view(),
            r@.voice is None && r@.format is None && r@.speed is None,
    {
        TtsRequestBuilder {
            model: Some(model.into_text()),
            input: Some(input.into_text()),
            voice: None,
            format: None,
            speed: None,
        }
    }

    /// Set the voice (required before [`build`](Self::build)).
    pub fn voice<V: IntoText>(self, voice: V) -> (r: Self)
        ensures
            r@.voice matches Some(v) && v@ == voice.text_view(),
            r@ == (TtsDraft { voice: r@.voice, ..self@ }),
    {
        let mut b = self;
        b.voice = Some(voice.into_text());
        b
    }

    /// Set the output audio format.
    pub fn format<F: IntoText>(self, format: F) -> (r: Self)
        ensures
            r@.format matches Some(f) && f@ == format.text_view(),
            r@ == (TtsDraft { format: r@.format, ..self@ }),
    {
        let mut b = self;
        b.format = Some(format.into_text());
        b
    }

    /// Set the speaking speed multiplier, given as the bit pattern of an
    /// `f32` (`f32::to_bits`).
    pub fn speed(self, speed: u32) -> (r: Self)
        ensures
            r@ == (TtsDraft { speed: Some(speed), ..self@ }),
    {
        let mut b = self;
        b.speed = Some(speed);
        b
    }

    /// Build the request; model, input and voice are required, checked in
    /// that order.
    pub fn build(self) -> (r: Result<TtsRequest, BaochuanError>)
        ensures
            self@.model is None ==> crate::error::is_invalid_request(r, "model required"@),
            self@.model is Some && self@.input is None ==> crate::error::is_invalid_request(r, "input required"@),
            self@.model is Some && self@.input is Some && self@.voice is None ==> crate::error::is_invalid_request(r, "voice required"@),
            self@.model is Some && self@.input is Some && self@.voice is Some ==> (r matches Ok(req)
                && Some(req.model) == self@.model && Some(req.input) == self@.input && Some(
                req.voice,
            ) == self@.voice && req.format == self@.format && req.speed == self@.speed),
    {
        let model = match self.model {
            Some(m) => m,
            None => {
                return Err(BaochuanError::InvalidRequest(String::from_str("model required")));
            },
        };
        let input = match self.input {
            Some(i) => i,
            None => {
                return Err(BaochuanError::InvalidRequest(String::from_str("input required")));
            },
        };
        let voice = match self.voice {
            Some(v) => v,
            None => {
                return Err(BaochuanError::InvalidRequest(String::from_str("voice required")));
            },
        };
        Ok(TtsRequest { model, input, voice, format: self.format, speed: self.speed })
    }
}

} // verus!
