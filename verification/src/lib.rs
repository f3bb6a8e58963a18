//! baochuan: a multi-provider AI API client. This crate holds the verified
//! core: the request and response model, the request builders, the agent
//! run requests, each provider's connection settings, the conversions to
//! and from each provider's wire format, and the decoders of the streaming
//! formats.
#![allow(unused_imports)]

pub mod agent;
pub mod error;
pub mod providers;
pub mod text;
pub mod types;
pub mod vecs;

pub use agent::{
    AgentEvent, AgentInput, AgentInputContent, AgentInputContentPart, AgentInputItem, AgentOutputContent,
    AgentOutputItem, AgentResponse, AgentRunRequest, AgentRunRequestBuilder, AgentUsage,
};
pub use error::BaochuanError;
pub use types::{
    AudioInput, AudioOutput, AudioOutputConfig, ChatMessage, ChatRequest, ChatRequestBuilder,
    ChatResponse, ContentPart, DocumentInput, FunctionCall, FunctionDefinition, ImageUrl,
    MessageContent, ModelInfo, Role, ThinkingConfig, Tool, ToolCall, ToolChoice, TtsRequest,
    TtsRequestBuilder, Usage,
};
