//! The request and response model shared by every provider.
pub mod message;
pub mod model;
pub mod request;
pub mod response;
pub mod tools;

pub use message::{
    AudioInput, AudioOutput, ChatMessage, ContentPart, DocumentInput, ImageUrl, MessageContent, Role,
};
pub use model::ModelInfo;
pub use request::{
    AudioOutputConfig, ChatRequest, ChatRequestBuilder, ThinkingConfig, TtsRequest, TtsRequestBuilder,
};
pub use response::{
    AnthropicStreamDelta, AnthropicStreamEvent, AnthropicStreamMessage, ChatChoice, ChatResponse, Delta,
    StreamChoice, StreamChunk, Usage,
};
pub use tools::{
    FunctionCall, FunctionCallDelta, FunctionDefinition, Tool, ToolCall, ToolCallDelta, ToolChoice,
    ToolChoiceFunction, ToolChoiceFunctionName, ToolChoicePreset, ToolType,
};
