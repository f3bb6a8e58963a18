//! Provider-specific logic: connection settings, wire formats, conversions
//! and stream decoding.
pub mod anthropic;
pub mod cerebras;
pub mod cloudflare;
pub mod convert;
pub mod copilot;
pub mod deepseek;
pub mod fireworks;
pub mod gemini;
pub mod grok;
pub mod groq;
pub mod helpers;
pub mod hermes_agent;
pub mod huggingface;
pub mod llamacpp;
pub mod lmstudio;
pub mod mistral;
pub mod moonshot;
pub mod nous;
pub mod nvidia;
pub mod ollama;
pub mod openai;
pub mod openai_compat;
pub mod openrouter;
pub mod perplexity;
pub mod qwen;
pub mod sambanova;
pub mod sse;
pub mod zhipu;

pub use anthropic::AnthropicProvider;
pub use cerebras::CerebrasProvider;
pub use cloudflare::CloudflareProvider;
pub use copilot::CopilotProvider;
pub use deepseek::DeepSeekProvider;
pub use fireworks::FireworksProvider;
pub use gemini::GeminiProvider;
pub use grok::GrokProvider;
pub use groq::GroqProvider;
pub use hermes_agent::HermesAgentProvider;
pub use huggingface::HuggingFaceProvider;
pub use llamacpp::LlamaCppProvider;
pub use lmstudio::LmStudioProvider;
pub use mistral::MistralProvider;
pub use moonshot::MoonshotProvider;
pub use nous::NousProvider;
pub use nvidia::NvidiaProvider;
pub use ollama::OllamaProvider;
pub use openai::OpenAIProvider;
pub use openai_compat::OpenAICompatClient;
pub use openrouter::OpenRouterProvider;
pub use perplexity::PerplexityProvider;
pub use qwen::QwenProvider;
pub use sambanova::SambaNovaProvider;
pub use zhipu::ZhipuProvider;
