# baochuan

A multi-provider AI API client whose core is verified with Verus.

- `src/` — the verified library: the request and response model and its
  builders, agent run requests, each provider's connection settings, the
  conversions to and from the providers' wire formats (OpenAI-compatible,
  Anthropic, Gemini, Ollama, Cloudflare Workers AI, Perplexity Agent,
  Responses-compatible agent runtimes), and the decoder of the streaming
  formats (server-sent events and newline-delimited JSON). Contracts are
  stated over `Seq`/`Option` views; the laws (chunk boundaries do not change
  a decoded stream; a `[DONE]` marker ends an OpenAI-compatible or agent
  event stream, and only the current network chunk in the Cloudflare and
  Responses streams; tool calls survive a round trip; cited sources are the
  distinct result URLs; ...) are proof functions next to the code they
  speak of.
- `app/` — the I/O around it: the async `Provider` and `AgentProvider`
  traits implemented over HTTP with reqwest, the JSON forms of the
  library's types, and the stream adapters that feed response bytes to the
  library's decoder and reading states.
- `tests/` — tests of the library on concrete values.

Floats (temperature, top-p, speech speed) travel through the library as the
bit patterns of `f32` values; `app/` turns them into numbers on the wire.
