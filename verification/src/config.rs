//! Configuration values shared by the LLM clients and the providers.

use vstd::prelude::*;

verus! {

/// Default OpenAI-compatible endpoint.
pub const DEFAULT_OPENAI_URL: &'static str = "https://api.openai.com/v1";

/// Default OpenAI model.
pub const DEFAULT_OPENAI_MODEL: &'static str = "gpt-4o";

/// Default OpenRouter endpoint.
pub const DEFAULT_OPENROUTER_URL: &'static str = "https://openrouter.ai/api/v1";

/// Default Anthropic messages endpoint.
pub const DEFAULT_ANTHROPIC_URL: &'static str = "https://api.anthropic.com/v1/messages";

/// Default Anthropic API version.
pub const DEFAULT_ANTHROPIC_API_VERSION: &'static str = "2023-06-01";

/// Default endpoint of a local Ollama server (OpenAI-compatible API).
pub const DEFAULT_OLLAMA_URL: &'static str = "http://localhost:11434/v1";

/// Default Ollama model.
pub const DEFAULT_OLLAMA_MODEL: &'static str = "llama3";

/// Default limit of tokens in a response.
pub const DEFAULT_MAX_TOKENS: u32 = 8192;

/// The `[llm]` section of the configuration.
#[derive(Debug, Clone)]
pub struct LLMConfig {
    /// Provider name: "openai", "anthropic", "ollama", "bedrock"/"aws".
    pub provider: String,
    /// API key, when not taken from the environment.
    pub api_key: Option<String>,
    /// Model name; the provider's default when absent.
    pub model: Option<String>,
    /// API endpoint (the AWS region, for Bedrock); the provider's default when absent.
    pub base_url: Option<String>,
    /// Maximum tokens of a response.
    pub max_tokens: u32,
}

impl Default for LLMConfig {
    fn default() -> (c: Self)
        ensures
            c.provider@ == "openai"@,
            c.api_key is None,
            c.model is None,
            c.base_url is None,
            c.max_tokens == DEFAULT_MAX_TOKENS,
    {
        LLMConfig {
            provider: String::from_str("openai"),
            api_key: None,
            model: None,
            base_url: None,
            max_tokens: DEFAULT_MAX_TOKENS,
        }
    }
}

} // verus!
