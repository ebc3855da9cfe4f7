use arq_core::config::LLMConfig;
use arq_core::llm::error::LLMError;
use arq_core::llm::provider::{Provider, ProviderEnv};

fn env_with_provider(p: Option<&str>) -> ProviderEnv {
    ProviderEnv {
        arq_llm_provider: p.map(|s| s.to_string()),
        arq_llm_base_url: None,
        arq_llm_api_key: None,
        arq_llm_model: None,
        openai_base_url: None,
        openai_api_key: None,
        openai_model: None,
        anthropic_api_key: None,
        anthropic_model: None,
        ollama_host: None,
        ollama_model: None,
        aws_bedrock_model: None,
        aws_default_region: None,
    }
}

#[test]
fn anthropic_name_chooses_anthropic() {
    let config = LLMConfig { provider: "anthropic".to_string(), ..LLMConfig::default() };
    assert!(matches!(Provider::from_config(&config), Provider::Anthropic { .. }));
    for name in ["Anthropic", "ANTHROPIC"] {
        assert!(matches!(Provider::from_env_values(&env_with_provider(Some(name))), Ok(Provider::Anthropic { .. })));
    }
}

#[test]
fn unknown_provider_names_are_refused_in_lowercase() {
    match Provider::from_env_values(&env_with_provider(Some("Mystery"))) {
        Err(LLMError::UnknownProvider(n)) => assert_eq!(n, "mystery"),
        _ => panic!("expected an unknown provider"),
    }
    let config = LLMConfig { provider: "Anthropic".to_string(), ..LLMConfig::default() };
    assert!(matches!(Provider::from_config(&config), Provider::OpenAI { .. }));
}
