use btwd::llm::{parse_provider, GroqClient, LlmProvider, MistralClient};

#[test]
fn clients_keep_their_key() {
    assert_eq!(GroqClient::new("k1".to_string()).api_key(), "k1");
    assert_eq!(MistralClient::new("k2".to_string()).api_key(), "k2");
}

#[test]
fn provider_names() {
    assert_eq!(parse_provider("groq"), Ok(LlmProvider::Groq));
    assert_eq!(parse_provider("mistral"), Ok(LlmProvider::Mistral));
    assert_eq!(parse_provider("openai"), Err("unknown provider 'openai'".to_string()));
}
