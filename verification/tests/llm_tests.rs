use cudgel::llm::client::{has_model, service_health};
use cudgel::llm::LlmError;

#[test]
fn llm_errors_have_user_messages() {
    let e = LlmError::Connection("refused".to_string());
    assert_eq!(e.message(), "Connection error: refused");
    assert!(e.to_user_message().starts_with("LLM connection error: refused\n\nTroubleshooting:\n- Ensure Ollama is running (ollama serve)"));
    let e = LlmError::Timeout("60s".to_string());
    assert!(e.to_user_message().contains("Increase timeout"));
}

#[test]
fn service_health_from_model_listing() {
    let h = service_health(Some(vec!["llama3.2:3b".to_string()]), "http://localhost:11434".to_string(), 12);
    assert!(h.is_available);
    assert_eq!(h.ollama_version.as_deref(), Some("unknown"));
    assert_eq!(h.loaded_models, vec!["llama3.2:3b".to_string()]);
    let h = service_health(None, "http://x".to_string(), 3);
    assert!(!h.is_available);
    assert!(h.loaded_models.is_empty());
    assert!(h.ollama_version.is_none());
    assert!(has_model(&vec!["a".to_string(), "b".to_string()], "b"));
    assert!(!has_model(&vec![], "b"));
}
