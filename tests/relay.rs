use deepseek_cli::config::ModelType;
use deepseek_cli::error::CliError;
use deepseek_cli::invocation::Invocation;
use deepseek_cli::llm::{stream_response, LlmService};
use deepseek_cli::text::split_into_chunks;

fn env_values() -> (Option<String>, Option<String>) {
    (Some("key".to_string()), Some("https://api.example.org".to_string()))
}

#[test]
fn non_streaming_chat_hello() {
    let (k, b) = env_values();
    let inv = Invocation::prepare(Some("hello".to_string()), None, "", "chat", k, b).ok().unwrap();
    assert_eq!(inv.prompt, "hello");
    assert_eq!(inv.model_type, ModelType::Chat);
    let service = LlmService::new(inv.config.api_key.clone(), inv.config.api_endpoint.clone());
    let response = service.send_request(&inv.model_type, &inv.prompt, false).ok().unwrap();
    assert_eq!(response, "Response from chat model for prompt: hello");
    assert!(response.contains("hello"));
    assert!(!response.contains('\n'));
}

#[test]
fn response_names_the_family() {
    let s = LlmService::new("k".to_string(), "e".to_string());
    assert_eq!(s.api_key(), "k");
    assert_eq!(s.api_endpoint(), "e");
    let r = s.send_request(&ModelType::CoderReasoner, "x", true).ok().unwrap();
    assert_eq!(r, "Response from coder model for prompt: x");
    let r = s.send_request(&ModelType::CreativeReasoner, "", false).ok().unwrap();
    assert_eq!(r, "Response from creative model for prompt: ");
}

#[test]
fn streamed_chunks_rebuild_the_response() {
    let chunks = stream_response(&ModelType::Coder, "write a  small\tparser please").ok().unwrap();
    assert!(!chunks.is_empty());
    assert_eq!(chunks.concat(), "Streaming response for prompt: write a  small\tparser please");
    assert_eq!(chunks[0], "Streaming response for ");
    assert_eq!(chunks[1], "prompt: write a  ");
    assert_eq!(chunks[2], "small\tparser please");
    assert_eq!(chunks.len(), 3);
}

#[test]
fn chunks_hold_at_most_three_words() {
    let chunks = split_into_chunks("  one two three four\n five ");
    assert_eq!(chunks, vec!["  one two three ".to_string(), "four\n five ".to_string()]);
    assert!(split_into_chunks("").is_empty());
    assert_eq!(split_into_chunks("   "), vec!["   ".to_string()]);
}

#[test]
fn prepare_checks_prompt_before_config_and_model() {
    let r = Invocation::prepare(None, None, "  \n", "nope", None, None);
    assert!(matches!(r, Err(CliError::NoPromptProvided)));
    let r = Invocation::prepare(None, Some("p".to_string()), "", "nope", None, None);
    assert!(matches!(r, Err(CliError::MissingEnvVar(ref n)) if n == "OPENAI_API_KEY"));
    let (k, b) = env_values();
    let r = Invocation::prepare(None, None, " piped text\n", "nope", k, b);
    assert!(matches!(r, Err(CliError::UnsupportedModel(ref t)) if t == "nope"));
}

#[test]
fn prepare_uses_trimmed_stdin() {
    let (k, b) = env_values();
    let inv = Invocation::prepare(None, None, "\n  from stdin \n", "creative-R", k, b).ok().unwrap();
    assert_eq!(inv.prompt, "from stdin");
    assert_eq!(inv.model_type, ModelType::CreativeReasoner);
    assert_eq!(inv.config.api_key, "key");
    assert_eq!(inv.config.api_endpoint, "https://api.example.org");
}
