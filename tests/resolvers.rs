use deepseek_cli::cli::get_effective_prompt;
use deepseek_cli::config::{get_api_config, ModelType, API_BASE_VAR, API_KEY_VAR};
use deepseek_cli::error::CliError;
use deepseek_cli::text::trim_stdin_input;

#[test]
fn model_tokens_map_to_their_variants() {
    assert_eq!(ModelType::from_str("coder"), Ok(ModelType::Coder));
    assert_eq!(ModelType::from_str("chat"), Ok(ModelType::Chat));
    assert_eq!(ModelType::from_str("creative"), Ok(ModelType::Creative));
    assert_eq!(ModelType::from_str("coder-R"), Ok(ModelType::CoderReasoner));
    assert_eq!(ModelType::from_str("chat-R"), Ok(ModelType::ChatReasoner));
    assert_eq!(ModelType::from_str("creative-R"), Ok(ModelType::CreativeReasoner));
}

#[test]
fn unknown_model_token_is_refused_with_the_token() {
    for token in ["", "Coder", "chat-r", "coder ", "gpt", "creative-RR"] {
        assert_eq!(
            ModelType::from_str(token),
            Err(CliError::UnsupportedModel(token.to_string()))
        );
    }
}

#[test]
fn positional_prompt_wins() {
    let r = get_effective_prompt(Some("A".to_string()), Some("B".to_string()), "C");
    assert_eq!(r, Ok("A".to_string()));
}

#[test]
fn empty_positional_prompt_still_wins() {
    let r = get_effective_prompt(Some(String::new()), Some("B".to_string()), "C");
    assert_eq!(r, Ok(String::new()));
}

#[test]
fn flag_prompt_comes_second() {
    let r = get_effective_prompt(None, Some("B".to_string()), "C");
    assert_eq!(r, Ok("B".to_string()));
}

#[test]
fn stdin_prompt_comes_last_and_is_trimmed() {
    let stdin = trim_stdin_input("  C \n");
    assert_eq!(stdin, "C");
    let r = get_effective_prompt(None, None, &stdin);
    assert_eq!(r, Ok("C".to_string()));
}

#[test]
fn no_prompt_anywhere_fails() {
    let stdin = trim_stdin_input("");
    assert_eq!(get_effective_prompt(None, None, &stdin), Err(CliError::NoPromptProvided));
    let blank = trim_stdin_input(" \t\n ");
    assert_eq!(blank, "");
    assert_eq!(get_effective_prompt(None, None, &blank), Err(CliError::NoPromptProvided));
}

#[test]
fn trim_keeps_inner_white_space() {
    assert_eq!(trim_stdin_input("\u{3000} a  b\u{a0}"), "a  b");
}

#[test]
fn missing_api_key_is_named() {
    let r = get_api_config(None, Some("https://example.org".to_string()));
    assert_eq!(r.err(), Some(CliError::MissingEnvVar("OPENAI_API_KEY".to_string())));
}

#[test]
fn missing_base_url_is_named() {
    let r = get_api_config(Some("k".to_string()), None);
    assert_eq!(r.err(), Some(CliError::MissingEnvVar("OPENAI_BASE_URL".to_string())));
    assert_eq!(API_KEY_VAR, "OPENAI_API_KEY");
    assert_eq!(API_BASE_VAR, "OPENAI_BASE_URL");
}

#[test]
fn both_variables_missing_names_the_key_first() {
    let r = get_api_config(None, None);
    assert_eq!(r.err(), Some(CliError::MissingEnvVar("OPENAI_API_KEY".to_string())));
}

#[test]
fn config_values_are_taken_verbatim() {
    let key = "sk-$%&\"' \u{e9}".to_string();
    let base = "not a url :: ??".to_string();
    let c = get_api_config(Some(key.clone()), Some(base.clone())).ok().unwrap();
    assert_eq!(c.api_key, key);
    assert_eq!(c.api_endpoint, base);
}
