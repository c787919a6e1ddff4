use vstd::prelude::*;
use vstd::string::StringExecFns;
use crate::error::CliError;
use crate::text::same_text;

verus! {

/// Credentials and endpoint of the model service.
pub struct ApiConfig {
    pub api_key: String,
    pub api_endpoint: String,
}

/// The environment variable that holds the API key.
pub const API_KEY_VAR: &'static str = "OPENAI_API_KEY";

/// The environment variable that holds the API base endpoint.
pub const API_BASE_VAR: &'static str = "OPENAI_BASE_URL";

/// The configuration built from the two variables' values, or the name of
/// the first one (key before endpoint) that is not set.
pub open spec fn config_outcome(api_key: Option<Seq<char>>, api_endpoint: Option<Seq<char>>) -> Result<
    (Seq<char>, Seq<char>),
    Seq<char>,
> {
    match (api_key, api_endpoint) {
        (Some(k), Some(e)) => Ok((k, e)),
        (None, _) => Err(API_KEY_VAR@),
        (Some(_), None) => Err(API_BASE_VAR@),
    }
}

/// The six model variants: three families, each in a standard and a
/// reasoning form.
#[derive(Debug, Clone, Copy, PartialEq, Eq, Structural)]
pub enum ModelType {
    Coder,
    Chat,
    Creative,
    CoderReasoner,
    ChatReasoner,
    CreativeReasoner,
}

/// The variant that a token names, if it names one (exact, case-sensitive).
pub open spec fn model_of_token(s: Seq<char>) -> Option<ModelType> {
    if s == "coder"@ {
        Some(ModelType::Coder)
    } else if s == "chat"@ {
        Some(ModelType::Chat)
    } else if s == "creative"@ {
        Some(ModelType::Creative)
    } else if s == "coder-R"@ {
        Some(ModelType::CoderReasoner)
    } else if s == "chat-R"@ {
        Some(ModelType::ChatReasoner)
    } else if s == "creative-R"@ {
        Some(ModelType::CreativeReasoner)
    } else {
        None
    }
}

/// Builds the configuration from the values of the two environment
/// variables, as looked up by the caller (`None` for an unset variable).
/// Set values are taken verbatim, without any validation.
pub fn get_api_config(api_key: Option<String>, api_endpoint: Option<String>) -> (r: Result<
    ApiConfig,
    CliError,
>)
    ensures
        config_outcome(crate::cli::arg_text(api_key), crate::cli::arg_text(api_endpoint)) matches Ok(
            (k, e),
        ) ==> (r matches Ok(c) && c.api_key@ == k && c.api_endpoint@ == e),
        config_outcome(crate::cli::arg_text(api_key), crate::cli::arg_text(api_endpoint)) matches Err(
            name,
        ) ==> (r matches Err(CliError::MissingEnvVar(n)) && n@ == name),
{
    match (api_key, api_endpoint) {
        (Some(api_key), Some(api_endpoint)) => Ok(ApiConfig { api_key, api_endpoint }),
        (None, _) => Err(CliError::MissingEnvVar(String::from_str(API_KEY_VAR))),
        (Some(_), None) => Err(CliError::MissingEnvVar(String::from_str(API_BASE_VAR))),
    }
}

impl ModelType {
    /// Resolves a model token; any token but the six accepted ones is
    /// refused with `UnsupportedModel` carrying that token.
    pub fn from_str(s: &str) -> (r: Result<ModelType, CliError>)
        ensures
            s@ == "coder"@ ==> r == Ok::<ModelType, CliError>(ModelType::Coder),
            s@ == "chat"@ ==> r == Ok::<ModelType, CliError>(ModelType::Chat),
            s@ == "creative"@ ==> r == Ok::<ModelType, CliError>(ModelType::Creative),
            s@ == "coder-R"@ ==> r == Ok::<ModelType, CliError>(ModelType::CoderReasoner),
            s@ == "chat-R"@ ==> r == Ok::<ModelType, CliError>(ModelType::ChatReasoner),
            s@ == "creative-R"@ ==> r == Ok::<ModelType, CliError>(ModelType::CreativeReasoner),
            model_of_token(s@) matches Some(m) ==> r == Ok::<ModelType, CliError>(m),
            model_of_token(s@) is None ==> (r matches Err(CliError::UnsupportedModel(t))
                && t@ == s@),
    {
        proof {
            reveal_strlit("coder");
            reveal_strlit("chat");
            reveal_strlit("creative");
            reveal_strlit("coder-R");
            reveal_strlit("chat-R");
            reveal_strlit("creative-R");
            assert("coder"@.len() == 5 && "chat"@.len() == 4 && "creative"@.len() == 8);
            assert("coder-R"@.len() == 7 && "chat-R"@.len() == 6 && "creative-R"@.len() == 10);
        }
        if same_text(s, "coder") {
            Ok(ModelType::Coder)
        } else if same_text(s, "chat") {
            Ok(ModelType::Chat)
        } else if same_text(s, "creative") {
            Ok(ModelType::Creative)
        } else if same_text(s, "coder-R") {
            Ok(ModelType::CoderReasoner)
        } else if same_text(s, "chat-R") {
            Ok(ModelType::ChatReasoner)
        } else if same_text(s, "creative-R") {
            Ok(ModelType::CreativeReasoner)
        } else {
            Err(CliError::UnsupportedModel(String::from_str(s)))
        }
    }
}

} // verus!
