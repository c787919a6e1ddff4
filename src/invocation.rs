use vstd::prelude::*;
use crate::cli::{arg_text, effective_prompt, get_effective_prompt};
use crate::config::{config_outcome, get_api_config, model_of_token, ApiConfig, ModelType};
use crate::error::CliError;
use crate::text::{trim_stdin_input, trimmed};

verus! {

/// Everything one invocation needs before the relay call: the resolved
/// prompt, the model variant, and the service configuration.
pub struct Invocation {
    pub prompt: String,
    pub model_type: ModelType,
    pub config: ApiConfig,
}

impl Invocation {
    /// Resolves an invocation from its raw inputs: the two prompt arguments,
    /// the whole of standard input, the model token, and the values of the
    /// two environment variables (`None` when unset). The steps run in a fixed
    /// order, prompt, then configuration, then model, and the first failure
    /// is the result; nothing after it is looked at.
    pub fn prepare(
        positional: Option<String>,
        flagged: Option<String>,
        stdin_raw: &str,
        model: &str,
        api_key: Option<String>,
        api_endpoint: Option<String>,
    ) -> (r: Result<Invocation, CliError>)
        ensures
            ({
                let p = effective_prompt(arg_text(positional), arg_text(flagged), trimmed(stdin_raw@));
                let c = config_outcome(arg_text(api_key), arg_text(api_endpoint));
                let m = model_of_token(model@);
                &&& p is None ==> r == Err::<Invocation, CliError>(CliError::NoPromptProvided)
                &&& p is Some && c is Err ==> (r matches Err(CliError::MissingEnvVar(n)) && n@
                    == c->Err_0)
                &&& p is Some && c is Ok && m is None ==> (r matches Err(
                    CliError::UnsupportedModel(t),
                ) && t@ == model@)
                &&& p is Some && c is Ok && m is Some ==> (r matches Ok(inv) && inv.prompt@ == p->0
                    && inv.model_type == m->0 && inv.config.api_key@ == c->Ok_0.0
                    && inv.config.api_endpoint@ == c->Ok_0.1)
            }),
    {
        let stdin_text = trim_stdin_input(stdin_raw);
        let prompt = match get_effective_prompt(positional, flagged, stdin_text.as_str()) {
            Ok(p) => p,
            Err(e) => return Err(e),
        };
        let config = match get_api_config(api_key, api_endpoint) {
            Ok(c) => c,
            Err(e) => return Err(e),
        };
        let model_type = match ModelType::from_str(model) {
            Ok(m) => m,
            Err(e) => return Err(e),
        };
        Ok(Invocation { prompt, model_type, config })
    }
}

} // verus!
