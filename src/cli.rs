use vstd::prelude::*;
use vstd::string::StringExecFns;
use crate::error::CliError;

verus! {

/// The text of an optional argument, if it was given.
pub open spec fn arg_text(a: Option<String>) -> Option<Seq<char>> {
    match a {
        Some(s) => Some(s@),
        None => None,
    }
}

/// The prompt chosen among the three sources, first match wins: the
/// positional argument if given (even empty), then the flag argument if given,
/// then standard input's text if it is not empty.
pub open spec fn effective_prompt(
    positional: Option<Seq<char>>,
    flagged: Option<Seq<char>>,
    stdin_text: Seq<char>,
) -> Option<Seq<char>> {
    if positional is Some {
        positional
    } else if flagged is Some {
        flagged
    } else if stdin_text.len() > 0 {
        Some(stdin_text)
    } else {
        None
    }
}

/// Resolves the prompt of an invocation; fails with `NoPromptProvided`
/// exactly when no source holds one.
pub fn get_effective_prompt(prompt: Option<String>, prompt_opt: Option<String>, stdin_input: &str) -> (r: Result<
    String,
    CliError,
>)
    ensures
        effective_prompt(arg_text(prompt), arg_text(prompt_opt), stdin_input@) matches Some(p)
            ==> (r matches Ok(s) && s@ == p),
        effective_prompt(arg_text(prompt), arg_text(prompt_opt), stdin_input@) is None ==> r
            == Err::<String, CliError>(CliError::NoPromptProvided),
{
    match (prompt, prompt_opt) {
        (Some(p), _) => Ok(p),
        (None, Some(p)) => Ok(p),
        (None, None) => {
            if !stdin_input.is_empty() {
                Ok(String::from_str(stdin_input))
            } else {
                Err(CliError::NoPromptProvided)
            }
        },
    }
}

} // verus!
