use vstd::prelude::*;

verus! {

/// Every way an invocation can fail. Each one is terminal for the invocation.
#[derive(Debug, PartialEq, Eq)]
pub enum CliError {
    /// The model token is not one of the six accepted names.
    UnsupportedModel(String),
    /// Neither argument was given and standard input held no text.
    NoPromptProvided,
    /// The named environment variable is not set.
    MissingEnvVar(String),
    /// The profile document could not be parsed into its expected shape.
    ConfigMalformed,
    /// The profile document, or one of its required entries, is absent.
    ConfigMissing,
    /// The relay call to the model service failed.
    RequestFailed,
}

} // verus!
