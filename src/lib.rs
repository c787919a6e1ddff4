//! Verified core of a command-line client that forwards a prompt to a
//! language-model service: model selection, prompt resolution, configuration
//! checks, the model profile index, and the text of the relayed response.
pub mod cli;
pub mod config;
pub mod error;
pub mod invocation;
pub mod llm;
pub mod prompts;
pub mod text;
