use vstd::prelude::*;
use vstd::string::StringExecFns;
use crate::config::ModelType;
use crate::error::CliError;
use crate::text::{concat_all, split_into_chunks, views_of, word_count, WORDS_PER_CHUNK};

verus! {

/// The name of the family that a model variant belongs to.
pub open spec fn family_name(m: ModelType) -> Seq<char> {
    match m {
        ModelType::Coder | ModelType::CoderReasoner => "coder"@,
        ModelType::Chat | ModelType::ChatReasoner => "chat"@,
        ModelType::Creative | ModelType::CreativeReasoner => "creative"@,
    }
}

/// The complete response that the service gives to `prompt`.
pub open spec fn completion_text(m: ModelType, prompt: Seq<char>) -> Seq<char> {
    "Response from "@ + family_name(m) + " model for prompt: "@ + prompt
}

/// The response that the service streams for `prompt`.
pub open spec fn streaming_text(prompt: Seq<char>) -> Seq<char> {
    "Streaming response for prompt: "@ + prompt
}

fn family_str(m: &ModelType) -> (r: &'static str)
    ensures
        r@ == family_name(*m),
{
    proof {
        reveal_strlit("coder");
        reveal_strlit("chat");
        reveal_strlit("creative");
    }
    match m {
        ModelType::Coder | ModelType::CoderReasoner => "coder",
        ModelType::Chat | ModelType::ChatReasoner => "chat",
        ModelType::Creative | ModelType::CreativeReasoner => "creative",
    }
}

/// A client of the model service, holding its credentials and endpoint.
pub struct LlmService {
    api_key: String,
    api_endpoint: String,
}

impl LlmService {
    /// The API key the client sends.
    pub closed spec fn spec_api_key(&self) -> Seq<char> {
        self.api_key@
    }

    /// The endpoint the client talks to.
    pub closed spec fn spec_api_endpoint(&self) -> Seq<char> {
        self.api_endpoint@
    }

    pub fn new(api_key: String, api_endpoint: String) -> (r: LlmService)
        ensures
            r.spec_api_key() == api_key@,
            r.spec_api_endpoint() == api_endpoint@,
    {
        LlmService { api_key, api_endpoint }
    }

    pub fn api_key(&self) -> (r: &str)
        ensures
            r@ == self.spec_api_key(),
    {
        self.api_key.as_str()
    }

    pub fn api_endpoint(&self) -> (r: &str)
        ensures
            r@ == self.spec_api_endpoint(),
    {
        self.api_endpoint.as_str()
    }

    /// The complete response to `prompt` from the family of `model_type`.
    /// The `stream` flag does not change the text.
    pub fn send_request(&self, model_type: &ModelType, prompt: &str, stream: bool) -> (r: Result<
        String,
        CliError,
    >)
        ensures
            r matches Ok(s) && s@ == completion_text(*model_type, prompt@),
    {
        proof {
            reveal_strlit("Response from ");
            reveal_strlit(" model for prompt: ");
        }
        let mut response = String::from_str("Response from ");
        response.append(family_str(model_type));
        response.append(" model for prompt: ");
        response.append(prompt);
        Ok(response)
    }
}

/// The streamed response to `prompt`, as the successive chunks that the
/// caller hands on one by one: non-empty, at most three words each, and
/// together exactly the full response, in order.
pub fn stream_response(model_type: &ModelType, prompt: &str) -> (r: Result<Vec<String>, CliError>)
    ensures
        r matches Ok(chunks) && concat_all(views_of(chunks@)) == streaming_text(prompt@) && (forall|
            i: int,
        |
            0 <= i < chunks.len() ==> #[trigger] chunks[i]@.len() > 0 && word_count(chunks[i]@)
                <= WORDS_PER_CHUNK),
{
    proof {
        reveal_strlit("Streaming response for prompt: ");
    }
    let mut response = String::from_str("Streaming response for prompt: ");
    response.append(prompt);
    Ok(split_into_chunks(response.as_str()))
}

/// The complete response ends with the prompt it answers, unchanged.
pub proof fn lemma_completion_echoes_prompt(m: ModelType, prompt: Seq<char>)
    ensures
        ({
            let t = completion_text(m, prompt);
            t.len() >= prompt.len() && t.subrange(t.len() - prompt.len(), t.len() as int) == prompt
        }),
{
    let t = completion_text(m, prompt);
    assert(t.subrange(t.len() - prompt.len(), t.len() as int) =~= prompt);
}

} // verus!
