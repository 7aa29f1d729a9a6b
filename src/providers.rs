use vstd::prelude::*;
use vstd::string::*;

pub mod ollama;
pub mod openai;

pub use ollama::OllamaProvider;
pub use openai::OpenAIProvider;

use crate::json::parsed_json;
use ollama::{joined_result, ollama_body, parsed_lines, responses_text, DEFAULT_OLLAMA_MODEL, OLLAMA_URL};
use openai::{malformed, openai_body, reply_result, DEFAULT_OPENAI_MODEL, NOT_JSON, OPENAI_URL};

verus! {

/// Token counts that a backend reports for one request.
#[derive(Clone, Copy, Debug, PartialEq, Eq, Structural)]
pub struct TokenUsage {
    pub prompt_tokens: usize,
    pub completion_tokens: usize,
    pub total_tokens: usize,
}

impl Default for TokenUsage {
    /// All counts zero: what a backend that reports no usage is taken to use.
    fn default() -> (r: Self)
        ensures
            r == (TokenUsage { prompt_tokens: 0, completion_tokens: 0, total_tokens: 0 }),
    {
        TokenUsage { prompt_tokens: 0, completion_tokens: 0, total_tokens: 0 }
    }
}

/// The kinds of backend.
#[derive(Clone, Copy, Debug, PartialEq, Eq, Structural)]
pub enum AIProvider {
    OpenAI,
    Ollama,
}

/// Why a backend gave no analysis.
#[derive(Clone, Debug)]
pub enum ProviderError {
    /// The hosted backend's credential is not set.
    MissingCredential,
    /// The backend answered with a status outside 200..=299.
    RequestRejected { status: u16, body: String },
    /// The answer does not have the expected shape.
    MalformedResponse { detail: String, raw_body: String },
    /// The local backend's answer held no text.
    EmptyResponse,
}

/// An HTTP POST with a JSON body, as a backend wants it.
#[derive(Clone, Debug)]
pub struct HttpRequest {
    pub url: String,
    /// Sent as `Authorization: Bearer <token>` where present.
    pub bearer_token: Option<String>,
    pub body: String,
}

/// Whether an HTTP status is a success (2xx).
pub fn is_success(status: u16) -> (r: bool)
    ensures
        r == (200 <= status <= 299),
{
    200 <= status && status <= 299
}

/// The error for a status that is not a success.
pub fn rejected(status: u16, body: &str) -> (r: ProviderError)
    ensures
        r matches ProviderError::RequestRejected { status: s, body: b } && s == status && b@
            == body@,
{
    ProviderError::RequestRejected { status, body: String::from_str(body) }
}

/// A bound backend, chosen once when the pipeline is built.
#[derive(Clone, Debug)]
pub enum ProviderHandle {
    Ollama(OllamaProvider),
    OpenAI(OpenAIProvider),
}

/// `h` is the backend of kind `kind` bound to `model`, or to the kind's
/// default model.
pub open spec fn handle_for(kind: AIProvider, model: Option<String>, h: ProviderHandle) -> bool {
    match kind {
        AIProvider::Ollama => h matches ProviderHandle::Ollama(p) && match model {
            Some(m) => p.model@ == m@,
            None => p.model@ == DEFAULT_OLLAMA_MODEL@,
        },
        AIProvider::OpenAI => h matches ProviderHandle::OpenAI(p) && match model {
            Some(m) => p.model@ == m@,
            None => p.model@ == DEFAULT_OPENAI_MODEL@,
        },
    }
}

/// `r` is the request that `h` makes for an image (in base64) and a prompt.
pub open spec fn request_result(
    h: ProviderHandle,
    image: Seq<char>,
    prompt: Seq<char>,
    api_key: Option<String>,
    r: Result<HttpRequest, ProviderError>,
) -> bool {
    match h {
        ProviderHandle::Ollama(p) => r matches Ok(req) && req.url@ == OLLAMA_URL@
            && req.bearer_token is None && req.body@ == ollama_body(p.model@, prompt, image),
        ProviderHandle::OpenAI(p) => match api_key {
            None => r == Err::<HttpRequest, ProviderError>(ProviderError::MissingCredential),
            Some(k) => r matches Ok(req) && req.url@ == OPENAI_URL@ && req.bearer_token == Some(k)
                && req.body@ == openai_body(p.model@, prompt, image),
        },
    }
}

/// `r` is what `h` reads from an answer with this status and body.
pub open spec fn response_result(
    h: ProviderHandle,
    status: u16,
    body: Seq<char>,
    r: Result<(String, Option<TokenUsage>), ProviderError>,
) -> bool {
    if !(200 <= status <= 299) {
        r matches Err(ProviderError::RequestRejected { status: s, body: b }) && s == status && b@
            == body
    } else {
        match h {
            ProviderHandle::Ollama(_) => {
                let text = responses_text(parsed_lines(body));
                if text.len() == 0 {
                    r == Err::<(String, Option<TokenUsage>), ProviderError>(
                        ProviderError::EmptyResponse,
                    )
                } else {
                    r matches Ok((s, u)) && s@ == text && u is None
                }
            },
            ProviderHandle::OpenAI(_) => match parsed_json(body) {
                None => malformed(r, NOT_JSON@, body),
                Some(top) => reply_result(r, top, body),
            },
        }
    }
}

impl ProviderHandle {
    /// The backend of the given kind for `model`, or for its default model.
    pub fn new(kind: AIProvider, model: Option<String>) -> (r: Self)
        ensures
            handle_for(kind, model, r),
    {
        match kind {
            AIProvider::Ollama => ProviderHandle::Ollama(OllamaProvider::new(model)),
            AIProvider::OpenAI => ProviderHandle::OpenAI(OpenAIProvider::new(model)),
        }
    }

    /// The request for an analysis; only the hosted backend needs `api_key`.
    pub fn request(&self, image_base64: &str, prompt: &str, api_key: Option<String>) -> (r: Result<
        HttpRequest,
        ProviderError,
    >)
        ensures
            request_result(*self, image_base64@, prompt@, api_key, r),
    {
        match self {
            ProviderHandle::Ollama(p) => Ok(p.request(image_base64, prompt)),
            ProviderHandle::OpenAI(p) => p.request(image_base64, prompt, api_key),
        }
    }

    /// The analysis text and reported usage in an answer.
    pub fn read_response(&self, status: u16, body: &str) -> (r: Result<
        (String, Option<TokenUsage>),
        ProviderError,
    >)
        ensures
            response_result(*self, status, body@, r),
    {
        match self {
            ProviderHandle::Ollama(p) => match p.read_response(status, body) {
                Ok(text) => Ok((text, None)),
                Err(e) => Err(e),
            },
            ProviderHandle::OpenAI(p) => p.read_response(status, body),
        }
    }
}

} // verus!
