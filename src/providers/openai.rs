use vstd::prelude::*;
use vstd::string::*;

use crate::json::{json_field, parse_json, parsed_json, quote_json, quoted_json, Json};
use crate::providers::{is_success, rejected, HttpRequest, ProviderError, TokenUsage};

verus! {

pub const OPENAI_URL: &'static str = "https://api.openai.com/v1/chat/completions";

pub const DEFAULT_OPENAI_MODEL: &'static str = "gpt-4o";

pub const SYSTEM_PROMPT: &'static str = "You are a detailed image analysis system. When analyzing images, please provide a complete and thorough analysis in a structured JSON format. Include all visible text, elements, and details. Never truncate or summarize the content - provide everything you can see in the image. If the content is long, break it into appropriate sections but ensure ALL content is captured.";

pub const USER_SUFFIX: &'static str = "\nPlease analyze this image completely and provide ALL visible content in a structured JSON format. Do not omit or summarize any text or elements.";

pub const IMAGE_URL_PREFIX: &'static str = "data:image/jpeg;base64,";

pub const BODY_MODEL: &'static str = "{\"model\":";

pub const BODY_SYSTEM: &'static str = ",\"temperature\":0,\"max_completion_tokens\":16384,\"messages\":[{\"role\":\"system\",\"content\":";

pub const BODY_USER: &'static str = "},{\"role\":\"user\",\"content\":[{\"type\":\"text\",\"text\":";

pub const BODY_IMAGE: &'static str = "},{\"type\":\"image_url\",\"image_url\":{\"url\":";

pub const BODY_END: &'static str = "}}]}]}";

pub const NOT_JSON: &'static str = "the response is not JSON";

pub const SHAPE_MISMATCH: &'static str = "the response does not have the expected shape";

pub const NO_CHOICES: &'static str = "no choices in response";

/// The hosted-inference backend. Requests ask for deterministic output
/// (temperature zero).
#[derive(Clone, Debug)]
pub struct OpenAIProvider {
    pub model: String,
}

/// The request body: a system message, then a user message with the prompt
/// and the image as a data URI.
pub open spec fn openai_body(model: Seq<char>, prompt: Seq<char>, image: Seq<char>) -> Seq<char> {
    BODY_MODEL@ + quoted_json(model) + BODY_SYSTEM@ + quoted_json(SYSTEM_PROMPT@) + BODY_USER@
        + quoted_json(prompt + USER_SUFFIX@) + BODY_IMAGE@ + quoted_json(IMAGE_URL_PREFIX@ + image)
        + BODY_END@
}

/// The text of a candidate: its `message.content` where that is a string.
pub open spec fn choice_text(c: Json) -> Option<Seq<char>> {
    match json_field(c, "message"@) {
        Some(m) => match json_field(m, "content"@) {
            Some(Json::Str(s)) => Some(s@),
            _ => None,
        },
        None => None,
    }
}

/// The candidates, where `choices` is an array of well-formed candidates.
pub open spec fn choices_of(top: Json) -> Option<Seq<Json>> {
    match json_field(top, "choices"@) {
        Some(Json::Array(items)) => if forall|i: int|
            0 <= i < items@.len() ==> (#[trigger] choice_text(items@[i])) is Some {
            Some(items@)
        } else {
            None
        },
        _ => None,
    }
}

/// A count: an integer that fits `usize`.
pub open spec fn count_of(j: Option<Json>) -> Option<usize> {
    match j {
        Some(Json::UInt(n)) => if n <= usize::MAX {
            Some(n as usize)
        } else {
            None
        },
        _ => None,
    }
}

/// The usage block: absent or null gives no usage; otherwise it must hold
/// the three counts.
pub open spec fn usage_of(top: Json) -> Option<Option<TokenUsage>> {
    match json_field(top, "usage"@) {
        None => Some(None),
        Some(Json::Null) => Some(None),
        Some(u) => match (
            count_of(json_field(u, "prompt_tokens"@)),
            count_of(json_field(u, "completion_tokens"@)),
            count_of(json_field(u, "total_tokens"@)),
        ) {
            (Some(p), Some(c), Some(t)) => Some(
                Some(TokenUsage { prompt_tokens: p, completion_tokens: c, total_tokens: t }),
            ),
            _ => None,
        },
    }
}

/// `r` is a `MalformedResponse` with this detail and the raw body.
pub open spec fn malformed(
    r: Result<(String, Option<TokenUsage>), ProviderError>,
    detail: Seq<char>,
    body: Seq<char>,
) -> bool {
    r matches Err(ProviderError::MalformedResponse { detail: d, raw_body: b }) && d@ == detail
        && b@ == body
}

/// What a parsed answer gives: the first candidate's text and the usage, or
/// the reason it is malformed.
pub open spec fn reply_result(
    r: Result<(String, Option<TokenUsage>), ProviderError>,
    top: Json,
    body: Seq<char>,
) -> bool {
    match (choices_of(top), usage_of(top)) {
        (Some(items), Some(u)) => if items.len() == 0 {
            malformed(r, NO_CHOICES@, body)
        } else {
            r matches Ok((text, usage)) && choice_text(items[0]) == Some(text@) && usage == u
        },
        _ => malformed(r, SHAPE_MISMATCH@, body),
    }
}

fn malformed_error(detail: &str, body: &str) -> (r: ProviderError)
    ensures
        r matches ProviderError::MalformedResponse { detail: d, raw_body: b } && d@ == detail@
            && b@ == body@,
{
    ProviderError::MalformedResponse { detail: String::from_str(detail), raw_body: String::from_str(body) }
}

fn choice_content(c: &Json) -> (r: Option<&String>)
    ensures
        match r {
            Some(s) => choice_text(*c) == Some(s@),
            None => choice_text(*c) is None,
        },
{
    match c.get("message") {
        Some(m) => match m.get("content") {
            Some(Json::Str(s)) => Some(s),
            _ => None,
        },
        None => None,
    }
}

fn count_value(j: Option<&Json>) -> (r: Option<usize>)
    ensures
        r == count_of(
            match j {
                Some(v) => Some(*v),
                None => None,
            },
        ),
{
    match j {
        Some(Json::UInt(n)) => if *n <= usize::MAX as u64 {
            Some(*n as usize)
        } else {
            None
        },
        _ => None,
    }
}

fn usage_value(top: &Json) -> (r: Option<Option<TokenUsage>>)
    ensures
        r == usage_of(*top),
{
    match top.get("usage") {
        None => Some(None),
        Some(Json::Null) => Some(None),
        Some(u) => {
            let p = count_value(u.get("prompt_tokens"));
            let c = count_value(u.get("completion_tokens"));
            let t = count_value(u.get("total_tokens"));
            match (p, c, t) {
                (Some(p), Some(c), Some(t)) => Some(
                    Some(TokenUsage { prompt_tokens: p, completion_tokens: c, total_tokens: t }),
                ),
                _ => None,
            }
        },
    }
}

/// Reads a parsed answer of the hosted backend; `body` is its text, kept in
/// errors.
pub fn reply_from_json(top: &Json, body: &str) -> (r: Result<(String, Option<TokenUsage>), ProviderError>)
    ensures
        reply_result(r, *top, body@),
{
    let items = match top.get("choices") {
        Some(Json::Array(items)) => items,
        _ => return Err(malformed_error(SHAPE_MISMATCH, body)),
    };
    let mut first: Option<&String> = None;
    let mut i: usize = 0;
    while i < items.len()
        invariant
            i <= items@.len(),
            json_field(*top, "choices"@) == Some(Json::Array(*items)),
            forall|k: int| 0 <= k < i ==> (#[trigger] choice_text(items@[k])) is Some,
            i > 0 ==> (first matches Some(s) && choice_text(items@[0]) == Some(s@)),
            i == 0 ==> first is None,
        decreases items@.len() - i,
    {
        match choice_content(&items[i]) {
            Some(s) => {
                if i == 0 {
                    first = Some(s);
                }
            },
            None => {
                return Err(malformed_error(SHAPE_MISMATCH, body));
            },
        }
        i = i + 1;
    }
    let usage = match usage_value(top) {
        Some(u) => u,
        None => return Err(malformed_error(SHAPE_MISMATCH, body)),
    };
    match first {
        Some(text) => Ok((String::from_str(text.as_str()), usage)),
        None => Err(malformed_error(NO_CHOICES, body)),
    }
}

/// Reads the body of a successful answer of the hosted backend.
pub fn read_openai_body(body: &str) -> (r: Result<(String, Option<TokenUsage>), ProviderError>)
    ensures
        match parsed_json(body@) {
            None => malformed(r, NOT_JSON@, body@),
            Some(top) => reply_result(r, top, body@),
        },
{
    match parse_json(body) {
        Some(top) => reply_from_json(&top, body),
        None => Err(malformed_error(NOT_JSON, body)),
    }
}

impl OpenAIProvider {
    /// A provider for `model`, or for the default hosted model.
    pub fn new(model: Option<String>) -> (r: Self)
        ensures
            match model {
                Some(m) => r.model@ == m@,
                None => r.model@ == DEFAULT_OPENAI_MODEL@,
            },
    {
        match model {
            Some(m) => OpenAIProvider { model: m },
            None => OpenAIProvider { model: String::from_str(DEFAULT_OPENAI_MODEL) },
        }
    }

    /// The JSON body that asks for an analysis of the image.
    pub fn request_body(&self, image_base64: &str, prompt: &str) -> (r: String)
        ensures
            r@ == openai_body(self.model@, prompt@, image_base64@),
    {
        let mut user_text = String::from_str(prompt);
        user_text.append(USER_SUFFIX);
        let mut url = String::from_str(IMAGE_URL_PREFIX);
        url.append(image_base64);
        let mut body = String::from_str(BODY_MODEL);
        body.append(quote_json(self.model.as_str()).as_str());
        body.append(BODY_SYSTEM);
        body.append(quote_json(SYSTEM_PROMPT).as_str());
        body.append(BODY_USER);
        body.append(quote_json(user_text.as_str()).as_str());
        body.append(BODY_IMAGE);
        body.append(quote_json(url.as_str()).as_str());
        body.append(BODY_END);
        body
    }

    /// The request to send, authenticated with `api_key`; without a key there
    /// is none.
    pub fn request(&self, image_base64: &str, prompt: &str, api_key: Option<String>) -> (r: Result<
        HttpRequest,
        ProviderError,
    >)
        ensures
            api_key is None ==> r == Err::<HttpRequest, ProviderError>(
                ProviderError::MissingCredential,
            ),
            api_key matches Some(k) ==> (r matches Ok(req) && req.url@ == OPENAI_URL@
                && req.bearer_token == Some(k) && req.body@ == openai_body(
                self.model@,
                prompt@,
                image_base64@,
            )),
    {
        match api_key {
            None => Err(ProviderError::MissingCredential),
            Some(key) => Ok(
                HttpRequest {
                    url: String::from_str(OPENAI_URL),
                    bearer_token: Some(key),
                    body: self.request_body(image_base64, prompt),
                },
            ),
        }
    }

    /// The analysis and usage in an answer of the hosted backend.
    pub fn read_response(&self, status: u16, body: &str) -> (r: Result<
        (String, Option<TokenUsage>),
        ProviderError,
    >)
        ensures
            !(200 <= status <= 299) ==> (r matches Err(
                ProviderError::RequestRejected { status: s, body: b },
            ) && s == status && b@ == body@),
            200 <= status <= 299 ==> match parsed_json(body@) {
                None => malformed(r, NOT_JSON@, body@),
                Some(top) => reply_result(r, top, body@),
            },
    {
        if !is_success(status) {
            return Err(rejected(status, body));
        }
        read_openai_body(body)
    }
}

} // verus!
