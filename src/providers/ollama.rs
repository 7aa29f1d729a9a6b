use vstd::prelude::*;
use vstd::string::*;

use crate::json::{json_field, parse_json, parsed_json, quote_json, quoted_json, Json};
use crate::providers::{is_success, rejected, HttpRequest, ProviderError};
use crate::text::{pieces, split_lines, texts};

verus! {

pub const OLLAMA_URL: &'static str = "http://localhost:11434/api/generate";

pub const DEFAULT_OLLAMA_MODEL: &'static str = "moondream";

/// The local-inference backend.
#[derive(Clone, Debug)]
pub struct OllamaProvider {
    pub model: String,
}

/// The request body: model, prompt, and the image in base64.
pub open spec fn ollama_body(model: Seq<char>, prompt: Seq<char>, image: Seq<char>) -> Seq<char> {
    "{\"model\":"@ + quoted_json(model) + ",\"prompt\":"@ + quoted_json(prompt) + ",\"images\":["@
        + quoted_json(image) + "]}"@
}

/// The text that one parsed line contributes: its `response` member where
/// that is a string.
pub open spec fn response_part(p: Option<Json>) -> Seq<char> {
    match p {
        Some(j) => match json_field(j, "response"@) {
            Some(Json::Str(s)) => s@,
            _ => Seq::empty(),
        },
        None => Seq::empty(),
    }
}

/// The texts of the parsed lines joined in order.
pub open spec fn responses_text(parts: Seq<Option<Json>>) -> Seq<char>
    decreases parts.len(),
{
    if parts.len() == 0 {
        Seq::empty()
    } else {
        responses_text(parts.drop_last()) + response_part(parts.last())
    }
}

/// The lines of a body, each parsed on its own.
pub open spec fn parsed_lines(body: Seq<char>) -> Seq<Option<Json>> {
    pieces(body).map_values(|l: Seq<char>| parsed_json(l))
}

/// The joined text, or `EmptyResponse` where it is empty.
pub open spec fn joined_result(r: Result<String, ProviderError>, text: Seq<char>) -> bool {
    if text.len() == 0 {
        r == Err::<String, ProviderError>(ProviderError::EmptyResponse)
    } else {
        r matches Ok(s) && s@ == text
    }
}

/// Joins the `response` texts of the lines that parsed, in order; lines that
/// did not parse, or have no such text, are skipped.
pub fn collect_responses(parts: &Vec<Option<Json>>) -> (r: Result<String, ProviderError>)
    ensures
        joined_result(r, responses_text(parts@)),
{
    let mut out = String::new();
    let mut i: usize = 0;
    while i < parts.len()
        invariant
            i <= parts@.len(),
            out@ == responses_text(parts@.take(i as int)),
        decreases parts@.len() - i,
    {
        assert(parts@.take(i + 1).drop_last() =~= parts@.take(i as int));
        match &parts[i] {
            Some(j) => match j.get("response") {
                Some(Json::Str(s)) => {
                    out.append(s.as_str());
                },
                _ => {},
            },
            None => {},
        }
        i = i + 1;
    }
    assert(parts@.take(i as int) =~= parts@);
    if out.as_str().is_empty() {
        Err(ProviderError::EmptyResponse)
    } else {
        Ok(out)
    }
}

/// Reads a newline-delimited body of partial responses.
pub fn read_ollama_body(body: &str) -> (r: Result<String, ProviderError>)
    ensures
        joined_result(r, responses_text(parsed_lines(body@))),
{
    let lines = split_lines(body);
    let mut parts: Vec<Option<Json>> = Vec::new();
    let mut i: usize = 0;
    while i < lines.len()
        invariant
            i <= lines@.len(),
            texts(lines@) == pieces(body@),
            parts@ == texts(lines@).take(i as int).map_values(|l: Seq<char>| parsed_json(l)),
        decreases lines@.len() - i,
    {
        let p = parse_json(lines[i].as_str());
        parts.push(p);
        i = i + 1;
        assert(parts@ =~= texts(lines@).take(i as int).map_values(|l: Seq<char>| parsed_json(l)));
    }
    assert(texts(lines@).take(i as int) =~= texts(lines@));
    collect_responses(&parts)
}

impl OllamaProvider {
    /// A provider for `model`, or for the default local model.
    pub fn new(model: Option<String>) -> (r: Self)
        ensures
            match model {
                Some(m) => r.model@ == m@,
                None => r.model@ == DEFAULT_OLLAMA_MODEL@,
            },
    {
        match model {
            Some(m) => OllamaProvider { model: m },
            None => OllamaProvider { model: String::from_str(DEFAULT_OLLAMA_MODEL) },
        }
    }

    /// The JSON body that asks for an analysis of the image.
    pub fn request_body(&self, image_base64: &str, prompt: &str) -> (r: String)
        ensures
            r@ == ollama_body(self.model@, prompt@, image_base64@),
    {
        let mut body = String::from_str("{\"model\":");
        body.append(quote_json(self.model.as_str()).as_str());
        body.append(",\"prompt\":");
        body.append(quote_json(prompt).as_str());
        body.append(",\"images\":[");
        body.append(quote_json(image_base64).as_str());
        body.append("]}");
        body
    }

    /// The request to send: the local endpoint, no credential.
    pub fn request(&self, image_base64: &str, prompt: &str) -> (r: HttpRequest)
        ensures
            r.url@ == OLLAMA_URL@,
            r.bearer_token is None,
            r.body@ == ollama_body(self.model@, prompt@, image_base64@),
    {
        HttpRequest {
            url: String::from_str(OLLAMA_URL),
            bearer_token: None,
            body: self.request_body(image_base64, prompt),
        }
    }

    /// The analysis in an answer of the local backend. It reports no usage.
    pub fn read_response(&self, status: u16, body: &str) -> (r: Result<String, ProviderError>)
        ensures
            !(200 <= status <= 299) ==> (r matches Err(
                ProviderError::RequestRejected { status: s, body: b },
            ) && s == status && b@ == body@),
            200 <= status <= 299 ==> joined_result(r, responses_text(parsed_lines(body@))),
    {
        if !is_success(status) {
            return Err(rejected(status, body));
        }
        read_ollama_body(body)
    }
}

} // verus!
