use vstd::prelude::*;

use base64::Engine;

use crate::errors::ProcessorError;
use crate::imaging::{
    decode_image, decoded_rgb, transcode_decoded, transcode_outcome, DecodedImage,
    TranscodedImage,
};
use crate::prompts::{is_default_config, prompt_text, ImagePrompt, PromptFormat};
use crate::providers::{
    handle_for, request_result, response_result, AIProvider, HttpRequest, ProviderError,
    ProviderHandle, TokenUsage,
};
use crate::stats::{added, TokenStats};

verus! {

/// base64's standard alphabet, with padding, of the bytes.
pub uninterp spec fn base64_of(bytes: Seq<u8>) -> Seq<char>;

/// Relies on base64's STANDARD engine `encode`: the text depends on the bytes
/// alone.
#[verifier::external_body]
fn encode_base64(bytes: &[u8]) -> (r: String)
    ensures
        r@ == base64_of(bytes@),
{
    base64::engine::general_purpose::STANDARD.encode(bytes)
}

/// The pipeline: a bound backend and the prompt sent with every image.
#[derive(Clone, Debug)]
pub struct ImageProcessor {
    pub provider: ProviderHandle,
    pub prompt: ImagePrompt,
}

/// What is ready to send for one image, with the decoded image kept for a
/// thumbnail.
#[derive(Debug)]
pub struct PreparedRequest {
    pub request: HttpRequest,
    pub image: TranscodedImage,
    pub decoded: DecodedImage,
}

/// `r` is the outcome of a request given the backend's `reply`, and `after`
/// the totals then: reported usage is added to them, and a missing one is
/// returned as zeros.
pub open spec fn recorded(
    reply: Result<(String, Option<TokenUsage>), ProviderError>,
    r: Result<(String, TokenUsage), ProcessorError>,
    before: TokenStats,
    after: TokenStats,
) -> bool {
    match reply {
        Ok((text, Some(u))) => r matches Ok((t, v)) && t@ == text@ && v == u && after == added(
            before,
            u,
        ),
        Ok((text, None)) => r matches Ok((t, v)) && t@ == text@ && v == (TokenUsage {
            prompt_tokens: 0,
            completion_tokens: 0,
            total_tokens: 0,
        }) && after == before,
        Err(e) => r == Err::<(String, TokenUsage), ProcessorError>(ProcessorError::Provider(e))
            && after == before,
    }
}

/// Turns a backend's reply into the request's outcome, adding the reported
/// usage to `stats`.
pub fn record_reply(
    reply: Result<(String, Option<TokenUsage>), ProviderError>,
    stats: &mut TokenStats,
) -> (r: Result<(String, TokenUsage), ProcessorError>)
    ensures
        recorded(reply, r, *old(stats), *final(stats)),
{
    match reply {
        Ok((text, Some(usage))) => {
            stats.add(&usage);
            Ok((text, usage))
        },
        Ok((text, None)) => Ok((text, TokenUsage::default())),
        Err(e) => Err(ProcessorError::Provider(e)),
    }
}

impl ImageProcessor {
    /// A pipeline for a backend kind, a model (or the kind's default) and an
    /// output format (or structured JSON).
    pub fn new(provider: AIProvider, model: Option<String>, format: Option<PromptFormat>) -> (r:
        Self)
        ensures
            handle_for(provider, model, r.provider),
            r.prompt.format == match format {
                Some(f) => f,
                None => PromptFormat::Json,
            },
            is_default_config(r.prompt.config),
            r.prompt.text@ == prompt_text(r.prompt.format, r.prompt.config),
    {
        let format = match format {
            Some(f) => f,
            None => PromptFormat::default(),
        };
        ImageProcessor {
            provider: ProviderHandle::new(provider, model),
            prompt: ImagePrompt::new(format),
        }
    }

    /// Transcodes the image and builds the backend request for it. Only the
    /// hosted backend uses `api_key`, and fails without it.
    pub fn prepare(&self, image_data: &[u8], api_key: Option<String>) -> (r: Result<
        PreparedRequest,
        ProcessorError,
    >)
        ensures
            r matches Ok(p) ==> transcode_outcome(image_data@, Ok(p.image)) && p.decoded.wf()
                && decoded_rgb(image_data@) == Some(
                (p.decoded.width, p.decoded.height, p.decoded.pixels@),
            ) && request_result(
                self.provider,
                base64_of(p.image.bytes@),
                self.prompt.text@,
                api_key,
                Ok(p.request),
            ),
            r matches Err(ProcessorError::Image(e)) ==> transcode_outcome(image_data@, Err(e)),
            r matches Err(ProcessorError::Provider(e)) ==> exists|t: TranscodedImage|
                transcode_outcome(image_data@, Ok(t)) && #[trigger] request_result(
                    self.provider,
                    base64_of(t.bytes@),
                    self.prompt.text@,
                    api_key,
                    Err(e),
                ),
            !(r is Err && r->Err_0 is Transport),
    {
        let decoded = match decode_image(image_data) {
            Ok(d) => d,
            Err(e) => return Err(ProcessorError::Image(e)),
        };
        let image = match transcode_decoded(&decoded, image_data.len()) {
            Ok(t) => t,
            Err(e) => return Err(ProcessorError::Image(e)),
        };
        let encoded = encode_base64(image.bytes.as_slice());
        match self.provider.request(encoded.as_str(), self.prompt.text.as_str(), api_key) {
            Ok(request) => Ok(PreparedRequest { request, image, decoded }),
            Err(e) => Err(ProcessorError::Provider(e)),
        }
    }

    /// Reads the backend's answer into the analysis text and usage, adding
    /// reported usage to `stats`.
    pub fn finish(&self, status: u16, body: &str, stats: &mut TokenStats) -> (r: Result<
        (String, TokenUsage),
        ProcessorError,
    >)
        ensures
            exists|reply: Result<(String, Option<TokenUsage>), ProviderError>|
                #[trigger] response_result(self.provider, status, body@, reply) && recorded(
                    reply,
                    r,
                    *old(stats),
                    *final(stats),
                ),
    {
        let reply = self.provider.read_response(status, body);
        let ghost g = reply;
        let r = record_reply(reply, stats);
        assert(response_result(self.provider, status, body@, g));
        r
    }
}

} // verus!
