//! Client library for a text-to-music generation API.
//!
//! Callers describe the music they want either as a free-text prompt or as a
//! structured multi-section composition plan, configure an output format and
//! model through a builder, and receive the raw audio bytes of the generated
//! song. This crate owns the request construction — JSON wire body, target
//! URL, defaults — and the classification of failed responses into a closed
//! set of error kinds; performing the single HTTP exchange of a prepared
//! request is left to the caller.

use vstd::prelude::*;

pub mod error;
pub mod json;
pub mod types;

pub use error::ElevenLabsTTMError;
pub use types::MusicPlan;
pub use types::TTMCompositionPlan;
pub use types::TTMCompositionPlanSection;
pub use types::TTMPromptPlan;
pub use types::TTMRequest;
pub use types::TTMRequestBody;
pub use types::TTMRequestBodyComposition;

use crate::error::classified;
use crate::error::classify_status;
use crate::json::serialize_request_body;
use crate::json::spec_music_plan_body;
use crate::json::to_request_body;

verus! {

/// What `String::from_utf8_lossy` decodes the given bytes to.
pub uninterp spec fn utf8_lossy_of(bytes: Seq<u8>) -> Seq<char>;

/// Relies on String::from_utf8_lossy: the decoded text is a function of the
/// bytes alone, and valid UTF-8 decodes to exactly its characters.
#[verifier::external_body]
fn bytes_to_text(bytes: &Vec<u8>) -> (r: String)
    ensures
        r@ == utf8_lossy_of(bytes@),
        vstd::utf8::valid_utf8(bytes@) ==> r@ == vstd::utf8::decode_utf8(bytes@),
{
    String::from_utf8_lossy(bytes).into_owned()
}

/// Interpret a completed HTTP exchange. A success status (2xx) yields the
/// raw audio payload untouched — the bytes are never decoded or re-encoded.
/// Any other status classifies by status code, with the response body
/// decoded as text for the error message.
pub fn interpret_response(status: u16, body: Vec<u8>) -> (r: Result<
    Vec<u8>,
    ElevenLabsTTMError,
>)
    ensures
        (200 <= status < 300) <==> r is Ok,
        (r matches Result::Ok(audio) ==> audio@ == body@),
        (!(200 <= status < 300) ==> (r matches Result::Err(e) && classified(
            status,
            utf8_lossy_of(body@),
            e,
        ))),
{
    if 200 <= status && status < 300 {
        Result::Ok(body)
    } else {
        let text = bytes_to_text(&body);
        Result::Err(classify_status(status, text))
    }
}

/// Main client: the immutable configuration of every request — credential
/// and base URL.
#[derive(Debug, Clone)]
pub struct ElevenLabsTTMClient {
    /// Value of the API key header attached to every request.
    pub api_key: String,
    /// URL prefix of the provider's endpoints.
    pub base_url: String,
}

impl ElevenLabsTTMClient {
    /// A client for the hosted API with the given API key.
    pub fn new(api_key: &str) -> (r: Self)
        ensures
            r.api_key@ == api_key@,
            r.base_url@ == "https://api.elevenlabs.io/v1"@,
    {
        ElevenLabsTTMClient {
            api_key: api_key.to_owned(),
            base_url: "https://api.elevenlabs.io/v1".to_owned(),
        }
    }

    /// A client with a custom base URL (for testing or enterprise use).
    pub fn with_base_url(api_key: &str, base_url: &str) -> (r: Self)
        ensures
            r.api_key@ == api_key@,
            r.base_url@ == base_url@,
    {
        ElevenLabsTTMClient { api_key: api_key.to_owned(), base_url: base_url.to_owned() }
    }

    /// Start building a compose-music request for `plan`.
    pub fn compose_music(&self, plan: MusicPlan) -> (r: TextToMusicBuilder)
        ensures
            r.client == *self,
            r.plan == plan,
            r.output_format is None,
            r.model_id is None,
    {
        TextToMusicBuilder::new(
            ElevenLabsTTMClient {
                api_key: self.api_key.clone(),
                base_url: self.base_url.clone(),
            },
            plan,
        )
    }

    /// The compute half of executing a request: the target URL — the output
    /// format travels as a query parameter — and the serialized wire body.
    pub(crate) fn prepare_ttm(&self, request: TTMRequest, output_format: String) -> (r:
        PreparedRequest)
        ensures
            r.api_key == self.api_key,
            r.url@ == self.base_url@ + "/music?output_format="@ + output_format@,
            r.body@ == spec_music_plan_body(request.plan),
    {
        let url = self.base_url.clone().concat("/music?output_format=").concat(
            output_format.as_str(),
        );
        let body_value = to_request_body(request.plan);
        let body = serialize_request_body(&body_value);
        PreparedRequest { url, api_key: self.api_key.clone(), body }
    }
}

/// Builder for a text-to-music request: the fixed plan plus the optional
/// per-request settings, with defaults applied when the request is
/// prepared. Every setter is a pure value transformation.
pub struct TextToMusicBuilder {
    /// The client configuration the request will be sent with.
    pub client: ElevenLabsTTMClient,
    /// Output format override; `mp3_44100_128` when unset.
    pub output_format: Option<String>,
    /// Model override; `music_v1` when unset.
    pub model_id: Option<String>,
    /// The plan guiding the generation.
    pub plan: MusicPlan,
}

/// The output format a builder resolves to: the chosen one, or the default.
pub open spec fn resolved_output_format(b: TextToMusicBuilder) -> Seq<char> {
    match b.output_format {
        Option::Some(f) => f@,
        Option::None => "mp3_44100_128"@,
    }
}

impl TextToMusicBuilder {
    fn new(client: ElevenLabsTTMClient, plan: MusicPlan) -> (r: Self)
        ensures
            r.client == client,
            r.plan == plan,
            r.output_format is None,
            r.model_id is None,
    {
        TextToMusicBuilder { client, plan, model_id: Option::None, output_format: Option::None }
    }

    /// Choose the output format of the generated audio, as a
    /// codec_samplerate_bitrate string such as `mp3_22050_32`. The format is
    /// sent as a URL query parameter, never in the body.
    pub fn output_format(self, output_format: &str) -> (r: Self)
        ensures
            r.output_format matches Option::Some(f) && f@ == output_format@,
            r.model_id == self.model_id,
            r.plan == self.plan,
            r.client == self.client,
    {
        TextToMusicBuilder {
            client: self.client,
            output_format: Option::Some(output_format.to_owned()),
            model_id: self.model_id,
            plan: self.plan,
        }
    }

    /// Choose the model to use for the generation.
    pub fn model(self, model_id: &str) -> (r: Self)
        ensures
            r.model_id matches Option::Some(m) && m@ == model_id@,
            r.output_format == self.output_format,
            r.plan == self.plan,
            r.client == self.client,
    {
        TextToMusicBuilder {
            client: self.client,
            output_format: self.output_format,
            model_id: Option::Some(model_id.to_owned()),
            plan: self.plan,
        }
    }

    /// Finalize the defaults and produce the one HTTP exchange this builder
    /// describes: target URL, credential, and the exact bytes of the JSON
    /// body. Sending it and handing the outcome to [`interpret_response`] is
    /// the caller's single side-effecting step.
    ///
    /// The model identifier is resolved here too (to `music_v1` when unset)
    /// and recorded in the transient request, but by the wire contract it is
    /// never transmitted — neither in the URL nor in the body — so the
    /// prepared request intentionally carries no trace of it.
    pub fn prepare(self) -> (r: PreparedRequest)
        ensures
            r.api_key == self.client.api_key,
            r.url@ == self.client.base_url@ + "/music?output_format="@ + resolved_output_format(
                self,
            ),
            r.body@ == spec_music_plan_body(self.plan),
    {
        let TextToMusicBuilder { client, output_format, model_id, plan } = self;
        let output_format: String = match output_format {
            Option::Some(f) => f,
            Option::None => "mp3_44100_128".to_owned(),
        };
        let model_id: String = match model_id {
            Option::Some(m) => m,
            Option::None => "music_v1".to_owned(),
        };
        let request = TTMRequest {
            plan,
            output_format: Option::Some(output_format.clone()),
            model_id: Option::Some(model_id),
        };
        client.prepare_ttm(request, output_format)
    }
}

/// A fully prepared request: where to send it, the credential to attach,
/// and the exact bytes of the JSON body. The `xi-api-key` and JSON
/// content-type headers are fixed by the wire contract.
pub struct PreparedRequest {
    /// Target of the POST, query parameter included.
    pub url: String,
    /// Value of the `xi-api-key` header.
    pub api_key: String,
    /// The JSON body bytes.
    pub body: Vec<u8>,
}

} // verus!

