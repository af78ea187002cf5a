//! The synthesis pipeline: validation, request construction, and the step
//! relation a driver follows. Each call is a self-contained unit: every step
//! is a function of its arguments alone, so distinct calls share nothing and
//! cannot interfere. The driver performs the outside work — one credential
//! lookup, one HTTP POST, at most one body read — exactly where a step asks
//! for it, and validation failures end the run before any of it happens.

use vstd::prelude::*;
use vstd::string::StringExecFns;
use crate::credential::CredentialError;
use crate::envelope::{ApiResponse, is_error_envelope};
use crate::jsonenc::{json_escape, json_escaped};
use crate::messages::{msg_empty_text, msg_key_not_found, msg_store_error, msg_text_too_long};
use crate::textcheck::{char_count, is_blank, is_blank_text, valid_text, MAX_TEXT_CHARS};

verus! {

/// The caller-supplied voice parameters, passed through to the provider
/// verbatim: each field holds the decimal rendering of the number the caller
/// chose, and the library neither clamps nor rescales it.
pub struct VoiceSettings {
    pub stability: String,
    pub similarity_boost: String,
    pub style: String,
}

/// One synthesis request: the passage to speak, its language tag, and the
/// voice parameters.
pub struct GenerateTtsRequest {
    pub text: String,
    pub language: String,
    pub voice_settings: VoiceSettings,
}

/// Everything the one outbound HTTP POST needs: the endpoint, the two header
/// values, and the JSON body.
pub struct RequestPlan {
    pub url: String,
    pub api_key: String,
    pub content_type: String,
    pub body: String,
}

/// What a driver must do next: fetch the credential, send the prepared
/// request, or hand the finished envelope to the caller.
pub enum SynthStep {
    NeedCredential,
    Send(RequestPlan),
    Done(ApiResponse<String>),
}

/// The provider's synthesis endpoint for the fixed voice identity.
pub open spec fn synthesis_url() -> Seq<char> {
    "https://api.elevenlabs.io/v1/text-to-speech/podfxsRIe2hbXsMfBAMz"@
}

/// The content-type header value of every request.
pub open spec fn json_content_type() -> Seq<char> {
    "application/json"@
}

/// The JSON body sent to the provider: the escaped passage, the fixed model
/// and output-format identities, and the voice parameters spliced in
/// verbatim. The language tag is not part of the wire format.
pub open spec fn json_body(req: GenerateTtsRequest) -> Seq<char> {
    "{\"text\":\""@ + json_escaped(req.text@)
        + "\",\"model_id\":\"eleven_multilingual_v2\",\"output_format\":\"mp3_44100_128\",\"voice_settings\":{\"stability\":"@
        + req.voice_settings.stability@ + ",\"similarity_boost\":"@
        + req.voice_settings.similarity_boost@ + ",\"style\":"@ + req.voice_settings.style@
        + "}}"@
}

/// The plan carries the url, headers and body that `req` and `api_key`
/// prescribe.
pub open spec fn plan_for(plan: RequestPlan, req: GenerateTtsRequest, api_key: Seq<char>) -> bool {
    &&& plan.url@ == synthesis_url()
    &&& plan.api_key@ == api_key
    &&& plan.content_type@ == json_content_type()
    &&& plan.body@ == json_body(req)
}

/// Builds the outbound request from a validated request and the credential.
/// The key goes into the authentication header and nowhere else.
pub fn build_plan(req: &GenerateTtsRequest, api_key: String) -> (plan: RequestPlan)
    ensures
        plan_for(plan, *req, api_key@),
{
    let url = "https://api.elevenlabs.io/v1/text-to-speech/podfxsRIe2hbXsMfBAMz".to_owned();
    let content_type = "application/json".to_owned();
    let escaped = json_escape(req.text.as_str());
    let mut body = "{\"text\":\"".to_owned();
    body.append(escaped.as_str());
    body.append(
        "\",\"model_id\":\"eleven_multilingual_v2\",\"output_format\":\"mp3_44100_128\",\"voice_settings\":{\"stability\":",
    );
    body.append(req.voice_settings.stability.as_str());
    body.append(",\"similarity_boost\":");
    body.append(req.voice_settings.similarity_boost.as_str());
    body.append(",\"style\":");
    body.append(req.voice_settings.style.as_str());
    body.append("}}");
    RequestPlan { url, api_key, content_type, body }
}

/// Validation, the first step of every synthesis call. A passage that trims
/// to nothing, or runs over the character bound, ends the call at once with
/// its failure envelope — no credential is fetched and nothing is sent. Any
/// other request moves on to the credential lookup.
pub fn synthesize_start(req: &GenerateTtsRequest) -> (step: SynthStep)
    ensures
        step matches SynthStep::Done(env) ==> env.well_formed(),
        is_blank(req.text@) ==> (step matches SynthStep::Done(env) && is_error_envelope(
            env,
            msg_empty_text(),
        )),
        !is_blank(req.text@) && req.text@.len() > MAX_TEXT_CHARS ==> (step
            matches SynthStep::Done(env) && is_error_envelope(env, msg_text_too_long())),
        valid_text(req.text@) ==> step is NeedCredential,
{
    if is_blank_text(req.text.as_str()) {
        SynthStep::Done(ApiResponse::error("Le texte ne peut pas être vide".to_owned()))
    } else if char_count(req.text.as_str()) > MAX_TEXT_CHARS {
        SynthStep::Done(
            ApiResponse::error("Le texte dépasse la longueur maximale de 5000 caractères".to_owned()),
        )
    } else {
        SynthStep::NeedCredential
    }
}

/// The step after the credential lookup. A missing or unreachable store ends
/// the call with its failure envelope — nothing is sent. With the key in
/// hand, the prepared request is handed to the driver to send.
pub fn synthesize_with_credential(
    req: &GenerateTtsRequest,
    lookup: Result<String, CredentialError>,
) -> (step: SynthStep)
    ensures
        step matches SynthStep::Done(env) ==> env.well_formed(),
        lookup matches Ok(key) ==> (step matches SynthStep::Send(plan) && plan_for(
            plan,
            *req,
            key@,
        )),
        lookup matches Err(CredentialError::NotFound) ==> (step matches SynthStep::Done(env)
            && is_error_envelope(env, msg_key_not_found())),
        lookup matches Err(CredentialError::Unavailable(d)) ==> (step matches SynthStep::Done(env)
            && is_error_envelope(env, msg_store_error(d@))),
{
    match lookup {
        Ok(key) => SynthStep::Send(build_plan(req, key)),
        Err(CredentialError::NotFound) => SynthStep::Done(
            ApiResponse::error("Clé API introuvable. Veuillez la configurer dans Paramètres.".to_owned()),
        ),
        Err(CredentialError::Unavailable(detail)) => {
            let mut m = "Erreur trousseau : ".to_owned();
            m.append(detail.as_str());
            SynthStep::Done(ApiResponse::error(m))
        },
    }
}

} // verus!
