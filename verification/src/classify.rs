//! Classification of the provider's HTTP response. The status code alone
//! decides the category; only afterwards, and only for the categories that
//! need it, is the body consulted: raw bytes after a success, readable text
//! after an unexpected status, nothing at all after an authentication or
//! rate-limit rejection.

use vstd::prelude::*;
use vstd::string::StringExecFns;
use crate::encoding::{b64_of, encode_audio};
use crate::envelope::{ApiResponse, is_error_envelope, is_success_envelope};
use crate::messages::{
    msg_api_error, msg_api_error_with_body, msg_auth_failure, msg_rate_limited, msg_read_failure,
};
use crate::numerals::u16_to_dec;

verus! {

/// What an HTTP status code means for the synthesis call.
pub enum StatusClass {
    Success,
    AuthFailure,
    RateLimited,
    OtherFailure,
}

/// The category of `status`: any 2xx code is a success, 401 an authentication
/// failure, 429 a rate limit, everything else an unexpected provider error.
/// The mapping is total and reads nothing but the code.
pub fn classify_status(status: u16) -> (c: StatusClass)
    ensures
        200 <= status < 300 ==> c is Success,
        status == 401 ==> c is AuthFailure,
        status == 429 ==> c is RateLimited,
        !(200 <= status < 300) && status != 401 && status != 429 ==> c is OtherFailure,
{
    if 200 <= status && status < 300 {
        StatusClass::Success
    } else if status == 401 {
        StatusClass::AuthFailure
    } else if status == 429 {
        StatusClass::RateLimited
    } else {
        StatusClass::OtherFailure
    }
}

/// The envelope for a response whose status was a success: the body bytes,
/// text-safe encoded, or the read fault's text when the body could not be
/// read.
pub fn finish_success(body: Result<Vec<u8>, String>) -> (env: ApiResponse<String>)
    ensures
        env.well_formed(),
        body matches Ok(bytes) ==> is_success_envelope(env, b64_of(bytes@)),
        body matches Err(d) ==> is_error_envelope(env, msg_read_failure(d@)),
{
    match body {
        Ok(bytes) => ApiResponse::success(encode_audio(&bytes)),
        Err(detail) => {
            let mut m = "Échec de la lecture de la réponse : ".to_owned();
            m.append(detail.as_str());
            ApiResponse::error(m)
        },
    }
}

/// The envelope for a 401 response. No body is consulted.
pub fn finish_auth_failure() -> (env: ApiResponse<String>)
    ensures
        env.well_formed(),
        is_error_envelope(env, msg_auth_failure()),
{
    ApiResponse::error("Clé API invalide. Veuillez vérifier votre clé API ElevenLabs dans Paramètres.".to_owned())
}

/// The envelope for a 429 response. No body is consulted.
pub fn finish_rate_limited() -> (env: ApiResponse<String>)
    ensures
        env.well_formed(),
        is_error_envelope(env, msg_rate_limited()),
{
    ApiResponse::error("Limite de débit dépassée. Veuillez réessayer plus tard ou améliorer votre forfait ElevenLabs.".to_owned())
}

/// The envelope for any other unexpected status: the code and the body text,
/// or the code alone when the body could not be read.
pub fn finish_other(status: u16, body: Result<String, String>) -> (env: ApiResponse<String>)
    ensures
        env.well_formed(),
        body matches Ok(t) ==> is_error_envelope(env, msg_api_error_with_body(status as nat, t@)),
        body is Err ==> is_error_envelope(env, msg_api_error(status as nat)),
{
    let code = u16_to_dec(status);
    match body {
        Ok(text) => {
            let mut m = "Erreur API (".to_owned();
            m.append(code.as_str());
            m.append(") : ");
            m.append(text.as_str());
            ApiResponse::error(m)
        },
        Err(_) => {
            let mut m = "Erreur API : ".to_owned();
            m.append(code.as_str());
            ApiResponse::error(m)
        },
    }
}

} // verus!
