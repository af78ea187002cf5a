//! The text-safe encoding that carries binary audio across the caller
//! boundary: standard base-64 with padding, no line wrapping. The alphabet
//! itself belongs to the base64 crate; what the library states of it is that
//! encoding is a function of the bytes alone, that it is injective, and that
//! decoding accepts exactly its outputs and inverts it.

use base64::Engine as _;
use vstd::prelude::*;
use vstd::string::StringExecFns;
use crate::envelope::{ApiResponse, is_error_envelope};
use crate::messages::msg_decode_failure;

verus! {

/// The standard padded base-64 rendering of `bytes`, named after the encode
/// call of the base64 crate; its value depends on the bytes alone.
pub uninterp spec fn b64_of(bytes: Seq<u8>) -> Seq<char>;

/// Relies on the base64 crate's `STANDARD` engine `encode`: it renders the
/// bytes in standard padded base-64 (four characters for every three bytes),
/// a deterministic and injective function of the input bytes alone.
#[verifier::external_body]
fn b64_encode(bytes: &[u8]) -> (r: String)
    ensures
        r@ == b64_of(bytes@),
        r@.len() == 4 * ((bytes@.len() + 2) / 3),
        forall|other: Seq<u8>| b64_of(other) == r@ ==> other == bytes@,
{
    base64::engine::general_purpose::STANDARD.encode(bytes)
}

/// Relies on the base64 crate's `STANDARD` engine `decode`: it accepts
/// exactly the canonical padded encodings (the engine requires canonical
/// padding and zero trailing bits) and returns the unique bytes that encode
/// to the input; on anything else it reports the fault's text.
#[verifier::external_body]
fn b64_decode(s: &str) -> (r: Result<Vec<u8>, String>)
    ensures
        r matches Ok(v) ==> s@ == b64_of(v@),
        r matches Ok(v) ==> (forall|b: Seq<u8>| s@ == b64_of(b) ==> b == v@),
        (exists|b: Seq<u8>| s@ == b64_of(b)) ==> r is Ok,
{
    match base64::engine::general_purpose::STANDARD.decode(s) {
        Ok(v) => Ok(v),
        Err(e) => Err(e.to_string()),
    }
}

/// Encodes audio bytes for the caller boundary.
pub fn encode_audio(bytes: &Vec<u8>) -> (r: String)
    ensures
        r@ == b64_of(bytes@),
{
    b64_encode(bytes.as_slice())
}

/// Decodes a text-safe audio payload back into bytes. Exactly the outputs of
/// the encoding are accepted: on them the unique original bytes come back;
/// anything else fails with a decode-failure envelope.
pub fn decode_audio(encoded: &str) -> (r: Result<Vec<u8>, ApiResponse<String>>)
    ensures
        r matches Ok(v) ==> encoded@ == b64_of(v@),
        r matches Ok(v) ==> (forall|b: Seq<u8>| encoded@ == b64_of(b) ==> b == v@),
        (exists|b: Seq<u8>| encoded@ == b64_of(b)) ==> r is Ok,
        r matches Err(env) ==> (exists|d: Seq<char>| is_error_envelope(env, msg_decode_failure(d))),
{
    match b64_decode(encoded) {
        Ok(v) => Ok(v),
        Err(detail) => {
            let ghost d: Seq<char> = detail@;
            let mut m = "Échec du décodage des données audio : ".to_owned();
            m.append(detail.as_str());
            let env = ApiResponse::error(m);
            proof {
                assert(is_error_envelope(env, msg_decode_failure(d)));
            }
            Err(env)
        },
    }
}

/// The round-trip law of the boundary encoding: decoding what was encoded
/// reproduces the original bytes exactly.
pub fn audio_round_trip(bytes: &Vec<u8>) -> (out: Vec<u8>)
    ensures
        out@ == bytes@,
{
    let ghost orig: Seq<u8> = bytes@;
    let encoded = encode_audio(bytes);
    match decode_audio(encoded.as_str()) {
        Ok(v) => {
            proof {
                assert(v@ == orig);
            }
            v
        },
        Err(_) => {
            proof {
                assert(exists|b: Seq<u8>| encoded@ == b64_of(b)) by {
                    assert(encoded@ == b64_of(orig));
                }
            }
            vstd::pervasive::unreached()
        },
    }
}

} // verus!
