//! Typed transport-level outcomes. The HTTP call itself lives outside the
//! library; what it reports — a timeout, a failed connection, or some other
//! fault with its text — is handed in as plain values, classified here, and
//! mapped to the envelope the caller sees.

use vstd::prelude::*;
use vstd::string::StringExecFns;
use crate::envelope::{ApiResponse, is_error_envelope};
use crate::messages::{msg_connect_failure, msg_network_error, msg_timeout};

verus! {

/// Why the outbound call produced no response at all.
pub enum TransportError {
    Timeout,
    ConnectFailure,
    Other(String),
}

/// Classifies a transport fault from its observable marks: a timeout wins
/// over a connection failure, and anything else keeps its diagnostic text
/// verbatim.
pub fn classify_transport_error(is_timeout: bool, is_connect: bool, detail: String) -> (e:
    TransportError)
    ensures
        is_timeout ==> e is Timeout,
        !is_timeout && is_connect ==> e is ConnectFailure,
        !is_timeout && !is_connect ==> (e matches TransportError::Other(d) && d@ == detail@),
{
    if is_timeout {
        TransportError::Timeout
    } else if is_connect {
        TransportError::ConnectFailure
    } else {
        TransportError::Other(detail)
    }
}

/// The envelope for a call that never yielded a response.
pub fn transport_failure(e: TransportError) -> (env: ApiResponse<String>)
    ensures
        env.well_formed(),
        e is Timeout ==> is_error_envelope(env, msg_timeout()),
        e is ConnectFailure ==> is_error_envelope(env, msg_connect_failure()),
        e matches TransportError::Other(d) ==> is_error_envelope(env, msg_network_error(d@)),
{
    match e {
        TransportError::Timeout => ApiResponse::error(
            "Délai d'attente dépassé. Veuillez vérifier votre connexion Internet.".to_owned(),
        ),
        TransportError::ConnectFailure => ApiResponse::error(
            "Échec de la connexion. Veuillez vérifier votre connexion Internet.".to_owned(),
        ),
        TransportError::Other(detail) => {
            let mut m = "Erreur réseau : ".to_owned();
            m.append(detail.as_str());
            ApiResponse::error(m)
        },
    }
}

} // verus!
