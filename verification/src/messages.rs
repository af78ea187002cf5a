//! The human-readable messages carried by failure and success envelopes.
//! Every message is stated here once, as a specification, so that each
//! operation's contract can pin the exact text it returns. No message ever
//! contains secret material: the API key is never spliced into one.

use vstd::prelude::*;
use crate::numerals::dec_of;

verus! {

/// Rejection of a synthesis request whose text trims to nothing.
pub open spec fn msg_empty_text() -> Seq<char> {
    "Le texte ne peut pas être vide"@
}

/// Rejection of a synthesis request whose text is over the bound.
pub open spec fn msg_text_too_long() -> Seq<char> {
    "Le texte dépasse la longueur maximale de 5000 caractères"@
}

/// The credential store holds no entry for the API key.
pub open spec fn msg_key_not_found() -> Seq<char> {
    "Clé API introuvable. Veuillez la configurer dans Paramètres."@
}

/// The credential store itself could not be reached or queried.
pub open spec fn msg_store_error(detail: Seq<char>) -> Seq<char> {
    "Erreur trousseau : "@ + detail
}

/// Rejection of an attempt to store a blank API key.
pub open spec fn msg_key_empty() -> Seq<char> {
    "La clé API ne peut pas être vide"@
}

/// Confirmation that the API key was stored.
pub open spec fn msg_key_saved() -> Seq<char> {
    "Clé API enregistrée avec succès"@
}

/// The store accepted the key for writing but the write failed.
pub open spec fn msg_key_save_failed(detail: Seq<char>) -> Seq<char> {
    "Échec de l'enregistrement de la clé API : "@ + detail
}

/// The provider rejected the request's credential.
pub open spec fn msg_auth_failure() -> Seq<char> {
    "Clé API invalide. Veuillez vérifier votre clé API ElevenLabs dans Paramètres."@
}

/// The provider rate-limited the request.
pub open spec fn msg_rate_limited() -> Seq<char> {
    "Limite de débit dépassée. Veuillez réessayer plus tard ou améliorer votre forfait ElevenLabs."@
}

/// The provider answered with an unexpected status and a readable body.
pub open spec fn msg_api_error_with_body(status: nat, body: Seq<char>) -> Seq<char> {
    "Erreur API ("@ + dec_of(status) + ") : "@ + body
}

/// The provider answered with an unexpected status and an unreadable body.
pub open spec fn msg_api_error(status: nat) -> Seq<char> {
    "Erreur API : "@ + dec_of(status)
}

/// The response status was a success but its body could not be read.
pub open spec fn msg_read_failure(detail: Seq<char>) -> Seq<char> {
    "Échec de la lecture de la réponse : "@ + detail
}

/// The request exceeded the transport's deadline.
pub open spec fn msg_timeout() -> Seq<char> {
    "Délai d'attente dépassé. Veuillez vérifier votre connexion Internet."@
}

/// No connection to the provider could be established.
pub open spec fn msg_connect_failure() -> Seq<char> {
    "Échec de la connexion. Veuillez vérifier votre connexion Internet."@
}

/// Some other transport-level fault, with its diagnostic text.
pub open spec fn msg_network_error(detail: Seq<char>) -> Seq<char> {
    "Erreur réseau : "@ + detail
}

/// The text-safe audio payload handed back for saving was malformed.
pub open spec fn msg_decode_failure(detail: Seq<char>) -> Seq<char> {
    "Échec du décodage des données audio : "@ + detail
}

/// Confirmation that the audio was written to the chosen path.
pub open spec fn msg_file_saved(path: Seq<char>) -> Seq<char> {
    "Fichier enregistré avec succès : "@ + path
}

/// The audio could not be written to the chosen path.
pub open spec fn msg_save_failed(detail: Seq<char>) -> Seq<char> {
    "Échec de l'enregistrement du fichier : "@ + detail
}

/// The user dismissed the save dialog.
pub open spec fn msg_save_cancelled() -> Seq<char> {
    "Enregistrement annulé"@
}

/// The save dialog handed back a location with no usable path.
pub open spec fn msg_invalid_path() -> Seq<char> {
    "Chemin de fichier invalide"@
}

} // verus!
