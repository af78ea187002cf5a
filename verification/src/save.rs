//! The audio-export hand-off. The save dialog and the file write live outside
//! the library; what they report — a chosen location or a cancellation, a
//! written file or a write fault — is mapped here to the caller's envelope.
//! A location that carries no usable path is surfaced as its own failure
//! rather than treated as impossible.

use vstd::prelude::*;
use vstd::string::StringExecFns;
use crate::envelope::{ApiResponse, is_error_envelope, is_success_envelope};
use crate::messages::{msg_file_saved, msg_invalid_path, msg_save_cancelled, msg_save_failed};

verus! {

/// Maps the save dialog's answer: the chosen path when one came back, a
/// cancellation envelope when the user dismissed the dialog, and an
/// invalid-path envelope when the chosen location has no usable path.
pub fn save_dialog_outcome(choice: Option<Option<String>>) -> (r: Result<String, ApiResponse<String>>)
    ensures
        choice is None ==> (r matches Err(env) && is_error_envelope(env, msg_save_cancelled())),
        choice matches Some(None) ==> (r matches Err(env) && is_error_envelope(
            env,
            msg_invalid_path(),
        )),
        choice matches Some(Some(p)) ==> (r matches Ok(q) && q@ == p@),
{
    match choice {
        None => Err(ApiResponse::error("Enregistrement annulé".to_owned())),
        Some(None) => Err(ApiResponse::error("Chemin de fichier invalide".to_owned())),
        Some(Some(path)) => Ok(path),
    }
}

/// Maps the outcome of writing the decoded audio to `path`: a confirmation
/// naming the path, or the write fault's text.
pub fn save_write_outcome(path: &str, write_result: Result<(), String>) -> (env: ApiResponse<
    String,
>)
    ensures
        env.well_formed(),
        write_result is Ok ==> is_success_envelope(env, msg_file_saved(path@)),
        write_result matches Err(d) ==> is_error_envelope(env, msg_save_failed(d@)),
{
    match write_result {
        Ok(_) => {
            let mut m = "Fichier enregistré avec succès : ".to_owned();
            m.append(path);
            ApiResponse::success(m)
        },
        Err(detail) => {
            let mut m = "Échec de l'enregistrement du fichier : ".to_owned();
            m.append(detail.as_str());
            ApiResponse::error(m)
        },
    }
}

} // verus!
