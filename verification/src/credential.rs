//! The credential store adapter. The OS secret store is an opaque get/set
//! capability living outside the library; its outcomes are handed in as plain
//! values and mapped here to envelopes. An in-memory store with the same
//! surface stands in wherever a process-local store is wanted, tests first.

use vstd::prelude::*;
use vstd::string::StringExecFns;
use crate::envelope::{ApiResponse, is_error_envelope, is_success_envelope};
use crate::messages::{
    msg_key_empty, msg_key_not_found, msg_key_saved, msg_key_save_failed, msg_store_error,
};
use crate::textcheck::{is_blank, is_blank_text};

verus! {

/// Why a credential could not be retrieved: the store holds no entry, or the
/// store itself could not be reached (with the fault's diagnostic text).
pub enum CredentialError {
    NotFound,
    Unavailable(String),
}

/// Maps the outcome of a credential lookup to the envelope handed to the
/// caller: the key on success, the fixed not-found message when the store has
/// no entry, and the store fault's text otherwise.
pub fn get_api_key(lookup: Result<String, CredentialError>) -> (env: ApiResponse<String>)
    ensures
        env.well_formed(),
        lookup matches Ok(key) ==> is_success_envelope(env, key@),
        lookup matches Err(CredentialError::NotFound) ==> is_error_envelope(
            env,
            msg_key_not_found(),
        ),
        lookup matches Err(CredentialError::Unavailable(d)) ==> is_error_envelope(
            env,
            msg_store_error(d@),
        ),
{
    match lookup {
        Ok(key) => ApiResponse::success(key),
        Err(CredentialError::NotFound) => ApiResponse::error(
            "Clé API introuvable. Veuillez la configurer dans Paramètres.".to_owned(),
        ),
        Err(CredentialError::Unavailable(detail)) => {
            let mut m = "Erreur trousseau : ".to_owned();
            m.append(detail.as_str());
            ApiResponse::error(m)
        },
    }
}

/// Validation that precedes any attempt to write a new API key: a blank key
/// is rejected with its envelope, before the store is touched; a non-blank
/// key yields no envelope and the write may proceed.
pub fn set_api_key_rejection(value: &str) -> (r: Option<ApiResponse<String>>)
    ensures
        is_blank(value@) ==> (r matches Some(env) && is_error_envelope(env, msg_key_empty())),
        !is_blank(value@) ==> r is None,
{
    if is_blank_text(value) {
        Some(ApiResponse::error("La clé API ne peut pas être vide".to_owned()))
    } else {
        None
    }
}

/// Maps the outcome of the store write that follows a passed validation:
/// confirmation on success, the write fault's text otherwise.
pub fn set_api_key_outcome(store_result: Result<(), String>) -> (env: ApiResponse<String>)
    ensures
        env.well_formed(),
        store_result is Ok ==> is_success_envelope(env, msg_key_saved()),
        store_result matches Err(d) ==> is_error_envelope(env, msg_key_save_failed(d@)),
{
    match store_result {
        Ok(_) => ApiResponse::success("Clé API enregistrée avec succès".to_owned()),
        Err(detail) => {
            let mut m = "Échec de l'enregistrement de la clé API : ".to_owned();
            m.append(detail.as_str());
            ApiResponse::error(m)
        },
    }
}

/// A process-local credential store: the same get/set surface as the OS
/// store, holding at most one secret.
pub struct MemoryStore {
    secret: Option<String>,
}

impl MemoryStore {
    /// What the store holds.
    pub closed spec fn stored(&self) -> Option<Seq<char>> {
        match self.secret {
            Some(s) => Some(s@),
            None => None,
        }
    }

    /// A fresh store, holding no entry.
    pub fn new() -> (s: Self)
        ensures
            s.stored() is None,
    {
        MemoryStore { secret: None }
    }

    /// Retrieves the secret: the stored value, or not-found when none is.
    pub fn get(&self) -> (r: Result<String, CredentialError>)
        ensures
            self.stored() matches Some(v) ==> (r matches Ok(s) && s@ == v),
            self.stored() is None ==> (r matches Err(e) && e is NotFound),
    {
        match &self.secret {
            Some(s) => Ok(s.clone()),
            None => Err(CredentialError::NotFound),
        }
    }

    /// Overwrites the secret. The in-memory store cannot fail.
    pub fn set(&mut self, value: String)
        ensures
            final(self).stored() == Some(value@),
    {
        self.secret = Some(value);
    }

    /// The caller-facing read: the stored key in a success envelope, or the
    /// not-found failure.
    pub fn get_credential(&self) -> (env: ApiResponse<String>)
        ensures
            env.well_formed(),
            self.stored() matches Some(v) ==> is_success_envelope(env, v),
            self.stored() is None ==> is_error_envelope(env, msg_key_not_found()),
    {
        get_api_key(self.get())
    }

    /// The caller-facing write: a blank key is rejected and the store left
    /// untouched; any other key overwrites the entry and is confirmed.
    pub fn set_credential(&mut self, value: String) -> (env: ApiResponse<String>)
        ensures
            env.well_formed(),
            is_blank(value@) ==> is_error_envelope(env, msg_key_empty())
                && final(self).stored() == old(self).stored(),
            !is_blank(value@) ==> is_success_envelope(env, msg_key_saved())
                && final(self).stored() == Some(value@),
    {
        match set_api_key_rejection(value.as_str()) {
            Some(env) => env,
            None => {
                self.set(value);
                set_api_key_outcome(Ok(()))
            },
        }
    }
}

} // verus!
