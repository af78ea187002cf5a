//! The uniform result envelope returned for every operation of the library:
//! either a success carrying data, or a failure carrying a message, never both.

use vstd::prelude::*;

verus! {

/// Uniform success/error wrapper handed back to the caller for every
/// operation. Exactly one of `data` and `error` is populated, and `success`
/// tells which.
#[derive(Debug)]
pub struct ApiResponse<T> {
    pub success: bool,
    pub data: Option<T>,
    pub error: Option<String>,
}

impl<T> ApiResponse<T> {
    /// The envelope invariant: `success` holds exactly when data is present
    /// and no error is, and fails exactly when an error is present and no
    /// data is.
    pub open spec fn well_formed(&self) -> bool {
        &&& self.success <==> self.data is Some
        &&& self.success <==> self.error is None
    }

    /// A successful envelope around `data`.
    pub fn success(data: T) -> (r: Self)
        ensures
            r.success == true,
            r.data == Some(data),
            r.error is None,
            r.well_formed(),
    {
        ApiResponse { success: true, data: Some(data), error: None }
    }

    /// A failure envelope around the message `error`.
    pub fn error(error: String) -> (r: Self)
        ensures
            r.success == false,
            r.data is None,
            r.error == Some(error),
            r.well_formed(),
    {
        ApiResponse { success: false, data: None, error: Some(error) }
    }
}

/// The envelope is a failure whose message reads `msg`.
pub open spec fn is_error_envelope<T>(env: ApiResponse<T>, msg: Seq<char>) -> bool {
    &&& env.success == false
    &&& env.data is None
    &&& env.error matches Some(m) && m@ == msg
}

/// The envelope is a success whose payload string reads `data`.
pub open spec fn is_success_envelope(env: ApiResponse<String>, data: Seq<char>) -> bool {
    &&& env.success == true
    &&& env.data matches Some(d) && d@ == data
    &&& env.error is None
}

} // verus!
