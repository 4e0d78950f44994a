//! The two client-visible failure classes of the service: a malformed query
//! (client-caused) and an internal fault (pool or store), together with the
//! status code and opaque body each one is answered with.

use vstd::prelude::*;
use vstd::string::StringExecFns;

verus! {

/// `BadRequest` covers input rejected by validation; `ServerError` collapses
/// every backend fault (pool exhaustion, store failure) into one opaque
/// client-facing error.
#[derive(Clone, Copy, Debug, PartialEq, Eq, Structural)]
pub enum AutocompleteError {
    BadRequest,
    ServerError,
}

impl AutocompleteError {
    /// HTTP status the error is answered with: client fault 400, server fault 500.
    pub fn status_code(&self) -> (code: u16)
        ensures
            code == (if *self is BadRequest { 400u16 } else { 500u16 }),
    {
        match self {
            AutocompleteError::BadRequest => 400,
            AutocompleteError::ServerError => 500,
        }
    }

    /// The fixed JSON body for the error response; internal failure detail is
    /// never exposed, only this generic text.
    pub fn error_body(&self) -> (body: String)
        ensures
            *self is BadRequest ==> body@ == "{\"error\":\"bad request\"}"@,
            *self is ServerError ==> body@ == "{\"error\":\"internal error\"}"@,
    {
        match self {
            AutocompleteError::BadRequest => String::from_str("{\"error\":\"bad request\"}"),
            AutocompleteError::ServerError => String::from_str("{\"error\":\"internal error\"}"),
        }
    }
}

} // verus!
