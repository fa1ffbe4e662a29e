//! The handler layer's error split: client faults and server faults.
use vstd::prelude::*;
use vstd::string::*;
use crate::models::DBError;

verus! {

/// The message shown to clients in place of a server fault's cause.
pub const GENERIC_ERROR_MESSAGE: &'static str = "Something went wrong! Please try again.";

/// A failed request, as the handler layer reports it.
#[derive(Debug, Clone, PartialEq, Eq)]
pub enum HandlerError {
    /// The client's fault; shown to the client as it is.
    BadRequest(String),
    /// The server's fault.
    InternalError(String),
}

/// The handler error that a data-access error becomes.
pub open spec fn handler_error_of(e: DBError) -> HandlerError {
    match e {
        DBError::InvalidUUID(m) => HandlerError::BadRequest(m),
        DBError::Other(m) => HandlerError::InternalError(m),
    }
}

impl HandlerError {
    /// A server fault that tells the client nothing of its cause.
    pub fn default_internal_error() -> (r: HandlerError)
        ensures
            r is InternalError,
            r->InternalError_0@ == GENERIC_ERROR_MESSAGE@,
    {
        HandlerError::InternalError(String::from_str(GENERIC_ERROR_MESSAGE))
    }

    /// Maps a data-access error: `InvalidUUID` to `BadRequest` and `Other` to
    /// `InternalError`, keeping the message.
    pub fn from_db_error(e: DBError) -> (r: HandlerError)
        ensures
            r == handler_error_of(e),
    {
        match e {
            DBError::InvalidUUID(m) => HandlerError::BadRequest(m),
            DBError::Other(m) => HandlerError::InternalError(m),
        }
    }

    /// The HTTP status for the error: 400 for a client fault, 500 for a
    /// server fault.
    pub fn status_code(&self) -> (s: u16)
        ensures
            *self is BadRequest ==> s == 400,
            *self is InternalError ==> s == 500,
    {
        match self {
            HandlerError::BadRequest(_) => 400,
            HandlerError::InternalError(_) => 500,
        }
    }

    /// What the client is told: a client fault's own message, or the generic
    /// message in place of a server fault's cause.
    pub fn client_message(&self) -> (m: String)
        ensures
            *self is BadRequest ==> m@ == self->BadRequest_0@,
            *self is InternalError ==> m@ == GENERIC_ERROR_MESSAGE@,
    {
        match self {
            HandlerError::BadRequest(msg) => msg.clone(),
            HandlerError::InternalError(_) => String::from_str(GENERIC_ERROR_MESSAGE),
        }
    }
}

/// A handler's result: the data-access result passed through unchanged on
/// success, its error mapped by `HandlerError::from_db_error` on failure.
pub fn handler_result<T>(outcome: Result<T, DBError>) -> (r: Result<T, HandlerError>)
    ensures
        outcome is Ok <==> r is Ok,
        outcome is Ok ==> r->Ok_0 == outcome->Ok_0,
        outcome is Err ==> r->Err_0 == handler_error_of(outcome->Err_0),
{
    match outcome {
        Ok(v) => Ok(v),
        Err(e) => Err(HandlerError::from_db_error(e)),
    }
}

} // verus!
