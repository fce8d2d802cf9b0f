//! How a refused request is answered.
use vstd::prelude::*;
use vstd::string::StringExecFns;

verus! {

/// The reason a request is refused, which fixes the status it is answered with.
#[derive(Debug)]
pub enum Refusal {
    /// 400, with a bad-request body.
    BadRequest,
    /// 400, with a message that says why.
    Rejected(String),
    /// 401.
    Unauthorized,
    /// 403, with an empty body.
    Forbidden,
    /// 404, with a not-found body.
    NotFound,
    /// 409, with a conflict body.
    Conflict,
    /// 204: the answer has no content.
    NoContent,
    /// 507: the user's storage is full.
    InsufficientStorage,
    /// 500: the database failed. Handlers that distinguish this case answer it with a
    /// not-found body.
    DatabaseError,
    /// 500: storing or reading chunk data failed.
    StorageError,
}

/// The HTTP status of a refusal.
pub open spec fn refusal_status(refusal: Refusal) -> u16 {
    match refusal {
        Refusal::BadRequest => 400,
        Refusal::Rejected(_) => 400,
        Refusal::Unauthorized => 401,
        Refusal::Forbidden => 403,
        Refusal::NotFound => 404,
        Refusal::Conflict => 409,
        Refusal::NoContent => 204,
        Refusal::InsufficientStorage => 507,
        Refusal::DatabaseError => 500,
        Refusal::StorageError => 500,
    }
}

/// Whether a refusal rejects the request with this message.
pub open spec fn rejected_with(refusal: Refusal, message: Seq<char>) -> bool {
    refusal matches Refusal::Rejected(m) && m@ == message
}

impl Refusal {
    /// The HTTP status the refusal is answered with.
    pub fn status_code(&self) -> (code: u16)
        ensures
            code == refusal_status(*self),
    {
        match self {
            Refusal::BadRequest => 400,
            Refusal::Rejected(_) => 400,
            Refusal::Unauthorized => 401,
            Refusal::Forbidden => 403,
            Refusal::NotFound => 404,
            Refusal::Conflict => 409,
            Refusal::NoContent => 204,
            Refusal::InsufficientStorage => 507,
            Refusal::DatabaseError => 500,
            Refusal::StorageError => 500,
        }
    }
}

/// A failed database operation.
#[derive(Clone, Copy, Debug, PartialEq, Eq, Structural)]
pub struct DatabaseError;


/// What a client learns of a request handler that panicked: the panic message in a
/// debug build, a generic message otherwise.
pub fn client_panic_details(debug_build: bool, details: String) -> (shown: String)
    ensures
        shown@ == (if debug_build { details@ } else { "Internal Server Error"@ }),
{
    if debug_build {
        details
    } else {
        String::from_str("Internal Server Error")
    }
}

/// Why binding the listener failed, as far as the server explains it.
#[derive(Clone, Copy, Debug, PartialEq, Eq, Structural)]
pub enum BindFailure {
    AddrInUse,
    PermissionDenied,
    AddrNotAvailable,
    Other,
}

/// The explanation logged when binding the listener failed; `None` where the error's
/// own text is logged.
pub fn bind_failure_hint(failure: BindFailure) -> (hint: Option<String>)
    ensures
        match failure {
            BindFailure::AddrInUse => hint matches Some(h) && h@ == "The port is already in use!"@,
            BindFailure::PermissionDenied => hint matches Some(h) && h@
                == "You do not have sufficient permissions!"@,
            BindFailure::AddrNotAvailable => hint matches Some(h) && h@
                == "The requested IP is not available!"@,
            BindFailure::Other => hint is None,
        },
{
    match failure {
        BindFailure::AddrInUse => Some(String::from_str("The port is already in use!")),
        BindFailure::PermissionDenied => Some(String::from_str("You do not have sufficient permissions!")),
        BindFailure::AddrNotAvailable => Some(String::from_str("The requested IP is not available!")),
        BindFailure::Other => None,
    }
}

} // verus!
