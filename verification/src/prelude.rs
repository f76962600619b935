//! The error vocabulary shared by every request handler.

use vstd::prelude::*;
use vstd::string::StringExecFns;

verus! {

/// Why a request was turned down. Each variant carries the text shown to the caller.
#[derive(Clone, Debug, PartialEq, Eq)]
pub enum ServiceError {
    /// A failure of the storage behind the repository that is not a missing object.
    InternalError(String),
    /// No account, customer or card matches the request.
    NotFound(String),
    /// The customer already owns an account.
    AlreadyExists(String),
    /// The request itself is wrong: a malformed date or id, an invalid card,
    /// an unknown level token, or a burn larger than the balance.
    BadRequest(String),
}

pub type ServiceResult<T> = Result<T, ServiceError>;

impl ServiceError {
    /// The text carried by the error, whatever its variant.
    pub open spec fn message(&self) -> Seq<char> {
        match self {
            ServiceError::InternalError(msg) => msg@,
            ServiceError::NotFound(msg) => msg@,
            ServiceError::AlreadyExists(msg) => msg@,
            ServiceError::BadRequest(msg) => msg@,
        }
    }

    pub fn internal_error(msg: &str) -> (e: Self)
        ensures
            e is InternalError,
            e.message() == msg@,
    {
        ServiceError::InternalError(String::from_str(msg))
    }

    pub fn not_found(msg: &str) -> (e: Self)
        ensures
            e is NotFound,
            e.message() == msg@,
    {
        ServiceError::NotFound(String::from_str(msg))
    }

    pub fn already_exist(msg: &str) -> (e: Self)
        ensures
            e is AlreadyExists,
            e.message() == msg@,
    {
        ServiceError::AlreadyExists(String::from_str(msg))
    }

    pub fn bad_request(msg: &str) -> (e: Self)
        ensures
            e is BadRequest,
            e.message() == msg@,
    {
        ServiceError::BadRequest(String::from_str(msg))
    }

    /// The error's text as an owned string; the variant adds nothing to it.
    pub fn to_string(&self) -> (s: String)
        ensures
            s@ == self.message(),
    {
        match self {
            ServiceError::InternalError(msg) => msg.clone(),
            ServiceError::NotFound(msg) => msg.clone(),
            ServiceError::AlreadyExists(msg) => msg.clone(),
            ServiceError::BadRequest(msg) => msg.clone(),
        }
    }
}

} // verus!
