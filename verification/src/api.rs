//! The transport-facing layer: the error taxonomy every response maps to,
//! its stable status codes, and the request authentication guard that runs
//! before any protected operation.

use crate::api_key::{base64_of, ApiKey, ApiKeyError};
use crate::service::ServiceError;
use crate::store::{DataError, Store};
use vstd::prelude::*;

verus! {

/// A caller-visible failure, one variant per stable status code; the
/// carried text is the generic message returned to the caller.
#[derive(Debug)]
pub enum ApiError {
    /// No such record or resource.
    NotFound(String),
    /// An internal failure not otherwise classified.
    Server(String),
    /// The caller's credentials did not verify.
    User(String),
    /// Registration under an email that is already taken.
    DuplicateUser(String),
    /// The presented API key was absent or malformed.
    KeyError(ApiKeyError),
}

/// The stable status code of each failure: decode errors 400, credential
/// failures 401, missing records and keys 404, duplicates 409, internal
/// failures 500.
pub open spec fn status_of(e: ApiError) -> u16 {
    match e {
        ApiError::NotFound(_) => 404,
        ApiError::Server(_) => 500,
        ApiError::User(_) => 401,
        ApiError::DuplicateUser(_) => 409,
        ApiError::KeyError(k) => match k {
            ApiKeyError::NotFound(_) => 404,
            ApiKeyError::DecodeError(_) => 400,
        },
    }
}

impl ApiError {
    /// The status code this failure is answered with.
    pub fn status(&self) -> (r: u16)
        ensures
            r == status_of(*self),
    {
        match self {
            ApiError::NotFound(_) => 404,
            ApiError::Server(_) => 500,
            ApiError::User(_) => 401,
            ApiError::DuplicateUser(_) => 409,
            ApiError::KeyError(k) => match k {
                ApiKeyError::NotFound(_) => 404,
                ApiKeyError::DecodeError(_) => 400,
            },
        }
    }

    /// Maps a protocol failure to its caller-visible answer: validation and
    /// permission failures are the caller's fault, a conflict is the
    /// duplicate-user answer, a missing record is not found, and any other
    /// store failure is an internal error.
    pub fn from_service(err: ServiceError) -> (r: Self)
        ensures
            match err {
                ServiceError::User(_) => r matches ApiError::User(_),
                ServiceError::NotFound => r matches ApiError::NotFound(_),
                ServiceError::Data(d) => match d {
                    DataError::Conflict => r matches ApiError::DuplicateUser(_),
                    DataError::NotFound => r matches ApiError::Server(_),
                },
                ServiceError::PermissionError(m) => r == ApiError::User(m),
                ServiceError::InvalidDetail => r matches ApiError::NotFound(_),
            },
    {
        match err {
            ServiceError::User(_) => ApiError::User("user parsing error".to_owned()),
            ServiceError::NotFound => ApiError::NotFound("invalid user detail".to_owned()),
            ServiceError::Data(d) => match d {
                DataError::Conflict => ApiError::DuplicateUser("User already registered".to_owned()),
                DataError::NotFound => ApiError::Server("a server error occured".to_owned()),
            },
            ServiceError::PermissionError(m) => ApiError::User(m),
            ServiceError::InvalidDetail => ApiError::NotFound("invalid user detail".to_owned()),
        }
    }
}

/// The request authentication guard. `header` is the value of the
/// designated key-bearing header, if the request carried one. An absent
/// header is a missing-key failure; text that decodes to no key is a decode
/// failure; a decoded key is accepted exactly when the store holds it.
pub fn authenticate(header: Option<&str>, store: &Store) -> (r: Result<ApiKey, ApiError>)
    ensures
        match r {
            Ok(k) => {
                &&& header matches Some(h) && (forall|b: Seq<u8>| h@ == base64_of(b) ==> k@ == b)
                &&& store.has_key(k@)
            },
            Err(e) => match e {
                ApiError::KeyError(ke) => match ke {
                    ApiKeyError::DecodeError(_) => header matches Some(h) && (forall|b: Seq<u8>|
                        h@ != base64_of(b)),
                    ApiKeyError::NotFound(_) => header is None || (header matches Some(h) && (
                    forall|b: Seq<u8>| h@ == base64_of(b) ==> !store.has_key(b))),
                },
                _ => false,
            },
        },
{
    match header {
        None => Err(ApiError::KeyError(ApiKeyError::NotFound("API key not found".to_owned()))),
        Some(h) => match ApiKey::from_str(h) {
            Err(e) => Err(ApiError::KeyError(e)),
            Ok(api_key) => {
                if store.api_key_exists(&api_key) {
                    Ok(api_key)
                } else {
                    proof {
                        assert forall|b: Seq<u8>| h@ == base64_of(b) implies !store.has_key(b) by {
                            assert(api_key@ == b);
                        }
                    }
                    Err(ApiError::KeyError(ApiKeyError::NotFound("API key not found".to_owned())))
                }
            },
        },
    }
}

/// The answer body for a request that matched nothing.
pub fn not_found() -> (r: &'static str)
    ensures
        r@ == "404"@,
{
    "404"
}

/// The answer body for a request whose credentials did not verify.
pub fn request_error() -> (r: &'static str)
    ensures
        r@ == "request error"@,
{
    "request error"
}

/// The answer body for a request whose API key was missing or malformed.
pub fn missing_api_key() -> (r: &'static str)
    ensures
        r@ == "API key missing/invalid"@,
{
    "API key missing/invalid"
}

} // verus!
