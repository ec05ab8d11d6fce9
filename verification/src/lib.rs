//! Client identity, authorization, and websocket session lifecycle for a
//! small relay service.
//!
//! The library covers how a caller's identity is derived from request
//! headers, how that identity is authenticated against stored credentials,
//! how subscription-scoped authorization is enforced, and how an accepted
//! websocket connection is tracked and driven through its lifecycle.

use vstd::prelude::*;

pub mod hashing;
pub mod identifier;
pub mod users;
pub mod configs;
pub mod auth;
pub mod registry;
pub mod session;

verus! {

/// The error taxonomy of the service. Authorization failures are resolved at
/// the boundary; store-unavailability is surfaced as a single opaque server
/// error.
#[derive(Clone, Copy, Debug, PartialEq, Eq, Structural)]
pub enum ServiceError {
    /// An identity string did not split into exactly two non-empty parts.
    MalformedIdentifier,
    /// The identity header was absent from the request.
    MissingIdentity,
    /// The identity header was present but not a valid identifier.
    InvalidIdentity,
    /// Credential mismatch or unknown identity; the two are deliberately
    /// indistinguishable to the caller.
    Unauthorized,
    /// No subscription/config record exists for the caller.
    NotFound,
    /// A requested subscription lies outside the allowed capability list.
    Forbidden,
    /// The credential or config store could not be reached.
    StoreUnavailable,
}

/// The HTTP status that each error is reported with.
pub open spec fn spec_http_status(e: ServiceError) -> u16 {
    match e {
        ServiceError::MalformedIdentifier => 400,
        ServiceError::MissingIdentity => 401,
        ServiceError::InvalidIdentity => 401,
        ServiceError::Unauthorized => 401,
        ServiceError::NotFound => 404,
        ServiceError::Forbidden => 403,
        ServiceError::StoreUnavailable => 502,
    }
}

impl ServiceError {
    /// Maps the error to the HTTP status code it is surfaced with.
    pub fn http_status(&self) -> (r: u16)
        ensures
            r == spec_http_status(*self),
    {
        match self {
            ServiceError::MalformedIdentifier => 400,
            ServiceError::MissingIdentity => 401,
            ServiceError::InvalidIdentity => 401,
            ServiceError::Unauthorized => 401,
            ServiceError::NotFound => 404,
            ServiceError::Forbidden => 403,
            ServiceError::StoreUnavailable => 502,
        }
    }
}

} // verus!
