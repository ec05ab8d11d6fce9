//! Per-client configuration records and the capability check that gates
//! writes to them.
//!
//! A client may subscribe only to topics on its group's capability
//! allow-list; a write that requests anything else is rejected with
//! [`ServiceError::Forbidden`].

use vstd::prelude::*;

use crate::ServiceError;
use crate::identifier::Identifier;
use crate::users::User;
use crate::users::seq_contains_string;
use crate::users::vec_contains_string;

verus! {

/// The configuration record of one client: its identity and the topics it
/// has subscribed to.
#[derive(Debug)]
pub struct ClientConfig {
    pub identifier: Identifier,
    pub subscriptions: Vec<String>,
}

/// The body of a config-write request: the subscriptions the caller wants.
#[derive(Debug)]
pub struct ConfigRequestBody {
    pub subscriptions: Vec<String>,
}

/// The body a successful config write responds with: the group and the
/// stored subscriptions.
#[derive(Debug)]
pub struct ConfigResponseBody {
    pub server_id: String,
    pub subscriptions: Vec<String>,
}

/// The body of the plain config echo endpoint.
#[derive(Debug)]
pub struct ConfigBody {
    pub subscriptions: Vec<String>,
}

/// Every requested subscription is on the allow-list.
pub open spec fn all_requested_allowed(allowed: Seq<Seq<char>>, requested: Seq<Seq<char>>) -> bool {
    forall|i: int| 0 <= i < requested.len() ==> seq_contains_string(allowed, requested[i])
}

/// The outcome of the capability check: admission exactly when every
/// requested subscription is allowed, [`ServiceError::Forbidden`] otherwise.
pub open spec fn spec_config_allowed_decision(
    allowed: Seq<Seq<char>>,
    requested: Seq<Seq<char>>,
) -> Result<(), ServiceError> {
    if all_requested_allowed(allowed, requested) {
        Ok(())
    } else {
        Err(ServiceError::Forbidden)
    }
}

/// Checks a config-write request against the caller's credential: admits it
/// exactly when every requested subscription is on the group's allow-list.
pub fn is_config_allowed(user: &User, body: &ConfigRequestBody) -> (r: Result<(), ServiceError>)
    ensures
        r == spec_config_allowed_decision(
            user.server_list.deep_view(),
            body.subscriptions.deep_view(),
        ),
{
    let mut i: usize = 0;
    while i < body.subscriptions.len()
        invariant
            i <= body.subscriptions@.len(),
            forall|j: int| 0 <= j < i ==> seq_contains_string(
                user.server_list.deep_view(),
                body.subscriptions.deep_view()[j],
            ),
        decreases body.subscriptions@.len() - i,
    {
        if !vec_contains_string(&user.server_list, &body.subscriptions[i]) {
            proof {
                assert(!seq_contains_string(
                    user.server_list.deep_view(),
                    body.subscriptions.deep_view()[i as int],
                ));
            }
            return Err(ServiceError::Forbidden);
        }
        i = i + 1;
    }
    Ok(())
}

/// The outcome of a config write, given the credential lookup for the
/// caller's group: an unknown group is rejected as [`ServiceError::Forbidden`]
/// like a disallowed subscription, while an unreachable store is surfaced as
/// [`ServiceError::StoreUnavailable`].
pub open spec fn spec_config_write_decision(
    lookup: crate::auth::CredentialLookup,
    requested: Seq<Seq<char>>,
) -> Result<(), ServiceError> {
    match lookup {
        crate::auth::CredentialLookup::Found(user) => spec_config_allowed_decision(
            user.server_list.deep_view(),
            requested,
        ),
        crate::auth::CredentialLookup::Missing => Err(ServiceError::Forbidden),
        crate::auth::CredentialLookup::Unavailable => Err(ServiceError::StoreUnavailable),
    }
}

/// Decides a config-write request from the credential lookup and the
/// requested subscriptions.
pub fn config_write_decision(
    lookup: &crate::auth::CredentialLookup,
    body: &ConfigRequestBody,
) -> (r: Result<(), ServiceError>)
    ensures
        r == spec_config_write_decision(*lookup, body.subscriptions.deep_view()),
{
    match lookup {
        crate::auth::CredentialLookup::Found(user) => is_config_allowed(user, body),
        crate::auth::CredentialLookup::Missing => Err(ServiceError::Forbidden),
        crate::auth::CredentialLookup::Unavailable => Err(ServiceError::StoreUnavailable),
    }
}

/// Copies a list of strings; the copy reads back equal, element for element.
pub fn clone_string_vec(v: &Vec<String>) -> (r: Vec<String>)
    ensures
        r@ == v@,
{
    let mut out: Vec<String> = Vec::new();
    let mut i: usize = 0;
    while i < v.len()
        invariant
            i <= v@.len(),
            out@ == v@.subrange(0, i as int),
        decreases v@.len() - i,
    {
        out.push(v[i].clone());
        proof {
            assert(v@.subrange(0, i + 1) =~= v@.subrange(0, i as int).push(v@[i as int]));
        }
        i = i + 1;
    }
    proof {
        assert(v@.subrange(0, v@.len() as int) =~= v@);
    }
    out
}

impl ClientConfig {
    /// Creates a record for an identity and its subscriptions.
    pub fn new(identifier: Identifier, subscriptions: Vec<String>) -> (r: Self)
        ensures
            r.identifier == identifier,
            r.subscriptions@ == subscriptions@,
    {
        ClientConfig { identifier, subscriptions }
    }

    /// The body a config write responds with: the record's group and its
    /// subscriptions.
    pub fn to_response_body(&self) -> (r: ConfigResponseBody)
        ensures
            r.server_id@ == self.identifier.server_id@,
            r.subscriptions@ == self.subscriptions@,
    {
        ConfigResponseBody {
            server_id: self.identifier.server_id.clone(),
            subscriptions: clone_string_vec(&self.subscriptions),
        }
    }
}

} // verus!
