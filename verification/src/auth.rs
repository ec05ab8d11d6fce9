//! The three authorization policies: administrator-token check,
//! client-credential check, and the client-credential-plus-subscription
//! check that gates websocket upgrades.
//!
//! Each policy is a pure decision over the caller's evidence and the outcome
//! of the store lookups; the lookups themselves are performed by the caller
//! against the external credential/config store.

use vstd::prelude::*;

use crate::ServiceError;
use crate::configs::ClientConfig;
use crate::hashing::constant_time_str_eq;
use crate::hashing::hash_of;
use crate::hashing::hash_password;
use crate::users::User;

verus! {

/// What the credential store answered for a group: a record, no record, or
/// no answer at all.
#[derive(Debug)]
pub enum CredentialLookup {
    Found(User),
    Missing,
    Unavailable,
}

/// What the config store answered for an identity: a subscription record, no
/// record, or no answer at all.
#[derive(Debug)]
pub enum SubscriptionLookup {
    Found(ClientConfig),
    Missing,
    Unavailable,
}

/// The administrator policy: admission exactly when the bearer token equals
/// the configured administrator token, character for character.
pub open spec fn spec_admin_decision(supplied: Seq<char>, admin_token: Seq<char>) -> Result<
    (),
    ServiceError,
> {
    if supplied == admin_token {
        Ok(())
    } else {
        Err(ServiceError::Unauthorized)
    }
}

/// Checks a bearer token against the configured administrator token. The
/// comparison is exact (case-sensitive, no trimming) and does not
/// short-circuit on the first mismatch.
pub fn authorize_admin(supplied: &str, admin_token: &str) -> (r: Result<(), ServiceError>)
    ensures
        r == spec_admin_decision(supplied@, admin_token@),
{
    if constant_time_str_eq(supplied, admin_token) {
        Ok(())
    } else {
        Err(ServiceError::Unauthorized)
    }
}

/// Administrator auth succeeds exactly when the two tokens are equal,
/// character for character: no case folding, no trimming.
pub proof fn lemma_admin_auth_exact(supplied: Seq<char>, admin_token: Seq<char>)
    ensures
        spec_admin_decision(supplied, admin_token) is Ok <==> supplied == admin_token,
        spec_admin_decision(supplied, admin_token) is Err ==> (spec_admin_decision(
            supplied,
            admin_token,
        ) matches Err(e) && e == ServiceError::Unauthorized),
{
}

/// The client policy: admission exactly when the lookup found a record whose
/// stored hash equals the salted hash of the supplied token. An unknown
/// group and a bad token are rejected alike, so a caller cannot probe which
/// identities exist.
pub open spec fn spec_client_decision(
    lookup: CredentialLookup,
    token: Seq<char>,
    salt: Seq<char>,
) -> Result<(), ServiceError> {
    match lookup {
        CredentialLookup::Found(user) => if user.hashed_auth_token@ == hash_of(token, salt) {
            Ok(())
        } else {
            Err(ServiceError::Unauthorized)
        },
        CredentialLookup::Missing => Err(ServiceError::Unauthorized),
        CredentialLookup::Unavailable => Err(ServiceError::StoreUnavailable),
    }
}

/// Checks a client's bearer token against the credential record its group's
/// lookup produced.
pub fn authorize_client(lookup: &CredentialLookup, token: &str, salt: &str) -> (r: Result<
    (),
    ServiceError,
>)
    ensures
        r == spec_client_decision(*lookup, token@, salt@),
{
    match lookup {
        CredentialLookup::Found(user) => {
            let hashed = hash_password(token, salt);
            if constant_time_str_eq(user.hashed_auth_token.as_str(), hashed.as_str()) {
                Ok(())
            } else {
                Err(ServiceError::Unauthorized)
            }
        },
        CredentialLookup::Missing => Err(ServiceError::Unauthorized),
        CredentialLookup::Unavailable => Err(ServiceError::StoreUnavailable),
    }
}

/// Client auth succeeds exactly when the lookup found a record whose stored
/// hash is the salted hash of the supplied token.
pub proof fn lemma_client_auth_succeeds_iff_hash_matches(
    lookup: CredentialLookup,
    token: Seq<char>,
    salt: Seq<char>,
)
    ensures
        spec_client_decision(lookup, token, salt) is Ok <==> (lookup matches
        CredentialLookup::Found(user) && user.hashed_auth_token@ == hash_of(token, salt)),
{
}

/// Any two client-auth rejections other than store unavailability carry the
/// same error: an unknown group is indistinguishable from a bad token.
pub proof fn lemma_client_auth_rejections_indistinguishable(
    lookup1: CredentialLookup,
    lookup2: CredentialLookup,
    token1: Seq<char>,
    token2: Seq<char>,
    salt: Seq<char>,
)
    requires
        !(lookup1 is Unavailable),
        !(lookup2 is Unavailable),
        spec_client_decision(lookup1, token1, salt) is Err,
        spec_client_decision(lookup2, token2, salt) is Err,
    ensures
        spec_client_decision(lookup1, token1, salt) == spec_client_decision(
            lookup2,
            token2,
            salt,
        ),
{
}

/// The websocket policy resolves the caller's subscription record once the
/// client check passed: a missing record is [`ServiceError::NotFound`],
/// distinct from an authorization failure.
pub open spec fn spec_subscription_decision(lookup: SubscriptionLookup) -> Result<
    Seq<Seq<char>>,
    ServiceError,
> {
    match lookup {
        SubscriptionLookup::Found(config) => Ok(config.subscriptions.deep_view()),
        SubscriptionLookup::Missing => Err(ServiceError::NotFound),
        SubscriptionLookup::Unavailable => Err(ServiceError::StoreUnavailable),
    }
}

/// Resolves a subscription lookup into the caller's subscription list.
pub fn resolve_subscriptions(lookup: SubscriptionLookup) -> (r: Result<Vec<String>, ServiceError>)
    ensures
        match (r, spec_subscription_decision(lookup)) {
            (Ok(subs), Ok(expected)) => subs.deep_view() == expected,
            (Err(e), Err(expected)) => e == expected,
            _ => false,
        },
{
    match lookup {
        SubscriptionLookup::Found(config) => Ok(config.subscriptions),
        SubscriptionLookup::Missing => Err(ServiceError::NotFound),
        SubscriptionLookup::Unavailable => Err(ServiceError::StoreUnavailable),
    }
}

/// The full websocket policy: the client check, then the subscription
/// resolution.
pub open spec fn spec_websocket_decision(
    cred: CredentialLookup,
    token: Seq<char>,
    salt: Seq<char>,
    subs: SubscriptionLookup,
) -> Result<Seq<Seq<char>>, ServiceError> {
    match spec_client_decision(cred, token, salt) {
        Ok(admitted) => spec_subscription_decision(subs),
        Err(e) => Err(e),
    }
}

/// Authorizes a websocket upgrade: checks the client's credential, then
/// resolves its subscription record.
pub fn authorize_websocket(
    cred: &CredentialLookup,
    token: &str,
    salt: &str,
    subs: SubscriptionLookup,
) -> (r: Result<Vec<String>, ServiceError>)
    ensures
        match (r, spec_websocket_decision(*cred, token@, salt@, subs)) {
            (Ok(resolved), Ok(expected)) => resolved.deep_view() == expected,
            (Err(e), Err(expected)) => e == expected,
            _ => false,
        },
{
    match authorize_client(cred, token, salt) {
        Ok(admitted) => resolve_subscriptions(subs),
        Err(e) => Err(e),
    }
}

/// A websocket caller with a valid credential but no subscription record is
/// answered with [`ServiceError::NotFound`], not an authorization failure.
pub proof fn lemma_missing_subscription_is_not_found(
    cred: CredentialLookup,
    token: Seq<char>,
    salt: Seq<char>,
)
    requires
        spec_client_decision(cred, token, salt) is Ok,
    ensures
        spec_websocket_decision(cred, token, salt, SubscriptionLookup::Missing) matches Err(e)
            && e == ServiceError::NotFound,
{
}

} // verus!
