//! Credential records bound to a group, and the preparation of
//! administrator-driven record changes.
//!
//! A stored [`User`] carries the salted hash of its token and the capability
//! allow-list (`server_list`) of subscriptions its clients may request. The
//! record store itself is an external collaborator; this module prepares the
//! values it stores and reads.

use vstd::prelude::*;

use crate::ServiceError;
use crate::hashing::hash_of;
use crate::hashing::hash_password;

verus! {

/// A credential record: the group it belongs to, the capability allow-list,
/// and the salted hash of the group's token.
#[derive(Debug)]
pub struct User {
    pub server_id: String,
    pub server_list: Vec<String>,
    pub hashed_auth_token: String,
}

/// A credential record with the secret withheld, as listings report it.
#[derive(Debug)]
pub struct UserNoToken {
    pub server_id: String,
    pub server_list: Vec<String>,
}

/// A credential record for administrator listings, the secret withheld; the
/// same shape as [`UserNoToken`].
#[derive(Debug)]
pub struct GetUser {
    pub server_id: String,
    pub server_list: Vec<String>,
}

/// The body of an administrator request that adds a credential record.
#[derive(Debug)]
pub struct AdminPostBody {
    pub server_id: String,
    pub server_list: Vec<String>,
    pub auth_token: String,
}

/// The body of an administrator request that deletes a credential record.
#[derive(Debug)]
pub struct AdminDeleteBody {
    pub server_id: String,
}

/// The body of an administrator request that updates a credential record;
/// absent fields keep their stored values.
#[derive(Debug)]
pub struct AdminUpdateBody {
    pub server_id: String,
    pub server_list: Option<Vec<String>>,
    pub auth_token: Option<String>,
}

/// `list` holds a string equal to `x`.
pub open spec fn seq_contains_string(list: Seq<Seq<char>>, x: Seq<char>) -> bool {
    exists|i: int| 0 <= i < list.len() && list[i] == x
}

/// Whether some element of `list` equals `x`.
pub fn vec_contains_string(list: &Vec<String>, x: &String) -> (r: bool)
    ensures
        r == seq_contains_string(list.deep_view(), x@),
{
    let mut i: usize = 0;
    while i < list.len()
        invariant
            i <= list@.len(),
            forall|j: int| 0 <= j < i ==> list.deep_view()[j] != x@,
        decreases list@.len() - i,
    {
        if list[i].eq(x) {
            proof {
                assert(list.deep_view()[i as int] == x@);
            }
            return true;
        }
        i = i + 1;
    }
    false
}

/// Appends `item` unless an equal string is already present; the list is
/// otherwise unchanged.
pub fn add_if_not_contains(list: &mut Vec<String>, item: String)
    ensures
        seq_contains_string(old(list).deep_view(), item@) ==> final(list)@ == old(list)@,
        !seq_contains_string(old(list).deep_view(), item@) ==> final(list)@ == old(list)@.push(
            item,
        ),
        final(list).deep_view() == if seq_contains_string(old(list).deep_view(), item@) {
            old(list).deep_view()
        } else {
            old(list).deep_view().push(item@)
        },
{
    if !vec_contains_string(list, &item) {
        let ghost prior = list.deep_view();
        let ghost item_view = item@;
        list.push(item);
        proof {
            assert(list.deep_view() =~= prior.push(item_view));
        }
    }
}

/// The capability list with the built-in tag ensured: `base` itself when it
/// already holds `tag`, `base` with `tag` appended otherwise.
pub open spec fn with_tag(base: Seq<Seq<char>>, tag: Seq<char>) -> Seq<Seq<char>> {
    if seq_contains_string(base, tag) {
        base
    } else {
        base.push(tag)
    }
}

impl AdminPostBody {
    /// Prepares the credential record that an add request stores: the
    /// built-in `"discord"` capability is ensured on the allow-list and the
    /// plaintext token is replaced by its salted hash.
    pub fn prepare_user(self, salt: &str) -> (r: User)
        ensures
            r.server_id@ == self.server_id@,
            r.server_list.deep_view() == with_tag(self.server_list.deep_view(), "discord"@),
            r.hashed_auth_token@ == hash_of(self.auth_token@, salt@),
    {
        let mut server_list = self.server_list;
        add_if_not_contains(&mut server_list, "discord".to_owned());
        let hashed = hash_password(self.auth_token.as_str(), salt);
        User { server_id: self.server_id, server_list, hashed_auth_token: hashed }
    }
}

impl AdminUpdateBody {
    /// Prepares an update request for the store: an empty replacement
    /// allow-list is rejected; a present allow-list gets the built-in
    /// `"discord"` capability ensured; a present plaintext token is replaced
    /// by its salted hash. Absent fields stay absent.
    pub fn prepare_update(self, salt: &str) -> (r: Result<AdminUpdateBody, ServiceError>)
        ensures
            match r {
                Ok(u) => {
                    &&& !(self.server_list matches Some(l) && l@.len() == 0)
                    &&& u.server_id@ == self.server_id@
                    &&& match (self.server_list, u.server_list) {
                        (Some(l), Some(ul)) => ul.deep_view() == with_tag(
                            l.deep_view(),
                            "discord"@,
                        ),
                        (None, None) => true,
                        _ => false,
                    }
                    &&& match (self.auth_token, u.auth_token) {
                        (Some(t), Some(h)) => h@ == hash_of(t@, salt@),
                        (None, None) => true,
                        _ => false,
                    }
                },
                Err(e) => e == ServiceError::Forbidden && (self.server_list matches Some(l)
                    && l@.len() == 0),
            },
    {
        let server_list = match self.server_list {
            Some(mut l) => {
                if l.len() == 0 {
                    return Err(ServiceError::Forbidden);
                }
                add_if_not_contains(&mut l, "discord".to_owned());
                Some(l)
            },
            None => None,
        };
        let auth_token = match self.auth_token {
            Some(t) => Some(hash_password(t.as_str(), salt)),
            None => None,
        };
        Ok(AdminUpdateBody { server_id: self.server_id, server_list, auth_token })
    }
}

} // verus!
