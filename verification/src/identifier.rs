//! Compound client identities and their extraction from request headers.
//!
//! An [`Identifier`] names a registered client within a group; its canonical
//! string form is `"<server_id>:<client_id>"`. Parsing requires the string to
//! split into exactly two non-empty parts on a single colon.

use vstd::prelude::*;
use vstd::string::StrSliceExecFns;
use vstd::string::StringExecFns;

use crate::ServiceError;

verus! {

/// A compound identity: a server (group) and a client (member) within it.
/// Immutable once constructed.
#[derive(Debug)]
pub struct Identifier {
    pub server_id: String,
    pub client_id: String,
}

/// `i` is the position of the one colon of `s`, with a non-empty part on
/// each side.
pub open spec fn is_sep_position(s: Seq<char>, i: int) -> bool {
    &&& 0 < i < s.len() - 1
    &&& s[i] == ':'
    &&& forall|j: int| 0 <= j < s.len() && j != i ==> s[j] != ':'
}

/// The string splits into exactly two non-empty parts on a single colon.
pub open spec fn valid_identifier_string(s: Seq<char>) -> bool {
    exists|i: int| is_sep_position(s, i)
}

/// `s` parses into the parts `server` and `client`.
pub open spec fn parses_to(s: Seq<char>, server: Seq<char>, client: Seq<char>) -> bool {
    &&& is_sep_position(s, server.len() as int)
    &&& server == s.subrange(0, server.len() as int)
    &&& client == s.subrange(server.len() as int + 1, s.len() as int)
}

/// The canonical string form of an identity: the two parts joined by a colon.
pub open spec fn spec_format(server: Seq<char>, client: Seq<char>) -> Seq<char> {
    server + seq![':'] + client
}

/// A string has at most one separator position.
pub proof fn lemma_sep_position_unique(s: Seq<char>, i: int, j: int)
    requires
        is_sep_position(s, i),
        is_sep_position(s, j),
    ensures
        i == j,
{
    if i != j {
        assert(s[j] != ':');
    }
}

/// A string parses into at most one pair of parts.
pub proof fn lemma_parses_to_unique(
    s: Seq<char>,
    server1: Seq<char>,
    client1: Seq<char>,
    server2: Seq<char>,
    client2: Seq<char>,
)
    requires
        parses_to(s, server1, client1),
        parses_to(s, server2, client2),
    ensures
        server1 == server2,
        client1 == client2,
{
    lemma_sep_position_unique(s, server1.len() as int, server2.len() as int);
}

/// Round trip: formatting an identity whose parts are non-empty and
/// colon-free, then parsing the result, yields the identity back.
pub proof fn lemma_format_parse_roundtrip(server: Seq<char>, client: Seq<char>)
    requires
        server.len() > 0,
        client.len() > 0,
        forall|i: int| 0 <= i < server.len() ==> server[i] != ':',
        forall|i: int| 0 <= i < client.len() ==> client[i] != ':',
    ensures
        valid_identifier_string(spec_format(server, client)),
        parses_to(spec_format(server, client), server, client),
{
    let s = spec_format(server, client);
    let n = server.len() as int;
    assert(s[n] == ':');
    assert forall|j: int| 0 <= j < s.len() && j != n implies s[j] != ':' by {
        if j < n {
            assert(s[j] == server[j]);
        } else {
            assert(s[j] == client[j - n - 1]);
        }
    }
    assert(is_sep_position(s, n));
    assert(server =~= s.subrange(0, n));
    assert(client =~= s.subrange(n + 1, s.len() as int));
}

/// Round trip the other way: formatting the parts a string parsed into
/// yields the string back.
pub proof fn lemma_parse_format_roundtrip(s: Seq<char>, server: Seq<char>, client: Seq<char>)
    requires
        parses_to(s, server, client),
    ensures
        spec_format(server, client) == s,
{
    let n = server.len() as int;
    assert(s[n] == ':');
    assert(spec_format(server, client) =~= s);
}

impl Identifier {
    /// Creates a new identity from its two parts.
    pub fn new(server_id: String, client_id: String) -> (r: Self)
        ensures
            r.server_id@ == server_id@,
            r.client_id@ == client_id@,
    {
        Identifier { server_id, client_id }
    }

    /// The server (group) part.
    pub fn server_id(&self) -> (r: &str)
        ensures
            r@ == self.server_id@,
    {
        self.server_id.as_str()
    }

    /// The client (member) part.
    pub fn client_id(&self) -> (r: &str)
        ensures
            r@ == self.client_id@,
    {
        self.client_id.as_str()
    }

    /// Parses the canonical string form. Fails with
    /// [`ServiceError::MalformedIdentifier`] unless the input splits into
    /// exactly two non-empty parts on a single colon.
    pub fn try_from_string(s: &str) -> (r: Result<Self, ServiceError>)
        ensures
            match r {
                Ok(id) => parses_to(s@, id.server_id@, id.client_id@),
                Err(e) => e == ServiceError::MalformedIdentifier && !valid_identifier_string(s@),
            },
    {
        let len = s.unicode_len();
        let mut count: usize = 0;
        let mut first: usize = 0;
        let ghost mut second: int = 0;
        let mut i: usize = 0;
        while i < len
            invariant
                len == s@.len(),
                i <= len,
                count <= i,
                count == 0 ==> forall|j: int| 0 <= j < i ==> s@[j] != ':',
                count == 1 ==> first < i && s@[first as int] == ':' && forall|j: int|
                    0 <= j < i && j != first ==> s@[j] != ':',
                count >= 2 ==> first < second < i && s@[first as int] == ':' && s@[second] == ':',
            decreases len - i,
        {
            if s.get_char(i) == ':' {
                if count == 0 {
                    first = i;
                } else if count == 1 {
                    proof {
                        second = i as int;
                    }
                }
                count = count + 1;
            }
            i = i + 1;
        }
        if count != 1 || first == 0 || first == len - 1 {
            proof {
                if count == 0 {
                    assert forall|k: int| !is_sep_position(s@, k) by {
                        if 0 <= k < s@.len() {
                            assert(s@[k] != ':');
                        }
                    }
                } else if count == 1 {
                    assert forall|k: int| !is_sep_position(s@, k) by {
                        if is_sep_position(s@, k) {
                            if k != first {
                                assert(s@[k] != ':');
                            }
                        }
                    }
                } else {
                    assert forall|k: int| !is_sep_position(s@, k) by {
                        if is_sep_position(s@, k) {
                            if k != first {
                                assert(s@[first as int] != ':');
                            } else {
                                assert(s@[second] != ':');
                            }
                        }
                    }
                }
            }
            return Err(ServiceError::MalformedIdentifier);
        }
        let server = s.substring_char(0, first).to_owned();
        let client = s.substring_char(first + 1, len).to_owned();
        proof {
            assert(is_sep_position(s@, first as int));
            assert(server@.len() == first as int);
        }
        Ok(Identifier { server_id: server, client_id: client })
    }

    /// The canonical string form, the two parts joined by a colon; the
    /// inverse of [`Identifier::try_from_string`] on valid identities.
    pub fn to_string(&self) -> (r: String)
        ensures
            r@ == spec_format(self.server_id@, self.client_id@),
    {
        let mut out = self.server_id.clone();
        out.append(":");
        out.append(self.client_id.as_str());
        proof {
            reveal_strlit(":");
            assert(":"@ =~= seq![':']);
            assert(out@ =~= spec_format(self.server_id@, self.client_id@));
        }
        out
    }
}

impl Clone for Identifier {
    /// A clone carries the same two parts.
    fn clone(&self) -> (r: Self)
        ensures
            r == *self,
    {
        Identifier { server_id: self.server_id.clone(), client_id: self.client_id.clone() }
    }
}

/// The request-scoped context of a client: the identity derived from the
/// request's headers. Created once per request; never persisted.
#[derive(Debug)]
pub struct ClientCtx {
    pub identifier: Identifier,
}

impl ClientCtx {
    /// Creates a new context around an identity.
    pub fn new(identifier: Identifier) -> (r: Self)
        ensures
            r.identifier == identifier,
    {
        ClientCtx { identifier }
    }

    /// The identity of the client.
    pub fn identifier(&self) -> (r: &Identifier)
        ensures
            *r == self.identifier,
    {
        &self.identifier
    }
}

impl Clone for ClientCtx {
    /// A clone carries the same identity.
    fn clone(&self) -> (r: Self)
        ensures
            r == *self,
    {
        ClientCtx { identifier: self.identifier.clone() }
    }
}

/// Derives a [`ClientCtx`] from the designated identity header of an inbound
/// request. An absent header fails with [`ServiceError::MissingIdentity`]; a
/// present one that is not a valid identifier string fails with
/// [`ServiceError::InvalidIdentity`].
pub fn extract_client_ctx(header: Option<&String>) -> (r: Result<ClientCtx, ServiceError>)
    ensures
        match r {
            Ok(ctx) => match header {
                Some(h) => parses_to(
                    h@,
                    ctx.identifier.server_id@,
                    ctx.identifier.client_id@,
                ),
                None => false,
            },
            Err(e) => match header {
                Some(h) => e == ServiceError::InvalidIdentity && !valid_identifier_string(h@),
                None => e == ServiceError::MissingIdentity,
            },
        },
{
    match header {
        None => Err(ServiceError::MissingIdentity),
        Some(h) => match Identifier::try_from_string(h.as_str()) {
            Ok(id) => Ok(ClientCtx::new(id)),
            Err(_) => Err(ServiceError::InvalidIdentity),
        },
    }
}

} // verus!
