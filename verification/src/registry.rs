//! The shared registry of currently live websocket sessions.
//!
//! The registry is plain data with a verified mutation surface — insert,
//! remove, snapshot — and is meant to be held behind one mutual-exclusion
//! handle owned by the process; every operation below is then atomic with
//! respect to the other sessions. Removal is keyed by both the identity and
//! the establishment time, so concurrent sessions of the same identity stay
//! distinguishable.

use vstd::prelude::*;

use crate::configs::clone_string_vec;
use crate::identifier::Identifier;

verus! {

/// One live session: the already-authorized identity, the subscriptions it
/// was admitted with, and when it was established.
#[derive(Debug)]
pub struct ActiveConnection {
    pub identifier: Identifier,
    pub subscriptions: Vec<String>,
    pub established_at: u64,
}

impl ActiveConnection {
    /// Creates the record for a newly admitted session.
    pub fn new(identifier: Identifier, subscriptions: Vec<String>, established_at: u64) -> (r:
        Self)
        ensures
            r.identifier == identifier,
            r.subscriptions@ == subscriptions@,
            r.established_at == established_at,
    {
        ActiveConnection { identifier, subscriptions, established_at }
    }
}

impl Clone for ActiveConnection {
    /// A clone carries the same identity, subscriptions and establishment
    /// time.
    fn clone(&self) -> (r: Self)
        ensures
            same_connection(r, *self),
    {
        ActiveConnection {
            identifier: self.identifier.clone(),
            subscriptions: clone_string_vec(&self.subscriptions),
            established_at: self.established_at,
        }
    }
}

/// The two records describe the same session: same identity parts, same
/// subscriptions, same establishment time.
pub open spec fn same_connection(a: ActiveConnection, b: ActiveConnection) -> bool {
    &&& a.identifier.server_id@ == b.identifier.server_id@
    &&& a.identifier.client_id@ == b.identifier.client_id@
    &&& a.subscriptions@ == b.subscriptions@
    &&& a.established_at == b.established_at
}

/// The record is the one keyed by the given identity parts and
/// establishment time.
pub open spec fn conn_matches_key(
    c: ActiveConnection,
    server: Seq<char>,
    client: Seq<char>,
    established_at: u64,
) -> bool {
    &&& c.identifier.server_id@ == server
    &&& c.identifier.client_id@ == client
    &&& c.established_at == established_at
}

/// The sequence with every record matching the key removed; the order of the
/// rest is kept.
pub open spec fn spec_remove_key(
    s: Seq<ActiveConnection>,
    server: Seq<char>,
    client: Seq<char>,
    established_at: u64,
) -> Seq<ActiveConnection>
    decreases s.len(),
{
    if s.len() == 0 {
        Seq::empty()
    } else {
        spec_remove_key(s.drop_last(), server, client, established_at) + if conn_matches_key(
            s.last(),
            server,
            client,
            established_at,
        ) {
            Seq::empty()
        } else {
            seq![s.last()]
        }
    }
}

/// The set of currently live sessions. All mutation goes through
/// [`ActiveConnectionRegistry::insert`] and
/// [`ActiveConnectionRegistry::remove`]; each call mutates the sequence in
/// one step, so a holder of exclusive access loses no update.
#[derive(Debug)]
pub struct ActiveConnectionRegistry {
    pub connections: Vec<ActiveConnection>,
}

impl ActiveConnectionRegistry {
    /// An empty registry.
    pub fn new() -> (r: Self)
        ensures
            r.connections@.len() == 0,
    {
        ActiveConnectionRegistry { connections: Vec::new() }
    }

    /// How many sessions are live.
    pub fn len(&self) -> (r: usize)
        ensures
            r == self.connections@.len(),
    {
        self.connections.len()
    }

    /// Records a newly admitted session: the new entry is appended and every
    /// existing entry is kept in place.
    pub fn insert(&mut self, conn: ActiveConnection)
        ensures
            final(self).connections@ == old(self).connections@.push(conn),
    {
        self.connections.push(conn);
    }

    /// Removes every record keyed by this identity and establishment time;
    /// the order of the remaining records is kept.
    pub fn remove(&mut self, identifier: &Identifier, established_at: u64)
        ensures
            final(self).connections@ == spec_remove_key(
                old(self).connections@,
                identifier.server_id@,
                identifier.client_id@,
                established_at,
            ),
    {
        let ghost orig = self.connections@;
        let ghost n = orig.len() as int;
        let mut source: Vec<ActiveConnection> = Vec::new();
        core::mem::swap(&mut self.connections, &mut source);
        let mut rev: Vec<ActiveConnection> = Vec::new();
        loop
            invariant
                n == orig.len(),
                source@ == orig.subrange(0, n - rev@.len()),
                rev@.len() <= n,
                forall|j: int| 0 <= j < rev@.len() ==> rev@[j] == orig[n - 1 - j],
                self.connections@.len() == 0,
            ensures
                rev@.len() == n,
                forall|j: int| 0 <= j < rev@.len() ==> rev@[j] == orig[n - 1 - j],
                self.connections@.len() == 0,
            decreases source@.len(),
        {
            let popped = source.pop();
            match popped {
                Some(c) => {
                    proof {
                        assert(c == orig[n - rev@.len() - 1]);
                    }
                    rev.push(c);
                },
                None => {
                    break;
                },
            }
        }
        proof {
            assert(rev@.len() == n);
        }
        loop
            invariant
                n == orig.len(),
                rev@.len() <= n,
                forall|j: int| 0 <= j < rev@.len() ==> rev@[j] == orig[n - 1 - j],
                self.connections@ == spec_remove_key(
                    orig.subrange(0, n - rev@.len()),
                    identifier.server_id@,
                    identifier.client_id@,
                    established_at,
                ),
            ensures
                rev@.len() == 0,
                self.connections@ == spec_remove_key(
                    orig.subrange(0, n),
                    identifier.server_id@,
                    identifier.client_id@,
                    established_at,
                ),
            decreases rev@.len(),
        {
            let ghost i: int = n - rev@.len();
            let popped = rev.pop();
            match popped {
                Some(c) => {
                    proof {
                        assert(c == orig[i]);
                        assert(orig.subrange(0, i + 1).drop_last() =~= orig.subrange(0, i));
                        assert(orig.subrange(0, i + 1).last() == orig[i]);
                    }
                    let matches_key = same_key(&c, identifier, established_at);
                    if !matches_key {
                        self.connections.push(c);
                        proof {
                            assert(self.connections@ =~= spec_remove_key(
                                orig.subrange(0, i + 1),
                                identifier.server_id@,
                                identifier.client_id@,
                                established_at,
                            ));
                        }
                    } else {
                        proof {
                            assert(self.connections@ =~= spec_remove_key(
                                orig.subrange(0, i + 1),
                                identifier.server_id@,
                                identifier.client_id@,
                                established_at,
                            ));
                        }
                    }
                },
                None => {
                    break;
                },
            }
        }
        proof {
            assert(orig.subrange(0, n) =~= orig);
        }
    }

    /// A point-in-time copy of the live sessions, for diagnostics; the copy
    /// lists the same sessions in the same order.
    pub fn snapshot(&self) -> (r: Vec<ActiveConnection>)
        ensures
            r@.len() == self.connections@.len(),
            forall|i: int| 0 <= i < r@.len() ==> same_connection(r@[i], self.connections@[i]),
    {
        let mut out: Vec<ActiveConnection> = Vec::new();
        let mut i: usize = 0;
        while i < self.connections.len()
            invariant
                i <= self.connections@.len(),
                out@.len() == i,
                forall|j: int| 0 <= j < i ==> same_connection(out@[j], self.connections@[j]),
            decreases self.connections@.len() - i,
        {
            out.push(self.connections[i].clone());
            i = i + 1;
        }
        out
    }
}

/// Whether a record is keyed by this identity and establishment time.
pub fn same_key(c: &ActiveConnection, identifier: &Identifier, established_at: u64) -> (r: bool)
    ensures
        r == conn_matches_key(
            *c,
            identifier.server_id@,
            identifier.client_id@,
            established_at,
        ),
{
    c.identifier.server_id.eq(&identifier.server_id) && c.identifier.client_id.eq(
        &identifier.client_id,
    ) && c.established_at == established_at
}

/// Removal is complete: no record matching the key is left behind.
pub proof fn lemma_remove_key_complete(
    s: Seq<ActiveConnection>,
    server: Seq<char>,
    client: Seq<char>,
    established_at: u64,
)
    ensures
        forall|i: int|
            0 <= i < spec_remove_key(s, server, client, established_at).len()
                ==> !conn_matches_key(
                #[trigger] spec_remove_key(s, server, client, established_at)[i],
                server,
                client,
                established_at,
            ),
    decreases s.len(),
{
    if s.len() > 0 {
        lemma_remove_key_complete(s.drop_last(), server, client, established_at);
        let removed = spec_remove_key(s, server, client, established_at);
        let removed_front = spec_remove_key(s.drop_last(), server, client, established_at);
        assert forall|i: int| 0 <= i < removed.len() implies !conn_matches_key(
            removed[i],
            server,
            client,
            established_at,
        ) by {
            if i < removed_front.len() {
                assert(removed[i] == removed_front[i]);
            } else {
                assert(removed[i] == s.last());
            }
        }
    }
}

/// Removal touches nothing else: a registry without a matching record is
/// left exactly as it was.
pub proof fn lemma_remove_key_keeps_others(
    s: Seq<ActiveConnection>,
    server: Seq<char>,
    client: Seq<char>,
    established_at: u64,
)
    requires
        forall|i: int| 0 <= i < s.len() ==> !conn_matches_key(
            #[trigger] s[i],
            server,
            client,
            established_at,
        ),
    ensures
        spec_remove_key(s, server, client, established_at) == s,
    decreases s.len(),
{
    if s.len() > 0 {
        lemma_remove_key_keeps_others(s.drop_last(), server, client, established_at);
        assert(spec_remove_key(s, server, client, established_at) =~= s);
    } else {
        assert(spec_remove_key(s, server, client, established_at) =~= s);
    }
}

/// The registry contents after a run of inserts, one per element of `conns`
/// in order.
pub open spec fn after_inserts(
    init: Seq<ActiveConnection>,
    conns: Seq<ActiveConnection>,
) -> Seq<ActiveConnection>
    decreases conns.len(),
{
    if conns.len() == 0 {
        init
    } else {
        after_inserts(init.push(conns.first()), conns.drop_first())
    }
}

/// Inserts lose nothing and duplicate nothing: a run of inserts, in whatever
/// order the sessions performed them, appends exactly its connections to the
/// registry. In particular a snapshot taken after the run has one entry per
/// insert beyond what was there before.
pub proof fn lemma_inserts_accumulate(init: Seq<ActiveConnection>, conns: Seq<ActiveConnection>)
    ensures
        after_inserts(init, conns) == init + conns,
        after_inserts(init, conns).len() == init.len() + conns.len(),
    decreases conns.len(),
{
    if conns.len() == 0 {
        assert(after_inserts(init, conns) =~= init + conns);
    } else {
        lemma_inserts_accumulate(init.push(conns.first()), conns.drop_first());
        assert(init.push(conns.first()) + conns.drop_first() =~= init + conns);
    }
}

} // verus!
