//! The session broker: the table of live chat sessions and the routing of
//! each reply to the session that asked for it.
//!
//! A session is active while its id is in the table: connecting adds it,
//! disconnecting removes it for good. The broker remembers every id it has
//! issued, so that no id is issued twice while the broker exists. The broker is driven by one sequential
//! consumer of connect, disconnect and message events; `H` is the outbound
//! handle through which a session is reached.

use vstd::prelude::*;
use std::collections::{HashMap, HashSet};

verus! {

/// The session table: each live session id with its outbound handle, and
/// every id issued so far.
pub struct SessionBroker<H> {
    sessions: HashMap<u128, H>,
    issued: HashSet<u128>,
}

impl<H> View for SessionBroker<H> {
    type V = Map<u128, H>;

    closed spec fn view(&self) -> Map<u128, H> {
        self.sessions@
    }
}

impl<H> SessionBroker<H> {
    /// Every id that this broker has issued, live or not.
    pub closed spec fn issued_ids(&self) -> Set<u128> {
        self.issued@
    }

    /// Well-formedness: every live id has been issued.
    pub closed spec fn wf(&self) -> bool {
        self.sessions@.dom().subset_of(self.issued@)
    }
}

/// The table after a session `id` joins with `handle`; an id that is already
/// live leaves the table as it was.
pub open spec fn after_connect<H>(table: Map<u128, H>, id: u128, handle: H) -> Map<u128, H> {
    if table.contains_key(id) {
        table
    } else {
        table.insert(id, handle)
    }
}

/// The table after session `id` leaves; leaving twice changes nothing more.
pub open spec fn after_disconnect<H>(table: Map<u128, H>, id: u128) -> Map<u128, H> {
    table.remove(id)
}

/// Where the reply to a message of session `sender` goes: that session's own
/// handle, or nowhere once it has left.
pub open spec fn reply_target<H>(table: Map<u128, H>, sender: u128) -> Option<H> {
    if table.contains_key(sender) {
        Some(table[sender])
    } else {
        None
    }
}

/// Relies on `uuid::Uuid::new_v4` and `Uuid::as_u128`: a random identifier,
/// of which nothing is promised here.
#[verifier::external_body]
fn random_session_id() -> u128 {
    uuid::Uuid::new_v4().as_u128()
}

impl<H> SessionBroker<H> {
    /// A broker with no sessions that has issued no id.
    pub fn new() -> (r: Self)
        ensures
            r.wf(),
            r@ == Map::<u128, H>::empty(),
            r.issued_ids() == Set::<u128>::empty(),
    {
        SessionBroker { sessions: HashMap::new(), issued: HashSet::new() }
    }

    /// Registers session `id` with its outbound handle; refuses, and returns
    /// false, when `id` was issued before, live or not.
    pub fn register(&mut self, id: u128, handle: H) -> (added: bool)
        requires
            old(self).wf(),
        ensures
            final(self).wf(),
            added == !old(self).issued_ids().contains(id),
            added ==> final(self)@ == after_connect(old(self)@, id, handle)
                && !old(self)@.contains_key(id)
                && final(self).issued_ids() == old(self).issued_ids().insert(id),
            !added ==> final(self)@ == old(self)@ && final(self).issued_ids() == old(
                self,
            ).issued_ids(),
    {
        if self.issued.contains(&id) {
            false
        } else {
            self.sessions.insert(id, handle);
            self.issued.insert(id);
            true
        }
    }

    /// Connects a new session under a freshly drawn random id, which it
    /// returns; `None` in the unlikely case that the id drawn was issued
    /// before, which cannot happen before any id was issued.
    pub fn connect(&mut self, handle: H) -> (r: Option<u128>)
        requires
            old(self).wf(),
        ensures
            final(self).wf(),
            match r {
                Some(id) => !old(self).issued_ids().contains(id) && final(self)@ == old(
                    self,
                )@.insert(id, handle) && final(self).issued_ids() == old(
                    self,
                ).issued_ids().insert(id),
                None => final(self)@ == old(self)@ && final(self).issued_ids() == old(
                    self,
                ).issued_ids(),
            },
            r is None ==> exists|k: u128| old(self).issued_ids().contains(k),
    {
        let id = random_session_id();
        if self.register(id, handle) {
            Some(id)
        } else {
            None
        }
    }

    /// Removes session `id`; returns whether it was live. Removing an id that
    /// is not live is a no-op. The id stays issued.
    pub fn disconnect(&mut self, id: u128) -> (removed: bool)
        requires
            old(self).wf(),
        ensures
            final(self).wf(),
            removed == old(self)@.contains_key(id),
            final(self)@ == after_disconnect(old(self)@, id),
            final(self).issued_ids() == old(self).issued_ids(),
    {
        match self.sessions.remove(&id) {
            Some(_) => true,
            None => false,
        }
    }

    /// The handle that the reply to a message of `sender` is delivered to:
    /// the sender's own, or none when it has left.
    pub fn reply_handle(&self, sender: u128) -> (r: Option<&H>)
        ensures
            match reply_target(self@, sender) {
                Some(h) => r matches Some(x) && *x == h,
                None => r is None,
            },
    {
        self.sessions.get(&sender)
    }

    /// Whether session `id` is live.
    pub fn is_active(&self, id: u128) -> (r: bool)
        ensures
            r == self@.contains_key(id),
    {
        self.sessions.contains_key(&id)
    }

    /// The number of live sessions.
    pub fn session_count(&self) -> (r: usize)
        ensures
            r == self@.len(),
    {
        self.sessions.len()
    }
}

/// Session lifecycle: after a new session connects, its id is in the table,
/// once, with its handle, and no other entry changed; after it disconnects,
/// the id is absent; disconnecting again changes nothing.
pub proof fn session_lifecycle<H>(table: Map<u128, H>, id: u128, handle: H)
    requires
        !table.contains_key(id),
    ensures
        after_connect(table, id, handle).contains_key(id),
        after_connect(table, id, handle)[id] == handle,
        after_connect(table, id, handle).dom() == table.dom().insert(id),
        forall|other: u128|
            other != id && table.contains_key(other) ==> #[trigger] after_connect(
                table,
                id,
                handle,
            )[other] == table[other],
        !after_disconnect(after_connect(table, id, handle), id).contains_key(id),
        after_disconnect(after_disconnect(after_connect(table, id, handle), id), id)
            == after_disconnect(after_connect(table, id, handle), id),
        after_disconnect(table, id) == table,
{
    let joined = after_connect(table, id, handle);
    assert(joined.dom() =~= table.dom().insert(id));
    assert(after_disconnect(after_disconnect(joined, id), id) =~= after_disconnect(joined, id));
    assert(after_disconnect(table, id) =~= table);
}

/// Delivery isolation: while sessions `a` and `b` are both live, the reply to
/// a message of `a` goes to `a`'s own handle, whatever `b`'s handle is and
/// whether or not `b` stays; it reaches `b` only if `b` shares `a`'s handle.
pub proof fn replies_stay_with_sender<H>(table: Map<u128, H>, a: u128, b: u128)
    requires
        a != b,
        table.contains_key(a),
        table.contains_key(b),
    ensures
        reply_target(table, a) == Some(table[a]),
        forall|h: H| #[trigger] reply_target(table.insert(b, h), a) == reply_target(table, a),
        reply_target(after_disconnect(table, b), a) == reply_target(table, a),
        table[a] != table[b] ==> reply_target(table, a) != Some(table[b]),
{
}

} // verus!
