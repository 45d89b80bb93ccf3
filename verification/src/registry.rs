use vstd::hash_map::StringHashMap;
use vstd::prelude::*;

use crate::error::Error;

verus! {

/// Declares ttrpc's synchronous client type so that an established RPC
/// client can be stored in the registry and handed out; the library never
/// looks inside it.  All calls on it are made by the host application.
#[verifier::external_type_specification]
#[verifier::external_body]
pub struct ExClient(ttrpc::Client);

/// Relies on `ttrpc::Client::clone` (a derived clone of an `Arc` and a
/// channel sender): the clone is a shared handle to the same connection, so
/// it is modeled as the same client value.
pub assume_specification[ <ttrpc::Client as Clone>::clone ](c: &ttrpc::Client) -> (r:
    ttrpc::Client)
    ensures
        r == *c,
;

/// One established connection: the RPC client handle bound to the logical
/// container identifier it was opened for.  Handles are cloned (shared) out
/// of the registry to callers, so a closed or superseded entry stays usable
/// by whoever already holds it.
pub struct Store {
    pub conn: ttrpc::Client,
    pub container_id: String,
}

/// The mathematical model of a [`Store`]: the client value and the
/// identifier text.
pub struct StoreModel {
    pub conn: ttrpc::Client,
    pub id: Seq<char>,
}

impl View for Store {
    type V = StoreModel;

    open spec fn view(&self) -> StoreModel {
        StoreModel { conn: self.conn, id: self.container_id@ }
    }
}

impl Clone for Store {
    fn clone(&self) -> (r: Self)
        ensures
            r == *self,
    {
        Store { conn: self.conn.clone(), container_id: self.container_id.clone() }
    }
}

/// The connection registry: at most one established client per logical
/// identifier.  It is an explicit object owned by the host application; the
/// host serializes concurrent access around it (one lock, held only for the
/// duration of a single registry operation, never across a remote call).
pub struct Registry {
    clients: StringHashMap<Store>,
}

impl View for Registry {
    type V = Map<Seq<char>, Store>;

    closed spec fn view(&self) -> Map<Seq<char>, Store> {
        self.clients@
    }
}

impl Registry {
    /// An empty registry: no identifier has a connection.
    pub fn new() -> (r: Registry)
        ensures
            r@ == Map::<Seq<char>, Store>::empty(),
    {
        Registry { clients: StringHashMap::new() }
    }

    /// Binds an established client to `container_id`, superseding any prior
    /// entry for it; entries for other identifiers are untouched.  The prior
    /// handle is no longer reachable through the registry but lives on in
    /// the hands of any caller that already cloned it out.
    pub fn new_conn(&mut self, container_id: &String, conn: ttrpc::Client)
        ensures
            final(self)@ == old(self)@.insert(
                container_id@,
                (Store { conn, container_id: *container_id }),
            ),
    {
        let entry = Store { conn, container_id: container_id.clone() };
        self.clients.insert(container_id.clone(), entry);
    }

    /// Looks the identifier up: a clone of the stored handle when one is
    /// present, and the distinguished `WithoutInit` error exactly when no
    /// connection has been opened for it.
    pub fn get_conn(&self, container_id: &String) -> (r: Result<Store, Error>)
        ensures
            match r {
                Ok(s) => self@.contains_key(container_id@) && s == self@[container_id@],
                Err(e) => !self@.contains_key(container_id@) && e is WithoutInit,
            },
    {
        match self.clients.get(container_id.as_str()) {
            Some(s) => Ok(s.clone()),
            None => Err(Error::WithoutInit(container_id.clone())),
        }
    }

    /// Removes the entry for the identifier unconditionally; removing an
    /// absent key leaves the registry as it was, so closing is idempotent.
    pub fn del_conn(&mut self, container_id: &String)
        ensures
            final(self)@ == old(self)@.remove(container_id@),
    {
        self.clients.remove(container_id.as_str());
    }
}

/// Opening a connection and then looking the same identifier up yields
/// exactly the handle that was stored: the lookup refers to the same client,
/// and so to the same transport.
pub proof fn lemma_open_then_lookup(m: Map<Seq<char>, Store>, id: Seq<char>, s: Store)
    ensures
        m.insert(id, s).contains_key(id),
        m.insert(id, s)[id] == s,
{
}

/// Closing an identifier and then looking it up finds no connection, so the
/// lookup reports `WithoutInit`; entries for other identifiers survive.
pub proof fn lemma_close_then_lookup(m: Map<Seq<char>, Store>, id: Seq<char>)
    ensures
        !m.remove(id).contains_key(id),
        forall|k: Seq<char>|
            k != id && m.contains_key(k) ==> #[trigger] m.remove(id).contains_key(k),
{
}

/// Closing an identifier that has no open connection is a no-op, not an
/// error: the registry is left exactly as it was.
pub proof fn lemma_close_absent_is_noop(m: Map<Seq<char>, Store>, id: Seq<char>)
    requires
        !m.contains_key(id),
    ensures
        m.remove(id) == m,
{
    assert(m.remove(id) =~= m);
}

/// In a fresh registry no identifier has a connection, so before the first
/// open every lookup — and with it every remote verb, which must look its
/// handle up first — reports `WithoutInit`.
pub proof fn lemma_lookup_before_open(id: Seq<char>)
    ensures
        !Map::<Seq<char>, Store>::empty().contains_key(id),
{
}

} // verus!
