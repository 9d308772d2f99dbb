//! The peripheral controller handle: a shared hardware abstraction that
//! holds at most one registered callback target at a time.

use vstd::prelude::*;

verus! {

/// A USB peripheral controller handle. It remembers the identity of the
/// client registered as its callback target, if any; registering a new
/// client silently replaces the previous one (last-writer-wins, no error
/// path and no deregistration).
pub struct Controller {
    id: u64,
    client: Option<u64>,
}

impl Controller {
    /// The identity of this controller handle.
    pub closed spec fn id_spec(self) -> u64 {
        self.id
    }

    /// The identity of the currently registered callback target, if any.
    pub closed spec fn registered_client_spec(self) -> Option<u64> {
        self.client
    }

    /// A callback from this controller reaches `target` exactly when
    /// `target` is the currently registered client.
    pub open spec fn delivers_to(self, target: u64) -> bool {
        self.registered_client_spec() == Some(target)
    }

    /// The controller state after a registration: same handle, with
    /// `client` as the one registered callback target.
    pub closed spec fn after_set_client(self, client: u64) -> Controller {
        Controller { id: self.id, client: Some(client) }
    }

    pub fn new(id: u64) -> (c: Controller)
        ensures
            c.id_spec() == id,
            c.registered_client_spec() is None,
    {
        Controller { id, client: None }
    }

    pub fn id(&self) -> (r: u64)
        ensures
            r == self.id_spec(),
    {
        self.id
    }

    pub fn registered_client(&self) -> (r: Option<u64>)
        ensures
            r == self.registered_client_spec(),
    {
        self.client
    }

    /// Registers `client` as the callback target, replacing whatever was
    /// registered before. No return value and no error path: the
    /// registration slot is simply overwritten.
    pub fn set_client(&mut self, client: u64)
        ensures
            *final(self) == old(self).after_set_client(client),
            final(self).id_spec() == old(self).id_spec(),
            final(self).registered_client_spec() == Some(client),
    {
        self.client = Some(client);
    }
}

/// Registration is last-writer-wins: after registering client `a` and
/// then client `b`, exactly `b` is the active callback target, and when
/// the two differ no further callback reaches `a`.
pub proof fn lemma_registration_last_writer_wins(c: Controller, a: u64, b: u64)
    ensures
        c.after_set_client(a).after_set_client(b).registered_client_spec() == Some(b),
        c.after_set_client(a).after_set_client(b).delivers_to(b),
        a != b ==> !c.after_set_client(a).after_set_client(b).delivers_to(a),
{
}

/// A controller handle is determined by its identity and its registered
/// callback target.
pub proof fn lemma_controller_determined(a: Controller, b: Controller)
    requires
        a.id_spec() == b.id_spec(),
        a.registered_client_spec() == b.registered_client_spec(),
    ensures
        a == b,
{
}

} // verus!
