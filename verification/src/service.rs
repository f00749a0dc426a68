//! The registry of live clients: the one authority on which identities are
//! held and how each client is reached.

use std::collections::HashMap;
use vstd::prelude::*;

verus! {

/// Whether `id` can name a client. Zero is kept back as the sign of a failed
/// allocation, and the largest machine integer is never handed out.
pub open spec fn is_identity(id: usize) -> bool {
    1 <= id < usize::MAX
}

/// Whether `id` is the smallest identity that `held` does not contain.
pub open spec fn lowest_free(held: Set<usize>, id: usize) -> bool {
    &&& is_identity(id)
    &&& !held.contains(id)
    &&& forall|j: usize| 1 <= j < id ==> #[trigger] held.contains(j)
}

/// Whether every identity is in `held`.
pub open spec fn exhausted(held: Set<usize>) -> bool {
    forall|j: usize| is_identity(j) ==> #[trigger] held.contains(j)
}

/// The table from client identity to reply capability. `S` is the capability:
/// a handle through which a message is pushed to one connection.
pub struct Service<S> {
    ids: HashMap<usize, S>,
}

impl<S> View for Service<S> {
    type V = Map<usize, S>;

    closed spec fn view(&self) -> Map<usize, S> {
        self.ids@
    }
}

impl<S> Service<S> {
    /// Every key of the table is an identity: zero is never held.
    pub open spec fn wf(&self) -> bool {
        forall|id: usize| #[trigger] self@.contains_key(id) ==> is_identity(id)
    }

    /// An empty registry.
    pub fn new() -> (s: Self)
        ensures
            s.wf(),
            s@ == Map::<usize, S>::empty(),
    {
        Service { ids: HashMap::with_capacity(10000) }
    }

    /// Binds `sender` to the smallest identity that is not held and returns
    /// that identity, or returns 0 and drops `sender` when all are held.
    pub fn get_new_id(&mut self, sender: S) -> (id: usize)
        ensures
            old(self).wf() ==> final(self).wf(),
            id == 0 <==> exhausted(old(self)@.dom()),
            id == 0 ==> final(self)@ == old(self)@,
            id != 0 ==> lowest_free(old(self)@.dom(), id),
            id != 0 ==> final(self)@ == old(self)@.insert(id, sender),
    {
        let mut i: usize = 1;
        while i < usize::MAX
            invariant
                1 <= i <= usize::MAX,
                self.ids@ == old(self).ids@,
                forall|j: usize| 1 <= j < i ==> self.ids@.contains_key(j),
            decreases usize::MAX - i,
        {
            if !self.ids.contains_key(&i) {
                self.ids.insert(i, sender);
                assert(!old(self)@.dom().contains(i));
                return i;
            }
            i = i + 1;
        }
        assert(self@ == old(self)@);
        0
    }

    /// Drops the entry of `i` if there is one; says whether there was.
    pub fn remove_id(&mut self, i: usize) -> (removed: bool)
        ensures
            old(self).wf() ==> final(self).wf(),
            removed == old(self)@.contains_key(i),
            final(self)@ == old(self)@.remove(i),
            !removed ==> final(self)@ == old(self)@,
    {
        if self.ids.contains_key(&i) {
            self.ids.remove(&i);
            assert(self@ == old(self)@.remove(i));
            true
        } else {
            false
        }
    }

    /// Registers a newly opened connection under the smallest free identity.
    /// Fails only when every identity is held.
    pub fn add_client(&mut self, sender: S) -> (r: Result<usize, ()>)
        ensures
            old(self).wf() ==> final(self).wf(),
            r is Err <==> exhausted(old(self)@.dom()),
            r is Err ==> final(self)@ == old(self)@,
            r matches Ok(id) ==> lowest_free(old(self)@.dom(), id),
            r matches Ok(id) ==> final(self)@ == old(self)@.insert(id, sender),
    {
        let id: usize = self.get_new_id(sender);
        if id == 0 {
            Err(())
        } else {
            Ok(id)
        }
    }

    /// Forgets `id`. Where `id` is not held, nothing changes.
    pub fn remove_client(&mut self, id: usize)
        ensures
            old(self).wf() ==> final(self).wf(),
            final(self)@ == old(self)@.remove(id),
            !old(self)@.contains_key(id) ==> final(self)@ == old(self)@,
    {
        self.remove_id(id);
    }

    /// Records how a delivery to `client_id` ended: a failed one proves the
    /// client gone, and its entry leaves the table.
    pub fn delivery_settled(&mut self, client_id: usize, delivered: bool)
        ensures
            old(self).wf() ==> final(self).wf(),
            delivered ==> final(self)@ == old(self)@,
            !delivered ==> final(self)@ == old(self)@.remove(client_id),
    {
        if !delivered {
            self.remove_client(client_id);
        }
    }

    /// Replies to a client by identity. `deliver` pushes the message through
    /// the client's capability and says whether the connection took it. An
    /// identity that is not held gets no delivery; after a failed delivery
    /// the identity is no longer held.
    pub fn socket_reply<C, F>(&mut self, res: (usize, C), deliver: F) where
        F: FnOnce(&S, C) -> bool,

        requires
            old(self)@.contains_key(res.0) ==> call_requires(deliver, (&old(self)@[res.0], res.1)),
        ensures
            old(self).wf() ==> final(self).wf(),
            !old(self)@.contains_key(res.0) ==> final(self)@ == old(self)@,
            old(self)@.contains_key(res.0) ==> exists|delivered: bool|
                {
                    &&& call_ensures(deliver, (&old(self)@[res.0], res.1), delivered)
                    &&& delivered ==> final(self)@ == old(self)@
                    &&& !delivered ==> final(self)@ == old(self)@.remove(res.0)
                },
    {
        let (client_id, msg) = res;
        let delivered: bool = match self.ids.get(&client_id) {
            Some(sender) => deliver(sender, msg),
            None => false,
        };
        self.delivery_settled(client_id, delivered);
    }

    /// A clone of the capability bound to `client_id`, if the identity is
    /// held.
    pub fn get_sender(&self, client_id: usize) -> (r: Option<S>) where S: Clone
        ensures
            r is Some <==> self@.contains_key(client_id),
            r matches Some(s) ==> cloned(self@[client_id], s),
    {
        match self.ids.get(&client_id) {
            Some(sender) => Some(sender.clone()),
            None => None,
        }
    }
}

/// At most one identity is the lowest free one: which identity an
/// allocation returns is decided by the identities held.
pub proof fn lowest_free_is_unique(held: Set<usize>, a: usize, b: usize)
    requires
        lowest_free(held, a),
        lowest_free(held, b),
    ensures
        a == b,
{
}

/// Below a free identity there is a lowest free one.
proof fn lowest_free_below(held: Set<usize>, free: usize)
    requires
        is_identity(free),
        !held.contains(free),
    ensures
        exists|id: usize| lowest_free(held, id),
    decreases free,
{
    if forall|j: usize| 1 <= j < free ==> #[trigger] held.contains(j) {
        assert(lowest_free(held, free));
    } else {
        let below: usize = choose|j: usize| 1 <= j < free && !#[trigger] held.contains(j);
        lowest_free_below(held, below);
    }
}

/// While space remains an allocation has an identity to return, and it is not
/// zero: allocation fails only when every identity is held.
pub proof fn free_identity_is_found(held: Set<usize>)
    requires
        !exhausted(held),
    ensures
        exists|id: usize| lowest_free(held, id) && id != 0,
{
    let free: usize = choose|j: usize| is_identity(j) && !#[trigger] held.contains(j);
    lowest_free_below(held, free);
}

/// Allocation is injective. The identity that an allocation returns is held
/// by nobody at that time, and while it is held no later allocation returns
/// it: two identities held at once are never equal.
pub proof fn allocation_is_injective<S>(
    table: Map<usize, S>,
    first: usize,
    sender: S,
    second: usize,
)
    requires
        lowest_free(table.dom(), first),
        lowest_free(table.insert(first, sender).dom(), second),
    ensures
        !table.contains_key(first),
        first != second,
        forall|held: usize| table.contains_key(held) ==> held != first && held != second,
{
}

/// An identity that was removed is free again. The next allocation returns
/// no identity above it, and returns that very identity where every smaller
/// one is held.
pub proof fn removed_identity_is_reused<S>(table: Map<usize, S>, removed: usize, next: usize)
    requires
        is_identity(removed),
        lowest_free(table.remove(removed).dom(), next),
    ensures
        next <= removed,
        (forall|j: usize| 1 <= j < removed ==> table.contains_key(j)) ==> next == removed,
{
    if next > removed {
        assert(table.remove(removed).dom().contains(removed));
    }
}

/// Removal is idempotent. To remove an identity that is not held changes
/// nothing, to remove one twice is to remove it once, and either way every
/// other entry stays as it was.
pub proof fn removal_is_idempotent<S>(table: Map<usize, S>, id: usize)
    ensures
        !table.contains_key(id) ==> table.remove(id) == table,
        table.remove(id).remove(id) == table.remove(id),
        forall|other: usize|
            other != id ==> (table.remove(id).contains_key(other) <==> table.contains_key(other)),
        forall|other: usize|
            other != id && table.contains_key(other) ==> table.remove(id)[other] == table[other],
{
}

} // verus!
