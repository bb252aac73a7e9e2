//! The broadcast hub: a registry of connected clients, each with a FIFO
//! queue of outbound text frames that its connection drains.
use vstd::prelude::*;
use crate::errors::AmpError;
use crate::text::{concat3, decimal_string};

verus! {

/// Identifier of a connected client, unique for the hub's lifetime.
pub type ClientId = u64;

/// One registered client and the frames queued for it.
#[derive(Debug)]
pub struct Client {
    pub id: ClientId,
    pub outbound: Vec<String>,
}

/// The model of a registered client: its id and its queued frames.
pub type ClientV = (ClientId, Seq<Seq<char>>);

/// Registry of client outbound queues, in order of registration.
#[derive(Debug)]
pub struct Hub {
    pub clients: Vec<Client>,
    pub next_id: ClientId,
}

/// The model of one client.
pub open spec fn client_view(c: Client) -> ClientV {
    (c.id, c.outbound@.map_values(|s: String| s@))
}

/// Whether `id` is registered.
pub open spec fn registered(clients: Seq<ClientV>, id: ClientId) -> bool {
    exists|i: int| 0 <= i < clients.len() && clients[i].0 == id
}

/// No id is registered twice.
pub open spec fn unique_ids(clients: Seq<ClientV>) -> bool {
    forall|i: int, j: int| 0 <= i < clients.len() && 0 <= j < clients.len() && clients[i].0 == clients[j].0 ==> i == j
}

/// The position of a registered id.
pub open spec fn position(clients: Seq<ClientV>, id: ClientId) -> int {
    choose|i: int| 0 <= i < clients.len() && clients[i].0 == id
}

/// The clients after a broadcast of `m`: each queue gains `m` at its end.
pub open spec fn broadcast_spec(clients: Seq<ClientV>, m: Seq<char>) -> Seq<ClientV> {
    clients.map_values(|c: ClientV| (c.0, c.1.push(m)))
}

/// The clients without `id`.
pub open spec fn without_client(clients: Seq<ClientV>, id: ClientId) -> Seq<ClientV> {
    if registered(clients, id) {
        clients.remove(position(clients, id))
    } else {
        clients
    }
}

/// The queue of a registered `id`.
pub open spec fn queue_of(clients: Seq<ClientV>, id: ClientId) -> Seq<Seq<char>> {
    clients[position(clients, id)].1
}

/// With unique ids, the position of an id is where it stands.
pub proof fn lemma_position(clients: Seq<ClientV>, id: ClientId, i: int)
    requires
        unique_ids(clients),
        0 <= i < clients.len(),
        clients[i].0 == id,
    ensures
        registered(clients, id),
        position(clients, id) == i,
{
    let j = position(clients, id);
    assert(0 <= j < clients.len() && clients[j].0 == id);
}

impl View for Hub {
    type V = Seq<ClientV>;

    open spec fn view(&self) -> Seq<ClientV> {
        self.clients@.map_values(|c: Client| client_view(c))
    }
}

impl Hub {
    /// The hub's invariant: ids are unique and below the next id to hand out.
    pub open spec fn wf(&self) -> bool {
        &&& unique_ids(self@)
        &&& forall|i: int| 0 <= i < self@.len() ==> self@[i].0 < self.next_id
        &&& self.next_id >= 1
    }

    /// The id that `next_client_id` hands out next.
    pub open spec fn next_id_spec(&self) -> ClientId {
        self.next_id
    }

    /// An empty hub; ids start at 1.
    pub fn new() -> (r: Hub)
        ensures
            r.wf(),
            r@ == Seq::<ClientV>::empty(),
            r.next_id_spec() == 1,
    {
        let r = Hub { clients: Vec::new(), next_id: 1 };
        assert(r@ =~= Seq::<ClientV>::empty());
        r
    }

    /// Hands out a fresh client id: each call returns a larger one.
    pub fn next_client_id(&mut self) -> (r: ClientId)
        requires
            old(self).wf(),
            old(self).next_id_spec() < u64::MAX,
        ensures
            final(self).wf(),
            r == old(self).next_id_spec(),
            final(self).next_id_spec() == r + 1,
            final(self)@ == old(self)@,
            !registered(old(self)@, r),
    {
        let r = self.next_id;
        self.next_id = self.next_id + 1;
        r
    }

    /// Finds the position of `id`.
    fn find(&self, id: ClientId) -> (r: Option<usize>)
        requires
            self.wf(),
        ensures
            match r {
                Some(i) => registered(self@, id) && i as int == position(self@, id) && i < self@.len(),
                None => !registered(self@, id),
            },
    {
        let mut i: usize = 0;
        while i < self.clients.len()
            invariant
                i <= self.clients@.len(),
                self.wf(),
                forall|k: int| 0 <= k < i ==> self@[k].0 != id,
            decreases self.clients.len() - i,
        {
            if self.clients[i].id == id {
                proof {
                    lemma_position(self@, id, i as int);
                }
                return Some(i);
            }
            i += 1;
        }
        None
    }

    /// Appends `m` to the queue at position `i`.
    fn push_at(&mut self, i: usize, m: &str)
        requires
            i < old(self)@.len(),
        ensures
            final(self)@ == old(self)@.update(i as int, (old(self)@[i as int].0, old(self)@[i as int].1.push(m@))),
            final(self).next_id == old(self).next_id,
    {
        let ghost pc = self.clients@;
        self.clients[i].outbound.push(m.to_owned());
        assert(self.clients@[i as int].outbound@.map_values(|s: String| s@) =~= pc[i as int].outbound@.map_values(|s: String| s@).push(m@));
        assert forall|k: int| 0 <= k < pc.len() && k != i implies self.clients@[k] == pc[k] by {}
        assert(self@ =~= old(self)@.update(i as int, (old(self)@[i as int].0, old(self)@[i as int].1.push(m@))));
    }

    /// Adds a client with an empty queue, replacing any earlier entry of `id`.
    pub fn register(&mut self, id: ClientId)
        requires
            old(self).wf(),
            id < old(self).next_id_spec(),
        ensures
            final(self).wf(),
            final(self)@ == without_client(old(self)@, id).push((id, Seq::<Seq<char>>::empty())),
            final(self).next_id_spec() == old(self).next_id_spec(),
    {
        self.unregister(id);
        let ghost before = self@;
        let ghost pc = self.clients@;
        let q: Vec<String> = Vec::new();
        assert(q@.map_values(|s: String| s@) =~= Seq::<Seq<char>>::empty());
        self.clients.push(Client { id, outbound: q });
        assert(self@ =~= before.push((id, Seq::<Seq<char>>::empty())));
        assert forall|a: int, b: int| 0 <= a < self@.len() && 0 <= b < self@.len() && self@[a].0 == self@[b].0 implies a == b by {
            if a < before.len() && b == before.len() {
                assert(registered(before, id));
            }
            if b < before.len() && a == before.len() {
                assert(registered(before, id));
            }
        }
    }

    /// Removes the client `id`, if registered.
    pub fn unregister(&mut self, id: ClientId)
        requires
            old(self).wf(),
        ensures
            final(self).wf(),
            final(self)@ == without_client(old(self)@, id),
            !registered(final(self)@, id),
            final(self).next_id_spec() == old(self).next_id_spec(),
    {
        let ghost before = self@;
        match self.find(id) {
            Some(i) => {
                let ghost pc = self.clients@;
                let _ = self.clients.remove(i);
                assert(self@ =~= before.remove(i as int));
                assert forall|k: int| 0 <= k < self@.len() implies self@[k].0 != id by {
                    if k < i {
                        assert(self@[k] == before[k]);
                    } else {
                        assert(self@[k] == before[k + 1]);
                    }
                }
                assert forall|a: int, b: int| 0 <= a < self@.len() && 0 <= b < self@.len() && self@[a].0 == self@[b].0 implies a == b by {
                    let a2 = if a < i { a } else { a + 1 };
                    let b2 = if b < i { b } else { b + 1 };
                    assert(self@[a] == before[a2]);
                    assert(self@[b] == before[b2]);
                }
                assert forall|k: int| 0 <= k < self@.len() implies self@[k].0 < self.next_id by {
                    let k2 = if k < i { k } else { k + 1 };
                    assert(self@[k] == before[k2]);
                }
            },
            None => {},
        }
    }

    /// Number of registered clients.
    pub fn client_count(&self) -> (r: usize)
        ensures
            r == self@.len(),
    {
        self.clients.len()
    }

    /// Queues `message` once on every registered client's queue; the sends
    /// cannot fail or block.
    pub fn broadcast(&mut self, message: &str)
        requires
            old(self).wf(),
        ensures
            final(self).wf(),
            final(self)@ == broadcast_spec(old(self)@, message@),
            final(self).next_id_spec() == old(self).next_id_spec(),
    {
        let ghost before = self@;
        let mut i: usize = 0;
        while i < self.clients.len()
            invariant
                i <= self@.len(),
                self@.len() == before.len(),
                self.next_id == old(self).next_id,
                forall|k: int| 0 <= k < i ==> #[trigger] self@[k] == (before[k].0, before[k].1.push(message@)),
                forall|k: int| i <= k < self@.len() ==> #[trigger] self@[k] == before[k],
            decreases self.clients.len() - i,
        {
            self.push_at(i, message);
            i += 1;
        }
        assert(self@ =~= broadcast_spec(before, message@));
        assert forall|a: int, b: int| 0 <= a < self@.len() && 0 <= b < self@.len() && self@[a].0 == self@[b].0 implies a == b by {
            assert(self@[a].0 == before[a].0);
            assert(self@[b].0 == before[b].0);
        }
        assert forall|k: int| 0 <= k < self@.len() implies self@[k].0 < self.next_id by {
            assert(self@[k].0 == before[k].0);
        }
    }

    /// Queues `message` for one client; an unknown id is a `HubError`.
    pub fn send_to_client(&mut self, id: ClientId, message: &str) -> (r: Result<(), AmpError>)
        requires
            old(self).wf(),
        ensures
            final(self).wf(),
            final(self).next_id_spec() == old(self).next_id_spec(),
            registered(old(self)@, id) <==> r is Ok,
            r is Err ==> final(self)@ == old(self)@ && r matches Err(AmpError::HubError(_)),
            r is Ok ==> final(self)@ == old(self)@.update(
                position(old(self)@, id),
                (id, queue_of(old(self)@, id).push(message@)),
            ),
    {
        let ghost before = self@;
        match self.find(id) {
            Some(i) => {
                self.push_at(i, message);
                assert forall|a: int, b: int| 0 <= a < self@.len() && 0 <= b < self@.len() && self@[a].0 == self@[b].0 implies a == b by {
                    assert(self@[a].0 == before[a].0);
                    assert(self@[b].0 == before[b].0);
                }
                assert forall|k: int| 0 <= k < self@.len() implies self@[k].0 < self.next_id by {
                    assert(self@[k].0 == before[k].0);
                }
                Ok(())
            },
            None => {
                let n = decimal_string(id);
                Err(AmpError::HubError(concat3("Client ", n.as_str(), " not found")))
            },
        }
    }

    /// Hands the frames queued for `id` to its connection, in order, and
    /// empties its queue; nothing for an unknown id.
    pub fn take_outbound(&mut self, id: ClientId) -> (r: Vec<String>)
        requires
            old(self).wf(),
        ensures
            final(self).wf(),
            final(self).next_id_spec() == old(self).next_id_spec(),
            registered(old(self)@, id) ==> r@.map_values(|s: String| s@) == queue_of(old(self)@, id)
                && final(self)@ == old(self)@.update(
                position(old(self)@, id),
                (id, Seq::<Seq<char>>::empty()),
            ),
            !registered(old(self)@, id) ==> r@.len() == 0 && final(self)@ == old(self)@,
    {
        let ghost before = self@;
        match self.find(id) {
            Some(i) => {
                let ghost pc = self.clients@;
                let mut out: Vec<String> = Vec::new();
                std::mem::swap(&mut out, &mut self.clients[i].outbound);
                assert(self.clients@[i as int].outbound@.map_values(|s: String| s@) =~= Seq::<Seq<char>>::empty());
                assert forall|k: int| 0 <= k < pc.len() && k != i implies self.clients@[k] == pc[k] by {}
                assert(self@ =~= before.update(i as int, (id, Seq::<Seq<char>>::empty())));
                assert forall|a: int, b: int| 0 <= a < self@.len() && 0 <= b < self@.len() && self@[a].0 == self@[b].0 implies a == b by {
                    assert(self@[a].0 == before[a].0);
                    assert(self@[b].0 == before[b].0);
                }
                assert forall|k: int| 0 <= k < self@.len() implies self@[k].0 < self.next_id by {
                    assert(self@[k].0 == before[k].0);
                }
                out
            },
            None => Vec::new(),
        }
    }
}

/// A broadcast puts the message on each registered client's queue exactly
/// once, at its end, and leaves the set of clients alone.
pub proof fn law_broadcast_enqueues_once(clients: Seq<ClientV>, m: Seq<char>)
    ensures
        broadcast_spec(clients, m).len() == clients.len(),
        forall|k: int| 0 <= k < clients.len() ==> #[trigger] broadcast_spec(clients, m)[k].0 == clients[k].0
            && broadcast_spec(clients, m)[k].1 == clients[k].1 + seq![m],
{
    assert forall|k: int| 0 <= k < clients.len() implies #[trigger] broadcast_spec(clients, m)[k].1 == clients[k].1 + seq![m] by {
        assert(clients[k].1.push(m) =~= clients[k].1 + seq![m]);
    }
}

/// Broadcasting `m1` then `m2` leaves `m1` before `m2` on every queue.
pub proof fn law_broadcast_order(clients: Seq<ClientV>, m1: Seq<char>, m2: Seq<char>)
    ensures
        forall|k: int| 0 <= k < clients.len() ==>
            #[trigger] broadcast_spec(broadcast_spec(clients, m1), m2)[k].1 == clients[k].1 + seq![m1, m2],
{
    assert forall|k: int| 0 <= k < clients.len() implies
        #[trigger] broadcast_spec(broadcast_spec(clients, m1), m2)[k].1 == clients[k].1 + seq![m1, m2] by {
        assert(clients[k].1.push(m1).push(m2) =~= clients[k].1 + seq![m1, m2]);
    }
}

} // verus!
