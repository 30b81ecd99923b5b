//! The set of connected clients of one protocol server, and the broadcast
//! rules over it.
//!
//! The registry is the one piece of shared mutable state in the design. It is
//! mutated at exactly two points: an insert after a successful handshake, and
//! the removal pass after a broadcast. Removal is two-phase — the broadcast
//! pass only marks failed writes, and [`ClientRegistry::prune`] compacts the
//! set afterwards — so the client set never changes while it is being
//! iterated. The caller owns the sockets; here a client is its stable
//! connection identifier plus its negotiated word length.

use vstd::prelude::*;

verus! {

use crate::events::Event;

broadcast use vstd::seq_lib::lemma_seq_contains_after_push;

/// One connected client: stable connection identifier (the underlying
/// descriptor number) and negotiated word length.
#[derive(Clone, Copy, PartialEq, Eq, Structural)]
pub struct ClientInfo {
    pub id: u32,
    pub word_length: u8,
}

/// One planned write of a broadcast pass.
pub struct Delivery {
    pub client_id: u32,
    pub bytes: Vec<u8>,
}

/// The clients of one protocol server.
pub struct ClientRegistry {
    pub clients: Vec<ClientInfo>,
}

impl View for ClientRegistry {
    type V = Seq<ClientInfo>;

    open spec fn view(&self) -> Seq<ClientInfo> {
        self.clients@
    }
}

/// No two records in the sequence share an identifier.
pub open spec fn distinct_ids(s: Seq<ClientInfo>) -> bool {
    forall|i: int, j: int| 0 <= i < j < s.len() ==> s[i].id != s[j].id
}

impl ClientRegistry {
    /// No two clients share an identifier.
    pub open spec fn wf(self) -> bool {
        distinct_ids(self@)
    }

    /// Some client has identifier `id`.
    pub open spec fn spec_has_id(self, id: u32) -> bool {
        exists|i: int| 0 <= i < self@.len() && (#[trigger] self@[i]).id == id
    }

    pub fn new() -> (r: Self)
        ensures
            r@ == Seq::<ClientInfo>::empty(),
            r.wf(),
    {
        let r = ClientRegistry { clients: Vec::new() };
        proof {
            assert(r@ =~= Seq::<ClientInfo>::empty());
        }
        r
    }

    pub fn len(&self) -> (n: usize)
        ensures
            n == self@.len(),
    {
        self.clients.len()
    }

    /// Whether a connection identifier is already registered.
    pub fn has_client(&self, id: u32) -> (r: bool)
        ensures
            r == self.spec_has_id(id),
    {
        let mut i: usize = 0;
        while i < self.clients.len()
            invariant
                i <= self@.len(),
                forall|j: int| 0 <= j < i ==> (#[trigger] self@[j]).id != id,
            decreases self@.len() - i,
        {
            if self.clients[i].id == id {
                return true;
            }
            i = i + 1;
        }
        false
    }

    /// Inserts a client after its handshake completed. The identifier must
    /// be fresh; the caller knows it is, because the identifier of a live
    /// connection is unique among live connections.
    pub fn register(&mut self, id: u32, word_length: u8)
        requires
            !old(self).spec_has_id(id),
        ensures
            final(self)@ == old(self)@.push(ClientInfo { id, word_length }),
            old(self).wf() ==> final(self).wf(),
    {
        self.clients.push(ClientInfo { id, word_length });
        proof {
            if old(self).wf() {
                assert forall|i: int, j: int| 0 <= i < j < self@.len() implies self@[i].id
                    != self@[j].id by {
                    if j < self@.len() - 1 {
                        assert(old(self)@[i].id != old(self)@[j].id);
                    } else {
                        assert(!(exists|k: int|
                            0 <= k < old(self)@.len() && (#[trigger] old(self)@[k]).id == id));
                    }
                }
            }
        }
    }

    /// One broadcast pass's planned writes: for every registered client, in
    /// registry order, this event's bytes in that client's word length. With
    /// distinct identifiers, that is exactly one delivery per client.
    pub fn broadcast_plan(&self, event: &Event) -> (plan: Vec<Delivery>)
        ensures
            plan@.len() == self@.len(),
            forall|i: int|
                0 <= i < plan@.len() ==> (#[trigger] plan@[i]).client_id == self@[i].id,
            forall|i: int|
                0 <= i < plan@.len() ==> (#[trigger] plan@[i]).bytes@ == event.spec_bytes(
                    self@[i].word_length as int,
                ),
            self.wf() ==> forall|i: int, j: int|
                0 <= i < j < plan@.len() ==> plan@[i].client_id != plan@[j].client_id,
    {
        let mut plan: Vec<Delivery> = Vec::new();
        let mut i: usize = 0;
        while i < self.clients.len()
            invariant
                i <= self@.len(),
                plan@.len() == i,
                forall|k: int|
                    0 <= k < i ==> (#[trigger] plan@[k]).client_id == self@[k].id,
                forall|k: int|
                    0 <= k < i ==> (#[trigger] plan@[k]).bytes@ == event.spec_bytes(
                        self@[k].word_length as int,
                    ),
            decreases self@.len() - i,
        {
            let c = self.clients[i];
            let bytes = event.get_data(c.word_length as usize);
            plan.push(Delivery { client_id: c.id, bytes });
            i = i + 1;
        }
        plan
    }

    /// Removes every client whose write failed, and no other: the compact
    /// phase of the two-phase removal. Client records are kept or dropped
    /// solely by whether their identifier is among the failed ones.
    pub fn prune(&mut self, failed: &Vec<u32>)
        ensures
            forall|c: ClientInfo| #[trigger]
                final(self)@.contains(c) <==> (old(self)@.contains(c) && !failed@.contains(c.id)),
            old(self).wf() ==> final(self).wf(),
    {
        let ghost orig = self@;
        let mut kept: Vec<ClientInfo> = Vec::new();
        let mut i: usize = 0;
        while i < self.clients.len()
            invariant
                i <= orig.len(),
                self@ == orig,
                forall|c: ClientInfo| #[trigger]
                    kept@.contains(c) <==> (orig.take(i as int).contains(c) && !failed@.contains(
                        c.id,
                    )),
                distinct_ids(orig) ==> distinct_ids(kept@),
            decreases orig.len() - i,
        {
            let c = self.clients[i];
            let keep = !ids_contain(failed, c.id);
            let ghost kept_before = kept@;
            proof {
                assert(orig.take(i as int + 1) =~= orig.take(i as int).push(orig[i as int]));
            }
            if keep {
                kept.push(c);
                proof {
                    if distinct_ids(orig) {
                        assert forall|a: int, b: int|
                            0 <= a < b < kept@.len() implies kept@[a].id != kept@[b].id by {
                            if b < kept@.len() - 1 {
                                assert(kept_before[a].id != kept_before[b].id);
                            } else {
                                let x = kept_before[a];
                                assert(kept_before.contains(x));
                                assert(orig.take(i as int).contains(x));
                                let j = choose|j: int|
                                    0 <= j < orig.take(i as int).len() && orig.take(i as int)[j]
                                        == x;
                                assert(orig[j] == x && 0 <= j < i);
                                assert(orig[j].id != orig[i as int].id);
                            }
                        }
                    }
                }
            }
            i = i + 1;
        }
        proof {
            assert(orig.take(orig.len() as int) =~= orig);
        }
        self.clients = kept;
    }
}

/// Membership test on the marked-failed identifier list.
pub fn ids_contain(t: &Vec<u32>, k: u32) -> (r: bool)
    ensures
        r == t@.contains(k),
{
    let mut i: usize = 0;
    while i < t.len()
        invariant
            i <= t@.len(),
            forall|j: int| 0 <= j < i ==> t@[j] != k,
        decreases t@.len() - i,
    {
        if t[i] == k {
            proof {
                assert(t@.contains(k)) by {
                    assert(t@[i as int] == k);
                }
            }
            return true;
        }
        i = i + 1;
    }
    false
}

} // verus!
