use vstd::prelude::*;

use crate::seqset::lemma_remove_value;
use crate::seqset::remove_value;

verus! {

/// Why the protocol layer reported a client connection gone.
#[derive(Clone, Copy, PartialEq, Eq, Structural, Debug)]
pub enum DisconnectReason {
    ConnectionClosed,
    ProtocolError,
}

/// Per-connection token attached to a client when its stream is
/// registered. It carries no payload beyond identity; its two lifecycle
/// hooks are required to have no side effects on the core state.
#[derive(Clone, Copy, PartialEq, Eq, Structural, Debug)]
pub struct ClientState;

impl ClientState {
    /// Lifecycle hook: the connection has been registered and is ready.
    pub fn initialized(&self, _client_id: u64) {
    }

    /// Lifecycle hook: the connection is gone.
    pub fn disconnected(&self, _client_id: u64, _reason: DisconnectReason) {
    }
}

/// Minimal bookkeeping of connected clients: each accept hands out a
/// fresh identity, never reusing one, and a disconnect retires it.
pub struct ClientRegistry {
    clients: Vec<u64>,
    next_id: u64,
}

impl ClientRegistry {
    /// The identities of the currently connected clients.
    pub closed spec fn ids(&self) -> Set<u64> {
        self.clients@.to_set()
    }

    /// The identity the next accepted client will receive.
    pub closed spec fn next(&self) -> u64 {
        self.next_id
    }

    pub closed spec fn wf(&self) -> bool {
        &&& self.clients@.no_duplicates()
        &&& forall|i: int| 0 <= i < self.clients@.len() ==> self.clients@[i] < self.next_id
    }

    pub fn new() -> (r: ClientRegistry)
        ensures
            r.wf(),
            r.ids() == Set::<u64>::empty(),
            r.next() == 0,
    {
        let r = ClientRegistry { clients: Vec::new(), next_id: 0 };
        proof {
            assert(r.ids() =~= Set::<u64>::empty());
        }
        r
    }

    /// Register a newly accepted connection; the returned identity is
    /// fresh: it was never connected before.
    pub fn connect(&mut self) -> (id: u64)
        requires
            old(self).wf(),
            old(self).next() < u64::MAX,
        ensures
            final(self).wf(),
            id == old(self).next(),
            !old(self).ids().contains(id),
            final(self).ids() == old(self).ids().insert(id),
            final(self).next() == old(self).next() + 1,
    {
        let id = self.next_id;
        proof {
            self.clients@.lemma_push_to_set_commute(id);
            if self.clients@.contains(id) {
                let i = choose|i: int| 0 <= i < self.clients@.len() && self.clients@[i] == id;
            }
            if self.clients@.to_set().contains(id) {
            }
        }
        let ghost s = self.clients@;
        self.clients.push(id);
        self.next_id = id + 1;
        proof {
            assert forall|i: int, j: int|
                0 <= i < self.clients@.len() && 0 <= j < self.clients@.len() && i != j
                implies self.clients@[i] != self.clients@[j] by {
                if i < s.len() && j < s.len() {
                    assert(s[i] == self.clients@[i]);
                    assert(s[j] == self.clients@[j]);
                } else {
                    let m = if i < s.len() {
                        i
                    } else {
                        j
                    };
                    if 0 <= m < s.len() {
                        assert(s[m] == self.clients@[m]);
                    }
                }
            }
        }
        id
    }

    /// Retire a disconnected client; an unknown identity changes nothing.
    pub fn disconnect(&mut self, id: u64)
        requires
            old(self).wf(),
        ensures
            final(self).wf(),
            final(self).ids() == old(self).ids().remove(id),
            final(self).next() == old(self).next(),
    {
        let ghost s = self.clients@;
        let mut out: Vec<u64> = Vec::new();
        let n = self.clients.len();
        let mut i: usize = 0;
        while i < n
            invariant
                self.clients@ == s,
                n == s.len(),
                i <= n,
                out@ == remove_value(s.take(i as int), id),
            decreases n - i,
        {
            proof {
                assert(s.take(i as int + 1).drop_last() =~= s.take(i as int));
                assert(s.take(i as int + 1).last() == s[i as int]);
            }
            if self.clients[i] != id {
                out.push(self.clients[i]);
            }
            i += 1;
        }
        proof {
            assert(s.take(n as int) =~= s);
        }
        self.clients = out;
        proof {
            lemma_remove_value(s, id);
            assert forall|i2: int| 0 <= i2 < self.clients@.len() implies self.clients@[i2]
                < self.next_id by {
                assert(self.clients@.contains(self.clients@[i2]));
                assert(self.clients@.to_set().contains(self.clients@[i2]));
                assert(s.to_set().contains(self.clients@[i2]));
                let j = choose|j: int| 0 <= j < s.len() && s[j] == self.clients@[i2];
            }
        }
    }

    pub fn is_connected(&self, id: u64) -> (r: bool)
        ensures
            r == self.ids().contains(id),
    {
        let n = self.clients.len();
        let mut i: usize = 0;
        while i < n
            invariant
                n == self.clients@.len(),
                i <= n,
                forall|k: int| 0 <= k < i ==> self.clients@[k] != id,
            decreases n - i,
        {
            if self.clients[i] == id {
                proof {
                    assert(self.clients@[i as int] == id);
                    assert(self.clients@.contains(id));
                }
                return true;
            }
            i += 1;
        }
        proof {
            if self.clients@.contains(id) {
                let k = choose|k: int| 0 <= k < self.clients@.len() && self.clients@[k] == id;
            }
        }
        false
    }

    pub fn client_count(&self) -> (r: usize)
        requires
            self.wf(),
        ensures
            r == self.ids().len(),
    {
        proof {
            self.clients@.unique_seq_to_set();
        }
        self.clients.len()
    }
}

} // verus!
