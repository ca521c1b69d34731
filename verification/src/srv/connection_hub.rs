//! The central hub for talking to connected clients.
//!
//! The hub owns both transport sockets — the reliable listening socket and
//! the datagram socket, bound to the same port — and the registry mapping
//! each remote address to its session. The sockets and the tasks that block
//! on them live outside this crate; this module is the registry and dispatch
//! logic those tasks share: what the accept loop inserts, how a send resolves
//! an address, which bytes go on the wire, and what teardown leaves behind.
//! Outside this crate the registry sits behind one mutual-exclusion lock, so
//! every operation here is a single atomic step of that shared state.

use vstd::prelude::*;

use crate::packets::Packet;
use crate::srv::address::Address;
use crate::srv::user::User;

verus! {

broadcast use vstd::set::axiom_set_insert_len;

/// Why an outbound send failed before any bytes went out.
#[derive(Clone, Copy, PartialEq, Eq, Structural, Debug)]
pub enum NetError {
    /// The destination address has no session in the hub's registry.
    NotConnected,
}

/// No two rows of the registry share an address.
pub open spec fn distinct_addrs(s: Seq<User>) -> bool {
    forall|i: int, j: int| 0 <= i < j < s.len() ==> s[i].addr != s[j].addr
}

/// Some row of `s` is registered under address `a`.
pub open spec fn contains_addr(s: Seq<User>, a: Address) -> bool {
    exists|i: int| 0 <= i < s.len() && s[i].addr == a
}

/// The registry rows read as a map from remote address to session, later
/// rows winning; with distinct addresses nothing is ever overridden.
pub open spec fn registry_map(s: Seq<User>) -> Map<Address, User>
    decreases s.len(),
{
    if s.len() == 0 {
        Map::empty()
    } else {
        registry_map(s.drop_last()).insert(s.last().addr, s.last())
    }
}

/// An address is in the map exactly when some row carries it.
proof fn lemma_registry_dom(s: Seq<User>)
    ensures
        forall|a: Address| #[trigger] registry_map(s).dom().contains(a) <==> contains_addr(s, a),
    decreases s.len(),
{
    if s.len() > 0 {
        let d = s.drop_last();
        lemma_registry_dom(d);
        assert forall|a: Address| #[trigger] registry_map(s).dom().contains(a) implies contains_addr(s, a) by {
            if a == s.last().addr {
                assert(s[s.len() - 1].addr == a);
            } else {
                assert(registry_map(d).dom().contains(a));
                assert(contains_addr(d, a));
                let i = choose|i: int| 0 <= i < d.len() && d[i].addr == a;
                assert(d[i] == s[i]);
                assert(s[i].addr == a);
            }
        }
        assert forall|a: Address| contains_addr(s, a) implies registry_map(s).dom().contains(a) by {
            let i = choose|i: int| 0 <= i < s.len() && s[i].addr == a;
            if i < s.len() - 1 {
                assert(d[i].addr == a);
                assert(contains_addr(d, a));
            }
        }
    }
}

/// The registry map is always finite.
proof fn lemma_registry_finite(s: Seq<User>)
    ensures
        registry_map(s).dom().finite(),
    decreases s.len(),
{
    if s.len() > 0 {
        lemma_registry_finite(s.drop_last());
    }
}

/// With distinct addresses the map has exactly one key per row.
proof fn lemma_registry_len(s: Seq<User>)
    requires
        distinct_addrs(s),
    ensures
        registry_map(s).dom().len() == s.len(),
    decreases s.len(),
{
    if s.len() > 0 {
        let d = s.drop_last();
        assert(distinct_addrs(d));
        lemma_registry_len(d);
        lemma_registry_dom(d);
        lemma_registry_finite(d);
        assert(!contains_addr(d, s.last().addr)) by {
            if contains_addr(d, s.last().addr) {
                let i = choose|i: int| 0 <= i < d.len() && d[i].addr == s.last().addr;
                assert(s[i].addr == s[s.len() - 1].addr);
            }
        }
    }
}

/// With distinct addresses, the row at index `i` is the map's value for that
/// row's address.
proof fn lemma_registry_at(s: Seq<User>, i: int)
    requires
        distinct_addrs(s),
        0 <= i < s.len(),
    ensures
        registry_map(s).dom().contains(s[i].addr),
        registry_map(s)[s[i].addr] == s[i],
    decreases s.len(),
{
    if i < s.len() - 1 {
        let d = s.drop_last();
        assert(distinct_addrs(d));
        assert(d[i] == s[i]);
        lemma_registry_at(d, i);
        assert(s[i].addr != s.last().addr);
    }
}

/// Overwriting the row that carries `u.addr` is a map insert.
proof fn lemma_registry_update(s: Seq<User>, i: int, u: User)
    requires
        distinct_addrs(s),
        0 <= i < s.len(),
        u.addr == s[i].addr,
    ensures
        registry_map(s.update(i, u)) == registry_map(s).insert(u.addr, u),
    decreases s.len(),
{
    let t = s.update(i, u);
    if i == s.len() - 1 {
        assert(t.drop_last() =~= s.drop_last());
        assert(t.last() == u);
        assert(registry_map(t) =~= registry_map(s).insert(u.addr, u));
    } else {
        let d = s.drop_last();
        assert(distinct_addrs(d));
        assert(d[i] == s[i]);
        lemma_registry_update(d, i, u);
        assert(t.drop_last() =~= d.update(i, u));
        assert(t.last() == s.last());
        assert(u.addr != s.last().addr);
        assert(registry_map(t) =~= registry_map(s).insert(u.addr, u));
    }
}

/// Appending a row is a map insert.
proof fn lemma_registry_push(s: Seq<User>, u: User)
    ensures
        registry_map(s.push(u)) == registry_map(s).insert(u.addr, u),
{
    assert(s.push(u).drop_last() =~= s);
    assert(s.push(u).last() == u);
}

/// The registry after the hub accepts a connection from `a`: a fresh, open
/// session sits under that address, replacing any session registered there
/// before.
pub open spec fn spec_accept(m: Map<Address, User>, a: Address) -> Map<Address, User> {
    m.insert(a, User::spec_new(a))
}

/// The registry after the hub accepts each address of `addrs` in turn,
/// starting from registry `m`.
pub open spec fn spec_accept_all(m: Map<Address, User>, addrs: Seq<Address>) -> Map<Address, User>
    decreases addrs.len(),
{
    if addrs.len() == 0 {
        m
    } else {
        spec_accept_all(spec_accept(m, addrs[0]), addrs.subrange(1, addrs.len() as int))
    }
}

proof fn lemma_accept_all_general(m: Map<Address, User>, addrs: Seq<Address>)
    requires
        m.dom().finite(),
        forall|i: int, j: int| 0 <= i < j < addrs.len() ==> addrs[i] != addrs[j],
        forall|i: int| 0 <= i < addrs.len() ==> !m.dom().contains(#[trigger] addrs[i]),
    ensures
        spec_accept_all(m, addrs).dom().finite(),
        spec_accept_all(m, addrs).dom().len() == m.dom().len() + addrs.len(),
        forall|i: int|
            0 <= i < addrs.len() ==> spec_accept_all(m, addrs).dom().contains(#[trigger] addrs[i]),
        forall|a: Address|
            #[trigger] m.dom().contains(a) ==> spec_accept_all(m, addrs).dom().contains(a),
    decreases addrs.len(),
{
    if addrs.len() > 0 {
        let m1 = spec_accept(m, addrs[0]);
        let rest = addrs.subrange(1, addrs.len() as int);
        assert(forall|i: int| 0 <= i < rest.len() ==> rest[i] == addrs[i + 1]);
        assert forall|i: int| 0 <= i < rest.len() implies !m1.dom().contains(#[trigger] rest[i]) by {
            assert(rest[i] == addrs[i + 1]);
            assert(addrs[i + 1] != addrs[0]);
        }
        lemma_accept_all_general(m1, rest);
        assert(spec_accept_all(m, addrs) == spec_accept_all(m1, rest));
        assert(m1.dom().len() == m.dom().len() + 1);
        assert forall|a: Address| #[trigger]
            m.dom().contains(a) implies spec_accept_all(m, addrs).dom().contains(a) by {
            assert(m1.dom().contains(a));
        }
        assert forall|i: int|
            0 <= i < addrs.len() implies spec_accept_all(m, addrs).dom().contains(
            #[trigger] addrs[i],
        ) by {
            if i == 0 {
                assert(m1.dom().contains(addrs[0]));
            } else {
                assert(rest[i - 1] == addrs[i]);
            }
        }
    }
}

/// Law: accepting any number of connections from pairwise-distinct remote
/// addresses into an empty hub leaves a registry with exactly one session per
/// address, each keyed by the address it was accepted under.
pub proof fn lemma_accept_all_distinct(addrs: Seq<Address>)
    requires
        forall|i: int, j: int| 0 <= i < j < addrs.len() ==> addrs[i] != addrs[j],
    ensures
        spec_accept_all(Map::<Address, User>::empty(), addrs).dom().len() == addrs.len(),
        forall|i: int|
            0 <= i < addrs.len() ==> spec_accept_all(Map::<Address, User>::empty(), addrs).dom()
                .contains(#[trigger] addrs[i]),
{
    lemma_accept_all_general(Map::<Address, User>::empty(), addrs);
}

/// The hub's shared session registry: every accepted peer's session, keyed
/// by remote address. Insertions happen only on accept; nothing is evicted
/// implicitly, so a dead session stays registered until teardown removes it —
/// "registered" and "alive" are distinct, and callers that care check both.
pub struct ConnectionHub {
    users: Vec<User>,
}

impl View for ConnectionHub {
    type V = Map<Address, User>;

    /// The registry as a map from remote address to session.
    closed spec fn view(&self) -> Map<Address, User> {
        registry_map(self.users@)
    }
}

impl ConnectionHub {
    /// Internal invariant: every registered address is distinct, so the
    /// registry really is a map.
    pub closed spec fn wf(&self) -> bool {
        distinct_addrs(self.users@)
    }

    /// Creates a hub with an empty registry. The caller binds both transport
    /// sockets to one port before anything is accepted; when either bind
    /// fails, no hub — and no half-started hub — exists at all.
    pub fn new() -> (hub: ConnectionHub)
        ensures
            hub.wf(),
            hub@ == Map::<Address, User>::empty(),
    {
        let hub = ConnectionHub { users: Vec::new() };
        proof {
            assert(hub@ =~= Map::<Address, User>::empty());
        }
        hub
    }

    /// The index of the row registered under `addr`, if any.
    fn find(&self, addr: Address) -> (r: Option<usize>)
        ensures
            match r {
                Some(i) => i < self.users@.len() && self.users@[i as int].addr == addr,
                None => !contains_addr(self.users@, addr),
            },
    {
        let mut i: usize = 0;
        while i < self.users.len()
            invariant
                i <= self.users@.len(),
                forall|k: int| 0 <= k < i ==> self.users@[k].addr != addr,
            decreases self.users@.len() - i,
        {
            if self.users[i].addr == addr {
                return Some(i);
            }
            i = i + 1;
        }
        None
    }

    /// Admits the peer at `addr`: a fresh, open session is registered under
    /// its address. Accepting an address that is somehow already registered
    /// replaces the old session, as a reconnecting peer reuses its key.
    pub fn accept(&mut self, addr: Address)
        requires
            old(self).wf(),
        ensures
            final(self).wf(),
            final(self)@ == spec_accept(old(self)@, addr),
    {
        let user = User::new(addr);
        match self.find(addr) {
            Some(i) => {
                proof {
                    lemma_registry_update(self.users@, i as int, user);
                }
                self.users.set(i, user);
                proof {
                    assert forall|p: int, q: int|
                        0 <= p < q < self.users@.len() implies self.users@[p].addr
                        != self.users@[q].addr by {
                        assert(old(self).users@[p].addr != old(self).users@[q].addr);
                    }
                }
            },
            None => {
                proof {
                    lemma_registry_push(self.users@, user);
                    lemma_registry_dom(self.users@);
                }
                self.users.push(user);
                proof {
                    assert forall|p: int, q: int|
                        0 <= p < q < self.users@.len() implies self.users@[p].addr
                        != self.users@[q].addr by {
                        if q < self.users@.len() - 1 {
                            assert(old(self).users@[p].addr != old(self).users@[q].addr);
                        } else {
                            assert(!contains_addr(old(self).users@, addr));
                            assert(old(self).users@[p].addr != addr);
                        }
                    }
                }
            },
        }
    }

    /// Whether the peer at `addr` has a session in the registry — known to
    /// this hub, whether or not the session is still alive.
    pub fn is_connected(&self, addr: Address) -> (r: bool)
        ensures
            r == self@.dom().contains(addr),
    {
        proof {
            lemma_registry_dom(self.users@);
        }
        self.find(addr).is_some()
    }

    /// The number of registered sessions.
    pub fn session_count(&self) -> (r: usize)
        requires
            self.wf(),
        ensures
            r == self@.dom().len(),
    {
        proof {
            lemma_registry_len(self.users@);
        }
        self.users.len()
    }

    /// Reads the liveness flag of the session registered under `addr`, or
    /// `None` when no session is.
    pub fn is_session_open(&self, addr: Address) -> (r: Option<bool>)
        requires
            self.wf(),
        ensures
            match r {
                Some(b) => self@.dom().contains(addr) && b == self@[addr].alive,
                None => !self@.dom().contains(addr),
            },
    {
        proof {
            lemma_registry_dom(self.users@);
        }
        match self.find(addr) {
            Some(i) => {
                proof {
                    lemma_registry_at(self.users@, i as int);
                }
                Some(self.users[i].alive)
            },
            None => None,
        }
    }

    /// Resolves `addr` to its session and frames `packet` for the reliable
    /// transport: the id byte, then the payload. The caller writes the
    /// returned bytes to that session's connection and surfaces any transport
    /// error as it is, with no retry. An address the hub does not know is a
    /// typed error, and nothing is sent.
    pub fn send_tcp(&self, addr: Address, packet: &Packet) -> (r: Result<Vec<u8>, NetError>)
        ensures
            match r {
                Ok(bytes) => self@.dom().contains(addr) && bytes@ == packet.spec_frame(),
                Err(e) => !self@.dom().contains(addr) && e == NetError::NotConnected,
            },
    {
        proof {
            lemma_registry_dom(self.users@);
        }
        match self.find(addr) {
            Some(_) => Ok(packet.encode_frame()),
            None => Err(NetError::NotConnected),
        }
    }

    /// Frames `packet` as one whole datagram — the id byte, then the payload
    /// — for the caller to send to `addr` over the shared datagram socket.
    /// The transport is connectionless, so "connected" here means known to
    /// this hub: an address with no registry entry is a typed error, and
    /// nothing is sent and nothing blocks.
    pub fn send_udp(&self, addr: Address, packet: &Packet) -> (r: Result<Vec<u8>, NetError>)
        ensures
            match r {
                Ok(bytes) => self@.dom().contains(addr) && bytes@ == packet.spec_frame(),
                Err(e) => !self@.dom().contains(addr) && e == NetError::NotConnected,
            },
    {
        proof {
            lemma_registry_dom(self.users@);
        }
        match self.find(addr) {
            Some(_) => Ok(packet.encode_frame()),
            None => Err(NetError::NotConnected),
        }
    }

    /// First half of teardown: closes every registered session, leaving each
    /// in the registry with its liveness flag false. The owner then shuts
    /// every connection down and waits for each session's read task to exit
    /// before it clears the registry with [`ConnectionHub::teardown`].
    pub fn close_all(&mut self)
        requires
            old(self).wf(),
        ensures
            final(self).wf(),
            final(self)@.dom() =~= old(self)@.dom(),
            forall|a: Address|
                #[trigger] old(self)@.dom().contains(a) ==> final(self)@[a] == (User {
                    addr: old(self)@[a].addr,
                    alive: false,
                }),
    {
        let ghost orig = self.users@;
        let mut i: usize = 0;
        while i < self.users.len()
            invariant
                distinct_addrs(orig),
                self.users@.len() == orig.len(),
                i <= orig.len(),
                forall|k: int| 0 <= k < orig.len() ==> self.users@[k].addr == orig[k].addr,
                forall|k: int|
                    0 <= k < i ==> self.users@[k] == (User { addr: orig[k].addr, alive: false }),
                forall|k: int| i <= k < orig.len() ==> self.users@[k] == orig[k],
            decreases orig.len() - i,
        {
            let a = self.users[i].addr;
            self.users.set(i, User { addr: a, alive: false });
            i = i + 1;
        }
        proof {
            assert forall|p: int, q: int|
                0 <= p < q < self.users@.len() implies self.users@[p].addr
                != self.users@[q].addr by {
                assert(orig[p].addr != orig[q].addr);
            }
            lemma_registry_dom(orig);
            lemma_registry_dom(self.users@);
            assert forall|a: Address| #[trigger]
                registry_map(orig).dom().contains(a) implies registry_map(self.users@)
                .dom().contains(a) && registry_map(self.users@)[a] == (User {
                addr: registry_map(orig)[a].addr,
                alive: false,
            }) by {
                let k = choose|k: int| 0 <= k < orig.len() && orig[k].addr == a;
                lemma_registry_at(orig, k);
                lemma_registry_at(self.users@, k);
            }
            assert forall|a: Address| #[trigger]
                registry_map(self.users@).dom().contains(a) implies registry_map(orig)
                .dom().contains(a) by {
                let k = choose|k: int| 0 <= k < self.users@.len() && self.users@[k].addr == a;
                assert(orig[k].addr == a);
            }
            assert(registry_map(self.users@).dom() =~= registry_map(orig).dom());
        }
    }

    /// Second half of teardown: empties the registry. The owner calls this
    /// only after closing every session and waiting for each read task to
    /// exit, so that no task outlives the hub; removal is the registry
    /// owner's act, never the read tasks'.
    pub fn teardown(&mut self)
        requires
            old(self).wf(),
        ensures
            final(self).wf(),
            final(self)@ == Map::<Address, User>::empty(),
    {
        self.users = Vec::new();
        proof {
            assert(self@ =~= Map::<Address, User>::empty());
        }
    }
}

} // verus!
