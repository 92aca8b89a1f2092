//! The broadcast service: gossip-based dissemination of an unordered,
//! monotonically growing set of application values.
//!
//! Every value submitted to any node must reach every other node despite
//! dropped or delayed messages, using only periodic local retransmission.
//! The service keeps the set of values it has seen and, per neighbor, the
//! subset believed already known to that neighbor; each gossip tick sends
//! each neighbor exactly the difference. The hosting process drives the
//! tick from a timer and runs handler invocations concurrently; the
//! decisions all live here.

use vstd::prelude::*;

use crate::error::{Error, ErrorCode};
use crate::message::{DataOrInit, Message};
use crate::node::{Node, NodeState};
use crate::stores::{
    known_entries, neighbor_names, no_known_entries, seen_values, string_views, KnownStore,
    NeighborSet, SeenStore,
};

verus! {

/// The message body of the broadcast protocol.
#[derive(Debug, Clone, PartialEq)]
pub enum BroadcastMessage {
    /// An error report; decodable, never generated by the service itself.
    Error { code: ErrorCode, text: String },
    /// The topology supplied by the harness: each node identifier with its
    /// set of neighbor identifiers.
    Topology { topology: Vec<(String, Vec<String>)> },
    /// Acknowledgement of a topology message.
    TopologyOk,
    /// A client's request for the values seen so far.
    Read,
    /// The reply to a read: a point-in-time snapshot of the seen values.
    ReadOk { messages: Vec<u64> },
    /// A client's submission of one value.
    Broadcast { message: u64 },
    /// Acknowledgement of a broadcast.
    BroadcastOk,
    /// An anti-entropy exchange: the values the sender wants this node to
    /// have.
    Gossip { seen: Vec<u64> },
}

/// The broadcast service's own error type.
#[derive(Debug, Clone, PartialEq)]
pub enum BroadcastError {
    /// A free-form condition, fatal only to the handler invocation that
    /// raised it.
    Whatever { message: String },
}

/// The mutable state of the broadcast service: the current neighbor set,
/// the values seen, and the per-neighbor record of values believed known.
pub struct BroadcastServiceInner {
    /// This node's neighbors, replaced wholesale on each topology message.
    pub neighbors: NeighborSet,
    /// The application values this node has observed.
    pub received: SeenStore,
    /// For each peer, the values believed already known to it.
    pub known: KnownStore,
}

/// The broadcast service.
pub struct BroadcastService {
    /// The service's shared state.
    pub inner: BroadcastServiceInner,
}

/// The values to include in a gossip payload to one neighbor: those seen
/// locally but not yet believed known to that neighbor.
pub open spec fn gossip_delta(seen: Set<u64>, known: Set<u64>) -> Set<u64> {
    seen.difference(known)
}

/// Gossip delta correctness: once a value is marked known to a neighbor,
/// no gossip delta for that neighbor contains it, even though the value
/// stays in the seen set.
pub proof fn lemma_gossip_delta_omits_known(seen: Set<u64>, known: Set<u64>, v: u64)
    requires
        known.contains(v),
    ensures
        !gossip_delta(seen, known).contains(v),
{
}

/// Seen-set idempotence: inserting the same value twice leaves the seen
/// set equal, as a set, to inserting it once, so a read after either
/// sequence returns the same values.
pub proof fn lemma_seen_insert_idempotent(seen: Set<u64>, v: u64)
    ensures
        seen.insert(v).insert(v) == seen.insert(v),
{
    assert(seen.insert(v).insert(v) =~= seen.insert(v));
}

/// The neighbor list `topology` assigns to the node named `id`: the first
/// entry whose key is `id`, if any.
pub open spec fn topology_lookup(topology: Seq<(String, Vec<String>)>, id: Seq<char>) -> Option<
    Vec<String>,
>
    decreases topology.len(),
{
    if topology.len() == 0 {
        None
    } else if topology[0].0@ == id {
        Some(topology[0].1)
    } else {
        topology_lookup(topology.drop_first(), id)
    }
}

/// [`topology_lookup`] finds the first matching entry.
proof fn lemma_topology_lookup_at(topology: Seq<(String, Vec<String>)>, id: Seq<char>, k: int)
    requires
        0 <= k < topology.len(),
        topology[k].0@ == id,
        forall|j: int| 0 <= j < k ==> (#[trigger] topology[j]).0@ != id,
    ensures
        topology_lookup(topology, id) == Some(topology[k].1),
    decreases topology.len(),
{
    if k > 0 {
        lemma_topology_lookup_at(topology.drop_first(), id, k - 1);
    }
}

/// [`topology_lookup`] finds nothing exactly when no entry matches.
proof fn lemma_topology_lookup_none(topology: Seq<(String, Vec<String>)>, id: Seq<char>)
    requires
        forall|j: int| 0 <= j < topology.len() ==> (#[trigger] topology[j]).0@ != id,
    ensures
        topology_lookup(topology, id) is None,
    decreases topology.len(),
{
    if topology.len() > 0 {
        lemma_topology_lookup_none(topology.drop_first(), id);
    }
}

/// Appending one element to a sequence adds exactly that element to the
/// set of its members.
proof fn lemma_to_set_push(s: Seq<u64>, x: u64)
    ensures
        s.push(x).to_set() == s.to_set().insert(x),
{
    assert forall|e: u64| s.push(x).to_set().contains(e) implies s.to_set().insert(x).contains(
        e,
    ) by {
        let j = choose|j: int| 0 <= j < s.push(x).len() && s.push(x)[j] == e;
        if j < s.len() {
            assert(s[j] == e);
        }
    }
    assert forall|e: u64| s.to_set().insert(x).contains(e) implies s.push(x).to_set().contains(
        e,
    ) by {
        if e == x {
            assert(s.push(x)[s.len() as int] == e);
        } else {
            let j = choose|j: int| 0 <= j < s.len() && s[j] == e;
            assert(s.push(x)[j] == e);
        }
    }
    assert(s.push(x).to_set() =~= s.to_set().insert(x));
}

/// Whether `haystack` holds `needle`.
fn vec_contains(haystack: &Vec<u64>, needle: u64) -> (r: bool)
    ensures
        r == haystack@.contains(needle),
{
    let mut i: usize = 0;
    while i < haystack.len()
        invariant
            0 <= i <= haystack@.len(),
            forall|j: int| 0 <= j < i ==> haystack@[j] != needle,
        decreases haystack@.len() - i,
    {
        if haystack[i] == needle {
            return true;
        }
        i = i + 1;
    }
    false
}

/// The values of `seen` that are not in `known`, in the order `seen` lists
/// them.
fn delta_values(seen: &Vec<u64>, known: &Vec<u64>) -> (r: Vec<u64>)
    requires
        seen@.no_duplicates(),
    ensures
        r@.to_set() == gossip_delta(seen@.to_set(), known@.to_set()),
        r@.no_duplicates(),
{
    let mut out: Vec<u64> = Vec::new();
    let mut i: usize = 0;
    while i < seen.len()
        invariant
            0 <= i <= seen@.len(),
            seen@.no_duplicates(),
            out@.to_set() == gossip_delta(seen@.subrange(0, i as int).to_set(), known@.to_set()),
            out@.no_duplicates(),
            forall|k: int| 0 <= k < out@.len() ==> seen@.subrange(0, i as int).contains(
                #[trigger] out@[k],
            ),
        decreases seen@.len() - i,
    {
        let ghost pre = seen@.subrange(0, i as int);
        let v = seen[i];
        if !vec_contains(known, v) {
            proof {
                if out@.contains(v) {
                    let k = choose|k: int| 0 <= k < out@.len() && out@[k] == v;
                    let j = choose|j: int| 0 <= j < pre.len() && pre[j] == v;
                    assert(seen@[j] == seen@[i as int]);
                }
                lemma_to_set_push(out@, v);
            }
            out.push(v);
        }
        i = i + 1;
        proof {
            assert(seen@.subrange(0, i as int) =~= pre.push(seen@[i - 1]));
            lemma_to_set_push(pre, seen@[i - 1]);
            assert(out@.to_set() =~= gossip_delta(
                seen@.subrange(0, i as int).to_set(),
                known@.to_set(),
            ));
            assert forall|k: int| 0 <= k < out@.len() implies seen@.subrange(0, i as int).contains(
                #[trigger] out@[k],
            ) by {
                if pre.contains(out@[k]) {
                    let j = choose|j: int| 0 <= j < pre.len() && pre[j] == out@[k];
                    assert(seen@.subrange(0, i as int)[j] == out@[k]);
                } else {
                    assert(seen@.subrange(0, i as int)[i - 1] == out@[k]);
                }
            }
        }
    }
    proof {
        assert(seen@.subrange(0, seen@.len() as int) =~= seen@);
    }
    out
}

/// The neighbor list `topology` assigns to `id`, taken out of the supplied
/// topology by value; exactly [`topology_lookup`].
fn lookup_topology(topology: Vec<(String, Vec<String>)>, id: &String) -> (r: Option<Vec<String>>)
    ensures
        r == topology_lookup(topology@, id@),
{
    let ghost t0 = topology@;
    let mut i: usize = 0;
    while i < topology.len()
        invariant
            0 <= i <= t0.len(),
            topology@ == t0,
            forall|j: int| 0 <= j < i ==> (#[trigger] t0[j]).0@ != id@,
        decreases t0.len() - i,
    {
        let hit = topology[i].0 == *id;
        if hit {
            proof {
                lemma_topology_lookup_at(t0, id@, i as int);
            }
            let mut topology = topology;
            let entry = topology.remove(i);
            return Some(entry.1);
        }
        i = i + 1;
    }
    proof {
        lemma_topology_lookup_none(t0, id@);
    }
    None
}

/// What one envelope of a gossip tick must look like: the `k`-th envelope
/// the tick built, addressed to a current neighbor with a known-set entry,
/// carrying exactly the values seen but not yet known to that neighbor.
pub open spec fn is_gossip_envelope(
    svc: &BroadcastService,
    origin: NodeState,
    env: Message<DataOrInit<BroadcastMessage>>,
    k: int,
) -> bool {
    &&& env.src == origin.id
    &&& env.body.id == Some((origin.next_id + k) as u64)
    &&& env.body.re is None
    &&& svc.neighbors().contains(env.dest@)
    &&& svc.known().contains_key(env.dest@)
    &&& env.body.data matches DataOrInit::Data(BroadcastMessage::Gossip { seen })
        && seen@.to_set() == gossip_delta(svc.seen(), svc.known()[env.dest@])
        && seen@.no_duplicates()
}

/// Gossip delta correctness at the envelope level: an envelope a gossip
/// tick builds never lists a value already known to its destination, even
/// though the value stays in the seen set.
pub proof fn lemma_gossip_envelope_omits_known(
    svc: &BroadcastService,
    origin: NodeState,
    env: Message<DataOrInit<BroadcastMessage>>,
    k: int,
    v: u64,
)
    requires
        is_gossip_envelope(svc, origin, env, k),
        svc.known()[env.dest@].contains(v),
    ensures
        env.body.data matches DataOrInit::Data(BroadcastMessage::Gossip { seen }) && !seen@.contains(
            v,
        ),
{
    lemma_gossip_delta_omits_known(svc.seen(), svc.known()[env.dest@], v);
    match env.body.data {
        DataOrInit::Data(BroadcastMessage::Gossip { seen }) => {
            if seen@.contains(v) {
                assert(seen@.to_set().contains(v));
            }
        },
        _ => {
            assert(false);
        },
    }
}

impl BroadcastService {
    /// The set of application values this node has observed, directly or
    /// via gossip.
    pub open spec fn seen(&self) -> Set<u64> {
        seen_values(&self.inner.received)
    }

    /// For each peer, the subset of the seen values believed already known
    /// to it.
    pub open spec fn known(&self) -> Map<Seq<char>, Set<u64>> {
        known_entries(&self.inner.known)
    }

    /// The identifiers of this node's current neighbors.
    pub open spec fn neighbors(&self) -> Set<Seq<char>> {
        neighbor_names(&self.inner.neighbors)
    }

    /// One gossip tick: for every current neighbor that has a known-set
    /// entry, build one gossip envelope carrying exactly the seen values
    /// not yet known to that neighbor; a neighbor without an entry is
    /// skipped. Message identifiers are assigned in envelope order. A tick
    /// that could exhaust the identifier space sends nothing and leaves
    /// the generator alone.
    pub fn gossip(&self, state: &mut NodeState) -> (r: Vec<Message<DataOrInit<BroadcastMessage>>>)
        ensures
            self.neighbors().finite(),
            final(state).id == old(state).id,
            forall|k: int|
                0 <= k < r@.len() ==> is_gossip_envelope(self, *old(state), #[trigger] r@[k], k),
            forall|k1: int, k2: int|
                0 <= k1 < k2 < r@.len() ==> (#[trigger] r@[k1]).dest@ != (#[trigger] r@[k2]).dest@,
            old(state).next_id + self.neighbors().len() <= u64::MAX ==> {
                &&& final(state).next_id == old(state).next_id + r@.len()
                &&& forall|name: Seq<char>|
                    self.neighbors().contains(name) && self.known().contains_key(name)
                        ==> exists|k: int| 0 <= k < r@.len() && (#[trigger] r@[k]).dest@ == name
            },
            old(state).next_id + self.neighbors().len() > u64::MAX ==> r@.len() == 0
                && *final(state) == *old(state),
    {
        broadcast use vstd::seq_lib::seq_to_set_is_finite;

        let neighbors = self.inner.neighbors.load();
        let ghost names = neighbors@.map_values(|s: String| s@);
        proof {
            names.unique_seq_to_set();
            assert(self.neighbors().len() == neighbors@.len());
        }
        let n = neighbors.len();
        if state.next_id > u64::MAX - (n as u64) {
            return Vec::new();
        }
        let seen_items = self.inner.received.items();
        let mut out: Vec<Message<DataOrInit<BroadcastMessage>>> = Vec::new();
        let mut i: usize = 0;
        while i < n
            invariant
                n == neighbors@.len(),
                names == neighbors@.map_values(|s: String| s@),
                names.no_duplicates(),
                string_views(neighbors@) == self.neighbors(),
                seen_items@.no_duplicates(),
                seen_items@.to_set() == self.seen(),
                0 <= i <= n,
                out@.len() <= i,
                state.id == old(state).id,
                state.next_id == old(state).next_id + out@.len(),
                old(state).next_id + n <= u64::MAX,
                forall|k: int|
                    0 <= k < out@.len() ==> is_gossip_envelope(
                        self,
                        *old(state),
                        #[trigger] out@[k],
                        k,
                    ),
                forall|j: int|
                    0 <= j < i && self.known().contains_key(#[trigger] names[j]) ==> exists|k: int|
                        0 <= k < out@.len() && out@[k].dest@ == names[j],
                forall|k: int|
                    0 <= k < out@.len() ==> exists|j: int|
                        0 <= j < i && (#[trigger] out@[k]).dest@ == names[j],
                forall|k1: int, k2: int|
                    0 <= k1 < k2 < out@.len() ==> (#[trigger] out@[k1]).dest@ != (
                    #[trigger] out@[k2]).dest@,
            decreases n - i,
        {
            let name = &neighbors[i];
            proof {
                assert(names[i as int] == name@);
            }
            let ghost out_pre = out@;
            match self.inner.known.snapshot(name) {
                Some(known_vals) => {
                    let d = delta_values(&seen_items, &known_vals);
                    let env = state.send(name.clone(), BroadcastMessage::Gossip { seen: d });
                    proof {
                        assert(names.to_set().contains(names[i as int]));
                    }
                    out.push(env);
                },
                None => {},
            }
            i = i + 1;
            proof {
                let k = i - 1;
                assert forall|j: int|
                    0 <= j < i && self.known().contains_key(
                        #[trigger] names[j],
                    ) implies exists|kk: int| 0 <= kk < out@.len() && out@[kk].dest@ == names[j] by {
                    if j < k {
                        let kk = choose|kk: int|
                            0 <= kk < out_pre.len() && out_pre[kk].dest@ == names[j];
                        assert(out@[kk].dest@ == names[j]);
                    } else {
                        assert(out@[out@.len() - 1].dest@ == names[k]);
                    }
                }
                assert forall|kk: int|
                    0 <= kk < out@.len() implies exists|j: int|
                    0 <= j < i && (#[trigger] out@[kk]).dest@ == names[j] by {
                    if kk < out_pre.len() {
                        let j = choose|j: int| 0 <= j < k && out_pre[kk].dest@ == names[j];
                        assert(out@[kk].dest@ == names[j]);
                    } else {
                        assert(out@[kk].dest@ == names[k]);
                    }
                }
                assert forall|k1: int, k2: int|
                    0 <= k1 < k2 < out@.len() implies (#[trigger] out@[k1]).dest@ != (
                #[trigger] out@[k2]).dest@ by {
                    if k2 == out@.len() - 1 && out@.len() > out_pre.len() {
                        let j1 = choose|j: int| 0 <= j < k && out_pre[k1].dest@ == names[j];
                        assert(out@[k1].dest@ == names[j1]);
                        assert(out@[k2].dest@ == names[k]);
                        assert(names.no_duplicates());
                        assert(names[j1] != names[k]);
                    } else {
                        assert(out@[k1].dest@ == out_pre[k1].dest@);
                        assert(out@[k2].dest@ == out_pre[k2].dest@);
                    }
                }
            }
        }
        proof {
            assert forall|name: Seq<char>|
                self.neighbors().contains(name) && self.known().contains_key(
                    name,
                ) implies exists|k: int| 0 <= k < out@.len() && (#[trigger] out@[k]).dest@
                == name by {
                let j = choose|j: int| 0 <= j < names.len() && names[j] == name;
                assert(self.known().contains_key(names[j]));
            }
        }
        out
    }
}

impl Node for BroadcastService {
    type Message = BroadcastMessage;

    type Error = BroadcastError;

    /// A message the service replies to needs a fresh identifier, and a
    /// topology message must name this node; everything else is admitted
    /// unconditionally.
    open spec fn handle_requires(&self, msg: Message<BroadcastMessage>, state: NodeState) -> bool {
        &&& match msg.body.data {
            BroadcastMessage::Topology { .. }
            | BroadcastMessage::Broadcast { .. }
            | BroadcastMessage::Read => state.next_id < u64::MAX,
            _ => true,
        }
        &&& msg.body.data matches BroadcastMessage::Topology { topology } ==> exists|k: int|
            0 <= k < topology@.len() && (#[trigger] topology@[k]).0@ == state.id@
    }

    /// A client broadcast adds the value to the seen set and is
    /// acknowledged immediately, without waiting for propagation. A read
    /// is answered with a point-in-time snapshot of the seen set. A
    /// topology message replaces the neighbor set with the entry for this
    /// node and is acknowledged. Inbound gossip merges the carried values
    /// into the seen set and marks them known to the sender, so they are
    /// not gossiped straight back; gossip from a peer without a known-set
    /// entry fails the invocation. Acknowledgements and error payloads are
    /// ignored.
    open spec fn handle_ensures(
        &self,
        pre_state: NodeState,
        msg: Message<BroadcastMessage>,
        post: Self,
        post_state: NodeState,
        r: Result<Vec<Message<DataOrInit<BroadcastMessage>>>, Error<BroadcastError>>,
    ) -> bool {
        &&& post_state.id == pre_state.id
        &&& match msg.body.data {
            BroadcastMessage::Gossip { seen } => {
                if self.known().contains_key(msg.src@) {
                    &&& r matches Ok(out) && out@.len() == 0
                    &&& post.known() == self.known().insert(
                        msg.src@,
                        self.known()[msg.src@].union(seen@.to_set()),
                    )
                    &&& post.seen() == self.seen().union(seen@.to_set())
                    &&& post.neighbors() == self.neighbors()
                    &&& post_state == pre_state
                } else {
                    &&& r matches Err(Error::Node {
                        source: BroadcastError::Whatever { .. },
                    })
                    &&& post.known() == self.known()
                    &&& post.seen() == self.seen()
                    &&& post.neighbors() == self.neighbors()
                    &&& post_state == pre_state
                }
            },
            BroadcastMessage::Topology { topology } => {
                if msg.body.id is Some {
                    &&& r matches Ok(out) && out@.len() == 1 && out@[0] == (Message {
                        src: pre_state.id,
                        dest: msg.src,
                        body: crate::message::MessageBody {
                            id: Some(pre_state.next_id),
                            re: msg.body.id,
                            data: DataOrInit::Data(BroadcastMessage::TopologyOk),
                        },
                    })
                    &&& post.neighbors() == string_views(
                        (topology_lookup(topology@, pre_state.id@)->0)@,
                    )
                    &&& post.seen() == self.seen()
                    &&& post.known() == self.known()
                    &&& post_state.next_id == pre_state.next_id + 1
                } else {
                    &&& r matches Err(Error::Node {
                        source: BroadcastError::Whatever { .. },
                    })
                    &&& post.known() == self.known()
                    &&& post.seen() == self.seen()
                    &&& post.neighbors() == self.neighbors()
                    &&& post_state == pre_state
                }
            },
            BroadcastMessage::Broadcast { message } => {
                &&& r matches Ok(out) && out@.len() == 1 && out@[0] == (Message {
                    src: pre_state.id,
                    dest: msg.src,
                    body: crate::message::MessageBody {
                        id: Some(pre_state.next_id),
                        re: msg.body.id,
                        data: DataOrInit::Data(BroadcastMessage::BroadcastOk),
                    },
                })
                &&& post.seen() == self.seen().insert(message)
                &&& post.known() == self.known()
                &&& post.neighbors() == self.neighbors()
                &&& post_state.next_id == pre_state.next_id + 1
            },
            BroadcastMessage::Read => {
                &&& r matches Ok(out) && out@.len() == 1 && out@[0].src == pre_state.id
                    && out@[0].dest == msg.src && out@[0].body.id == Some(pre_state.next_id)
                    && out@[0].body.re == msg.body.id && (out@[0].body.data matches
                DataOrInit::Data(BroadcastMessage::ReadOk { messages }) && messages@.to_set()
                    == self.seen() && messages@.no_duplicates())
                &&& post.seen() == self.seen()
                &&& post.known() == self.known()
                &&& post.neighbors() == self.neighbors()
                &&& post_state.next_id == pre_state.next_id + 1
            },
            _ => {
                &&& r matches Ok(out) && out@.len() == 0
                &&& post.seen() == self.seen()
                &&& post.known() == self.known()
                &&& post.neighbors() == self.neighbors()
                &&& post_state == pre_state
            },
        }
    }

    /// Initialization succeeds and gives every supplied peer a fresh,
    /// empty known-set entry, leaving everything else alone.
    open spec fn init_ensures(
        &self,
        ids: Seq<String>,
        post: Self,
        r: Result<(), Error<BroadcastError>>,
    ) -> bool {
        &&& r is Ok
        &&& post.seen() == self.seen()
        &&& post.neighbors() == self.neighbors()
        &&& forall|name: Seq<char>| #[trigger]
            post.known().contains_key(name) <==> (self.known().contains_key(name)
                || string_views(ids).contains(name))
        &&& forall|name: Seq<char>|
            string_views(ids).contains(name) ==> post.known()[name] == Set::<u64>::empty()
        &&& forall|name: Seq<char>|
            !string_views(ids).contains(name) && self.known().contains_key(name)
                ==> post.known()[name] == self.known()[name]
    }

    /// Initialize the service with the peer list supplied at handshake
    /// time: every peer gets a fresh, empty known-set entry. The hosting
    /// process then starts the periodic gossip task.
    fn init(&mut self, node_ids: Vec<String>) -> (r: Result<(), Error<BroadcastError>>)
        ensures
            r is Ok,
            final(self).seen() == old(self).seen(),
            final(self).neighbors() == old(self).neighbors(),
            forall|name: Seq<char>| #[trigger]
                final(self).known().contains_key(name) <==> (old(self).known().contains_key(name)
                    || string_views(node_ids@).contains(name)),
            forall|name: Seq<char>|
                string_views(node_ids@).contains(name) ==> final(self).known()[name]
                    == Set::<u64>::empty(),
            forall|name: Seq<char>|
                !string_views(node_ids@).contains(name) && old(self).known().contains_key(name)
                    ==> final(self).known()[name] == old(self).known()[name],
    {
        let ghost ids = node_ids@.map_values(|s: String| s@);
        let mut node_ids = node_ids;
        let mut i: usize = 0;
        while i < node_ids.len()
            invariant
                0 <= i <= node_ids@.len(),
                node_ids@.map_values(|s: String| s@) == ids,
                self.seen() == old(self).seen(),
                self.neighbors() == old(self).neighbors(),
                forall|name: Seq<char>| #[trigger]
                    self.known().contains_key(name) <==> (old(self).known().contains_key(name)
                        || exists|j: int| 0 <= j < i && ids[j] == name),
                forall|name: Seq<char>|
                    (exists|j: int| 0 <= j < i && ids[j] == name) ==> self.known()[name]
                        == Set::<u64>::empty(),
                forall|name: Seq<char>|
                    !(exists|j: int| 0 <= j < i && ids[j] == name) && old(
                        self,
                    ).known().contains_key(name) ==> self.known()[name] == old(self).known()[name],
            decreases node_ids@.len() - i,
        {
            let id = node_ids[i].clone();
            proof {
                assert(id@ == ids[i as int]);
            }
            let ghost prev = *self;
            self.inner.known.insert_empty(id);
            i = i + 1;
            proof {
                let k = i - 1;
                assert forall|name: Seq<char>| #[trigger]
                    self.known().contains_key(name) implies (old(self).known().contains_key(name)
                    || exists|j: int| 0 <= j < i && ids[j] == name) by {
                    if name == ids[k] {
                        assert(0 <= k < i && ids[k] == name);
                    } else {
                        assert(prev.known().contains_key(name));
                    }
                }
                assert forall|name: Seq<char>|
                    (old(self).known().contains_key(name) || exists|j: int|
                        0 <= j < i && ids[j] == name) implies #[trigger] self.known().contains_key(
                    name,
                ) by {
                    if name != ids[k] {
                        if exists|j: int| 0 <= j < i && ids[j] == name {
                            let j = choose|j: int| 0 <= j < i && ids[j] == name;
                            assert(0 <= j < k && ids[j] == name);
                        }
                        assert(prev.known().contains_key(name));
                    }
                }
                assert forall|name: Seq<char>|
                    (exists|j: int| 0 <= j < i && ids[j] == name) implies self.known()[name]
                    == Set::<u64>::empty() by {
                    if name != ids[k] {
                        let j = choose|j: int| 0 <= j < i && ids[j] == name;
                        assert(0 <= j < k && ids[j] == name);
                        assert(prev.known()[name] == Set::<u64>::empty());
                        assert(self.known()[name] == prev.known()[name]);
                    } else {
                        assert(self.known()[name] == Set::<u64>::empty());
                    }
                }
                assert forall|name: Seq<char>|
                    !(exists|j: int| 0 <= j < i && ids[j] == name) && old(
                        self,
                    ).known().contains_key(name) implies self.known()[name] == old(
                    self,
                ).known()[name] by {
                    assert(name != ids[k]);
                    assert(!(exists|j: int| 0 <= j < k && ids[j] == name));
                }
            }
        }
        proof {
            assert forall|name: Seq<char>| string_views(node_ids@).contains(name) implies (
            exists|j: int| 0 <= j < node_ids@.len() && ids[j] == name) by {
                let j = choose|j: int| 0 <= j < ids.len() && ids[j] == name;
                assert(ids[j] == name);
            }
            assert forall|name: Seq<char>|
                (exists|j: int| 0 <= j < node_ids@.len() && ids[j] == name) implies string_views(
                node_ids@,
            ).contains(name) by {
                let j = choose|j: int| 0 <= j < node_ids@.len() && ids[j] == name;
                assert(ids.contains(name)) by {
                    assert(ids[j] == name);
                }
            }
        }
        Ok(())
    }

    fn handle_message(&mut self, msg: Message<BroadcastMessage>, state: &mut NodeState) -> (r:
        Result<Vec<Message<DataOrInit<BroadcastMessage>>>, Error<BroadcastError>>)
        ensures
            final(state).id == old(state).id,
            match msg.body.data {
                BroadcastMessage::Gossip { seen } => {
                    if old(self).known().contains_key(msg.src@) {
                        &&& r matches Ok(out) && out@.len() == 0
                        &&& final(self).known() == old(self).known().insert(
                            msg.src@,
                            old(self).known()[msg.src@].union(seen@.to_set()),
                        )
                        &&& final(self).seen() == old(self).seen().union(seen@.to_set())
                        &&& final(self).neighbors() == old(self).neighbors()
                        &&& *final(state) == *old(state)
                    } else {
                        &&& r matches Err(Error::Node {
                            source: BroadcastError::Whatever { .. },
                        })
                        &&& final(self).known() == old(self).known()
                        &&& final(self).seen() == old(self).seen()
                        &&& final(self).neighbors() == old(self).neighbors()
                        &&& *final(state) == *old(state)
                    }
                },
                BroadcastMessage::Topology { topology } => {
                    if msg.body.id is Some {
                        &&& r matches Ok(out) && out@.len() == 1 && out@[0] == (Message {
                            src: old(state).id,
                            dest: msg.src,
                            body: crate::message::MessageBody {
                                id: Some(old(state).next_id),
                                re: msg.body.id,
                                data: DataOrInit::Data(BroadcastMessage::TopologyOk),
                            },
                        })
                        &&& final(self).neighbors() == string_views(
                            (topology_lookup(topology@, old(state).id@)->0)@,
                        )
                        &&& final(self).seen() == old(self).seen()
                        &&& final(self).known() == old(self).known()
                        &&& final(state).next_id == old(state).next_id + 1
                    } else {
                        &&& r matches Err(Error::Node {
                            source: BroadcastError::Whatever { .. },
                        })
                        &&& final(self).known() == old(self).known()
                        &&& final(self).seen() == old(self).seen()
                        &&& final(self).neighbors() == old(self).neighbors()
                        &&& *final(state) == *old(state)
                    }
                },
                BroadcastMessage::Broadcast { message } => {
                    &&& r matches Ok(out) && out@.len() == 1 && out@[0] == (Message {
                        src: old(state).id,
                        dest: msg.src,
                        body: crate::message::MessageBody {
                            id: Some(old(state).next_id),
                            re: msg.body.id,
                            data: DataOrInit::Data(BroadcastMessage::BroadcastOk),
                        },
                    })
                    &&& final(self).seen() == old(self).seen().insert(message)
                    &&& final(self).known() == old(self).known()
                    &&& final(self).neighbors() == old(self).neighbors()
                    &&& final(state).next_id == old(state).next_id + 1
                },
                BroadcastMessage::Read => {
                    &&& r matches Ok(out) && out@.len() == 1 && out@[0].src == old(state).id
                        && out@[0].dest == msg.src && out@[0].body.id == Some(old(state).next_id)
                        && out@[0].body.re == msg.body.id && (out@[0].body.data matches
                    DataOrInit::Data(BroadcastMessage::ReadOk { messages }) && messages@.to_set()
                        == old(self).seen() && messages@.no_duplicates())
                    &&& final(self).seen() == old(self).seen()
                    &&& final(self).known() == old(self).known()
                    &&& final(self).neighbors() == old(self).neighbors()
                    &&& final(state).next_id == old(state).next_id + 1
                },
                _ => {
                    &&& r matches Ok(out) && out@.len() == 0
                    &&& final(self).seen() == old(self).seen()
                    &&& final(self).known() == old(self).known()
                    &&& final(self).neighbors() == old(self).neighbors()
                    &&& *final(state) == *old(state)
                },
            },
    {
        match msg.body.data {
            BroadcastMessage::Gossip { seen } => {
                let merged = self.inner.known.extend(&msg.src, &seen);
                if !merged {
                    return Err(Error::Node {
                        source: BroadcastError::Whatever {
                            message: "No known messages for neighbor".to_owned(),
                        },
                    });
                }
                let mut i: usize = 0;
                while i < seen.len()
                    invariant
                        0 <= i <= seen@.len(),
                        self.known() == old(self).known().insert(
                            msg.src@,
                            old(self).known()[msg.src@].union(seen@.to_set()),
                        ),
                        self.seen() == old(self).seen().union(
                            seen@.subrange(0, i as int).to_set(),
                        ),
                        self.neighbors() == old(self).neighbors(),
                    decreases seen@.len() - i,
                {
                    let ghost pre = seen@.subrange(0, i as int);
                    self.inner.received.insert(seen[i]);
                    i = i + 1;
                    proof {
                        assert(seen@.subrange(0, i as int) =~= pre.push(seen@[i - 1]));
                        lemma_to_set_push(pre, seen@[i - 1]);
                        assert(old(self).seen().union(pre.to_set()).insert(seen@[i - 1]) =~= old(
                            self,
                        ).seen().union(seen@.subrange(0, i as int).to_set()));
                    }
                }
                proof {
                    assert(seen@.subrange(0, seen@.len() as int) =~= seen@);
                }
                Ok(Vec::new())
            },
            BroadcastMessage::Topology { topology } => {
                let re = match msg.body.id {
                    Some(re) => re,
                    None => {
                        return Err(Error::Node {
                            source: BroadcastError::Whatever {
                                message: "No ID in message".to_owned(),
                            },
                        });
                    },
                };
                let env = state.reply(msg.src, re, BroadcastMessage::TopologyOk);
                let id = state.id();
                let entry = match lookup_topology(topology, &id) {
                    Some(entry) => entry,
                    None => {
                        proof {
                            let k = choose|k: int|
                                0 <= k < topology@.len() && (#[trigger] topology@[k]).0@ == old(
                                    state,
                                ).id@;
                            lemma_topology_lookup_at_exists(topology@, old(state).id@);
                            assert(false);
                        }
                        Vec::new()
                    },
                };
                self.inner.neighbors.store(entry);
                let mut out = Vec::new();
                out.push(env);
                Ok(out)
            },
            BroadcastMessage::Broadcast { message } => {
                self.inner.received.insert(message);
                let env = state.send_message(
                    msg.src,
                    msg.body.id,
                    DataOrInit::Data(BroadcastMessage::BroadcastOk),
                );
                let mut out = Vec::new();
                out.push(env);
                Ok(out)
            },
            BroadcastMessage::Read => {
                let messages = self.inner.received.items();
                let env = state.send_message(
                    msg.src,
                    msg.body.id,
                    DataOrInit::Data(BroadcastMessage::ReadOk { messages }),
                );
                let mut out = Vec::new();
                out.push(env);
                Ok(out)
            },
            _ => Ok(Vec::new()),
        }
    }
}

/// A topology holding an entry for `id` has a lookup result.
proof fn lemma_topology_lookup_at_exists(topology: Seq<(String, Vec<String>)>, id: Seq<char>)
    requires
        exists|k: int| 0 <= k < topology.len() && (#[trigger] topology[k]).0@ == id,
    ensures
        topology_lookup(topology, id) is Some,
    decreases topology.len(),
{
    if topology.len() > 0 && topology[0].0@ != id {
        let k = choose|k: int| 0 <= k < topology.len() && (#[trigger] topology[k]).0@ == id;
        assert(topology.drop_first()[k - 1].0@ == id);
        lemma_topology_lookup_at_exists(topology.drop_first(), id);
    }
}

impl Default for BroadcastService {
    /// A fresh service: nothing seen, no neighbors, no known-set entries.
    fn default() -> (r: Self)
        ensures
            r.seen() == Set::<u64>::empty(),
            r.known() == no_known_entries(),
            r.neighbors() == Set::<Seq<char>>::empty(),
    {
        BroadcastService {
            inner: BroadcastServiceInner {
                neighbors: NeighborSet::new(),
                received: SeenStore::new(),
                known: KnownStore::new(),
            },
        }
    }
}

} // verus!
