//! The node runtime's state: identity, the message-identifier generator,
//! and the send path that turns payloads into outbound envelopes.
//!
//! The runtime's lifecycle is a short state machine. Before the handshake
//! the node is uninitialized: the first inbound message must be the
//! handshake request, and [`process_init`] turns it into a ready runtime
//! state together with the acknowledgement to send back. Once ready, each
//! further inbound envelope is stripped of its handshake wrapper with
//! [`crate::message::Message::into_data`] and handed to the protocol
//! handler; a second handshake request is an internal error there, reported
//! and dropped. The runtime closes when the inbound stream ends. The
//! hosting process drives this machine: it owns the byte streams, spawns a
//! handler task per message, and serializes writes of the envelopes built
//! here.

use vstd::prelude::*;

use crate::error::{Error, InternalError};
use crate::message::{DataOrInit, Message, MessageBody, MessageId};

verus! {

/// State the runtime shares with every handler invocation: the node's
/// identity, assigned exactly once by the handshake, and the identifier
/// generator for outbound messages.
pub struct NodeState {
    /// The node identifier this process was assigned.
    pub id: String,
    /// The identifier the next outbound message will carry. Strictly
    /// increasing over the node's lifetime, never reused.
    pub next_id: u64,
}

/// The identifier returned by the `calls`-th next call of the identifier
/// generator, counting from a generator whose counter stands at `start`.
pub open spec fn identifier_after(start: u64, calls: nat) -> int {
    start + calls
}

/// Identifier monotonicity: of any two sequential calls of the identifier
/// generator, the later one observes the strictly larger identifier, so the
/// identifiers of distinct calls are pairwise distinct and non-decreasing
/// in call order. The generator's counter advances by exactly one per call
/// ([`NodeState::next_message_id`]), so the `i`-th call returns
/// [`identifier_after`]`(start, i)`.
pub proof fn lemma_identifier_monotonic(start: u64, i: nat, j: nat)
    requires
        i < j,
    ensures
        identifier_after(start, i) < identifier_after(start, j),
        identifier_after(start, i) != identifier_after(start, j),
{
}

impl NodeState {
    /// A fresh runtime state for the node the handshake named `id`. No
    /// identifier has been handed out yet.
    pub fn new(id: String) -> (r: Self)
        ensures
            r.id == id,
            r.next_id == 0,
    {
        NodeState { id, next_id: 0 }
    }

    /// The node identifier this process was assigned.
    pub fn id(&self) -> (r: String)
        ensures
            r == self.id,
    {
        self.id.clone()
    }

    /// Hand out the next message identifier and advance the generator.
    fn next_message_id(&mut self) -> (r: MessageId)
        requires
            old(self).next_id < u64::MAX,
        ensures
            r == old(self).next_id,
            final(self).next_id == old(self).next_id + 1,
            final(self).id == old(self).id,
    {
        let id = self.next_id;
        self.next_id = self.next_id + 1;
        id
    }

    /// Build the outbound envelope for `data`: the runtime assigns the next
    /// fresh message identifier, attaches the correlation `re` when the
    /// message is a reply, and stamps this node as the sender. The hosting
    /// process writes the returned envelope to the outbound sink.
    pub fn send_message<Data>(
        &mut self,
        dest: String,
        re: Option<MessageId>,
        data: DataOrInit<Data>,
    ) -> (r: Message<DataOrInit<Data>>)
        requires
            old(self).next_id < u64::MAX,
        ensures
            r.src == old(self).id,
            r.dest == dest,
            r.body.id == Some(old(self).next_id),
            r.body.re == re,
            r.body.data == data,
            final(self).id == old(self).id,
            final(self).next_id == old(self).next_id + 1,
    {
        let id = self.next_message_id();
        Message {
            src: self.id.clone(),
            dest,
            body: MessageBody { id: Some(id), re, data },
        }
    }

    /// Build the handshake acknowledgement, correlated to the handshake
    /// request's identifier `re`.
    pub fn send_init_ok<Data>(&mut self, re: MessageId, dest: String) -> (r: Message<
        DataOrInit<Data>,
    >)
        requires
            old(self).next_id < u64::MAX,
        ensures
            r.src == old(self).id,
            r.dest == dest,
            r.body.id == Some(old(self).next_id),
            r.body.re == Some(re),
            r.body.data matches DataOrInit::InitOk,
            final(self).id == old(self).id,
            final(self).next_id == old(self).next_id + 1,
    {
        self.send_message(dest, Some(re), DataOrInit::InitOk)
    }

    /// Build a reply carrying the protocol payload `data`, correlated to
    /// the request's identifier `re`.
    pub fn reply<Data>(&mut self, dest: String, re: MessageId, data: Data) -> (r: Message<
        DataOrInit<Data>,
    >)
        requires
            old(self).next_id < u64::MAX,
        ensures
            r.src == old(self).id,
            r.dest == dest,
            r.body.id == Some(old(self).next_id),
            r.body.re == Some(re),
            r.body.data == DataOrInit::Data(data),
            final(self).id == old(self).id,
            final(self).next_id == old(self).next_id + 1,
    {
        self.send_message(dest, Some(re), DataOrInit::Data(data))
    }

    /// Build an unsolicited message carrying the protocol payload `data`.
    pub fn send<Data>(&mut self, dest: String, data: Data) -> (r: Message<DataOrInit<Data>>)
        requires
            old(self).next_id < u64::MAX,
        ensures
            r.src == old(self).id,
            r.dest == dest,
            r.body.id == Some(old(self).next_id),
            r.body.re == None::<MessageId>,
            r.body.data == DataOrInit::Data(data),
            final(self).id == old(self).id,
            final(self).next_id == old(self).next_id + 1,
    {
        self.send_message(dest, None, DataOrInit::Data(data))
    }
}

/// The pluggable unit of business logic: a protocol handler the runtime
/// dispatches each inbound message to. Each implementation states its own
/// admissible inputs and its own guarantees through the spec functions,
/// and the runtime is generic over any implementation.
pub trait Node: Sized {
    /// The protocol's own payload type.
    type Message;

    /// The handler's own error type, opaque to the runtime.
    type Error;

    /// The inputs this handler admits, given the runtime state; `self` is
    /// the handler's state before the call.
    spec fn handle_requires(&self, msg: Message<Self::Message>, state: NodeState) -> bool;

    /// What handling guarantees: `self` and `pre_state` are the handler
    /// and runtime state before the call, `post` and `post_state` after.
    spec fn handle_ensures(
        &self,
        pre_state: NodeState,
        msg: Message<Self::Message>,
        post: Self,
        post_state: NodeState,
        r: Result<Vec<Message<DataOrInit<Self::Message>>>, Error<Self::Error>>,
    ) -> bool;

    /// What initialization guarantees: `self` is the handler before the
    /// call, `post` after; `ids` is the supplied peer list.
    spec fn init_ensures(
        &self,
        ids: Seq<String>,
        post: Self,
        r: Result<(), Error<Self::Error>>,
    ) -> bool;

    /// Handle one inbound message, already stripped of its handshake
    /// wrapper. Returns the envelopes to write to the outbound sink.
    fn handle_message(&mut self, msg: Message<Self::Message>, state: &mut NodeState) -> (r:
        Result<Vec<Message<DataOrInit<Self::Message>>>, Error<Self::Error>>)
        requires
            old(self).handle_requires(msg, *old(state)),
        ensures
            old(self).handle_ensures(*old(state), msg, *final(self), *final(state), r),
    ;

    /// The initialization hook, invoked once after the handshake with the
    /// full peer list.
    fn init(&mut self, node_ids: Vec<String>) -> (r: Result<(), Error<Self::Error>>)
        ensures
            old(self).init_ensures(node_ids@, *final(self), r),
    ;
}

/// One step of the ready runtime: strip the handshake wrapper from an
/// inbound envelope and run the protocol handler against it. A second
/// handshake request is an internal error, reported to the caller and
/// otherwise ignored; the handler's own guarantees hold of everything
/// else. The hosting process runs one such step per inbound message, each
/// in an independently scheduled task.
pub fn dispatch<N: Node>(
    node: &mut N,
    msg: Message<DataOrInit<N::Message>>,
    state: &mut NodeState,
) -> (r: Result<Vec<Message<DataOrInit<N::Message>>>, Error<N::Error>>)
    requires
        match msg.body.data {
            DataOrInit::Data(d) => old(node).handle_requires(
                (Message {
                    src: msg.src,
                    dest: msg.dest,
                    body: MessageBody { id: msg.body.id, re: msg.body.re, data: d },
                }),
                *old(state),
            ),
            _ => true,
        },
    ensures
        match msg.body.data {
            DataOrInit::Data(d) => old(node).handle_ensures(
                *old(state),
                (Message {
                    src: msg.src,
                    dest: msg.dest,
                    body: MessageBody { id: msg.body.id, re: msg.body.re, data: d },
                }),
                *final(node),
                *final(state),
                r,
            ),
            _ => r matches Err(Error::Internal { source: InternalError::UnexpectedInit })
                && *final(node) == *old(node) && *final(state) == *old(state),
        },
{
    match msg.into_data::<N::Error>() {
        Ok(inner) => node.handle_message(inner, state),
        Err(e) => Err(e),
    }
}

/// Perform the handshake on the first inbound message: if it is the
/// handshake request, the node takes the identifier it was assigned and
/// acknowledges, correlating the acknowledgement to the request's message
/// identifier; any other first message fails with the needs-init condition
/// and the process aborts startup. On success the caller receives the ready
/// runtime state, the acknowledgement envelope to write, and the list of
/// all node identifiers, which it hands to the protocol handler's
/// initialization hook.
pub fn process_init<Data, E>(msg: Message<DataOrInit<Data>>) -> (r: Result<
    (NodeState, Message<DataOrInit<Data>>, Vec<String>),
    Error<E>,
>)
    requires
        msg.body.data matches DataOrInit::Init { .. } ==> msg.body.id is Some,
    ensures
        match msg.body.data {
            DataOrInit::Init { node_id, node_ids } => r matches Ok((state, reply, ids))
                && state.id == node_id
                && state.next_id == 1
                && reply.src == node_id
                && reply.dest == msg.src
                && reply.body.re == msg.body.id
                && (reply.body.data matches DataOrInit::InitOk)
                && ids == node_ids,
            _ => r matches Err(Error::Internal { source: InternalError::NeedsInit }),
        },
{
    match msg.body.data {
        DataOrInit::Init { node_id, node_ids } => {
            let mut state = NodeState::new(node_id);
            let re = match msg.body.id {
                Some(re) => re,
                None => vstd::pervasive::unreached(),
            };
            let reply = state.send_init_ok(re, msg.src);
            Ok((state, reply, node_ids))
        },
        _ => Err(Error::Internal { source: InternalError::NeedsInit }),
    }
}

} // verus!
