//! The message envelope model.
//!
//! Every value on the wire is an envelope carrying a sender, a destination
//! and a body; the body's payload is either one of the reserved handshake
//! variants or the protocol's own payload.

use vstd::prelude::*;

use crate::error::{Error, InternalError};

verus! {

/// Identifier a node attaches to each message it sends. Unique per sending
/// node, never reused within a node's lifetime.
pub type MessageId = u64;

/// A payload that is either one of the reserved handshake variants or the
/// protocol's own payload `Data`.
#[derive(Debug, Clone, PartialEq)]
pub enum DataOrInit<Data> {
    /// Acknowledgement of the handshake request.
    InitOk,
    /// The handshake request, carrying the assigned node identifier and the
    /// full list of node identifiers in the network.
    Init { node_id: String, node_ids: Vec<String> },
    /// The protocol's own payload.
    Data(Data),
}

/// The body of a message: an optional identifier, an optional correlation
/// to the request this message replies to, and the payload.
#[derive(Debug, Clone, PartialEq)]
pub struct MessageBody<Data> {
    /// The identifier the sender assigned to this message, if any.
    pub id: Option<MessageId>,
    /// The identifier of the message this message is in reply to.
    pub re: Option<MessageId>,
    /// The payload.
    pub data: Data,
}

/// A message envelope.
#[derive(Debug, Clone, PartialEq)]
pub struct Message<Data> {
    /// The node identifier of the sender.
    pub src: String,
    /// The node identifier of the receiver.
    pub dest: String,
    /// The message content.
    pub body: MessageBody<Data>,
}

impl<Data> Message<DataOrInit<Data>> {
    /// Strip the handshake wrapper from an envelope. A handshake payload at
    /// this point means the node was (re-)initialized out of turn, which is
    /// an internal error.
    pub fn into_data<E>(self) -> (r: Result<Message<Data>, Error<E>>)
        ensures
            match self.body.data {
                DataOrInit::Data(d) => r matches Ok(m)
                    && m.src == self.src
                    && m.dest == self.dest
                    && m.body.id == self.body.id
                    && m.body.re == self.body.re
                    && m.body.data == d,
                _ => r matches Err(Error::Internal {
                    source: InternalError::UnexpectedInit,
                }),
            },
    {
        match self.body.data {
            DataOrInit::Data(data) => Ok(Message {
                src: self.src,
                dest: self.dest,
                body: MessageBody { id: self.body.id, re: self.body.re, data },
            }),
            _ => Err(Error::Internal { source: InternalError::UnexpectedInit }),
        }
    }
}

} // verus!
