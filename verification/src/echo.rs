//! The echo service: answers each `echo` request with its own payload,
//! unchanged.
//!
//! The echoed payload is an arbitrary value of the wire format; the
//! service never looks inside it, so it is carried here as the opaque text
//! the hosting process's codec produced for it.

use vstd::prelude::*;

use crate::error::{Error, ErrorCode};
use crate::message::{DataOrInit, Message, MessageBody};
use crate::node::{Node, NodeState};

verus! {

/// The message body of the echo protocol.
#[derive(Debug, Clone, PartialEq)]
pub enum EchoServiceMessage {
    /// An error report; decodable, never generated by the service itself.
    Error { code: ErrorCode, text: String },
    /// A client's request to echo an arbitrary payload, carried as the
    /// codec's text for it.
    Echo { echo: String },
    /// The reply: the same payload, unchanged.
    EchoOk { echo: String },
}

/// The echo service's own error type.
#[derive(Debug, Clone, PartialEq)]
pub enum EchoServiceError {
    /// The request carried no message identifier to correlate a reply to.
    MissingMessageId,
    /// A free-form condition not otherwise classified.
    Whatever { message: String },
}

/// The echo service. It keeps no state.
#[derive(Default)]
pub struct EchoService;

impl Node for EchoService {
    type Message = EchoServiceMessage;

    type Error = EchoServiceError;

    /// An echo request needs a fresh identifier for its reply; everything
    /// else is admitted unconditionally.
    open spec fn handle_requires(&self, msg: Message<EchoServiceMessage>, state: NodeState)
        -> bool {
        msg.body.data matches EchoServiceMessage::Echo { .. } ==> state.next_id < u64::MAX
    }

    /// An echo request is answered with its own payload; one without a
    /// message identifier fails, since no reply could be correlated to it.
    /// Anything else is ignored.
    open spec fn handle_ensures(
        &self,
        pre_state: NodeState,
        msg: Message<EchoServiceMessage>,
        post: Self,
        post_state: NodeState,
        r: Result<Vec<Message<DataOrInit<EchoServiceMessage>>>, Error<EchoServiceError>>,
    ) -> bool {
        &&& post_state.id == pre_state.id
        &&& match msg.body.data {
            EchoServiceMessage::Echo { echo } => {
                if msg.body.id is Some {
                    &&& r matches Ok(out) && out@.len() == 1 && out@[0] == (Message {
                        src: pre_state.id,
                        dest: msg.src,
                        body: MessageBody {
                            id: Some(pre_state.next_id),
                            re: msg.body.id,
                            data: DataOrInit::Data(EchoServiceMessage::EchoOk { echo }),
                        },
                    })
                    &&& post_state.next_id == pre_state.next_id + 1
                } else {
                    &&& r matches Err(Error::Node {
                        source: EchoServiceError::MissingMessageId,
                    })
                    &&& post_state == pre_state
                }
            },
            _ => r matches Ok(out) && out@.len() == 0 && post_state == pre_state,
        }
    }

    /// Initialization changes nothing.
    open spec fn init_ensures(
        &self,
        ids: Seq<String>,
        post: Self,
        r: Result<(), Error<EchoServiceError>>,
    ) -> bool {
        r is Ok
    }

    fn handle_message(&mut self, msg: Message<EchoServiceMessage>, state: &mut NodeState) -> (r:
        Result<Vec<Message<DataOrInit<EchoServiceMessage>>>, Error<EchoServiceError>>)
        ensures
            final(state).id == old(state).id,
            match msg.body.data {
                EchoServiceMessage::Echo { echo } => {
                    if msg.body.id is Some {
                        &&& r matches Ok(out) && out@.len() == 1 && out@[0] == (Message {
                            src: old(state).id,
                            dest: msg.src,
                            body: MessageBody {
                                id: Some(old(state).next_id),
                                re: msg.body.id,
                                data: DataOrInit::Data(EchoServiceMessage::EchoOk { echo }),
                            },
                        })
                        &&& final(state).next_id == old(state).next_id + 1
                    } else {
                        &&& r matches Err(Error::Node {
                            source: EchoServiceError::MissingMessageId,
                        })
                        &&& *final(state) == *old(state)
                    }
                },
                _ => r matches Ok(out) && out@.len() == 0 && *final(state) == *old(state),
            },
    {
        match msg.body.data {
            EchoServiceMessage::Echo { echo } => {
                let re = match msg.body.id {
                    Some(re) => re,
                    None => {
                        return Err(Error::Node { source: EchoServiceError::MissingMessageId });
                    },
                };
                let env = state.reply(msg.src, re, EchoServiceMessage::EchoOk { echo });
                let mut out = Vec::new();
                out.push(env);
                Ok(out)
            },
            _ => Ok(Vec::new()),
        }
    }

    fn init(&mut self, node_ids: Vec<String>) -> (r: Result<(), Error<EchoServiceError>>)
        ensures
            r is Ok,
    {
        Ok(())
    }
}

} // verus!
