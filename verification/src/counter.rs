//! The counter service: a placeholder protocol whose message shapes are
//! defined but whose handler ignores everything it receives.

use vstd::prelude::*;

use crate::error::{Error, ErrorCode};
use crate::message::{DataOrInit, Message};
use crate::node::{Node, NodeState};

verus! {

/// The message body of the counter protocol.
#[derive(Debug, Clone, PartialEq)]
pub enum CounterMessage {
    /// An error report; decodable, never generated by the service itself.
    Error { code: ErrorCode, text: String },
    /// A client's request to add `delta` to the counter.
    Add { delta: u64 },
    /// Acknowledgement of an add.
    AddOk,
    /// A client's request for the counter's value.
    Read,
    /// The reply to a read.
    ReadOk { value: u64 },
}

/// The counter service's own error type.
#[derive(Debug, Clone, PartialEq)]
pub enum CounterError {
    /// A free-form condition not otherwise classified.
    Whatever { message: String },
}

/// The counter service. It keeps no state and handles nothing yet.
#[derive(Default, Clone)]
pub struct CounterService {}

impl Node for CounterService {
    type Message = CounterMessage;

    type Error = CounterError;

    /// Every message is admitted.
    open spec fn handle_requires(&self, msg: Message<CounterMessage>, state: NodeState) -> bool {
        true
    }

    /// Every message is ignored: nothing is sent and nothing changes.
    open spec fn handle_ensures(
        &self,
        pre_state: NodeState,
        msg: Message<CounterMessage>,
        post: Self,
        post_state: NodeState,
        r: Result<Vec<Message<DataOrInit<CounterMessage>>>, Error<CounterError>>,
    ) -> bool {
        &&& r matches Ok(out) && out@.len() == 0
        &&& post_state == pre_state
    }

    /// Initialization changes nothing.
    open spec fn init_ensures(
        &self,
        ids: Seq<String>,
        post: Self,
        r: Result<(), Error<CounterError>>,
    ) -> bool {
        r is Ok
    }

    fn handle_message(&mut self, msg: Message<CounterMessage>, state: &mut NodeState) -> (r:
        Result<Vec<Message<DataOrInit<CounterMessage>>>, Error<CounterError>>)
        ensures
            r matches Ok(out) && out@.len() == 0,
            *final(state) == *old(state),
    {
        match msg.body.data {
            _ => Ok(Vec::new()),
        }
    }

    fn init(&mut self, node_ids: Vec<String>) -> (r: Result<(), Error<CounterError>>)
        ensures
            r is Ok,
    {
        Ok(())
    }
}

} // verus!
