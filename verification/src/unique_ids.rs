//! The unique-identifier service: answers each `generate` request with an
//! identifier no other node will ever produce, formed from this node's
//! identity and a per-node counter.

use vstd::prelude::*;
use vstd::string::StringExecFns;

use crate::error::{Error, ErrorCode};
use crate::message::{DataOrInit, Message, MessageBody};
use crate::node::{Node, NodeState};

verus! {

/// The decimal digit character for `d`.
pub open spec fn digit_char(d: nat) -> char {
    if d == 0 {
        '0'
    } else if d == 1 {
        '1'
    } else if d == 2 {
        '2'
    } else if d == 3 {
        '3'
    } else if d == 4 {
        '4'
    } else if d == 5 {
        '5'
    } else if d == 6 {
        '6'
    } else if d == 7 {
        '7'
    } else if d == 8 {
        '8'
    } else {
        '9'
    }
}

/// The decimal spelling of `n`, most significant digit first, without
/// leading zeros (zero itself is spelled `0`).
pub open spec fn spec_decimal(n: nat) -> Seq<char>
    decreases n,
    via spec_decimal_decreases
{
    if n < 10 {
        seq![digit_char(n)]
    } else {
        spec_decimal(n / 10).push(digit_char(n % 10))
    }
}

#[via_fn]
proof fn spec_decimal_decreases(n: nat) {
    assert(n >= 10 ==> n / 10 < n) by (nonlinear_arith);
}

/// The single-character string spelling the digit `d`.
fn digit_string(d: u64) -> (r: String)
    requires
        d < 10,
    ensures
        r@ == seq![digit_char(d as nat)],
{
    let s: &str = if d == 0 {
        "0"
    } else if d == 1 {
        "1"
    } else if d == 2 {
        "2"
    } else if d == 3 {
        "3"
    } else if d == 4 {
        "4"
    } else if d == 5 {
        "5"
    } else if d == 6 {
        "6"
    } else if d == 7 {
        "7"
    } else if d == 8 {
        "8"
    } else {
        "9"
    };
    proof {
        reveal_strlit("0");
        reveal_strlit("1");
        reveal_strlit("2");
        reveal_strlit("3");
        reveal_strlit("4");
        reveal_strlit("5");
        reveal_strlit("6");
        reveal_strlit("7");
        reveal_strlit("8");
        reveal_strlit("9");
        assert(s@ =~= seq![digit_char(d as nat)]);
    }
    s.to_owned()
}

/// The decimal spelling of `n`; exactly [`spec_decimal`].
pub fn u64_to_decimal(n: u64) -> (r: String)
    ensures
        r@ == spec_decimal(n as nat),
    decreases n,
{
    if n < 10 {
        digit_string(n)
    } else {
        proof {
            assert(n / 10 < n) by (nonlinear_arith)
                requires
                    n >= 10,
            ;
        }
        let mut s = u64_to_decimal(n / 10);
        let d = digit_string(n % 10);
        s.append(d.as_str());
        proof {
            assert(s@ =~= spec_decimal((n / 10) as nat).push(digit_char((n % 10) as nat)));
        }
        s
    }
}

/// The identifier issued for counter value `counter` by the node named
/// `node`: the node identifier, a dash, and the counter in decimal.
pub open spec fn unique_id_view(node: Seq<char>, counter: nat) -> Seq<char> {
    node + seq!['-'] + spec_decimal(counter)
}

/// Format the identifier for `counter` issued by `node`; exactly
/// [`unique_id_view`].
fn format_unique_id(node: &String, counter: u64) -> (r: String)
    ensures
        r@ == unique_id_view(node@, counter as nat),
{
    let mut s = node.clone();
    proof {
        reveal_strlit("-");
        assert("-"@ =~= seq!['-']);
    }
    s.append("-");
    let d = u64_to_decimal(counter);
    s.append(d.as_str());
    proof {
        assert(s@ =~= unique_id_view(node@, counter as nat));
    }
    s
}

/// The message body of the unique-identifier protocol.
#[derive(Debug, Clone, PartialEq)]
pub enum UniqueIdServiceMessage {
    /// The handshake request, as this protocol's wire format spells it.
    Init { node_id: String, node_ids: Vec<String> },
    /// Acknowledgement of the handshake request.
    InitOk,
    /// An error report; decodable, never generated by the service itself.
    Error { code: ErrorCode, text: String },
    /// A client's request for a fresh identifier.
    Generate,
    /// The reply to a generate request.
    GenerateOk { id: String },
}

/// The unique-identifier service's own error type.
#[derive(Debug, Clone, PartialEq)]
pub enum UniqueIdServiceError {
    /// The request carried no message identifier to correlate a reply to.
    MissingMessageId,
    /// A free-form condition not otherwise classified.
    Whatever { message: String },
}

/// The unique-identifier service: a per-node counter, never reused.
pub struct UniqueIdService {
    /// The counter value the next identifier will carry.
    pub next_id: u64,
}

impl UniqueIdService {
    /// A fresh service whose first identifier carries counter value zero.
    pub fn new() -> (r: Self)
        ensures
            r.next_id == 0,
    {
        UniqueIdService { next_id: 0 }
    }
}

impl Node for UniqueIdService {
    type Message = UniqueIdServiceMessage;

    type Error = UniqueIdServiceError;

    /// A handshake or generate request needs a fresh identifier for its
    /// reply, and a generate additionally a fresh counter value; anything
    /// else is outside the protocol.
    open spec fn handle_requires(&self, msg: Message<UniqueIdServiceMessage>, state: NodeState)
        -> bool {
        match msg.body.data {
            UniqueIdServiceMessage::Init { .. } => state.next_id < u64::MAX,
            UniqueIdServiceMessage::Generate => state.next_id < u64::MAX && self.next_id
                < u64::MAX,
            _ => false,
        }
    }

    /// A generate request is answered with an identifier formed from this
    /// node's identity and the next counter value; a request without a
    /// message identifier fails, since no reply could be correlated to it.
    open spec fn handle_ensures(
        &self,
        pre_state: NodeState,
        msg: Message<UniqueIdServiceMessage>,
        post: Self,
        post_state: NodeState,
        r: Result<Vec<Message<DataOrInit<UniqueIdServiceMessage>>>, Error<UniqueIdServiceError>>,
    ) -> bool {
        &&& post_state.id == pre_state.id
        &&& match msg.body.data {
            UniqueIdServiceMessage::Init { .. } => {
                if msg.body.id is Some {
                    &&& r matches Ok(out) && out@.len() == 1 && out@[0] == (Message {
                        src: pre_state.id,
                        dest: msg.src,
                        body: MessageBody {
                            id: Some(pre_state.next_id),
                            re: msg.body.id,
                            data: DataOrInit::Data(UniqueIdServiceMessage::InitOk),
                        },
                    })
                    &&& post_state.next_id == pre_state.next_id + 1
                    &&& post == *self
                } else {
                    &&& r matches Err(Error::Node {
                        source: UniqueIdServiceError::MissingMessageId,
                    })
                    &&& post == *self
                    &&& post_state == pre_state
                }
            },
            UniqueIdServiceMessage::Generate => {
                if msg.body.id is Some {
                    &&& r matches Ok(out) && out@.len() == 1 && out@[0].src == pre_state.id
                        && out@[0].dest == msg.src && out@[0].body.id == Some(pre_state.next_id)
                        && out@[0].body.re == msg.body.id && (out@[0].body.data matches
                    DataOrInit::Data(UniqueIdServiceMessage::GenerateOk { id }) && id@
                        == unique_id_view(pre_state.id@, self.next_id as nat))
                    &&& post_state.next_id == pre_state.next_id + 1
                    &&& post.next_id == self.next_id + 1
                } else {
                    &&& r matches Err(Error::Node {
                        source: UniqueIdServiceError::MissingMessageId,
                    })
                    &&& post == *self
                    &&& post_state == pre_state
                }
            },
            _ => true,
        }
    }

    /// Initialization changes nothing: the counter stays where it was.
    open spec fn init_ensures(
        &self,
        ids: Seq<String>,
        post: Self,
        r: Result<(), Error<UniqueIdServiceError>>,
    ) -> bool {
        r is Ok && post == *self
    }

    fn handle_message(&mut self, msg: Message<UniqueIdServiceMessage>, state: &mut NodeState)
        -> (r: Result<Vec<Message<DataOrInit<UniqueIdServiceMessage>>>, Error<
        UniqueIdServiceError,
    >>)
        ensures
            final(state).id == old(state).id,
            match msg.body.data {
                UniqueIdServiceMessage::Init { .. } => {
                    if msg.body.id is Some {
                        &&& r matches Ok(out) && out@.len() == 1 && out@[0] == (Message {
                            src: old(state).id,
                            dest: msg.src,
                            body: MessageBody {
                                id: Some(old(state).next_id),
                                re: msg.body.id,
                                data: DataOrInit::Data(UniqueIdServiceMessage::InitOk),
                            },
                        })
                        &&& final(state).next_id == old(state).next_id + 1
                        &&& *final(self) == *old(self)
                    } else {
                        &&& r matches Err(Error::Node {
                            source: UniqueIdServiceError::MissingMessageId,
                        })
                        &&& *final(self) == *old(self)
                        &&& *final(state) == *old(state)
                    }
                },
                UniqueIdServiceMessage::Generate => {
                    if msg.body.id is Some {
                        &&& r matches Ok(out) && out@.len() == 1 && out@[0].src == old(state).id
                            && out@[0].dest == msg.src && out@[0].body.id == Some(
                            old(state).next_id,
                        ) && out@[0].body.re == msg.body.id && (out@[0].body.data matches
                        DataOrInit::Data(UniqueIdServiceMessage::GenerateOk { id }) && id@
                            == unique_id_view(old(state).id@, old(self).next_id as nat))
                        &&& final(state).next_id == old(state).next_id + 1
                        &&& final(self).next_id == old(self).next_id + 1
                    } else {
                        &&& r matches Err(Error::Node {
                            source: UniqueIdServiceError::MissingMessageId,
                        })
                        &&& *final(self) == *old(self)
                        &&& *final(state) == *old(state)
                    }
                },
                _ => true,
            },
    {
        match msg.body.data {
            UniqueIdServiceMessage::Init { .. } => {
                let re = match msg.body.id {
                    Some(re) => re,
                    None => {
                        return Err(Error::Node {
                            source: UniqueIdServiceError::MissingMessageId,
                        });
                    },
                };
                let env = state.reply(msg.src, re, UniqueIdServiceMessage::InitOk);
                let mut out = Vec::new();
                out.push(env);
                Ok(out)
            },
            UniqueIdServiceMessage::Generate => {
                let re = match msg.body.id {
                    Some(re) => re,
                    None => {
                        return Err(Error::Node {
                            source: UniqueIdServiceError::MissingMessageId,
                        });
                    },
                };
                let node_id = state.id();
                let id = format_unique_id(&node_id, self.next_id);
                self.next_id = self.next_id + 1;
                let env = state.reply(msg.src, re, UniqueIdServiceMessage::GenerateOk { id });
                let mut out = Vec::new();
                out.push(env);
                Ok(out)
            },
            _ => Ok(Vec::new()),
        }
    }

    fn init(&mut self, node_ids: Vec<String>) -> (r: Result<(), Error<UniqueIdServiceError>>)
        ensures
            r is Ok,
            *final(self) == *old(self),
    {
        Ok(())
    }
}

impl Default for UniqueIdService {
    /// The same fresh service [`UniqueIdService::new`] builds.
    fn default() -> (r: Self)
        ensures
            r.next_id == 0,
    {
        UniqueIdService::new()
    }
}

} // verus!
