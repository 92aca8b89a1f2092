//! Tests of the node runtime: handshake, dispatch, identifier generation
//! and the send path.

use maelstrom_node::broadcast::{BroadcastMessage, BroadcastService};
use maelstrom_node::error::{Error, ErrorCode, InternalError};
use maelstrom_node::message::{DataOrInit, Message, MessageBody};
use maelstrom_node::node::{dispatch, process_init, NodeState};

fn init_message(msg_id: Option<u64>) -> Message<DataOrInit<u32>> {
    Message {
        src: "c0".to_string(),
        dest: "n1".to_string(),
        body: MessageBody {
            id: msg_id,
            re: None,
            data: DataOrInit::Init {
                node_id: "n1".to_string(),
                node_ids: vec!["n1".to_string(), "n2".to_string()],
            },
        },
    }
}

#[test]
fn handshake_reply_correlates_to_request() {
    let (state, reply, ids) = process_init::<u32, ()>(init_message(Some(42))).unwrap();
    assert_eq!(state.id, "n1");
    assert_eq!(reply.src, "n1");
    assert_eq!(reply.dest, "c0");
    assert_eq!(reply.body.re, Some(42), "init_ok must correlate to the init message id");
    assert!(matches!(reply.body.data, DataOrInit::InitOk));
    assert_eq!(ids, vec!["n1".to_string(), "n2".to_string()]);
}

#[test]
fn handshake_rejects_non_init_first_message() {
    let msg: Message<DataOrInit<u32>> = Message {
        src: "c0".to_string(),
        dest: "n1".to_string(),
        body: MessageBody { id: Some(1), re: None, data: DataOrInit::Data(7) },
    };
    let r = process_init::<u32, ()>(msg);
    assert!(matches!(r, Err(Error::Internal { source: InternalError::NeedsInit })));
}

#[test]
fn into_data_unwraps_protocol_payload() {
    let msg: Message<DataOrInit<u32>> = Message {
        src: "a".to_string(),
        dest: "b".to_string(),
        body: MessageBody { id: Some(3), re: Some(2), data: DataOrInit::Data(99) },
    };
    let inner = msg.into_data::<()>().unwrap();
    assert_eq!(inner.src, "a");
    assert_eq!(inner.dest, "b");
    assert_eq!(inner.body.id, Some(3));
    assert_eq!(inner.body.re, Some(2));
    assert_eq!(inner.body.data, 99);
}

#[test]
fn into_data_rejects_handshake_payload() {
    let msg: Message<DataOrInit<u32>> = Message {
        src: "a".to_string(),
        dest: "b".to_string(),
        body: MessageBody { id: None, re: None, data: DataOrInit::InitOk },
    };
    let r = msg.into_data::<()>();
    assert!(matches!(r, Err(Error::Internal { source: InternalError::UnexpectedInit })));
}

#[test]
fn identifiers_are_distinct_and_increasing() {
    let mut state = NodeState::new("n1".to_string());
    let mut seen = Vec::new();
    for _ in 0..16 {
        let env = state.send("n2".to_string(), 0u32);
        seen.push(env.body.id.unwrap());
    }
    for i in 0..seen.len() {
        for j in (i + 1)..seen.len() {
            assert!(seen[i] < seen[j], "identifiers must be strictly increasing in call order");
        }
    }
}

#[test]
fn send_message_stamps_sender_and_correlation() {
    let mut state = NodeState::new("n1".to_string());
    let env = state.send_message("c2".to_string(), Some(17), DataOrInit::Data(5u32));
    assert_eq!(env.src, "n1");
    assert_eq!(env.dest, "c2");
    assert_eq!(env.body.id, Some(0));
    assert_eq!(env.body.re, Some(17));
    assert_eq!(env.body.data, DataOrInit::Data(5));

    let reply = state.reply("c2".to_string(), 18, 6u32);
    assert_eq!(reply.body.id, Some(1));
    assert_eq!(reply.body.re, Some(18));
    assert_eq!(reply.body.data, DataOrInit::Data(6));

    let plain = state.send("n3".to_string(), 7u32);
    assert_eq!(plain.body.id, Some(2));
    assert_eq!(plain.body.re, None);
}

#[test]
fn dispatch_reports_a_second_handshake_request() {
    let mut service = BroadcastService::default();
    let mut state = NodeState::new("n1".to_string());
    let msg: Message<DataOrInit<BroadcastMessage>> = Message {
        src: "c0".to_string(),
        dest: "n1".to_string(),
        body: MessageBody { id: Some(2), re: None, data: DataOrInit::InitOk },
    };
    let r = dispatch(&mut service, msg, &mut state);
    assert!(matches!(r, Err(Error::Internal { source: InternalError::UnexpectedInit })));
}

#[test]
fn dispatch_runs_the_handler_on_protocol_payloads() {
    let mut service = BroadcastService::default();
    let mut state = NodeState::new("n1".to_string());
    let msg: Message<DataOrInit<BroadcastMessage>> = Message {
        src: "c0".to_string(),
        dest: "n1".to_string(),
        body: MessageBody {
            id: Some(2),
            re: None,
            data: DataOrInit::Data(BroadcastMessage::Broadcast { message: 3 }),
        },
    };
    let out = dispatch(&mut service, msg, &mut state).unwrap();
    assert_eq!(out.len(), 1);
    assert!(matches!(out[0].body.data, DataOrInit::Data(BroadcastMessage::BroadcastOk)));
}

#[test]
fn error_codes_match_wire_enumeration() {
    let cases = [
        (ErrorCode::Timeout, 0),
        (ErrorCode::NodeNotFound, 1),
        (ErrorCode::NotSupported, 10),
        (ErrorCode::TemporarilyUnavailable, 11),
        (ErrorCode::MalformedRequest, 12),
        (ErrorCode::Crash, 13),
        (ErrorCode::Abort, 14),
        (ErrorCode::KeyDoesNotExist, 20),
        (ErrorCode::KeyAlreadyExists, 21),
        (ErrorCode::PreconditionFailed, 22),
        (ErrorCode::TxnConflict, 30),
    ];
    for (code, wire) in cases {
        assert_eq!(code.code(), wire);
        assert_eq!(ErrorCode::from_code(wire), Some(code));
    }
    assert_eq!(ErrorCode::from_code(5), None);
    assert_eq!(ErrorCode::from_code(31), None);
}
