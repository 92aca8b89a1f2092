//! Tests of the echo, unique-identifier and counter services.

use maelstrom_node::counter::{CounterMessage, CounterService};
use maelstrom_node::echo::{EchoService, EchoServiceError, EchoServiceMessage};
use maelstrom_node::error::Error;
use maelstrom_node::message::{DataOrInit, Message, MessageBody};
use maelstrom_node::node::{Node, NodeState};
use maelstrom_node::unique_ids::{
    u64_to_decimal, UniqueIdService, UniqueIdServiceError, UniqueIdServiceMessage,
};

fn body<D>(id: Option<u64>, data: D) -> MessageBody<D> {
    MessageBody { id, re: None, data }
}

#[test]
fn echo_returns_its_payload() {
    let mut service = EchoService;
    let mut state = NodeState::new("n1".to_string());
    let msg = Message {
        src: "c2".to_string(),
        dest: "n1".to_string(),
        body: body(Some(9), EchoServiceMessage::Echo { echo: "{\"k\":3}".to_string() }),
    };
    let out = service.handle_message(msg, &mut state).unwrap();
    assert_eq!(out.len(), 1);
    assert_eq!(out[0].dest, "c2");
    assert_eq!(out[0].body.re, Some(9));
    assert_eq!(
        out[0].body.data,
        DataOrInit::Data(EchoServiceMessage::EchoOk { echo: "{\"k\":3}".to_string() })
    );
}

#[test]
fn echo_without_message_id_fails() {
    let mut service = EchoService;
    let mut state = NodeState::new("n1".to_string());
    let msg = Message {
        src: "c2".to_string(),
        dest: "n1".to_string(),
        body: body(None, EchoServiceMessage::Echo { echo: "1".to_string() }),
    };
    let r = service.handle_message(msg, &mut state);
    assert!(matches!(r, Err(Error::Node { source: EchoServiceError::MissingMessageId })));
}

#[test]
fn echo_ignores_other_messages() {
    let mut service = EchoService;
    let mut state = NodeState::new("n1".to_string());
    let msg = Message {
        src: "c2".to_string(),
        dest: "n1".to_string(),
        body: body(Some(1), EchoServiceMessage::EchoOk { echo: "1".to_string() }),
    };
    let out = service.handle_message(msg, &mut state).unwrap();
    assert!(out.is_empty());
}

#[test]
fn unique_ids_are_node_scoped_and_sequential() {
    let mut service = UniqueIdService::new();
    assert_eq!(service.next_id, 0);
    let mut state = NodeState::new("n1".to_string());
    for expected in ["n1-0", "n1-1", "n1-2"] {
        let msg = Message {
            src: "c2".to_string(),
            dest: "n1".to_string(),
            body: body(Some(4), UniqueIdServiceMessage::Generate),
        };
        let out = service.handle_message(msg, &mut state).unwrap();
        assert_eq!(out.len(), 1);
        assert_eq!(out[0].body.re, Some(4));
        match &out[0].body.data {
            DataOrInit::Data(UniqueIdServiceMessage::GenerateOk { id }) => {
                assert_eq!(id, expected);
            }
            other => panic!("expected generate_ok, got {:?}", other),
        }
    }
}

#[test]
fn generate_without_message_id_fails() {
    let mut service = UniqueIdService::new();
    let mut state = NodeState::new("n1".to_string());
    let msg = Message {
        src: "c2".to_string(),
        dest: "n1".to_string(),
        body: body(None, UniqueIdServiceMessage::Generate),
    };
    let r = service.handle_message(msg, &mut state);
    assert!(matches!(r, Err(Error::Node { source: UniqueIdServiceError::MissingMessageId })));
}

#[test]
fn decimal_formatting_is_exact() {
    assert_eq!(u64_to_decimal(0), "0");
    assert_eq!(u64_to_decimal(7), "7");
    assert_eq!(u64_to_decimal(10), "10");
    assert_eq!(u64_to_decimal(1234567890), "1234567890");
    assert_eq!(u64_to_decimal(u64::MAX), "18446744073709551615");
}

#[test]
fn counter_ignores_everything() {
    let mut service = CounterService::default();
    let mut state = NodeState::new("n1".to_string());
    let msg = Message {
        src: "c2".to_string(),
        dest: "n1".to_string(),
        body: body(Some(1), CounterMessage::Add { delta: 3 }),
    };
    let out = service.handle_message(msg, &mut state).unwrap();
    assert!(out.is_empty());
}
