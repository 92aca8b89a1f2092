//! Tests of the gossip broadcast service: acknowledgement, reads, delta
//! tracking and end-to-end convergence.

use maelstrom_node::broadcast::{BroadcastError, BroadcastMessage, BroadcastService};
use maelstrom_node::error::Error;
use maelstrom_node::message::{DataOrInit, Message, MessageBody};
use maelstrom_node::node::{Node, NodeState};

fn envelope(src: &str, dest: &str, id: Option<u64>, data: BroadcastMessage) -> Message<BroadcastMessage> {
    Message {
        src: src.to_string(),
        dest: dest.to_string(),
        body: MessageBody { id, re: None, data },
    }
}

fn read_values(service: &mut BroadcastService, state: &mut NodeState) -> Vec<u64> {
    let out = service
        .handle_message(envelope("c9", &state.id(), Some(999), BroadcastMessage::Read), state)
        .unwrap();
    assert_eq!(out.len(), 1);
    match &out[0].body.data {
        DataOrInit::Data(BroadcastMessage::ReadOk { messages }) => messages.clone(),
        other => panic!("expected read_ok, got {:?}", other),
    }
}

/// A node with identity `id`, initialized with the peer list and given the
/// full topology.
fn node(id: &str, peers: &[&str]) -> (BroadcastService, NodeState) {
    let mut service = BroadcastService::default();
    let mut state = NodeState::new(id.to_string());
    service
        .init(peers.iter().map(|p| p.to_string()).collect())
        .unwrap();
    let topology: Vec<(String, Vec<String>)> = peers
        .iter()
        .map(|p| {
            let neighbors = peers
                .iter()
                .filter(|q| *q != p)
                .map(|q| q.to_string())
                .collect();
            (p.to_string(), neighbors)
        })
        .collect();
    let out = service
        .handle_message(
            envelope("c0", id, Some(1), BroadcastMessage::Topology { topology }),
            &mut state,
        )
        .unwrap();
    assert_eq!(out.len(), 1);
    assert!(matches!(out[0].body.data, DataOrInit::Data(BroadcastMessage::TopologyOk)));
    (service, state)
}

#[test]
fn broadcast_is_acknowledged_immediately() {
    let (mut service, mut state) = node("n1", &["n1", "n2"]);
    let out = service
        .handle_message(
            envelope("c5", "n1", Some(7), BroadcastMessage::Broadcast { message: 42 }),
            &mut state,
        )
        .unwrap();
    assert_eq!(out.len(), 1);
    assert_eq!(out[0].dest, "c5");
    assert_eq!(out[0].body.re, Some(7));
    assert!(matches!(out[0].body.data, DataOrInit::Data(BroadcastMessage::BroadcastOk)));
    assert_eq!(read_values(&mut service, &mut state), vec![42]);
}

#[test]
fn seen_set_is_idempotent_under_repeated_insert() {
    let (mut service, mut state) = node("n1", &["n1", "n2"]);
    for _ in 0..2 {
        service
            .handle_message(
                envelope("c5", "n1", Some(7), BroadcastMessage::Broadcast { message: 7 }),
                &mut state,
            )
            .unwrap();
    }
    let values = read_values(&mut service, &mut state);
    assert_eq!(values, vec![7], "inserting twice must read the same as inserting once");
}

#[test]
fn gossip_carries_only_the_delta() {
    let (mut service, mut state) = node("n1", &["n1", "n2", "n3"]);
    for v in [7u64, 8u64] {
        service
            .handle_message(
                envelope("c5", "n1", Some(1), BroadcastMessage::Broadcast { message: v }),
                &mut state,
            )
            .unwrap();
    }
    // Gossip from n2 carrying 7 marks 7 as known to n2.
    service
        .handle_message(
            envelope("n2", "n1", None, BroadcastMessage::Gossip { seen: vec![7] }),
            &mut state,
        )
        .unwrap();
    let ticks = service.gossip(&mut state);
    assert_eq!(ticks.len(), 2, "one envelope per neighbor");
    for env in &ticks {
        let seen = match &env.body.data {
            DataOrInit::Data(BroadcastMessage::Gossip { seen }) => seen.clone(),
            other => panic!("expected gossip, got {:?}", other),
        };
        if env.dest == "n2" {
            assert!(!seen.contains(&7), "a value known to the neighbor must not be re-sent");
            assert!(seen.contains(&8));
        } else {
            assert_eq!(env.dest, "n3");
            assert!(seen.contains(&7));
            assert!(seen.contains(&8));
        }
    }
}

#[test]
fn gossip_marks_values_known_to_the_sender() {
    let (mut service, mut state) = node("n1", &["n1", "n2"]);
    service
        .handle_message(
            envelope("n2", "n1", None, BroadcastMessage::Gossip { seen: vec![3, 4] }),
            &mut state,
        )
        .unwrap();
    // The merged values are now seen locally ...
    let values = read_values(&mut service, &mut state);
    assert_eq!(sorted(values), vec![3, 4]);
    // ... but are not gossiped straight back to their origin.
    let ticks = service.gossip(&mut state);
    for env in &ticks {
        if env.dest == "n2" {
            match &env.body.data {
                DataOrInit::Data(BroadcastMessage::Gossip { seen }) => {
                    assert!(seen.is_empty(), "nothing new for the origin of the values");
                }
                other => panic!("expected gossip, got {:?}", other),
            }
        }
    }
}

#[test]
fn gossip_from_unknown_peer_fails_the_invocation() {
    let mut service = BroadcastService::default();
    let mut state = NodeState::new("n1".to_string());
    let r = service.handle_message(
        envelope("n9", "n1", None, BroadcastMessage::Gossip { seen: vec![1] }),
        &mut state,
    );
    assert!(matches!(r, Err(Error::Node { source: BroadcastError::Whatever { .. } })));
}

#[test]
fn topology_without_message_id_fails_the_invocation() {
    let mut service = BroadcastService::default();
    let mut state = NodeState::new("n1".to_string());
    let topology = vec![("n1".to_string(), vec!["n2".to_string()])];
    let r = service.handle_message(
        envelope("c0", "n1", None, BroadcastMessage::Topology { topology }),
        &mut state,
    );
    assert!(matches!(r, Err(Error::Node { source: BroadcastError::Whatever { .. } })));
}

#[test]
fn acknowledgements_are_ignored() {
    let (mut service, mut state) = node("n1", &["n1", "n2"]);
    for data in [BroadcastMessage::BroadcastOk, BroadcastMessage::TopologyOk, BroadcastMessage::ReadOk { messages: vec![1] }] {
        let out = service
            .handle_message(envelope("n2", "n1", None, data), &mut state)
            .unwrap();
        assert!(out.is_empty());
    }
    assert!(read_values(&mut service, &mut state).is_empty());
}

fn sorted(mut v: Vec<u64>) -> Vec<u64> {
    v.sort();
    v
}

/// Deliver every gossip envelope of one tick of `from` to the right
/// recipient.
fn deliver_tick(
    from: usize,
    nodes: &mut [(BroadcastService, NodeState)],
) {
    let ticks = {
        let (service, state) = &mut nodes[from];
        let service: &BroadcastService = service;
        service.gossip(state)
    };
    for env in ticks {
        let inner = env.into_data::<()>().unwrap();
        let to = nodes
            .iter()
            .position(|(_, s)| s.id == inner.dest)
            .expect("destination node");
        let (service, state) = &mut nodes[to];
        service.handle_message(inner, state).unwrap();
    }
}

#[test]
fn three_fully_connected_nodes_converge() {
    let names = ["a", "b", "c"];
    let mut nodes: Vec<(BroadcastService, NodeState)> =
        names.iter().map(|n| node(n, &names)).collect();

    // A client broadcast of 7 delivered to node a.
    {
        let (service, state) = &mut nodes[0];
        service
            .handle_message(
                envelope("c1", "a", Some(5), BroadcastMessage::Broadcast { message: 7 }),
                state,
            )
            .unwrap();
    }

    // Enough gossip intervals for a fully connected topology.
    for _ in 0..2 {
        for i in 0..nodes.len() {
            deliver_tick(i, &mut nodes);
        }
    }

    for (service, state) in nodes.iter_mut() {
        let values = read_values(service, state);
        assert!(values.contains(&7), "node {} must have converged on 7", state.id);
    }
}
