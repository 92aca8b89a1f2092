//! Tests of the line-delimited transport framing.

use maelstrom_node::framing::{Framed, Json};

#[test]
fn encode_then_decode_round_trips() {
    let codec = Json;
    let payload: Vec<u8> = b"{\"type\":\"read\"}".to_vec();
    let mut buf: Vec<u8> = Vec::new();
    codec.encode(&payload, &mut buf);
    assert_eq!(buf.last(), Some(&b'\n'));
    let frame = codec.decode(&mut buf);
    assert_eq!(frame, Some(payload));
    assert!(buf.is_empty(), "a single frame leaves nothing behind");
}

#[test]
fn truncated_prefix_yields_no_value_yet() {
    let codec = Json;
    let payload: Vec<u8> = b"{\"type\":\"read\"}".to_vec();
    let mut framed: Vec<u8> = Vec::new();
    codec.encode(&payload, &mut framed);
    for n in 0..framed.len() {
        let mut prefix: Vec<u8> = framed[..n].to_vec();
        let r = codec.decode(&mut prefix);
        assert_eq!(r, None, "a strict prefix must yield no value, not an error");
    }
}

#[test]
fn partial_then_rest_produces_the_frame() {
    let mut framed: Framed<&str> = Framed::new("transport", Json);
    framed.push_bytes(b"{\"a\":");
    assert_eq!(framed.next_frame(), None);
    framed.push_bytes(b"1}\n{\"b\"");
    assert_eq!(framed.next_frame(), Some(b"{\"a\":1}".to_vec()));
    assert_eq!(framed.next_frame(), None, "the second value is still incomplete");
    framed.push_bytes(b":2}\n");
    assert_eq!(framed.next_frame(), Some(b"{\"b\":2}".to_vec()));
}

#[test]
fn blank_lines_are_skipped() {
    let codec = Json;
    let mut buf: Vec<u8> = b"\n   \r\n{\"x\":2}\ntail".to_vec();
    let frame = codec.decode(&mut buf);
    assert_eq!(frame, Some(b"{\"x\":2}".to_vec()));
    assert_eq!(buf, b"tail".to_vec(), "bytes after the frame are retained");
}

#[test]
fn whitespace_only_buffer_is_consumed() {
    let codec = Json;
    let mut buf: Vec<u8> = b"  \t ".to_vec();
    assert_eq!(codec.decode(&mut buf), None);
    assert!(buf.is_empty(), "a whitespace-only buffer is cleared");
}

#[test]
fn framed_exposes_its_transport() {
    let mut framed: Framed<u32> = Framed::new(7, Json);
    assert_eq!(*framed.get_ref(), 7);
    *framed.get_mut() = 8;
    assert_eq!(framed.into_inner(), 8);
}
