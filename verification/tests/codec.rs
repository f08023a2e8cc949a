use bytes::BytesMut;
use rmp_rpc::{Codec, Message, Request};

fn dummy() -> Message {
    Message::Request(Request {
        id: 1234,
        method: "dummy".to_string(),
        params: Vec::new(),
    })
}

fn pack(msg: &Message) -> Vec<u8> {
    msg.pack().unwrap()
}

fn try_decode(input: &[u8], rest: &[u8]) -> std::io::Result<Option<Message>> {
    let mut codec = Codec {};
    let mut buf = BytesMut::from(input);
    let result = codec.decode(&mut buf);
    assert_eq!(rest, &buf[..]);
    result
}

#[test]
fn decode() {
    let msg = dummy();

    // A single message, nothing is left
    assert_eq!(try_decode(&pack(&msg), b"").unwrap(), Some(msg.clone()));

    // The first message is decoded, the second stays in the buffer
    let mut bytes = [&pack(&msg)[..], &pack(&msg)[..]].concat();
    assert_eq!(try_decode(&bytes, &pack(&msg)).unwrap(), Some(msg.clone()));

    // An incomplete message: nothing gets out and everything stays
    let packed_msg = pack(&msg);
    bytes = Vec::from(&packed_msg[0..packed_msg.len() - 1]);
    assert_eq!(try_decode(&bytes, &bytes).unwrap(), None);

    // An invalid message: it gets eaten, and the next message get read.
    bytes = [&vec![0, 1, 2], &pack(&msg)[..]].concat();
    assert_eq!(try_decode(&bytes, b"").unwrap(), Some(msg.clone()));
}

#[test]
fn empty_buffer_gives_nothing() {
    assert_eq!(try_decode(b"", b"").unwrap(), None);
}

#[test]
fn skipped_values_stay_when_the_message_is_incomplete() {
    let packed = pack(&dummy());
    let bytes = [&[0xc0, 0x05][..], &packed[..packed.len() - 3]].concat();
    assert_eq!(try_decode(&bytes, &bytes).unwrap(), None);
}

#[test]
fn every_strict_prefix_is_incomplete() {
    let packed = pack(&dummy());
    for k in 0..packed.len() {
        assert_eq!(try_decode(&packed[..k], &packed[..k]).unwrap(), None);
    }
}

#[test]
fn encode_then_decode() {
    let mut codec = Codec {};
    let mut buf = BytesMut::from(&b"\xc0"[..]);
    codec.encode(dummy(), &mut buf).unwrap();
    assert_eq!(&buf[1..], &pack(&dummy())[..]);
    // the leading nil is not a message: it is skipped
    assert_eq!(codec.decode(&mut buf).unwrap(), Some(dummy()));
    assert!(buf.is_empty());
}

#[test]
fn too_deep_value_is_an_error_and_is_consumed_as_far_as_read() {
    let mut codec = Codec {};
    let mut bytes = vec![0x91u8; 2000];
    bytes.extend_from_slice(&pack(&dummy()));
    let mut buf = BytesMut::from(&bytes[..]);
    assert!(codec.decode(&mut buf).is_err());
    assert!(buf.len() < bytes.len());
}
