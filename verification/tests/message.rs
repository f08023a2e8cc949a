use rmp_rpc::errors::DecodeErrorKind;
use rmp_rpc::{DecodeError, Integer, Message, Notification, Request, Response, Utf8String, Value};

fn dummy_request() -> Message {
    Message::Request(Request {
        id: 1234,
        method: "dummy".to_string(),
        params: Vec::new(),
    })
}

#[test]
fn test_decode_request() {
    let valid = dummy_request();
    let bytes = valid.pack().unwrap();

    // valid message
    {
        let (decoded, _) = Message::decode(&bytes);
        assert_eq!(valid, decoded.unwrap());
    }

    // truncated
    {
        let bytes = Vec::from(&bytes[0..bytes.len() - 1]);
        let (decoded, _) = Message::decode(&bytes);
        assert!(matches!(decoded, Err(DecodeError::Truncated)));
    }

    // invalid message type
    {
        let mut bytes = Vec::from(&bytes[..]);
        bytes[1] = 5;
        let (decoded, _) = Message::decode(&bytes);
        assert!(matches!(decoded, Err(DecodeError::Invalid)));
    }
}

#[test]
fn request_packs_to_known_bytes() {
    // [0, 1234, "dummy", []]
    let bytes = dummy_request().pack().unwrap();
    assert_eq!(
        bytes,
        vec![0x94, 0x00, 0xcd, 0x04, 0xd2, 0xa5, b'd', b'u', b'm', b'm', b'y', 0x90]
    );
    let (decoded, consumed) = Message::decode(&bytes);
    assert_eq!(consumed, bytes.len());
    assert_eq!(decoded.unwrap(), dummy_request());
}

#[test]
fn decode_consumes_only_the_first_value() {
    let mut bytes = dummy_request().pack().unwrap();
    let len = bytes.len();
    bytes.extend_from_slice(&[0xc0, 0x01, 0x02]);
    let (decoded, consumed) = Message::decode(&bytes);
    assert_eq!(consumed, len);
    assert_eq!(decoded.unwrap(), dummy_request());
}

#[test]
fn response_round_trips() {
    let ok = Message::Response(Response {
        id: 7,
        result: Ok(Value::String(Utf8String::from_str("fine"))),
    });
    let (decoded, _) = Message::decode(&ok.pack().unwrap());
    assert_eq!(decoded.unwrap(), ok);

    let err = Message::Response(Response {
        id: u32::MAX,
        result: Err(Value::Integer(Integer::from_i64(-3))),
    });
    let (decoded, _) = Message::decode(&err.pack().unwrap());
    assert_eq!(decoded.unwrap(), err);
}

#[test]
fn response_with_nil_error_comes_back_as_success() {
    let msg = Message::Response(Response {
        id: 3,
        result: Err(Value::Nil),
    });
    let (decoded, _) = Message::decode(&msg.pack().unwrap());
    assert_eq!(
        decoded.unwrap(),
        Message::Response(Response {
            id: 3,
            result: Ok(Value::Nil)
        })
    );
}

#[test]
fn notification_round_trips() {
    let msg = Message::Notification(Notification::new(
        "ping",
        &[Value::Boolean(true), Value::F64(1.5f64.to_bits()), Value::F32(f32::NAN.to_bits())],
    ));
    let bytes = msg.pack().unwrap();
    let (decoded, consumed) = Message::decode(&bytes);
    assert_eq!(consumed, bytes.len());
    // a NaN equals nothing, so the parameters are compared by their bits
    match decoded.unwrap() {
        Message::Notification(n) => {
            assert_eq!(n.method, "ping");
            assert_eq!(n.params.len(), 3);
            assert_eq!(n.params[0], Value::Boolean(true));
            assert_eq!(n.params[1], Value::F64(1.5f64.to_bits()));
            assert!(matches!(n.params[2], Value::F32(b) if b == f32::NAN.to_bits()));
        }
        other => panic!("{:?}", other),
    }
}

#[test]
fn nested_values_round_trip() {
    let inner = Value::Mapping(vec![
        (
            Value::String(Utf8String::from_str("k")),
            Value::Array(vec![Value::Nil, Value::Binary(vec![1, 2, 3])]),
        ),
        (Value::Integer(Integer::from_u64(u64::MAX)), Value::Ext(-2, vec![9; 5])),
    ]);
    let msg = Message::Request(Request::new("nested", &[inner.clone(), inner]));
    let (decoded, _) = Message::decode(&msg.pack().unwrap());
    assert_eq!(decoded.unwrap(), msg);
}

#[test]
fn ids_beyond_32_bits_are_invalid() {
    // [0, 2^32, "m", []]
    let request = vec![0x94, 0x00, 0xcf, 0, 0, 0, 1, 0, 0, 0, 0, 0xa1, b'm', 0x90];
    let (decoded, consumed) = Message::decode(&request);
    assert!(matches!(decoded, Err(DecodeError::Invalid)));
    assert_eq!(consumed, request.len());
    // [1, 2^32 + 5, nil, true]
    let response = vec![0x94, 0x01, 0xcf, 0, 0, 0, 1, 0, 0, 0, 5, 0xc0, 0xc3];
    let (decoded, _) = Message::decode(&response);
    assert!(matches!(decoded, Err(DecodeError::Invalid)));
    // [0, 2^32 - 1, "m", []] is the largest id
    let largest = vec![0x94, 0x00, 0xce, 0xff, 0xff, 0xff, 0xff, 0xa1, b'm', 0x90];
    let (decoded, _) = Message::decode(&largest);
    assert_eq!(
        decoded.unwrap(),
        Message::Request(Request {
            id: u32::MAX,
            method: "m".to_string(),
            params: vec![]
        })
    );
}

#[test]
fn invalid_shapes_are_invalid() {
    let cases: Vec<Vec<u8>> = vec![
        vec![0x00],                         // not an array
        vec![0x92, 0x00, 0x00],             // too short
        vec![0x93, 0xa1, b'x', 0x00, 0x90], // type is not an integer
        vec![0x93, 0x00, 0x01, 0xa1, b'm'], // request with three items
        vec![0x94, 0x00, 0xff, 0xa1, b'm', 0x90], // negative id
        vec![0x94, 0x00, 0x01, 0x02, 0x90], // method is not a string
        vec![0x94, 0x00, 0x01, 0xa1, b'm', 0xc0], // params are not an array
        vec![0x93, 0x02, 0xa1, b'm', 0xc0], // notification params are not an array
        vec![0x93, 0x01, 0x01, 0xc0],       // successful response without a result
        vec![0x93, 0x01, 0x05, 0xa1, b'e'], // failed response without a result slot
        vec![0x92, 0x01, 0x05],             // response with two items
        vec![0x94, 0x03, 0x01, 0xc0, 0xc0], // unknown message type
    ];
    for bytes in cases {
        let (decoded, consumed) = Message::decode(&bytes);
        assert!(matches!(decoded, Err(DecodeError::Invalid)), "{:?}", bytes);
        assert!(consumed >= 1);
    }
}

#[test]
fn invalid_utf8_method_is_invalid() {
    // [2, "\xff", []] with a string whose bytes are not UTF-8
    let bytes = vec![0x93, 0x02, 0xa1, 0xff, 0x90];
    let (decoded, _) = Message::decode(&bytes);
    assert!(matches!(decoded, Err(DecodeError::Invalid)));
}

#[test]
fn empty_input_is_truncated() {
    let (decoded, consumed) = Message::decode(&[]);
    assert!(matches!(decoded, Err(DecodeError::Truncated)));
    assert_eq!(consumed, 0);
}

#[test]
fn too_deep_values_fail_with_an_io_error() {
    let bytes = vec![0x91; 2000];
    let (decoded, _) = Message::decode(&bytes);
    assert!(matches!(decoded, Err(DecodeError::UnknownIo(_))));
}

#[test]
fn responses_need_four_items() {
    for error in [Value::Nil, Value::Boolean(false)] {
        let three = Value::Array(vec![
            Value::Integer(Integer::from_u64(1)),
            Value::Integer(Integer::from_u64(2)),
            error,
        ]);
        assert!(matches!(Message::from_value(&three), Err(DecodeError::Invalid)));
    }
    let four = Value::Array(vec![
        Value::Integer(Integer::from_u64(1)),
        Value::Integer(Integer::from_u64(2)),
        Value::Boolean(false),
        Value::Nil,
    ]);
    assert_eq!(
        Message::from_value(&four).unwrap(),
        Message::Response(Response {
            id: 2,
            result: Err(Value::Boolean(false))
        })
    );
}

#[test]
fn bytes_after_a_read_value_do_not_change_the_outcome() {
    // [1, 5, "e"]: a whole value that is not a message
    let invalid = vec![0x93, 0x01, 0x05, 0xa1, b'e'];
    let mut longer = invalid.clone();
    longer.extend_from_slice(&[0xc0, 0x94]);
    let (decoded, consumed) = Message::decode(&longer);
    assert!(matches!(decoded, Err(DecodeError::Invalid)));
    assert_eq!(consumed, invalid.len());
    for k in 0..invalid.len() {
        let (decoded, _) = Message::decode(&invalid[..k]);
        assert!(matches!(decoded, Err(DecodeError::Truncated)), "{}", k);
    }
}

#[test]
fn as_value_has_the_specified_shape() {
    let msg = Message::Notification(Notification {
        method: "n".to_string(),
        params: vec![Value::Nil],
    });
    assert_eq!(
        msg.as_value(),
        Value::Array(vec![
            Value::Integer(Integer::from_u64(2)),
            Value::String(Utf8String::from_str("n")),
            Value::Array(vec![Value::Nil]),
        ])
    );
}

#[test]
fn error_descriptions() {
    assert_eq!(
        DecodeError::Truncated.description(),
        "could not read enough bytes to decode a complete message"
    );
    assert_eq!(
        DecodeError::Invalid.description(),
        "the byte sequence is not a valid msgpack-rpc message"
    );
    let io = DecodeError::UnknownIo(std::io::Error::new(std::io::ErrorKind::Other, "x"));
    assert_eq!(io.description(), "Unknown IO error while decoding a message");
    assert_eq!(io.error_kind(), DecodeErrorKind::UnknownIo);
}
