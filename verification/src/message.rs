//! `MessagePack-RPC` messages: requests, responses and notifications, their form as MessagePack
//! values, and their encoding as bytes.
//!
//! A message is an array: `[0, id, method, params]` for a request, `[1, id, error, result]` for a
//! response, and `[2, method, params]` for a notification.
use crate::errors::{io_error_kind_class, DecodeError, DecodeErrorKind, IoErrorClass};
use crate::msgpack::{encodable, msgpack_encoding, msgpack_read, read_value, write_value, SpecRead};
use crate::value::{
    duplicate_values, lemma_array_view, values_view, Integer, SpecValue, Utf8String, Value,
};

use vstd::prelude::*;

verus! {

/// The message type of a request.
pub const REQUEST_MESSAGE: u64 = 0;

/// The message type of a response.
pub const RESPONSE_MESSAGE: u64 = 1;

/// The message type of a notification.
pub const NOTIFICATION_MESSAGE: u64 = 2;

/// A message that a client sends to a server when it expects a response. Sending a request is
/// like calling a method: it includes a method name and an array of parameters. The response is
/// like the return value.
#[derive(Debug, PartialEq)]
pub struct Request {
    /// The `id` is used to associate a response with a request. If a client sends a request with
    /// a particular `id`, the server should send a response with the same `id`.
    pub id: u32,
    /// A string representing the method name.
    pub method: String,
    /// An array of parameters to the method.
    pub params: Vec<Value>,
}

/// The message that a server sends back after a client sent a [`Request`].
#[derive(Debug, PartialEq)]
pub struct Response {
    /// The `id` of the [`Request`] that triggered this response.
    pub id: u32,
    /// The result of the [`Request`] that triggered this response.
    pub result: Result<Value, Value>,
}

/// A message that a client sends to a server when it doesn't expect a response: a method name
/// and an array of parameters.
#[derive(Debug, PartialEq)]
pub struct Notification {
    /// A string representing the method name.
    pub method: String,
    /// An array of parameters to the method.
    pub params: Vec<Value>,
}

/// A `MessagePack-RPC` message.
#[derive(Debug, PartialEq)]
pub enum Message {
    Request(Request),
    Response(Response),
    Notification(Notification),
}

impl Clone for Request {
    fn clone(&self) -> (r: Self)
        ensures
            r@ == self@,
    {
        Request { id: self.id, method: self.method.clone(), params: duplicate_values(&self.params) }
    }
}

impl Clone for Response {
    fn clone(&self) -> (r: Self)
        ensures
            r@ == self@,
    {
        let result = match &self.result {
            Ok(v) => Ok(v.duplicate()),
            Err(e) => Err(e.duplicate()),
        };
        Response { id: self.id, result }
    }
}

impl Clone for Notification {
    fn clone(&self) -> (r: Self)
        ensures
            r@ == self@,
    {
        Notification { method: self.method.clone(), params: duplicate_values(&self.params) }
    }
}

impl Clone for Message {
    fn clone(&self) -> (r: Self)
        ensures
            r@ == self@,
    {
        match self {
            Message::Request(r) => Message::Request(r.clone()),
            Message::Response(r) => Message::Response(r.clone()),
            Message::Notification(n) => Message::Notification(n.clone()),
        }
    }
}

/// The mathematical form of a request.
pub struct SpecRequest {
    pub id: u32,
    pub method: Seq<char>,
    pub params: Seq<SpecValue>,
}

/// The mathematical form of a response.
pub struct SpecResponse {
    pub id: u32,
    pub result: Result<SpecValue, SpecValue>,
}

/// The mathematical form of a notification.
pub struct SpecNotification {
    pub method: Seq<char>,
    pub params: Seq<SpecValue>,
}

/// The mathematical form of a message.
pub enum SpecMessage {
    Request(SpecRequest),
    Response(SpecResponse),
    Notification(SpecNotification),
}

impl View for Request {
    type V = SpecRequest;

    open spec fn view(&self) -> SpecRequest {
        SpecRequest { id: self.id, method: self.method@, params: values_view(self.params@) }
    }
}

impl View for Response {
    type V = SpecResponse;

    open spec fn view(&self) -> SpecResponse {
        SpecResponse {
            id: self.id,
            result: match self.result {
                Ok(v) => Ok(v@),
                Err(e) => Err(e@),
            },
        }
    }
}

impl View for Notification {
    type V = SpecNotification;

    open spec fn view(&self) -> SpecNotification {
        SpecNotification { method: self.method@, params: values_view(self.params@) }
    }
}

impl View for Message {
    type V = SpecMessage;

    open spec fn view(&self) -> SpecMessage {
        match self {
            Message::Request(r) => SpecMessage::Request(r@),
            Message::Response(r) => SpecMessage::Response(r@),
            Message::Notification(n) => SpecMessage::Notification(n@),
        }
    }
}

/// The MessagePack value that a message is sent as.
pub open spec fn spec_as_value(m: SpecMessage) -> SpecValue {
    match m {
        SpecMessage::Request(r) => SpecValue::Array(
            seq![
                SpecValue::Integer(REQUEST_MESSAGE as int),
                SpecValue::Integer(r.id as int),
                SpecValue::String(Ok(r.method)),
                SpecValue::Array(r.params),
            ],
        ),
        SpecMessage::Response(r) => SpecValue::Array(
            seq![
                SpecValue::Integer(RESPONSE_MESSAGE as int),
                SpecValue::Integer(r.id as int),
                match r.result {
                    Ok(_) => SpecValue::Nil,
                    Err(e) => e,
                },
                match r.result {
                    Ok(v) => v,
                    Err(_) => SpecValue::Nil,
                },
            ],
        ),
        SpecMessage::Notification(n) => SpecValue::Array(
            seq![
                SpecValue::Integer(NOTIFICATION_MESSAGE as int),
                SpecValue::String(Ok(n.method)),
                SpecValue::Array(n.params),
            ],
        ),
    }
}

/// The id that a request or response carries in `v`: a non-negative integer that fits in 32
/// bits. Any other value, a larger integer too, carries no id.
pub open spec fn spec_id(v: SpecValue) -> Option<u32> {
    match v {
        SpecValue::Integer(i) => if 0 <= i <= u32::MAX {
            Some(i as u32)
        } else {
            None
        },
        _ => None,
    }
}

/// The method name that `v` carries: the text of a valid string.
pub open spec fn spec_method(v: SpecValue) -> Option<Seq<char>> {
    match v {
        SpecValue::String(Ok(s)) => Some(s),
        _ => None,
    }
}

/// The parameters that `v` carries: the items of an array.
pub open spec fn spec_params(v: SpecValue) -> Option<Seq<SpecValue>> {
    match v {
        SpecValue::Array(p) => Some(p),
        _ => None,
    }
}

/// The request that the items `a` of a message array describe.
pub open spec fn spec_request_from(a: Seq<SpecValue>) -> Result<SpecMessage, DecodeErrorKind> {
    if a.len() < 4 {
        Err(DecodeErrorKind::Invalid)
    } else {
        match (spec_id(a[1]), spec_method(a[2]), spec_params(a[3])) {
            (Some(id), Some(method), Some(params)) => Ok(
                SpecMessage::Request(SpecRequest { id, method, params }),
            ),
            _ => Err(DecodeErrorKind::Invalid),
        }
    }
}

/// The response that the items `a` of a message array describe: four items, of which a nil
/// error means success, with the fourth item as the result; any other error is the error.
pub open spec fn spec_response_from(a: Seq<SpecValue>) -> Result<SpecMessage, DecodeErrorKind> {
    if a.len() < 4 {
        Err(DecodeErrorKind::Invalid)
    } else {
        match spec_id(a[1]) {
            Some(id) => match a[2] {
                SpecValue::Nil => Ok(SpecMessage::Response(SpecResponse { id, result: Ok(a[3]) })),
                e => Ok(SpecMessage::Response(SpecResponse { id, result: Err(e) })),
            },
            None => Err(DecodeErrorKind::Invalid),
        }
    }
}

/// The notification that the items `a` of a message array describe.
pub open spec fn spec_notification_from(a: Seq<SpecValue>) -> Result<
    SpecMessage,
    DecodeErrorKind,
> {
    if a.len() < 3 {
        Err(DecodeErrorKind::Invalid)
    } else {
        match (spec_method(a[1]), spec_params(a[2])) {
            (Some(method), Some(params)) => Ok(
                SpecMessage::Notification(SpecNotification { method, params }),
            ),
            _ => Err(DecodeErrorKind::Invalid),
        }
    }
}

/// The message that a MessagePack value describes, or `Invalid`: an array of at least three items
/// whose first item is the message type.
pub open spec fn spec_message_from_value(v: SpecValue) -> Result<SpecMessage, DecodeErrorKind> {
    match v {
        SpecValue::Array(a) => if a.len() < 3 {
            Err(DecodeErrorKind::Invalid)
        } else {
            match a[0] {
                SpecValue::Integer(t) => if t == REQUEST_MESSAGE {
                    spec_request_from(a)
                } else if t == RESPONSE_MESSAGE {
                    spec_response_from(a)
                } else if t == NOTIFICATION_MESSAGE {
                    spec_notification_from(a)
                } else {
                    Err(DecodeErrorKind::Invalid)
                },
                _ => Err(DecodeErrorKind::Invalid),
            }
        },
        _ => Err(DecodeErrorKind::Invalid),
    }
}

/// What decoding a message from the front of `bytes` gives: the message or the kind of error,
/// and how many bytes the read consumed.
pub open spec fn spec_decode(bytes: Seq<u8>) -> (Result<SpecMessage, DecodeErrorKind>, nat) {
    let (read, n) = msgpack_read(bytes);
    match read {
        SpecRead::Value(v) => (spec_message_from_value(v), n),
        SpecRead::EndOfInput => (Err(DecodeErrorKind::Truncated), n),
        SpecRead::Failure => (Err(DecodeErrorKind::UnknownIo), n),
    }
}

/// Whether a message is one that decoding gives back exactly: its value stays within the
/// format's limits, and it is not a failed response whose error is nil (that one is sent like a
/// successful response with a nil result).
pub open spec fn spec_round_trips(m: SpecMessage) -> bool {
    &&& encodable(spec_as_value(m))
    &&& !(m matches SpecMessage::Response(r) && r.result matches Err(e) && e is Nil)
}

/// The outcome of decoding, as plain data, where a `Result` of the library holds a message.
pub open spec fn spec_outcome(r: Result<Message, DecodeError>) -> Result<SpecMessage, DecodeErrorKind> {
    match r {
        Ok(m) => Ok(m@),
        Err(e) => Err(e.kind()),
    }
}

/// Decoding the value that a message is sent as gives back the message, unless the message is
/// a failed response whose error is nil.
pub proof fn lemma_message_value_round_trip(m: SpecMessage)
    requires
        !(m matches SpecMessage::Response(r) && r.result matches Err(e) && e is Nil),
    ensures
        spec_message_from_value(spec_as_value(m)) == Ok::<SpecMessage, DecodeErrorKind>(m),
{
}

/// The value a message is sent as: an array whose first item is the message type, 0 for a
/// request, 1 for a response and 2 for a notification, followed by the message's fields in
/// order. A request's parameters and a notification's are sent as an array of the same items in
/// the same order; a response carries nil in the slot it does not use.
pub proof fn lemma_sent_value_layout(m: SpecMessage)
    ensures
        spec_as_value(m) is Array,
        m matches SpecMessage::Request(r) ==> {
            let a = spec_as_value(m)->Array_0;
            &&& a.len() == 4
            &&& a[0] == SpecValue::Integer(0)
            &&& a[1] == SpecValue::Integer(r.id as int)
            &&& a[2] == SpecValue::String(Ok(r.method))
            &&& a[3] == SpecValue::Array(r.params)
        },
        m matches SpecMessage::Response(r) ==> {
            let a = spec_as_value(m)->Array_0;
            &&& a.len() == 4
            &&& a[0] == SpecValue::Integer(1)
            &&& a[1] == SpecValue::Integer(r.id as int)
            &&& r.result matches Ok(v) ==> a[2] == SpecValue::Nil && a[3] == v
            &&& r.result matches Err(e) ==> a[2] == e && a[3] == SpecValue::Nil
        },
        m matches SpecMessage::Notification(n) ==> {
            let a = spec_as_value(m)->Array_0;
            &&& a.len() == 3
            &&& a[0] == SpecValue::Integer(2)
            &&& a[1] == SpecValue::String(Ok(n.method))
            &&& a[2] == SpecValue::Array(n.params)
        },
{
}

/// An array `[0, id, method, params]`, with an id that fits in 32 bits, a valid string and an
/// array, decodes as the request with that id, method and parameters, the parameters in the
/// order they were sent; items after the fourth are ignored.
pub proof fn lemma_decode_request(a: Seq<SpecValue>, id: u32, method: Seq<char>, params: Seq<SpecValue>)
    requires
        a.len() >= 4,
        a[0] == SpecValue::Integer(0),
        a[1] == SpecValue::Integer(id as int),
        a[2] == SpecValue::String(Ok(method)),
        a[3] == SpecValue::Array(params),
    ensures
        spec_message_from_value(SpecValue::Array(a)) == Ok::<SpecMessage, DecodeErrorKind>(
            SpecMessage::Request(SpecRequest { id, method, params }),
        ),
{
}

/// An array `[1, id, error, result]` with an id that fits in 32 bits decodes as the response
/// with that id: a success with `result` where `error` is nil, a failure with `error` otherwise.
pub proof fn lemma_decode_response(a: Seq<SpecValue>, id: u32)
    requires
        a.len() >= 4,
        a[0] == SpecValue::Integer(1),
        a[1] == SpecValue::Integer(id as int),
    ensures
        spec_message_from_value(SpecValue::Array(a)) == Ok::<SpecMessage, DecodeErrorKind>(
            SpecMessage::Response(SpecResponse {
                id,
                result: if a[2] is Nil {
                    Ok(a[3])
                } else {
                    Err(a[2])
                },
            }),
        ),
{
}

/// An array `[2, method, params]` with a valid string and an array decodes as the notification
/// with that method and those parameters, in order.
pub proof fn lemma_decode_notification(a: Seq<SpecValue>, method: Seq<char>, params: Seq<SpecValue>)
    requires
        a.len() >= 3,
        a[0] == SpecValue::Integer(2),
        a[1] == SpecValue::String(Ok(method)),
        a[2] == SpecValue::Array(params),
    ensures
        spec_message_from_value(SpecValue::Array(a)) == Ok::<SpecMessage, DecodeErrorKind>(
            SpecMessage::Notification(SpecNotification { method, params }),
        ),
{
}

/// Only 0, 1 and 2 are message types: a value that is not an array, or an array whose first
/// item is not one of them, is `Invalid`; so is a request or response whose id is not an
/// integer from 0 to `u32::MAX`, and an array too short for its type.
pub proof fn lemma_decode_rejects(v: SpecValue)
    ensures
        !(v is Array) ==> spec_message_from_value(v) == Err::<SpecMessage, DecodeErrorKind>(
            DecodeErrorKind::Invalid,
        ),
        v matches SpecValue::Array(a) ==> {
            &&& (a.len() == 0 || !(a[0] == SpecValue::Integer(0) || a[0] == SpecValue::Integer(1)
                || a[0] == SpecValue::Integer(2))) ==> spec_message_from_value(v) == Err::<
                SpecMessage,
                DecodeErrorKind,
            >(DecodeErrorKind::Invalid)
            &&& (a.len() >= 2 && (a[0] == SpecValue::Integer(0) || a[0] == SpecValue::Integer(1))
                && !(a[1] matches SpecValue::Integer(i) && 0 <= i <= u32::MAX))
                ==> spec_message_from_value(v) == Err::<SpecMessage, DecodeErrorKind>(
                DecodeErrorKind::Invalid,
            )
            &&& ((a.len() < 4 && a.len() >= 1 && (a[0] == SpecValue::Integer(0) || a[0]
                == SpecValue::Integer(1))) || a.len() < 3) ==> spec_message_from_value(v)
                == Err::<SpecMessage, DecodeErrorKind>(DecodeErrorKind::Invalid)
        },
{
}

/// The id carried by `v`, where it carries one.
fn decode_id(v: &Value) -> (r: Option<u32>)
    ensures
        r == spec_id(v@),
{
    match v {
        Value::Integer(i) => match i.as_u64() {
            Some(id) => if id <= 0xffff_ffff {
                Some(id as u32)
            } else {
                None
            },
            None => None,
        },
        _ => None,
    }
}

/// The method name carried by `v`, where it carries one.
fn decode_method(v: &Value) -> (r: Option<String>)
    ensures
        match spec_method(v@) {
            Some(m) => r is Some && r->0@ == m,
            None => r is None,
        },
{
    match v {
        Value::String(s) => match s.as_str() {
            Some(text) => Some(text.to_owned()),
            None => None,
        },
        _ => None,
    }
}

/// The parameters carried by `v`, where it carries them.
fn decode_params(v: &Value) -> (r: Option<Vec<Value>>)
    ensures
        match spec_params(v@) {
            Some(p) => r is Some && values_view(r->0@) == p,
            None => r is None,
        },
{
    match v {
        Value::Array(p) => {
            proof {
                lemma_array_view(*p);
            }
            Some(duplicate_values(p))
        },
        _ => None,
    }
}

impl Request {
    /// A request for `method` with `params`; its id is 0 until the client gives it one.
    pub fn new(method: &str, params: &[Value]) -> (r: Request)
        ensures
            r@ == (SpecRequest { id: 0, method: method@, params: values_view(params@) }),
    {
        let mut copied: Vec<Value> = Vec::new();
        let mut i: usize = 0;
        while i < params.len()
            invariant
                i <= params@.len(),
                copied@.len() == i,
                forall|j: int| 0 <= j < i ==> (#[trigger] copied@[j])@ == params@[j]@,
            decreases params@.len() - i,
        {
            copied.push(params[i].duplicate());
            i = i + 1;
        }
        assert(values_view(copied@) =~= values_view(params@));
        Request { id: 0, method: method.to_owned(), params: copied }
    }

    /// Decodes a request from the items of a message array.
    fn decode(array: &Vec<Value>) -> (r: Result<Request, DecodeError>)
        ensures
            spec_request_from(values_view(array@)) == (match r {
                Ok(req) => Ok(SpecMessage::Request(req@)),
                Err(e) => Err::<SpecMessage, DecodeErrorKind>(e.kind()),
            }),
    {
        if array.len() < 4 {
            return Err(DecodeError::Invalid);
        }
        let id = match decode_id(&array[1]) {
            Some(id) => id,
            None => return Err(DecodeError::Invalid),
        };
        let method = match decode_method(&array[2]) {
            Some(m) => m,
            None => return Err(DecodeError::Invalid),
        };
        let params = match decode_params(&array[3]) {
            Some(p) => p,
            None => return Err(DecodeError::Invalid),
        };
        Ok(Request { id, method, params })
    }
}

impl Response {
    /// Decodes a response from the items of a message array.
    fn decode(array: &Vec<Value>) -> (r: Result<Response, DecodeError>)
        ensures
            spec_response_from(values_view(array@)) == (match r {
                Ok(resp) => Ok(SpecMessage::Response(resp@)),
                Err(e) => Err::<SpecMessage, DecodeErrorKind>(e.kind()),
            }),
    {
        if array.len() < 4 {
            return Err(DecodeError::Invalid);
        }
        let id = match decode_id(&array[1]) {
            Some(id) => id,
            None => return Err(DecodeError::Invalid),
        };
        match &array[2] {
            Value::Nil => Ok(Response { id, result: Ok(array[3].duplicate()) }),
            error => Ok(Response { id, result: Err(error.duplicate()) }),
        }
    }
}

impl Notification {
    /// A notification for `method` with `params`.
    pub fn new(method: &str, params: &[Value]) -> (r: Notification)
        ensures
            r@ == (SpecNotification { method: method@, params: values_view(params@) }),
    {
        let mut copied: Vec<Value> = Vec::new();
        let mut i: usize = 0;
        while i < params.len()
            invariant
                i <= params@.len(),
                copied@.len() == i,
                forall|j: int| 0 <= j < i ==> (#[trigger] copied@[j])@ == params@[j]@,
            decreases params@.len() - i,
        {
            copied.push(params[i].duplicate());
            i = i + 1;
        }
        assert(values_view(copied@) =~= values_view(params@));
        Notification { method: method.to_owned(), params: copied }
    }

    /// Decodes a notification from the items of a message array.
    fn decode(array: &Vec<Value>) -> (r: Result<Notification, DecodeError>)
        ensures
            spec_notification_from(values_view(array@)) == (match r {
                Ok(n) => Ok(SpecMessage::Notification(n@)),
                Err(e) => Err::<SpecMessage, DecodeErrorKind>(e.kind()),
            }),
    {
        if array.len() < 3 {
            return Err(DecodeError::Invalid);
        }
        let method = match decode_method(&array[1]) {
            Some(m) => m,
            None => return Err(DecodeError::Invalid),
        };
        let params = match decode_params(&array[2]) {
            Some(p) => p,
            None => return Err(DecodeError::Invalid),
        };
        Ok(Notification { method, params })
    }
}

impl Message {
    /// Decodes the message that `value` describes.
    pub fn from_value(value: &Value) -> (r: Result<Message, DecodeError>)
        ensures
            spec_outcome(r) == spec_message_from_value(value@),
            r is Err ==> r->Err_0 is Invalid,
    {
        match value {
            Value::Array(array) => {
                proof {
                    lemma_array_view(*array);
                }
                if array.len() < 3 {
                    return Err(DecodeError::Invalid);
                }
                let msg_type = match &array[0] {
                    Value::Integer(t) => t.as_u64(),
                    _ => None,
                };
                match msg_type {
                    Some(t) => {
                        if t == REQUEST_MESSAGE {
                            match Request::decode(array) {
                                Ok(r) => Ok(Message::Request(r)),
                                Err(e) => Err(e),
                            }
                        } else if t == RESPONSE_MESSAGE {
                            match Response::decode(array) {
                                Ok(r) => Ok(Message::Response(r)),
                                Err(e) => Err(e),
                            }
                        } else if t == NOTIFICATION_MESSAGE {
                            match Notification::decode(array) {
                                Ok(n) => Ok(Message::Notification(n)),
                                Err(e) => Err(e),
                            }
                        } else {
                            Err(DecodeError::Invalid)
                        }
                    },
                    None => Err(DecodeError::Invalid),
                }
            },
            _ => Err(DecodeError::Invalid),
        }
    }

    /// Decodes one message from the front of `bytes`; also returns how many bytes the read of
    /// its MessagePack value consumed.
    ///
    /// Running out of bytes is `Truncated`; a value that is not a message is `Invalid`; a read
    /// that fails otherwise (the value is nested too deeply) is `UnknownIo`, with an error whose
    /// kind is neither `UnexpectedEof` nor `Other`.
    ///
    /// Where a whole value was read (the result is a message or `Invalid`), decoding only the
    /// bytes consumed, followed by anything else, gives the same; decoding fewer of them runs out
    /// of bytes.
    pub fn decode(bytes: &[u8]) -> (r: (Result<Message, DecodeError>, usize))
        ensures
            (spec_outcome(r.0), r.1 as nat) == spec_decode(bytes@),
            r.1 <= bytes@.len(),
            r.0 is Ok ==> r.1 >= 1,
            r.0 matches Err(e) && e is Invalid ==> r.1 >= 1,
            r.0 matches Err(DecodeError::UnknownIo(e)) ==> io_error_kind_class(e) == IoErrorClass::Else,
            (r.0 is Ok || r.0 matches Err(DecodeError::Invalid)) ==> forall|rest: Seq<u8>| #[trigger]
                spec_decode(bytes@.take(r.1 as int) + rest) == spec_decode(bytes@),
            (r.0 is Ok || r.0 matches Err(DecodeError::Invalid)) ==> forall|k: int|
                0 <= k < r.1 ==> (#[trigger] spec_decode(bytes@.take(k))).0 == Err::<
                    SpecMessage,
                    DecodeErrorKind,
                >(DecodeErrorKind::Truncated),
    {
        match read_value(bytes) {
            Ok((v, n)) => (Message::from_value(&v), n),
            Err(e) => {
                if e.end_of_input {
                    (Err(DecodeError::Truncated), e.consumed)
                } else {
                    (Err(DecodeError::UnknownIo(e.error)), e.consumed)
                }
            },
        }
    }

    /// The bytes that this message is sent as: the MessagePack encoding of its value.
    ///
    /// Decoding them gives the message back, whatever follows them, and consumes exactly them;
    /// decoding any strict prefix of them runs out of bytes. That holds of every message that
    /// round-trips (see [`spec_round_trips`]).
    pub fn pack(&self) -> (r: Result<Vec<u8>, std::io::Error>)
        ensures
            r is Ok,
            r->Ok_0@ == msgpack_encoding(spec_as_value(self@)),
            spec_round_trips(self@) ==> forall|rest: Seq<u8>| #[trigger]
                spec_decode(r->Ok_0@ + rest) == (Ok::<SpecMessage, DecodeErrorKind>(self@), r->Ok_0@.len()),
            spec_round_trips(self@) ==> forall|k: int|
                0 <= k < r->Ok_0@.len() ==> (#[trigger] spec_decode(r->Ok_0@.take(k))).0 == Err::<
                    SpecMessage,
                    DecodeErrorKind,
                >(DecodeErrorKind::Truncated),
    {
        let value = self.as_value();
        let bytes = write_value(&value);
        proof {
            if spec_round_trips(self@) {
                lemma_message_value_round_trip(self@);
                assert forall|rest: Seq<u8>| #[trigger]
                    spec_decode(bytes@ + rest) == (Ok::<SpecMessage, DecodeErrorKind>(self@), bytes@.len()) by {
                    assert(msgpack_read(bytes@ + rest) == (SpecRead::Value(value@), bytes@.len()));
                }
                assert forall|k: int| 0 <= k < bytes@.len() implies (#[trigger] spec_decode(bytes@.take(k))).0
                    == Err::<SpecMessage, DecodeErrorKind>(DecodeErrorKind::Truncated) by {
                    assert(msgpack_read(bytes@.take(k)).0 == SpecRead::EndOfInput);
                }
            }
        }
        Ok(bytes)
    }

    /// The MessagePack value that this message is sent as.
    pub fn as_value(&self) -> (r: Value)
        ensures
            r@ == spec_as_value(self@),
    {
        match self {
            Message::Request(req) => {
                let params = duplicate_values(&req.params);
                proof {
                    lemma_array_view(params);
                }
                let items = vec![
                    Value::Integer(Integer::from_u64(REQUEST_MESSAGE)),
                    Value::Integer(Integer::from_u32(req.id)),
                    Value::String(Utf8String::from_str(req.method.as_str())),
                    Value::Array(params),
                ];
                proof {
                    lemma_array_view(items);
                    assert(values_view(items@) =~= spec_as_value(self@)->Array_0);
                }
                Value::Array(items)
            },
            Message::Response(resp) => {
                let (error, result) = match &resp.result {
                    Ok(v) => (Value::Nil, v.duplicate()),
                    Err(e) => (e.duplicate(), Value::Nil),
                };
                let items = vec![
                    Value::Integer(Integer::from_u64(RESPONSE_MESSAGE)),
                    Value::Integer(Integer::from_u32(resp.id)),
                    error,
                    result,
                ];
                proof {
                    lemma_array_view(items);
                    assert(values_view(items@) =~= spec_as_value(self@)->Array_0);
                }
                Value::Array(items)
            },
            Message::Notification(note) => {
                let params = duplicate_values(&note.params);
                proof {
                    lemma_array_view(params);
                }
                let items = vec![
                    Value::Integer(Integer::from_u64(NOTIFICATION_MESSAGE)),
                    Value::String(Utf8String::from_str(note.method.as_str())),
                    Value::Array(params),
                ];
                proof {
                    lemma_array_view(items);
                    assert(values_view(items@) =~= spec_as_value(self@)->Array_0);
                }
                Value::Array(items)
            },
        }
    }
}

} // verus!
