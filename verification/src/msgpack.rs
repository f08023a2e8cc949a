//! Reading and writing MessagePack values, which the `rmpv` crate does.
//!
//! The byte format itself is rmpv's work: the functions here call it, and their contracts are
//! trusted. What they claim is stated over two names, [`msgpack_read`] and [`msgpack_encoding`],
//! plus the facts that the rest of the library needs about them: a read never goes past the end
//! of the input, and reading back what was written gives the written value.
use crate::errors::{io_error_kind_class, IoErrorClass};
use crate::value::{Integer, IntPriv, SpecValue, Utf8String, Value};
use rmpv::Integer as RmpInteger;
use rmpv::Utf8String as RmpUtf8String;
use rmpv::Value as RmpValue;

use vstd::prelude::*;

verus! {

#[verifier::external_type_specification]
#[verifier::external_body]
pub struct ExRmpValue(RmpValue);

#[verifier::external_type_specification]
#[verifier::external_body]
pub struct ExRmpInteger(RmpInteger);

#[verifier::external_type_specification]
#[verifier::external_body]
pub struct ExRmpUtf8String(RmpUtf8String);

#[verifier::external_type_specification]
#[verifier::external_body]
pub struct ExIoError(std::io::Error);

/// How reading one value from the front of a byte sequence ends.
pub enum SpecRead {
    /// A whole value was read.
    Value(SpecValue),
    /// The bytes ran out before the value was complete.
    EndOfInput,
    /// Reading stopped for another reason (the value is nested too deeply).
    Failure,
}

/// How rmpv's `read_value` ends on a byte sequence, and how many bytes it has consumed then.
pub uninterp spec fn msgpack_read(bytes: Seq<u8>) -> (SpecRead, nat);

/// The bytes that rmpv's `write_value` produces for a value.
pub uninterp spec fn msgpack_encoding(v: SpecValue) -> Seq<u8>;

/// Whether rmpv reads `v` back when it enters it with `depth` steps left on its depth counter,
/// and whether `v` fits the format: strings are valid UTF-8 and every length (a string's in UTF-8
/// bytes) fits the format's 32-bit length fields.
///
/// rmpv takes one step to enter any value; one more to enter the items of an array or map, of
/// which each is entered with what is left; one more to read the bytes of a binary value; two more
/// to read those of a string or an extension value. It stops where no step is left.
pub open spec fn fits_encoding(v: SpecValue, depth: nat) -> bool
    decreases v,
{
    match v {
        SpecValue::String(s) => match s {
            Ok(t) => depth >= 3 && vstd::utf8::encode_utf8(t).len() <= u32::MAX,
            Err(_) => false,
        },
        SpecValue::Binary(b) => depth >= 2 && b.len() <= u32::MAX,
        SpecValue::Ext(_, d) => depth >= 3 && d.len() <= u32::MAX,
        SpecValue::Array(a) => {
            &&& depth >= 2
            &&& a.len() <= u32::MAX
            &&& forall|i: int| 0 <= i < a.len() ==> fits_encoding(#[trigger] a[i], (depth - 2) as nat)
        },
        SpecValue::Mapping(m) => {
            &&& depth >= 2
            &&& m.len() <= u32::MAX
            &&& forall|i: int|
                0 <= i < m.len() ==> fits_encoding(#[trigger] m[i].0, (depth - 2) as nat)
                    && fits_encoding(m[i].1, (depth - 2) as nat)
        },
        _ => depth >= 1,
    }
}

/// The values that rmpv reads back exactly as they were written: those that fit the format,
/// within rmpv's depth counter of 1024 steps.
pub open spec fn encodable(v: SpecValue) -> bool {
    fits_encoding(v, 1024)
}

/// An error that rmpv reports while reading a value from a byte slice.
pub struct ReadError {
    /// Whether the bytes ran out.
    pub end_of_input: bool,
    /// How many bytes were consumed before the error.
    pub consumed: usize,
    /// The error as rmpv reports it.
    pub error: std::io::Error,
}

/// Calls `rmpv::decode::read_value` on the front of `bytes`.
///
/// Claims that the outcome and the number of bytes consumed are `msgpack_read(bytes)`, that no
/// more bytes than there are get consumed, and that a value takes at least one byte. A read from
/// a byte slice fails only by running out of bytes or by nesting too deeply (rmpv's depth limit),
/// and `end_of_input` tells which; the error's kind is then `UnexpectedEof` or `Unsupported`.
/// rmpv reads a value front to back and stops at its end: where a whole value was read, the same
/// bytes followed by anything else read the same, and every strict prefix of them runs out.
#[verifier::external_body]
pub(crate) fn read_value(bytes: &[u8]) -> (r: Result<(Value, usize), ReadError>)
    ensures
        match r {
            Ok((v, n)) => msgpack_read(bytes@) == (SpecRead::Value(v@), n as nat),
            Err(e) => msgpack_read(bytes@) == (
                if e.end_of_input {
                    SpecRead::EndOfInput
                } else {
                    SpecRead::Failure
                },
                e.consumed as nat,
            ),
        },
        match r {
            Ok((_, n)) => 1 <= n <= bytes@.len(),
            Err(e) => e.consumed <= bytes@.len(),
        },
        r matches Err(e) ==> io_error_kind_class(e.error) == (if e.end_of_input {
            IoErrorClass::UnexpectedEof
        } else {
            IoErrorClass::Else
        }),
        r matches Ok((v, n)) ==> forall|rest: Seq<u8>| #[trigger]
            msgpack_read(bytes@.take(n as int) + rest) == (SpecRead::Value(v@), n as nat),
        r matches Ok((v, n)) ==> forall|k: int|
            0 <= k < n ==> (#[trigger] msgpack_read(bytes@.take(k))).0 == SpecRead::EndOfInput,
{
    let mut cursor = std::io::Cursor::new(bytes);
    let res = rmpv::decode::read_value(&mut cursor);
    let consumed = cursor.position() as usize;
    match res {
        Ok(v) => Ok((from_rmpv(v), consumed)),
        Err(e) => Err(ReadError {
            end_of_input: e.kind() == std::io::ErrorKind::UnexpectedEof,
            consumed,
            error: std::io::Error::from(e),
        }),
    }
}

/// Calls `rmpv::encode::write_value` into a fresh vector (writing to a vector cannot fail).
///
/// Claims that the bytes are `msgpack_encoding(v)`, that they are not empty, and, for a value
/// within the format's limits, that reading them back, whatever follows them, gives `v` and
/// consumes exactly them, while reading a strict prefix of them runs out of input.
#[verifier::external_body]
pub(crate) fn write_value(v: &Value) -> (r: Vec<u8>)
    ensures
        r@ == msgpack_encoding(v@),
        r@.len() >= 1,
        encodable(v@) ==> forall|rest: Seq<u8>| #[trigger]
            msgpack_read(r@ + rest) == (SpecRead::Value(v@), r@.len()),
        encodable(v@) ==> forall|k: int|
            0 <= k < r@.len() ==> (#[trigger] msgpack_read(r@.take(k))).0 == SpecRead::EndOfInput,
{
    let mut buf: Vec<u8> = Vec::new();
    let _ = rmpv::encode::write_value(&mut buf, &to_rmpv(v));
    buf
}

/// Converts an rmpv value into the library's value, variant for variant (floats by their bits).
#[verifier::external_body]
fn from_rmpv(v: RmpValue) -> Value {
    match v {
        RmpValue::Nil => Value::Nil,
        RmpValue::Boolean(b) => Value::Boolean(b),
        RmpValue::Integer(i) => Value::Integer(integer_from_rmpv(i)),
        RmpValue::F32(x) => Value::F32(x.to_bits()),
        RmpValue::F64(x) => Value::F64(x.to_bits()),
        RmpValue::String(s) => Value::String(utf8_from_rmpv(s)),
        RmpValue::Binary(b) => Value::Binary(b),
        RmpValue::Array(a) => Value::Array(a.into_iter().map(from_rmpv).collect()),
        RmpValue::Map(m) => Value::Mapping(pairs_from_rmpv(m)),
        RmpValue::Ext(t, d) => Value::Ext(t, d),
    }
}

/// Converts the pairs of an rmpv map into the library's pairs, pair for pair.
#[verifier::external_body]
fn pairs_from_rmpv(m: Vec<(RmpValue, RmpValue)>) -> Vec<(Value, Value)> {
    m.into_iter().map(|(k, x)| (from_rmpv(k), from_rmpv(x))).collect()
}

/// Converts an rmpv integer, told apart by `as_u64`, into the library's integer.
#[verifier::external_body]
fn integer_from_rmpv(i: RmpInteger) -> Integer {
    match i.as_u64() {
        Some(n) => Integer::from_u64(n),
        None => Integer::from_i64(i.as_i64().unwrap_or(-1)),
    }
}

/// Converts an rmpv string into the library's string: its text, or its bytes where it is not
/// valid UTF-8.
#[verifier::external_body]
fn utf8_from_rmpv(s: RmpUtf8String) -> Utf8String {
    match s.is_str() {
        true => Utf8String { s: Ok(s.into_str().unwrap_or_default()) },
        false => Utf8String { s: Err(s.into_bytes()) },
    }
}

/// Converts the library's value into an rmpv value, variant for variant (floats from their bits).
/// A string that is not valid UTF-8 becomes binary data, which is how rmpv writes such a string.
#[verifier::external_body]
fn to_rmpv(v: &Value) -> RmpValue {
    match v {
        Value::Nil => RmpValue::Nil,
        Value::Boolean(b) => RmpValue::Boolean(*b),
        Value::Integer(i) => RmpValue::Integer(integer_to_rmpv(i)),
        Value::F32(b) => RmpValue::F32(num_traits::FromBytes::from_be_bytes(&b.to_be_bytes())),
        Value::F64(b) => RmpValue::F64(num_traits::FromBytes::from_be_bytes(&b.to_be_bytes())),
        Value::String(s) => utf8_to_rmpv(s),
        Value::Binary(b) => RmpValue::Binary(b.clone()),
        Value::Array(a) => RmpValue::Array(a.iter().map(to_rmpv).collect()),
        Value::Mapping(m) => RmpValue::Map(pairs_to_rmpv(m)),
        Value::Ext(t, d) => RmpValue::Ext(*t, d.clone()),
    }
}

/// Converts the library's pairs into the pairs of an rmpv map, pair for pair.
#[verifier::external_body]
fn pairs_to_rmpv(m: &Vec<(Value, Value)>) -> Vec<(RmpValue, RmpValue)> {
    m.iter().map(|(k, x)| (to_rmpv(k), to_rmpv(x))).collect()
}

/// Converts the library's integer into an rmpv integer.
#[verifier::external_body]
fn integer_to_rmpv(i: &Integer) -> RmpInteger {
    match i.n {
        IntPriv::PosInt(n) => RmpInteger::from(n),
        IntPriv::NegInt(n) => RmpInteger::from(n),
    }
}

/// Converts the library's string into an rmpv value: a string, or binary data where it is not
/// valid UTF-8.
#[verifier::external_body]
fn utf8_to_rmpv(s: &Utf8String) -> RmpValue {
    match &s.s {
        Ok(t) => RmpValue::String(RmpUtf8String::from(t.as_str())),
        Err(b) => RmpValue::Binary(b.clone()),
    }
}

} // verus!
