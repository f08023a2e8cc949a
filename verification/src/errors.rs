//! Errors raised while decoding messages.
use std::error::Error;

use vstd::prelude::*;

verus! {

/// The three kinds of [`DecodeError`], as plain data.
#[derive(Clone, Copy, Debug, PartialEq, Eq, Structural)]
pub enum DecodeErrorKind {
    Truncated,
    Invalid,
    UnknownIo,
}

/// The kinds of I/O error that decoding tells apart.
#[derive(Clone, Copy, Debug, PartialEq, Eq, Structural)]
pub enum IoErrorClass {
    /// `std::io::ErrorKind::UnexpectedEof`: the bytes ran out.
    UnexpectedEof,
    /// `std::io::ErrorKind::Other`.
    Other,
    /// Any other kind.
    Else,
}

/// Error while decoding a sequence of bytes into a `MessagePack-RPC` message.
#[derive(Debug)]
pub enum DecodeError {
    /// Some bytes are missing to decode a full msgpack value.
    Truncated,
    /// A byte sequence could not be decoded as a msgpack value, or this value is not a valid
    /// msgpack-rpc message.
    Invalid,
    /// An unknown IO error while reading a byte sequence.
    UnknownIo(std::io::Error),
}

/// The text that describes each kind of decoding error.
pub open spec fn spec_description(kind: DecodeErrorKind) -> Seq<char> {
    match kind {
        DecodeErrorKind::Truncated => "could not read enough bytes to decode a complete message"@,
        DecodeErrorKind::UnknownIo => "Unknown IO error while decoding a message"@,
        DecodeErrorKind::Invalid => "the byte sequence is not a valid msgpack-rpc message"@,
    }
}

impl DecodeError {
    /// Which kind of error this is.
    pub open spec fn kind(&self) -> DecodeErrorKind {
        match self {
            DecodeError::Truncated => DecodeErrorKind::Truncated,
            DecodeError::Invalid => DecodeErrorKind::Invalid,
            DecodeError::UnknownIo(_) => DecodeErrorKind::UnknownIo,
        }
    }

    /// Which kind of error this is.
    pub fn error_kind(&self) -> (r: DecodeErrorKind)
        ensures
            r == self.kind(),
    {
        match self {
            DecodeError::Truncated => DecodeErrorKind::Truncated,
            DecodeError::Invalid => DecodeErrorKind::Invalid,
            DecodeError::UnknownIo(_) => DecodeErrorKind::UnknownIo,
        }
    }

    /// A sentence that describes the error.
    pub fn description(&self) -> (r: &'static str)
        ensures
            r@ == spec_description(self.kind()),
    {
        match self {
            DecodeError::Truncated => "could not read enough bytes to decode a complete message",
            DecodeError::UnknownIo(_) => "Unknown IO error while decoding a message",
            DecodeError::Invalid => "the byte sequence is not a valid msgpack-rpc message",
        }
    }
}

/// The decoding error for an I/O error, from its kind and from the text of the source of the
/// error that it wraps (`None` where the source is absent).
pub open spec fn spec_from_io(class: IoErrorClass, cause: Option<Seq<char>>) -> DecodeErrorKind {
    match class {
        IoErrorClass::UnexpectedEof => DecodeErrorKind::Truncated,
        IoErrorClass::Other => if cause == Some("type mismatch"@) {
            DecodeErrorKind::Invalid
        } else {
            DecodeErrorKind::UnknownIo
        },
        IoErrorClass::Else => DecodeErrorKind::UnknownIo,
    }
}

/// The class of what `std::io::Error::kind` returns for an error.
pub uninterp spec fn io_error_kind_class(e: std::io::Error) -> IoErrorClass;

/// The text of the source of the error that an I/O error wraps, as `std::io::Error::get_ref`,
/// `source` and `to_string` give it: `None` where no error is wrapped, `Some(None)` where the
/// wrapped error has no source.
pub uninterp spec fn io_error_cause_text(e: std::io::Error) -> Option<Option<Seq<char>>>;

/// The decoding error for an I/O error of class `class` whose wrapped error's source has the text
/// `cause` (see [`io_error_cause_text`]): an error of kind `Other` that wraps no error is kept as
/// `UnknownIo`.
pub open spec fn spec_from_io_error(class: IoErrorClass, cause: Option<Option<Seq<char>>>) -> DecodeErrorKind {
    if class == IoErrorClass::Other && cause is None {
        DecodeErrorKind::UnknownIo
    } else {
        spec_from_io(
            class,
            match cause {
                Some(Some(c)) => Some(c),
                _ => None,
            },
        )
    }
}

/// Calls `std::io::Error::kind` and sorts the kind into the classes that decoding tells apart.
#[verifier::external_body]
fn io_error_class(e: &std::io::Error) -> (r: IoErrorClass)
    ensures
        r == io_error_kind_class(*e),
{
    match e.kind() {
        std::io::ErrorKind::UnexpectedEof => IoErrorClass::UnexpectedEof,
        std::io::ErrorKind::Other => IoErrorClass::Other,
        _ => IoErrorClass::Else,
    }
}

/// Calls `std::io::Error::get_ref`, then `source` on the inner error and `to_string` on that
/// source: `None` where there is no inner error, `Some(None)` where it has no source. The three
/// calls stand together because the inner error and its source are `dyn Error` values, which
/// verified code cannot hold.
#[verifier::external_body]
fn io_error_cause(e: &std::io::Error) -> (r: Option<Option<String>>)
    ensures
        io_error_cause_text(*e) == match r {
            None => None,
            Some(None) => Some(None),
            Some(Some(c)) => Some(Some(c@)),
        },
{
    e.get_ref().map(|inner| inner.source().map(|cause| cause.to_string()))
}

impl DecodeError {
    /// The decoding error for an I/O error whose kind is `class`, where `cause` is the text of
    /// the source of the error that it wraps: running out of bytes is `Truncated`, an error of
    /// kind `Other` caused by a type mismatch is `Invalid`, and any other is kept as
    /// `UnknownIo`. An error of kind `Other` must wrap an inner error.
    pub fn from_io_parts(class: IoErrorClass, cause: Option<Option<String>>, err: std::io::Error) -> (r: DecodeError)
        requires
            class == IoErrorClass::Other ==> cause is Some,
        ensures
            r.kind() == spec_from_io(
                class,
                match cause {
                    Some(Some(c)) => Some(c@),
                    _ => None,
                },
            ),
            r matches DecodeError::UnknownIo(e) ==> e == err,
    {
        match class {
            IoErrorClass::UnexpectedEof => DecodeError::Truncated,
            IoErrorClass::Other => {
                let expected = "type mismatch".to_string();
                let mismatch = match &cause {
                    Some(Some(c)) => *c == expected,
                    _ => false,
                };
                if mismatch {
                    DecodeError::Invalid
                } else {
                    DecodeError::UnknownIo(err)
                }
            },
            IoErrorClass::Else => DecodeError::UnknownIo(err),
        }
    }

    /// The decoding error for an I/O error: `Truncated` where the bytes ran out, `Invalid` where
    /// an error of kind `Other` was caused by a type mismatch, `UnknownIo` otherwise, also where
    /// an error of kind `Other` wraps no inner error. An `UnknownIo` result holds `err` itself.
    pub fn from_io_error(err: std::io::Error) -> (r: DecodeError)
        ensures
            r.kind() == spec_from_io_error(io_error_kind_class(err), io_error_cause_text(err)),
            r matches DecodeError::UnknownIo(e) ==> e == err,
    {
        let class = io_error_class(&err);
        let cause = io_error_cause(&err);
        if class == IoErrorClass::Other && cause.is_none() {
            DecodeError::UnknownIo(err)
        } else {
            DecodeError::from_io_parts(class, cause, err)
        }
    }
}

} // verus!
