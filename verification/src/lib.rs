//! `MessagePack-RPC`: its messages, their encoding as MessagePack values and bytes, the codec
//! that frames them in a byte stream, and the bookkeeping that an endpoint does.
pub mod codec;
pub mod endpoint;
pub mod errors;
pub mod message;
pub mod msgpack;
pub mod value;

pub use crate::codec::Codec;
pub use crate::errors::DecodeError;
pub use crate::message::{Message, Notification, Request, Response};
pub use crate::value::{Integer, Utf8String, Value};
