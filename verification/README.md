# rmp_rpc

`MessagePack-RPC` in Rust, with its core proved correct by Verus.

- `src/` is the verified library:
  - `value.rs`: the MessagePack value model (`Value`, `Integer`, `Utf8String`) and its
    mathematical view `SpecValue`.
  - `msgpack.rs`: reading and writing values, done by the `rmpv` crate behind trusted
    wrappers whose contracts are stated over `msgpack_read` and `msgpack_encoding`.
  - `message.rs`: requests, responses and notifications; their value form (`as_value`),
    decoding from a value and from bytes, and `pack`. Decoding what `pack` wrote gives the
    message back, for every message that `rmpv` can write and read back (valid UTF-8 strings,
    lengths that fit 32 bits, nesting within `rmpv`'s depth limit), except a failed response
    whose error is nil, which comes back as a success with a nil result.
  - `codec.rs`: the framing codec over a `bytes::BytesMut` buffer: it skips values that are
    not messages, takes nothing while a message is incomplete, and takes exactly the bytes of
    the message it returns.
  - `errors.rs`: `DecodeError`, and how an I/O error is sorted into one.
  - `endpoint.rs`: the bookkeeping of a client (request ids, pending requests and
    notifications, acknowledgements handed out once a flush completes), what each role does
    with an incoming message, and when an endpoint's event loop stops.
- `app/` runs the endpoints on tokio and futures: channels, the framed transport, spawning
  of request handlers.
- `tests/` exercises the library on concrete messages and buffers.
