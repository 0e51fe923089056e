# kaloron

A schema-first type-shape library with version-gated lifecycles, and the
decision logic of its hx RPC protocol, verified with Verus.

- `src/` is the verified library:
  - `version`, `activation`: versions, lifecycles, activation tables and
    their lookup.
  - `schema`, `schema_copy`, `typeshape`, `tuples`, `gated`, `receive`, `accept`: schemas of
    values, their digests, copies, the schemas of standard types, gated
    fields, the checks made while values are received, and which kinds of
    value a visitor takes.
  - `service`: service and method schemas and the effective schema hash
    (BLAKE3 through the `blake3` crate).
  - `text`, `negotiation`, `endpoint`: how versions and hashes are written
    into negotiation headers and read back, and how a server answers a
    request that opens a session.
  - `call`, `server`, `client`, `framing`, `message`, `error`: call
    identifiers, the server session and client channel state machines,
    length-prefixed frames (cut whole or streamed, and queued from frames built
    side by side), frame headers and RPC errors.
- `app/` holds what is not verified: type-keyed shared state for codecs,
  displayable errors and `anyhow` conversions. It holds no transport: no
  HTTP server or client, no task spawning, no stream reading or writing.
  The library decides what a session or channel does next; nothing here
  performs those actions over a network.
- `tests/` exercises the library.
