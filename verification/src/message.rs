//! Frame headers of the hx protocol.

use vstd::prelude::*;

verus! {

/// Header of a frame sent from the client to the server.
#[derive(Clone, Copy, Debug, PartialEq, Eq, Structural)]
pub enum HxServerBoundHeader {
    /// A call of `method_id`, identified by `call_id` until its response.
    Request { call_id: u32, method_id: u32 },
    /// The client will send no further request.
    Complete {},
}

/// Header of a frame sent from the server to the client.
#[derive(Clone, Copy, Debug, PartialEq, Eq, Structural)]
pub enum HxClientBoundHeader {
    /// The call `call_id` succeeded; its result follows.
    ResponseSuccess { call_id: u32 },
    /// The call `call_id` failed; an `RpcError` follows.
    ResponseFailure { call_id: u32 },
    /// The session broke down on the server side.
    ChannelError {},
    /// The server has answered every request and closes the session.
    Complete {},
}

} // verus!
