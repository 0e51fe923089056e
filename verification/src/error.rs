//! Errors of the RPC layer.

use crate::text::{decimal_text, hash_text, hex_text, push_decimal, push_hash_text, push_hex};
use vstd::prelude::*;

verus! {

/// Errors that can occur during RPC operations.
#[derive(Debug, Clone, PartialEq, Eq)]
pub enum RpcError {
    /// The requested service identifier is not recognized.
    /// Even if the service exists and was rejected for being out of its
    /// version range, this is still the error reported.
    UnknownService(String),
    /// The requested method ID is not recognized.
    UnknownMethod(u32),
    /// The requested payload protocol is not supported.
    UnsupportedProtocol {},
    /// The client and server disagree on the effective schema for a version.
    SchemaHashMismatch {
        service: String,
        version: String,
        client_hash: [u8; 32],
        server_hash: [u8; 32],
    },
    /// An incoming call reused an ID that is already in flight.
    DuplicateCallId(u32),
    /// No additional call IDs are currently available.
    CallIdExhausted,
    /// A wire-decoding failure.
    DecodeError(String),
    /// A wire-encoding failure.
    EncodeError(String),
    /// An error reported by the underlying transport.
    TransportError(String),
}

/// The human-readable description of an error.
pub open spec fn error_text(e: RpcError) -> Seq<char> {
    match e {
        RpcError::UnknownService(service) => "unknown service: "@ + service@,
        RpcError::UnknownMethod(id) => "unknown method: 0x"@ + hex_text(id as nat),
        RpcError::UnsupportedProtocol {  } => "unsupported RPC protocol"@,
        RpcError::SchemaHashMismatch { service, version, client_hash, server_hash } =>
            "schema hash mismatch for service '"@ + service@ + "' at version "@ + version@
            + ": client="@ + hash_text(client_hash@) + ", server="@ + hash_text(server_hash@),
        RpcError::DuplicateCallId(id) => "duplicate call id: "@ + decimal_text(id as nat),
        RpcError::CallIdExhausted => "no available call ids remain"@,
        RpcError::DecodeError(msg) => "decode error: "@ + msg@,
        RpcError::EncodeError(msg) => "encode error: "@ + msg@,
        RpcError::TransportError(msg) => "transport error: "@ + msg@,
    }
}

impl RpcError {
    /// Describe the error in words, as its display text.
    pub fn message(&self) -> (r: String)
        ensures
            r@ == error_text(*self),
    {
        let mut text = String::new();
        match self {
            RpcError::UnknownService(service) => {
                text.append("unknown service: ");
                text.append(service.as_str());
            },
            RpcError::UnknownMethod(id) => {
                text.append("unknown method: 0x");
                push_hex(&mut text, *id as u64);
            },
            RpcError::UnsupportedProtocol {  } => {
                text.append("unsupported RPC protocol");
            },
            RpcError::SchemaHashMismatch { service, version, client_hash, server_hash } => {
                text.append("schema hash mismatch for service '");
                text.append(service.as_str());
                text.append("' at version ");
                text.append(version.as_str());
                text.append(": client=");
                push_hash_text(&mut text, client_hash.as_slice());
                text.append(", server=");
                push_hash_text(&mut text, server_hash.as_slice());
            },
            RpcError::DuplicateCallId(id) => {
                text.append("duplicate call id: ");
                push_decimal(&mut text, *id as u64);
            },
            RpcError::CallIdExhausted => {
                text.append("no available call ids remain");
            },
            RpcError::DecodeError(msg) => {
                text.append("decode error: ");
                text.append(msg.as_str());
            },
            RpcError::EncodeError(msg) => {
                text.append("encode error: ");
                text.append(msg.as_str());
            },
            RpcError::TransportError(msg) => {
                text.append("transport error: ");
                text.append(msg.as_str());
            },
        }
        assert(text@ =~= error_text(*self));
        text
    }
}

/// The fault a server answers to a request whose payload does not decode
/// as the arguments of method `method_name`.
pub fn decode_error_for(method_name: &str) -> (r: RpcError)
    ensures
        r matches RpcError::DecodeError(m) && m@ == "request payload for method `"@
            + method_name@ + "` did not match the expected schema"@,
{
    let mut text = String::from_str("request payload for method `");
    text.append(method_name);
    text.append("` did not match the expected schema");
    RpcError::DecodeError(text)
}

/// The fault a server answers to a request for a method it does not know.
pub fn unknown_method_error(method_id: u32) -> (r: RpcError)
    ensures
        r == RpcError::UnknownMethod(method_id),
{
    RpcError::UnknownMethod(method_id)
}

} // verus!
