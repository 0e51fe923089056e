//! The words errors are described with, and the in-flight set over a
//! history of calls.

use kaloron::accept::{accept_kind, KindMismatch, Traversal, ValueKind};
use kaloron::endpoint::EndpointError;
use kaloron::framing::FrameError;
use kaloron::negotiation::{HxHeader, NegotiationFault};
use kaloron::text::TextError;
use kaloron::InFlightCallIds;

#[test]
fn endpoint_errors_quote_what_they_carry() {
    assert_eq!(EndpointError::Invalid("::".to_string()).message(), "invalid h1 endpoint '::'");
    assert_eq!(
        EndpointError::NotOriginForm("http://h/x".to_string()).message(),
        "h1 endpoint must be an origin-form path, got 'http://h/x'"
    );
    assert_eq!(
        EndpointError::MissingScheme("/x".to_string()).message(),
        "h1 endpoint must have a scheme, got '/x'"
    );
    assert_eq!(
        EndpointError::MissingAuthority("x".to_string()).message(),
        "h1 endpoint must have an authority (host), got 'x'"
    );
    assert_eq!(EndpointError::PathNotRooted.message(), "h1 endpoint must start with '/'");
    assert_eq!(
        EndpointError::MissingRootedPath("http://h".to_string()).message(),
        "h1 endpoint must have a path starting with '/', got 'http://h'"
    );
    assert_eq!(
        EndpointError::ZeroFrameLimit.message(),
        "h1 frame limit must be greater than zero"
    );
}

#[test]
fn negotiation_faults_describe_themselves() {
    assert_eq!(
        NegotiationFault::MissingHeader(HxHeader::ServiceHash).message(),
        "missing required header 'service hash'"
    );
    assert_eq!(
        NegotiationFault::InvalidHeader(TextError::HashLength).message(),
        "invalid schema hash length: expected 64 hex characters"
    );
    assert_eq!(TextError::VersionComponent.message(), "invalid version component");
    assert_eq!(TextError::HashDigit.message(), "invalid schema hash hex");
}

#[test]
fn frame_errors_describe_themselves() {
    assert_eq!(
        FrameError::PayloadOverflow.message(),
        "outbound frame payload exceeds u32::MAX octets"
    );
    assert_eq!(FrameError::UnexpectedEnd.message(), "unexpected end of stream");
}

#[test]
fn in_flight_set_follows_the_last_call_about_each_id() {
    let mut ids = InFlightCallIds::new();
    assert_eq!(ids.allocate(), Ok(0));
    assert_eq!(ids.register(5), Ok(()));
    assert_eq!(ids.allocate(), Ok(1));
    assert!(ids.complete(0));
    assert_eq!(ids.register(0), Ok(()));
    assert!(ids.complete(5));
    assert!(!ids.complete(5));
    // Last change: 0 registered, 1 allocated, 5 completed.
    assert!(ids.contains(0) && ids.contains(1) && !ids.contains(5));
    assert_eq!(ids.len(), 2);
    assert!(!ids.is_empty());
    assert!(ids.complete(0) && ids.complete(1));
    assert_eq!(ids.len(), 0);
    assert!(ids.is_empty());
}

#[test]
fn visitors_refuse_other_kinds_with_a_message() {
    assert_eq!(accept_kind(ValueKind::Sequence, ValueKind::Sequence, Traversal::Decoding), Ok(()));
    let refused = accept_kind(ValueKind::Primitive, ValueKind::Optional, Traversal::Decoding);
    assert_eq!(
        refused,
        Err(KindMismatch { offered: ValueKind::Optional, during: Traversal::Decoding })
    );
    assert_eq!(refused.unwrap_err().message(), "unexpected option during decoding");
    let refused = accept_kind(ValueKind::Enumeration, ValueKind::NewTypeStruct, Traversal::Encoding);
    assert_eq!(refused.unwrap_err().message(), "unexpected newtype struct during encoding");
    assert_eq!(
        accept_kind(ValueKind::Tuple, ValueKind::Mapping, Traversal::Encoding)
            .unwrap_err()
            .message(),
        "unexpected map during encoding"
    );
}
