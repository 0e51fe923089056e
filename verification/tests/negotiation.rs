//! Reading and writing negotiation headers, and the server's answer to a
//! request that opens a session.

use kaloron::endpoint::{validate_client_endpoint, validate_server_endpoint, EndpointError};
use kaloron::negotiation::{
    negotiate, request_headers, HxHeader, NegotiationFault, NegotiationOutcome, ServiceRegistry,
};
use kaloron::text::{decode_hex_nibble, encode_hash, parse_hash, parse_version, TextError};
use kaloron::{Field, MethodSchema, NamedStructSchema, Schema, ServiceSchema, TypeShape, Version};
use kaloron::{VersionRange};

fn echo_service() -> ServiceSchema {
    let v1 = VersionRange::introduced(Version::new(1, 0, 0, 0));
    let field = Field::new_typed_with_version::<String>(0, "text".to_string(), v1.clone());
    let table = kaloron::activation::activation_table(&[v1.clone()]);
    ServiceSchema {
        name: "Echo".to_string(),
        methods: vec![MethodSchema {
            name: "echo".to_string(),
            method_id: 1,
            arguments: Schema::Named(NamedStructSchema::new(
                "EchoArgs".to_string(),
                vec![field],
                vec![("text".to_string(), 0)],
                v1.clone(),
                table,
            )),
            response: String::schema(),
            version: v1.clone(),
        }],
        version: VersionRange::introduced_removed(
            Version::new(1, 0, 0, 0),
            Version::new(2, 0, 0, 0),
        ),
    }
}

fn registry() -> ServiceRegistry {
    let mut registry = ServiceRegistry::new();
    registry.register(echo_service());
    registry
}

#[test]
fn version_text_round_trips() {
    for v in [
        Version::new(1, 2, 3, 0),
        Version::new(0, 0, 0, 0),
        Version::new(65535, 10, 7, 9),
    ] {
        let text = v.format();
        assert_eq!(parse_version(&text), Ok(v));
    }
    assert_eq!(Version::new(1, 2, 3, 0).format(), "1.2.3");
    assert_eq!(Version::new(1, 2, 3, 4).format(), "1.2.3.4");
}

#[test]
fn version_text_is_read_like_u16_parse() {
    assert_eq!(parse_version("1.2.3"), Ok(Version::new(1, 2, 3, 0)));
    assert_eq!(parse_version("+1.002.3.4"), Ok(Version::new(1, 2, 3, 4)));
    assert_eq!(parse_version("1.2"), Err(TextError::VersionFormat));
    assert_eq!(parse_version("1.2.3.4.5"), Err(TextError::VersionFormat));
    assert_eq!(parse_version("1..3"), Err(TextError::VersionComponent));
    assert_eq!(parse_version("1.2.65536"), Err(TextError::VersionComponent));
    assert_eq!(parse_version("1.-2.3"), Err(TextError::VersionComponent));
    assert_eq!(parse_version("1.2.x"), Err(TextError::VersionComponent));
    assert_eq!(parse_version("1.+.3"), Err(TextError::VersionComponent));
    assert_eq!(parse_version(""), Err(TextError::VersionFormat));
}

#[test]
fn hash_text_round_trips() {
    let mut hash = [0u8; 32];
    for (i, b) in hash.iter_mut().enumerate() {
        *b = (i as u8).wrapping_mul(37).wrapping_add(11);
    }
    let text = encode_hash(&hash);
    assert_eq!(text.len(), 64);
    assert_eq!(&text[0..4], "0b30");
    assert_eq!(parse_hash(&text), Ok(hash));
    assert_eq!(parse_hash(&text.to_uppercase()), Ok(hash));
}

#[test]
fn hash_text_errors() {
    assert_eq!(parse_hash("abc"), Err(TextError::HashLength));
    let mut bad = "0".repeat(63);
    bad.push('g');
    assert_eq!(parse_hash(&bad), Err(TextError::HashDigit));
    assert_eq!(decode_hex_nibble(b'7'), Some(7));
    assert_eq!(decode_hex_nibble(b'c'), Some(12));
    assert_eq!(decode_hex_nibble(b'F'), Some(15));
    assert_eq!(decode_hex_nibble(b'G'), None);
}

#[test]
fn matching_client_is_accepted() {
    let registry = registry();
    let v = Version::new(1, 3, 0, 0);
    let hash = echo_service().effective_schema_hash(v);
    let version_text = v.format();
    let hash_text = encode_hash(&hash);
    let outcome = negotiate(
        &registry,
        "/rpc",
        "textual",
        true,
        "/rpc",
        Some("textual"),
        Some("Echo"),
        Some(&version_text),
        Some(&hash_text),
    );
    assert_eq!(outcome, NegotiationOutcome::Accept(v));
}

#[test]
fn negotiation_rejections() {
    let registry = registry();
    let v = Version::new(1, 3, 0, 0);
    let hash_text = encode_hash(&echo_service().effective_schema_hash(v));
    let ask = |post: bool,
               path: &str,
               protocol: Option<&str>,
               id: Option<&str>,
               version: Option<&str>,
               hash: Option<&str>| {
        negotiate(&registry, "/rpc", "textual", post, path, protocol, id, version, hash)
    };
    let h = Some(hash_text.as_str());
    assert_eq!(
        ask(false, "/rpc", Some("textual"), Some("Echo"), Some("1.3.0"), h),
        NegotiationOutcome::NotFound
    );
    assert_eq!(
        ask(true, "/other", Some("textual"), Some("Echo"), Some("1.3.0"), h),
        NegotiationOutcome::NotFound
    );
    assert_eq!(
        ask(true, "/rpc", None, Some("Echo"), Some("1.3.0"), h),
        NegotiationOutcome::Fault(NegotiationFault::MissingHeader(HxHeader::Protocol))
    );
    assert_eq!(
        ask(true, "/rpc", Some("binary"), Some("Echo"), Some("1.3.0"), h),
        NegotiationOutcome::NotFound
    );
    assert_eq!(
        ask(true, "/rpc", Some("textual"), None, Some("1.3.0"), h),
        NegotiationOutcome::Fault(NegotiationFault::MissingHeader(HxHeader::ServiceId))
    );
    assert_eq!(
        ask(true, "/rpc", Some("textual"), Some("Nope"), Some("1.3.0"), h),
        NegotiationOutcome::NotFound
    );
    assert_eq!(
        ask(true, "/rpc", Some("textual"), Some("Echo"), None, h),
        NegotiationOutcome::Fault(NegotiationFault::MissingHeader(HxHeader::ServiceVersion))
    );
    assert_eq!(
        ask(true, "/rpc", Some("textual"), Some("Echo"), Some("1.x.0"), h),
        NegotiationOutcome::Fault(NegotiationFault::InvalidHeader(TextError::VersionComponent))
    );
    assert_eq!(
        ask(true, "/rpc", Some("textual"), Some("Echo"), Some("1.3.0"), None),
        NegotiationOutcome::Fault(NegotiationFault::MissingHeader(HxHeader::ServiceHash))
    );
    assert_eq!(
        ask(true, "/rpc", Some("textual"), Some("Echo"), Some("1.3.0"), Some("00")),
        NegotiationOutcome::Fault(NegotiationFault::InvalidHeader(TextError::HashLength))
    );
    let zeros = "0".repeat(64);
    assert_eq!(
        ask(true, "/rpc", Some("textual"), Some("Echo"), Some("1.3.0"), Some(&zeros)),
        NegotiationOutcome::NotFound,
        "a hash of another surface does not match"
    );
    assert_eq!(
        ask(true, "/rpc", Some("textual"), Some("Echo"), Some("1.2.0"), h),
        NegotiationOutcome::Accept(Version::new(1, 2, 0, 0)),
        "the surface is the same at 1.2.0"
    );
    let later = encode_hash(&echo_service().effective_schema_hash(Version::new(2, 0, 0, 0)));
    assert_eq!(
        ask(true, "/rpc", Some("textual"), Some("Echo"), Some("2.0.0"), Some(&later)),
        NegotiationOutcome::NotFound,
        "the service does not exist at 2.0.0"
    );
}

#[test]
fn registering_a_service_twice_replaces_it() {
    let mut registry = registry();
    let mut replacement = echo_service();
    replacement.version = VersionRange::introduced(Version::new(3, 0, 0, 0));
    registry.register(replacement);
    let found = registry.lookup("Echo").expect("Echo is registered");
    assert_eq!(found.version.introduced, Version::new(3, 0, 0, 0));
    assert!(registry.lookup("echo").is_none());
}

#[test]
fn request_headers_are_accepted_by_the_server() {
    let registry = registry();
    let v = Version::new(1, 7, 2, 1);
    let hash = echo_service().effective_schema_hash(v);
    let headers = request_headers("textual", "Echo", v, &hash);
    assert_eq!(headers.protocol, "textual");
    assert_eq!(headers.service_id, "Echo");
    assert_eq!(headers.version, "1.7.2.1");
    assert_eq!(headers.hash, encode_hash(&hash));
    let outcome = negotiate(
        &registry,
        "/rpc",
        "textual",
        true,
        "/rpc",
        Some(&headers.protocol),
        Some(&headers.service_id),
        Some(&headers.version),
        Some(&headers.hash),
    );
    assert_eq!(outcome, NegotiationOutcome::Accept(v));
}

#[test]
fn server_endpoints_must_be_rooted_paths() {
    assert_eq!(validate_server_endpoint("/rpc", 16), Ok("/rpc".to_string()));
    assert_eq!(validate_server_endpoint("/rpc?x=1", 16), Ok("/rpc?x=1".to_string()));
    assert_eq!(
        validate_server_endpoint("http://example.com/rpc", 16),
        Err(EndpointError::NotOriginForm("http://example.com/rpc".to_string()))
    );
    assert_eq!(validate_server_endpoint("/rpc", 0), Err(EndpointError::ZeroFrameLimit));
    assert_eq!(
        validate_server_endpoint("a b", 1),
        Err(EndpointError::Invalid("a b".to_string()))
    );
    assert_eq!(validate_server_endpoint("*", 1), Err(EndpointError::PathNotRooted));
}

#[test]
fn client_endpoints_need_scheme_authority_and_path() {
    let ok = validate_client_endpoint("http://localhost:8080/rpc", 4).expect("valid endpoint");
    assert!(ok.has_scheme && ok.has_authority);
    assert_eq!(ok.path, "/rpc");
    assert_eq!(ok.text, "http://localhost:8080/rpc");
    assert!(matches!(
        validate_client_endpoint("/rpc", 4),
        Err(EndpointError::MissingScheme(t)) if t == "/rpc"
    ));
    assert!(matches!(
        validate_client_endpoint("localhost:8080", 4),
        Err(EndpointError::MissingScheme(_)) | Err(EndpointError::MissingAuthority(_))
    ));
    assert!(matches!(
        validate_client_endpoint("http://localhost:8080/rpc", 0),
        Err(EndpointError::ZeroFrameLimit)
    ));
    assert!(matches!(validate_client_endpoint("", 4), Err(EndpointError::Invalid(t)) if t.is_empty()));
}

#[test]
fn endpoint_refusals_quote_the_uri_as_it_writes_itself() {
    // The scheme is written back in lower case, so the message quotes the
    // URI as read, not the text as configured.
    let refused = validate_server_endpoint("HTTP://example.com/rpc", 16).unwrap_err();
    assert_eq!(
        refused.message(),
        "h1 endpoint must be an origin-form path, got 'http://example.com/rpc'"
    );
    let refused = validate_server_endpoint("a b", 1).unwrap_err();
    assert_eq!(refused.message(), "invalid h1 endpoint 'a b'");
}
