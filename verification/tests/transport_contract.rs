//! Schema-level invariants independent of any transport: effective schema
//! hashing and call-ID tracking.

use kaloron::activation::activation_table;
use kaloron::{
    Field, InFlightCallIds, MethodSchema, NamedStructSchema, RpcError, Schema, ServiceFactory,
    ServiceSchema, TypeShape, Version, VersionRange,
};

fn arguments(name: &str, fields: Vec<Field>, version: VersionRange) -> Schema {
    let ranges: Vec<VersionRange> = fields.iter().map(|f| f.version.clone()).collect();
    let index = fields
        .iter()
        .enumerate()
        .map(|(i, f)| (f.name.clone(), i))
        .collect();
    Schema::Named(NamedStructSchema::new(
        name.to_string(),
        fields,
        index,
        version,
        activation_table(&ranges),
    ))
}

struct DebugServiceFactory;

impl ServiceFactory for DebugServiceFactory {
    // The schema the specification speaks of is the one `service_schema` builds.
    fn spec_service_schema() -> ServiceSchema {
        Self::service_schema()
    }

    fn service_schema() -> ServiceSchema {
        let v1_0 = VersionRange::introduced(Version::new(1, 0, 0, 0));
        let v1_1 = VersionRange::introduced(Version::new(1, 1, 0, 0));
        ServiceSchema {
            name: "DebugService".to_string(),
            methods: vec![
                MethodSchema {
                    name: "ping".to_string(),
                    method_id: 0x0001,
                    arguments: arguments(
                        "PingArgs",
                        vec![Field::new_typed_with_version::<u64>(
                            0,
                            "value".to_string(),
                            v1_0.clone(),
                        )],
                        v1_0.clone(),
                    ),
                    response: u64::schema(),
                    version: v1_0.clone(),
                },
                MethodSchema {
                    name: "dump_state".to_string(),
                    method_id: 0x0002,
                    arguments: arguments("DumpStateArgs", vec![], v1_1.clone()),
                    response: String::schema(),
                    version: v1_1,
                },
            ],
            version: v1_0,
        }
    }
}

#[test]
fn test_effective_schema_hash_changes_with_service_surface() {
    let v1_0_0 = Version::new(1, 0, 0, 0);
    let v1_1_0 = Version::new(1, 1, 0, 0);

    assert_ne!(
        DebugServiceFactory::effective_schema_hash(v1_0_0),
        DebugServiceFactory::effective_schema_hash(v1_1_0),
        "adding `dump_state` in v1.1.0 must produce a different schema hash",
    );
}

#[test]
fn test_in_flight_call_ids_reuse_first_available_identifier() {
    let mut ids = InFlightCallIds::new();

    let first = ids.allocate().expect("first call id");
    let second = ids.allocate().expect("second call id");
    let third = ids.allocate().expect("third call id");

    assert_eq!((first, second, third), (0, 1, 2));

    assert!(ids.complete(second));
    assert_eq!(ids.allocate().expect("reused call id"), 1);
}

#[test]
fn test_in_flight_call_ids_reject_duplicate_registration() {
    let mut ids = InFlightCallIds::new();
    ids.register(42).expect("first registration succeeds");

    assert_eq!(ids.register(42), Err(RpcError::DuplicateCallId(42)));
}

#[test]
fn in_flight_call_ids_skip_registered_identifiers() {
    let mut ids = InFlightCallIds::new();
    ids.register(0).expect("register 0");
    ids.register(2).expect("register 2");
    assert_eq!(ids.allocate(), Ok(1));
    assert_eq!(ids.allocate(), Ok(3));
    assert_eq!(ids.len(), 4);
    assert!(ids.contains(2));
    assert!(!ids.complete(7));
    assert!(ids.complete(0));
    assert_eq!(ids.allocate(), Ok(0));
}

#[test]
fn in_flight_call_ids_track_emptiness() {
    let mut ids = InFlightCallIds::new();
    assert!(ids.is_empty());
    let id = ids.allocate().expect("allocate");
    assert!(!ids.is_empty());
    assert!(ids.complete(id));
    assert!(ids.is_empty());
    assert!(!ids.contains(id));
}

#[test]
fn effective_schema_hash_is_a_blake3_digest_of_the_surface() {
    let schema = DebugServiceFactory::service_schema();
    let v = Version::new(1, 0, 0, 0);
    let mut build = Vec::new();
    schema.hash_build(v, &mut build);
    let expected: [u8; 32] = blake3::hash(&build).into();
    assert_eq!(schema.effective_schema_hash(v), expected);
    assert_ne!(schema.effective_schema_hash(v), [0u8; 32]);
}
