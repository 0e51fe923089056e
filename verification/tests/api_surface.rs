//! The schema a service definition supplies: names, method IDs, lookups and
//! argument shapes.

use kaloron::activation::activation_table;
use kaloron::{
    Field, MethodSchema, NamedStructSchema, Schema, ServiceFactory, ServiceSchema, TypeShape,
    Version, VersionRange,
};

fn v(major: u16, minor: u16, patch: u16) -> Version {
    Version::new(major, minor, patch, 0)
}

fn named(name: &str, fields: Vec<Field>, version: VersionRange) -> NamedStructSchema {
    let ranges: Vec<VersionRange> = fields.iter().map(|f| f.version.clone()).collect();
    let mut index: Vec<(String, usize)> = fields
        .iter()
        .enumerate()
        .map(|(i, f)| (f.name.clone(), i))
        .collect();
    index.sort();
    NamedStructSchema::new(
        name.to_string(),
        fields,
        index,
        version,
        activation_table(&ranges),
    )
}

struct User;

impl TypeShape for User {
    fn schema() -> Schema {
        let intro = VersionRange::introduced(v(1, 0, 0));
        Schema::Named(named(
            "User",
            vec![
                Field::new_typed_with_version::<u64>(0, "id".to_string(), intro.clone()),
                Field::new_typed_with_version::<String>(1, "name".to_string(), intro.clone()),
            ],
            intro,
        ))
    }
}

fn args(method: &str, params: Vec<(u32, &str, Schema)>, version: VersionRange) -> Schema {
    let fields = params
        .into_iter()
        .map(|(id, name, ty)| Field::new_with_version(id, name.to_string(), ty, version.clone()))
        .collect();
    Schema::Named(named(&format!("{method}Args"), fields, version))
}

fn method(
    name: &str,
    method_id: u32,
    params: Vec<(u32, &str, Schema)>,
    response: Schema,
    version: VersionRange,
) -> MethodSchema {
    MethodSchema {
        name: name.to_string(),
        method_id,
        arguments: args(name, params, version.clone()),
        response,
        version,
    }
}

struct UserServiceFactory;

impl ServiceFactory for UserServiceFactory {
    // The schema the specification speaks of is the one `service_schema` builds.
    fn spec_service_schema() -> ServiceSchema {
        Self::service_schema()
    }

    fn service_schema() -> ServiceSchema {
        let v1 = VersionRange::introduced(v(1, 0, 0));
        let v101 = VersionRange::introduced(v(1, 0, 1));
        ServiceSchema {
            name: "UserService".to_string(),
            methods: vec![
                method(
                    "get_user",
                    0x0001,
                    vec![(0, "user_id", u64::schema())],
                    Option::<User>::schema(),
                    v1.clone(),
                ),
                method(
                    "create_user",
                    0x0002,
                    vec![(0, "user_id", u64::schema()), (1, "name", String::schema())],
                    User::schema(),
                    v1.clone(),
                ),
                method("list_users", 0x0003, vec![], Vec::<User>::schema(), v1.clone()),
                method(
                    "delete_user",
                    0x0004,
                    vec![(0, "user_id", u64::schema())],
                    bool::schema(),
                    v101,
                ),
            ],
            version: v1,
        }
    }
}

#[test]
fn test_service_schema_has_correct_name_and_method_count() {
    let schema = UserServiceFactory::service_schema();
    assert_eq!(schema.name, "UserService");
    assert_eq!(schema.methods.len(), 4);
}

#[test]
fn test_service_schema_method_ids_match_declared_ids() {
    let schema = UserServiceFactory::service_schema();
    assert_eq!(schema.methods[0].method_id, 0x0001);
    assert_eq!(schema.methods[1].method_id, 0x0002);
    assert_eq!(schema.methods[2].method_id, 0x0003);
    assert_eq!(schema.methods[3].method_id, 0x0004);
}

#[test]
fn test_service_schema_method_names_match() {
    let schema = UserServiceFactory::service_schema();
    assert_eq!(schema.methods[0].name, "get_user");
    assert_eq!(schema.methods[1].name, "create_user");
    assert_eq!(schema.methods[2].name, "list_users");
    assert_eq!(schema.methods[3].name, "delete_user");
}

#[test]
fn test_service_schema_method_by_id_works() {
    let schema = UserServiceFactory::service_schema();
    assert!(schema.method_by_id(0x0001).is_some());
    assert!(schema.method_by_id(0x0002).is_some());
    assert!(schema.method_by_id(0x9999).is_none());
}

#[test]
fn test_service_schema_methods_are_references() {
    let schema = UserServiceFactory::service_schema();
    fn _assert_methods_are_refs(_: &[MethodSchema]) {}
    _assert_methods_are_refs(&schema.methods);
    assert_eq!(schema.methods.len(), 4);
}

#[test]
fn test_get_user_argument_schema_is_named_struct_with_one_field() {
    let schema = UserServiceFactory::service_schema();
    let args_schema = &schema.methods[0].arguments;
    let named = args_schema
        .as_named()
        .expect("get_user args should be a named struct schema");
    assert_eq!(named.fields.len(), 1);
    assert_eq!(named.fields[0].name, "user_id");
    assert_eq!(named.fields[0].id, 0);
}

#[test]
fn test_list_users_argument_schema_is_named_struct_with_zero_fields() {
    let schema = UserServiceFactory::service_schema();
    let args_schema = &schema.methods[2].arguments;
    let named = args_schema
        .as_named()
        .expect("list_users args should be a named struct schema");
    assert_eq!(named.fields.len(), 0);
}

#[test]
fn method_by_id_at_filters_methods_by_version() {
    let schema = UserServiceFactory::service_schema();
    assert!(schema.method_by_id_at(0x0004, v(1, 0, 0)).is_none());
    assert_eq!(
        schema.method_by_id_at(0x0004, v(1, 0, 1)).map(|m| m.name.as_str()),
        Some("delete_user")
    );
    assert!(schema.method_by_id_at(0x0001, v(0, 9, 0)).is_none());
}

#[test]
fn service_availability_follows_its_lifecycle() {
    let schema = UserServiceFactory::service_schema();
    assert!(!schema.is_available_at(v(0, 9, 9)));
    assert!(schema.is_available_at(v(1, 0, 0)));
    assert!(schema.methods[3].is_available_at(v(2, 0, 0)));
    assert!(!schema.methods[3].is_available_at(v(1, 0, 0)));
}

#[test]
fn effective_schema_hash_is_stable_within_a_surface() {
    let a = UserServiceFactory::effective_schema_hash(v(1, 0, 1));
    let b = UserServiceFactory::effective_schema_hash(v(2, 0, 0));
    let c = UserServiceFactory::effective_schema_hash(v(1, 0, 0));
    assert_eq!(a, b);
    assert_ne!(a, c);
}
