//! Activation tables of structs and enums whose fields and variants change
//! state at different versions.

use kaloron::activation::activation_table;
use kaloron::{
    ActivationState, DeprecationSpan, EnumSchema, Field, NamedStructSchema, Primitive, Schema,
    TypeShape, Variant, VariantKind, Version, VersionRange,
};

use ActivationState::{Active, Deprecated, Inactive};

fn v(major: u16, minor: u16, patch: u16) -> Version {
    Version::new(major, minor, patch, 0)
}

fn intro(major: u16, minor: u16, patch: u16) -> VersionRange {
    VersionRange::introduced(v(major, minor, patch))
}

fn named(name: &str, fields: Vec<Field>, version: VersionRange) -> NamedStructSchema {
    let ranges: Vec<VersionRange> = fields.iter().map(|f| f.version.clone()).collect();
    let index = fields
        .iter()
        .enumerate()
        .map(|(i, f)| (f.name.clone(), i))
        .collect();
    NamedStructSchema::new(name.to_string(), fields, index, version, activation_table(&ranges))
}

fn versioned_struct() -> NamedStructSchema {
    named(
        "VersionedStruct",
        vec![
            Field::new_typed_with_version::<u32>(0, "base".to_string(), intro(1, 0, 0)),
            Field::new_typed_with_version::<String>(1, "added_later".to_string(), intro(1, 2, 0)),
            Field::new_typed_with_version::<bool>(
                2,
                "temporary".to_string(),
                VersionRange::introduced_removed(v(1, 5, 0), v(3, 0, 0)),
            ),
        ],
        intro(1, 0, 0),
    )
}

fn versioned_enum() -> EnumSchema {
    let gamma = VersionRange::introduced_removed(v(2, 0, 0), v(4, 0, 0));
    let variants = vec![
        Variant::unit(0, "Alpha".to_string(), intro(1, 0, 0)),
        Variant::newtype(1, "Beta".to_string(), u32::schema(), intro(1, 1, 0)),
        Variant::named(
            2,
            "Gamma".to_string(),
            vec![
                Field::new_typed_with_version::<u32>(0, "id".to_string(), gamma.clone()),
                Field::new_typed_with_version::<String>(1, "name".to_string(), gamma.clone()),
            ],
            vec![("id".to_string(), 0), ("name".to_string(), 1)],
            gamma.clone(),
            activation_table(&[gamma.clone(), gamma.clone()]),
        ),
    ];
    let ranges = vec![intro(1, 0, 0), intro(1, 1, 0), gamma];
    EnumSchema::new("VersionedEnum".to_string(), variants, intro(1, 0, 0), activation_table(&ranges))
}

fn enum_with_named_variant() -> EnumSchema {
    let fields = vec![
        Field::new_typed_with_version::<u32>(0, "always".to_string(), intro(1, 0, 0)),
        Field::new_typed_with_version::<String>(1, "added".to_string(), intro(2, 0, 0)),
    ];
    let named_fields = named("Named", fields, intro(1, 0, 0));
    let variants = vec![
        Variant::unit(0, "Unit".to_string(), intro(1, 0, 0)),
        Variant::named(
            1,
            named_fields.name,
            named_fields.fields,
            named_fields.index,
            named_fields.version,
            named_fields.field_activations,
        ),
    ];
    EnumSchema::new(
        "EnumWithNamedVariant".to_string(),
        variants,
        intro(1, 0, 0),
        activation_table(&[intro(1, 0, 0), intro(1, 0, 0)]),
    )
}

#[test]
fn test_named_struct_has_field_activation_table() {
    let schema = versioned_struct();

    assert_eq!(schema.fields.len(), 3);
    assert!(!schema.field_activations.is_empty());

    // The change points are: 1.0.0, 1.2.0, 1.5.0, 3.0.0
    assert_eq!(schema.field_activations.len(), 4);

    assert_eq!(schema.field_activations[0].version, Version::new(1, 0, 0, 0));
    assert_eq!(schema.field_activations[0].active, &[Active, Inactive, Inactive]);

    assert_eq!(schema.field_activations[1].version, Version::new(1, 2, 0, 0));
    assert_eq!(schema.field_activations[1].active, &[Active, Active, Inactive]);

    assert_eq!(schema.field_activations[2].version, Version::new(1, 5, 0, 0));
    assert_eq!(schema.field_activations[2].active, &[Active, Active, Active]);

    assert_eq!(schema.field_activations[3].version, Version::new(3, 0, 0, 0));
    assert_eq!(schema.field_activations[3].active, &[Active, Active, Inactive]);
}

#[test]
fn test_named_struct_active_fields_at_binary_search() {
    let schema = versioned_struct();

    assert_eq!(schema.active_fields_at(Version::new(0, 9, 0, 0)), None);
    assert_eq!(
        schema.active_fields_at(Version::new(1, 0, 0, 0)),
        Some([Active, Inactive, Inactive].as_slice())
    );
    assert_eq!(
        schema.active_fields_at(Version::new(1, 1, 0, 0)),
        Some([Active, Inactive, Inactive].as_slice())
    );
    assert_eq!(
        schema.active_fields_at(Version::new(1, 2, 0, 0)),
        Some([Active, Active, Inactive].as_slice())
    );
    assert_eq!(
        schema.active_fields_at(Version::new(1, 3, 0, 0)),
        Some([Active, Active, Inactive].as_slice())
    );
    assert_eq!(
        schema.active_fields_at(Version::new(2, 0, 0, 0)),
        Some([Active, Active, Active].as_slice())
    );
    assert_eq!(
        schema.active_fields_at(Version::new(3, 0, 0, 0)),
        Some([Active, Active, Inactive].as_slice())
    );
    assert_eq!(
        schema.active_fields_at(Version::new(10, 0, 0, 0)),
        Some([Active, Active, Inactive].as_slice())
    );
}

#[test]
fn test_simple_struct_has_single_activation_entry() {
    let schema = named(
        "SimpleVersionedStruct",
        vec![
            Field::new_typed_with_version::<u32>(0, "x".to_string(), intro(1, 0, 0)),
            Field::new_typed_with_version::<u32>(1, "y".to_string(), intro(1, 0, 0)),
        ],
        intro(1, 0, 0),
    );

    assert_eq!(schema.field_activations.len(), 1);
    assert_eq!(schema.field_activations[0].version, Version::new(1, 0, 0, 0));
    assert_eq!(schema.field_activations[0].active, &[Active, Active]);
}

#[test]
fn test_deprecated_field_activation_table_marks_deprecated_states() {
    let legacy = VersionRange {
        introduced: v(1, 0, 0),
        deprecations: vec![DeprecationSpan::new_range(v(2, 0, 0), v(2, 1, 0))],
        removed_in: None,
    };
    let schema = named(
        "DeprecatedFieldStruct",
        vec![
            Field::new_typed_with_version::<u32>(0, "legacy".to_string(), legacy),
            Field::new_typed_with_version::<u32>(1, "current".to_string(), intro(1, 0, 0)),
        ],
        intro(1, 0, 0),
    );

    assert_eq!(schema.field_activations.len(), 3);

    assert_eq!(schema.field_activations[0].version, Version::new(1, 0, 0, 0));
    assert_eq!(schema.field_activations[0].active, &[Active, Active]);

    assert_eq!(schema.field_activations[1].version, Version::new(2, 0, 0, 0));
    assert_eq!(schema.field_activations[1].active, &[Deprecated, Active]);

    assert_eq!(schema.field_activations[2].version, Version::new(2, 1, 0, 1));
    assert_eq!(schema.field_activations[2].active, &[Active, Active]);

    assert_eq!(
        schema.active_fields_at(Version::new(2, 0, 0, 0)),
        Some([Deprecated, Active].as_slice())
    );
    assert_eq!(
        schema.active_fields_at(Version::new(2, 1, 0, 0)),
        Some([Deprecated, Active].as_slice())
    );
    assert_eq!(
        schema.active_fields_at(Version::new(2, 1, 0, 1)),
        Some([Active, Active].as_slice())
    );
}

#[test]
fn test_enum_has_variant_activation_table() {
    let schema = versioned_enum();

    assert_eq!(schema.variants.len(), 3);
    assert!(!schema.variant_activations.is_empty());

    // Change points: 1.0.0, 1.1.0, 2.0.0, 4.0.0
    assert_eq!(schema.variant_activations.len(), 4);

    assert_eq!(schema.variant_activations[0].version, Version::new(1, 0, 0, 0));
    assert_eq!(schema.variant_activations[0].active, &[Active, Inactive, Inactive]);

    assert_eq!(schema.variant_activations[1].version, Version::new(1, 1, 0, 0));
    assert_eq!(schema.variant_activations[1].active, &[Active, Active, Inactive]);

    assert_eq!(schema.variant_activations[2].version, Version::new(2, 0, 0, 0));
    assert_eq!(schema.variant_activations[2].active, &[Active, Active, Active]);

    assert_eq!(schema.variant_activations[3].version, Version::new(4, 0, 0, 0));
    assert_eq!(schema.variant_activations[3].active, &[Active, Active, Inactive]);
}

#[test]
fn test_enum_active_variants_at_binary_search() {
    let schema = versioned_enum();

    assert_eq!(schema.active_variants_at(Version::new(0, 9, 0, 0)), None);
    assert_eq!(
        schema.active_variants_at(Version::new(1, 0, 0, 0)),
        Some([Active, Inactive, Inactive].as_slice())
    );
    assert_eq!(
        schema.active_variants_at(Version::new(1, 0, 5, 0)),
        Some([Active, Inactive, Inactive].as_slice())
    );
    assert_eq!(
        schema.active_variants_at(Version::new(3, 0, 0, 0)),
        Some([Active, Active, Active].as_slice())
    );
    assert_eq!(
        schema.active_variants_at(Version::new(5, 0, 0, 0)),
        Some([Active, Active, Inactive].as_slice())
    );
}

#[test]
fn test_named_variant_has_field_activation_table() {
    let schema = enum_with_named_variant();

    assert_eq!(schema.variants.len(), 2);

    let named_schema = match &schema.variants[1].kind {
        VariantKind::Named(s) => s,
        other => panic!("expected named variant, got {other:?}"),
    };

    assert_eq!(named_schema.fields.len(), 2);
    assert_eq!(named_schema.field_activations.len(), 2);

    assert_eq!(named_schema.field_activations[0].version, Version::new(1, 0, 0, 0));
    assert_eq!(named_schema.field_activations[0].active, &[Active, Inactive]);

    assert_eq!(named_schema.field_activations[1].version, Version::new(2, 0, 0, 0));
    assert_eq!(named_schema.field_activations[1].active, &[Active, Active]);
}

#[test]
fn test_named_variant_active_fields_at_binary_search() {
    let schema = enum_with_named_variant();

    let named_schema = match &schema.variants[1].kind {
        VariantKind::Named(s) => s,
        other => panic!("expected named variant, got {other:?}"),
    };

    assert_eq!(named_schema.active_fields_at(Version::new(0, 5, 0, 0)), None);
    assert_eq!(
        named_schema.active_fields_at(Version::new(1, 0, 0, 0)),
        Some([Active, Inactive].as_slice())
    );
    assert_eq!(
        named_schema.active_fields_at(Version::new(1, 5, 0, 0)),
        Some([Active, Inactive].as_slice())
    );
    assert_eq!(
        named_schema.active_fields_at(Version::new(2, 0, 0, 0)),
        Some([Active, Active].as_slice())
    );
    assert_eq!(
        named_schema.active_fields_at(Version::new(5, 0, 0, 0)),
        Some([Active, Active].as_slice())
    );
}

#[test]
fn test_inherited_version_produces_correct_activation_table() {
    let container = VersionRange::introduced_removed(v(2, 0, 0), v(5, 0, 0));
    let schema = named(
        "InheritedVersionStruct",
        vec![
            Field::new_typed_with_version::<u32>(0, "inherited_field".to_string(), container.clone()),
            Field::new_typed_with_version::<String>(
                1,
                "later_field".to_string(),
                VersionRange::introduced_removed(v(3, 0, 0), v(5, 0, 0)),
            ),
        ],
        container,
    );

    assert_eq!(schema.field_activations.len(), 3);

    assert_eq!(schema.field_activations[0].version, Version::new(2, 0, 0, 0));
    assert_eq!(schema.field_activations[0].active, &[Active, Inactive]);

    assert_eq!(schema.field_activations[1].version, Version::new(3, 0, 0, 0));
    assert_eq!(schema.field_activations[1].active, &[Active, Active]);

    assert_eq!(schema.field_activations[2].version, Version::new(5, 0, 0, 0));
    assert_eq!(schema.field_activations[2].active, &[Inactive, Inactive]);
}

#[test]
fn open_deprecation_has_a_single_change_point() {
    let range = VersionRange {
        introduced: v(1, 0, 0),
        deprecations: vec![DeprecationSpan::new(v(3, 0, 0))],
        removed_in: None,
    };
    let table = activation_table(&[range.clone()]);
    assert_eq!(table.len(), 2);
    assert_eq!(table[1].version, v(3, 0, 0));
    assert_eq!(table[1].active, &[Deprecated]);
    assert_eq!(range.state_at(v(9, 0, 0)), Deprecated);
    assert_eq!(range.state_at(v(0, 1, 0)), Inactive);
    assert_eq!(range.state_at(v(2, 0, 0)), Active);
}

#[test]
fn active_fields_agree_with_each_field_state() {
    let schema = versioned_struct();
    for (major, minor) in [(0u16, 5u16), (1, 0), (1, 4), (2, 2), (3, 1), (7, 0)] {
        let version = v(major, minor, 0);
        let expected: Vec<ActivationState> =
            schema.fields.iter().map(|f| f.version.state_at(version)).collect();
        match schema.active_fields_at(version) {
            Some(states) => assert_eq!(states, expected.as_slice()),
            None => assert!(expected.iter().all(|s| *s == Inactive)),
        }
    }
    assert_eq!(*schema.fields[0].ty, Schema::Primitive(Primitive::U32));
}
