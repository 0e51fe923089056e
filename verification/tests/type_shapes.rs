//! Schemas of user types built the way a type-shape definition builds them.

use kaloron::activation::activation_table;
use kaloron::{
    Field, MarkerCompositeTypeShapeNamedStruct, MarkerCompositeTypeShapeNewTypeStruct,
    MarkerCompositeTypeShapeTupleStruct, NamedStructSchema, NewTypeStructSchema, Primitive,
    Schema, TupleStructSchema, TypeShape, UnitStructSchema, Version, VersionRange,
};

fn zero() -> VersionRange {
    VersionRange::introduced(Version::zero())
}

fn named(name: &str, fields: Vec<Field>) -> Schema {
    let ranges: Vec<VersionRange> = fields.iter().map(|f| f.version.clone()).collect();
    let mut index: Vec<(String, usize)> = fields
        .iter()
        .enumerate()
        .map(|(i, f)| (f.name.clone(), i))
        .collect();
    index.sort();
    Schema::Named(NamedStructSchema::new(
        name.to_string(),
        fields,
        index,
        zero(),
        activation_table(&ranges),
    ))
}

pub struct DerivedExample {
    pub id: u32,
    pub name: String,
}

impl TypeShape for DerivedExample {
    fn schema() -> Schema {
        named(
            "DerivedExample",
            vec![
                Field::new_typed_with_version::<u32>(0, "id".to_string(), zero()),
                Field::new_typed_with_version::<String>(1, "name".to_string(), zero()),
            ],
        )
    }
}

impl MarkerCompositeTypeShapeNamedStruct for DerivedExample {}

pub struct GenericExample<T> {
    pub value: T,
    pub note: String,
}

impl<T: TypeShape> TypeShape for GenericExample<T> {
    fn schema() -> Schema {
        named(
            "GenericExample",
            vec![
                Field::new_typed_with_version::<T>(0, "value".to_string(), zero()),
                Field::new_typed_with_version::<String>(1, "note".to_string(), zero()),
            ],
        )
    }
}

pub struct NestedExample {
    pub inner: DerivedExample,
    pub note: String,
}

impl TypeShape for NestedExample {
    fn schema() -> Schema {
        named(
            "NestedExample",
            vec![
                Field::new_typed_with_version::<DerivedExample>(0, "inner".to_string(), zero()),
                Field::new_typed_with_version::<String>(1, "note".to_string(), zero()),
            ],
        )
    }
}

pub struct TupleFieldExample {
    pub pair: (u32, String),
    pub label: String,
}

impl TypeShape for TupleFieldExample {
    fn schema() -> Schema {
        named(
            "TupleFieldExample",
            vec![
                Field::new_typed_with_version::<(u32, String)>(0, "pair".to_string(), zero()),
                Field::new_typed_with_version::<String>(1, "label".to_string(), zero()),
            ],
        )
    }
}

pub struct UnitExample;

impl TypeShape for UnitExample {
    fn schema() -> Schema {
        Schema::UnitStruct(UnitStructSchema { name: "UnitExample".to_string(), version: zero() })
    }
}

pub struct NewtypeExample(pub u32);

impl TypeShape for NewtypeExample {
    fn schema() -> Schema {
        Schema::NewTypeStruct(NewTypeStructSchema {
            name: "NewtypeExample".to_string(),
            inner: Box::new(u32::schema()),
            version: zero(),
        })
    }
}

impl MarkerCompositeTypeShapeNewTypeStruct for NewtypeExample {}

pub struct TupleExample(pub u32, pub String);

impl TypeShape for TupleExample {
    fn schema() -> Schema {
        Schema::TupleStruct(TupleStructSchema {
            name: "TupleExample".to_string(),
            elems: vec![u32::schema(), String::schema()],
            version: zero(),
        })
    }
}

impl MarkerCompositeTypeShapeTupleStruct for TupleExample {}

fn assist_assert_named_struct_marker<T: MarkerCompositeTypeShapeNamedStruct>() {}

fn assist_assert_newtype_struct_marker<T: MarkerCompositeTypeShapeNewTypeStruct>() {}

fn assist_assert_tuple_struct_marker<T: MarkerCompositeTypeShapeTupleStruct>() {}

#[test]
fn test_derived_example_has_struct_shape() {
    assist_assert_named_struct_marker::<DerivedExample>();
    let schema = DerivedExample::schema();
    let struct_schema = match &schema {
        Schema::Named(schema) => schema,
        other => panic!("expected struct schema, got {other:?}"),
    };

    assert_eq!(struct_schema.name, "DerivedExample");
    assert_eq!(struct_schema.fields.len(), 2);
    assert_eq!(struct_schema.fields[0].id, 0);
    assert_eq!(struct_schema.fields[0].name, "id");
    assert_eq!(*struct_schema.fields[0].ty, Schema::Primitive(Primitive::U32));
    assert_eq!(struct_schema.fields[1].id, 1);
    assert_eq!(struct_schema.fields[1].name, "name");
    assert_eq!(*struct_schema.fields[1].ty, Schema::Primitive(Primitive::String));
    assert_eq!(struct_schema.field_by_name("id").map(|f| f.name.as_str()), Some("id"));
    assert_eq!(struct_schema.field_by_name("name").map(|f| f.name.as_str()), Some("name"));
}

#[test]
fn test_generic_example_has_struct_shape_for_concrete_type() {
    let schema = GenericExample::<u32>::schema();
    let struct_schema = match &schema {
        Schema::Named(schema) => schema,
        other => panic!("expected struct schema, got {other:?}"),
    };

    assert_eq!(struct_schema.name, "GenericExample");
    assert_eq!(struct_schema.fields.len(), 2);
    assert_eq!(struct_schema.fields[0].name, "value");
    assert_eq!(*struct_schema.fields[0].ty, Schema::Primitive(Primitive::U32));
    assert_eq!(struct_schema.fields[1].name, "note");
    assert_eq!(*struct_schema.fields[1].ty, Schema::Primitive(Primitive::String));
}

#[test]
fn test_nested_example_has_struct_shape_with_nested_type_shape() {
    match NestedExample::schema() {
        Schema::Named(schema) => {
            assert_eq!(schema.name, "NestedExample");
            assert_eq!(schema.fields.len(), 2);
            assert_eq!(schema.fields[0].name, "inner");
            assert_eq!(*schema.fields[0].ty, DerivedExample::schema());
            assert_eq!(schema.fields[1].name, "note");
            assert_eq!(*schema.fields[1].ty, Schema::Primitive(Primitive::String));
        }
        other => panic!("expected struct schema, got {other:?}"),
    }
}

#[test]
fn test_tuple_field_example_has_struct_shape_with_tuple_field() {
    match TupleFieldExample::schema() {
        Schema::Named(schema) => {
            assert_eq!(schema.name, "TupleFieldExample");
            assert_eq!(schema.fields.len(), 2);
            assert_eq!(schema.fields[0].name, "pair");
            match &*schema.fields[0].ty {
                Schema::Tuple(elems) => {
                    assert_eq!(elems.len(), 2);
                    assert_eq!(elems[0], Schema::Primitive(Primitive::U32));
                    assert_eq!(elems[1], Schema::Primitive(Primitive::String));
                }
                other => panic!("expected tuple field schema, got {other:?}"),
            }
            assert_eq!(schema.fields[1].name, "label");
            assert_eq!(*schema.fields[1].ty, Schema::Primitive(Primitive::String));
        }
        other => panic!("expected struct schema, got {other:?}"),
    }
}

#[test]
fn test_unit_example_has_unit_struct_shape() {
    match UnitExample::schema() {
        Schema::UnitStruct(unit) => assert_eq!(unit.name, "UnitExample"),
        other => panic!("expected unit struct schema, got {other:?}"),
    }
}

#[test]
fn test_newtype_example_has_newtype_struct_shape() {
    assist_assert_newtype_struct_marker::<NewtypeExample>();
    match NewtypeExample::schema() {
        Schema::NewTypeStruct(newtype) => {
            assert_eq!(newtype.name, "NewtypeExample");
            assert_eq!(*newtype.inner, Schema::Primitive(Primitive::U32));
        }
        other => panic!("expected newtype struct schema, got {other:?}"),
    }
}

#[test]
fn test_tuple_example_has_tuple_struct_shape() {
    assist_assert_tuple_struct_marker::<TupleExample>();
    match TupleExample::schema() {
        Schema::TupleStruct(tuple) => {
            assert_eq!(tuple.name, "TupleExample");
            assert_eq!(tuple.elems.len(), 2);
            assert_eq!(tuple.elems[0], Schema::Primitive(Primitive::U32));
            assert_eq!(tuple.elems[1], Schema::Primitive(Primitive::String));
        }
        other => panic!("expected tuple struct schema, got {other:?}"),
    }
}

#[test]
fn standard_types_have_their_shapes() {
    assert_eq!(bool::schema(), Schema::Primitive(Primitive::Bool));
    assert_eq!(i128::schema(), Schema::Primitive(Primitive::I128));
    assert_eq!(char::schema(), Schema::Primitive(Primitive::Char));
    assert_eq!(<()>::schema(), Schema::Tuple(vec![]));
    assert_eq!(
        Option::<u8>::schema(),
        Schema::Option(Box::new(Schema::Primitive(Primitive::U8)))
    );
    assert_eq!(
        Vec::<u16>::schema(),
        Schema::Sequence(Box::new(Schema::Primitive(Primitive::U16)))
    );
    assert_eq!(
        <[i8; 4]>::schema(),
        Schema::Sequence(Box::new(Schema::Primitive(Primitive::I8)))
    );
    assert_eq!(
        std::collections::BTreeMap::<String, i64>::schema(),
        Schema::Mapping(
            Box::new(Schema::Primitive(Primitive::String)),
            Box::new(Schema::Primitive(Primitive::I64))
        )
    );
    match Result::<u32, String>::schema() {
        Schema::Enum(e) => {
            assert_eq!(e.name, "Result");
            assert_eq!(e.variants.len(), 2);
            assert_eq!(e.variants[0].id, 0);
            assert_eq!(e.variants[1].id, 1);
            let ok = e.variants[0].kind.as_newtype().expect("Ok is a newtype variant");
            assert_eq!(ok.name, "Ok");
            assert_eq!(*ok.inner, Schema::Primitive(Primitive::U32));
            let err = e.variants[1].kind.as_newtype().expect("Err is a newtype variant");
            assert_eq!(err.name, "Err");
            assert_eq!(*err.inner, Schema::Primitive(Primitive::String));
            assert!(e.variant_activations.is_empty());
        }
        other => panic!("expected enum schema, got {other:?}"),
    }
}

#[test]
fn from_ref_copies_a_schema_exactly() {
    let source = NestedExample::schema();
    let copy = Schema::from_ref(&source);
    assert_eq!(copy, source);
    let tuple = <(u8, Vec<String>, Option<bool>)>::schema();
    assert_eq!(Schema::from_ref(&tuple), tuple);
    let result = Result::<u32, String>::schema();
    assert_eq!(Schema::from_ref(&result), result);
}
