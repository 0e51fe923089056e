//! Tuple and map container schemas.

use kaloron::{Primitive, Schema, TypeShape};
use std::collections::{BTreeMap, HashMap};

type Tuple32 = (
    u8, u8, u8, u8, u8, u8, u8, u8, u8, u8, u8, u8, u8, u8, u8, u8,
    u8, u8, u8, u8, u8, u8, u8, u8, u8, u8, u8, u8, u8, u8, u8, u8,
);

fn assist_assert_map_schema(schema: Schema, expected_key: &Schema, expected_value: &Schema) {
    match schema {
        Schema::Mapping(key, value) => {
            assert_eq!(&*key, expected_key);
            assert_eq!(&*value, expected_value);
        }
        other => panic!("expected map schema, got {other:?}"),
    }
}

#[test]
fn test_tuple_schema_supports_32_elements() {
    let schema = <Tuple32 as TypeShape>::schema();
    let elems = match schema {
        Schema::Tuple(elems) => elems,
        other => panic!("expected tuple schema, got {other:?}"),
    };

    assert_eq!(elems.len(), 32);
    assert!(elems.iter().all(|ty| *ty == Schema::Primitive(Primitive::U8)));
}

#[test]
fn test_map_container_schemas_are_maps() {
    assist_assert_map_schema(
        <HashMap<u32, u32> as TypeShape>::schema(),
        &Schema::Primitive(Primitive::U32),
        &Schema::Primitive(Primitive::U32),
    );
    assist_assert_map_schema(
        <BTreeMap<u32, u32> as TypeShape>::schema(),
        &Schema::Primitive(Primitive::U32),
        &Schema::Primitive(Primitive::U32),
    );
}

#[test]
fn single_and_mixed_tuples_list_their_elements_in_order() {
    assert_eq!(
        <(u8,) as TypeShape>::schema(),
        Schema::Tuple(vec![Schema::Primitive(Primitive::U8)])
    );
    assert_eq!(
        <(bool, String, u64, char) as TypeShape>::schema(),
        Schema::Tuple(vec![
            Schema::Primitive(Primitive::Bool),
            Schema::Primitive(Primitive::String),
            Schema::Primitive(Primitive::U64),
            Schema::Primitive(Primitive::Char),
        ])
    );
}

#[test]
fn boxed_slices_are_sequences() {
    match <Box<[u8]> as TypeShape>::schema() {
        Schema::Sequence(inner) => assert_eq!(*inner, Schema::Primitive(Primitive::U8)),
        other => panic!("expected sequence schema, got {other:?}"),
    }
}
