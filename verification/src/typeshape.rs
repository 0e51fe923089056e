//! Types that describe their own shape with a schema, the schemas of the
//! standard types, and typed field and service constructors.

use crate::negotiation::service_well_formed;
use crate::schema::{EnumSchema, Field, Primitive, Schema, Variant, VariantKind};
use crate::service::{blake3_hash_of, service_digest, ServiceSchema};
use crate::version::{Version, VersionRange};
use std::collections::{BTreeMap, BTreeSet, HashMap, HashSet, VecDeque};
use vstd::prelude::*;

verus! {

/// A type whose values have the shape described by a schema.
pub trait TypeShape: Sized {
    /// `true` when `s` is the schema describing this type. A type that does
    /// not say which schema describes it admits any.
    open spec fn is_shape(s: Schema) -> bool {
        true
    }

    /// Build the schema describing this type.
    fn schema() -> (r: Schema)
        ensures
            Self::is_shape(r),
    ;
}

/// The values a primitive integer kind describes, as the least and greatest
/// of them; `None` for the kinds that are not integers.
pub open spec fn primitive_int_range(p: Primitive) -> Option<(int, int)> {
    match p {
        Primitive::I8 => Some((-0x80, 0x7f)),
        Primitive::I16 => Some((-0x8000, 0x7fff)),
        Primitive::I32 => Some((-0x8000_0000, 0x7fff_ffff)),
        Primitive::I64 => Some((-0x8000_0000_0000_0000, 0x7fff_ffff_ffff_ffff)),
        Primitive::I128 => Some(
            (-0x8000_0000_0000_0000_0000_0000_0000_0000, 0x7fff_ffff_ffff_ffff_ffff_ffff_ffff_ffff),
        ),
        Primitive::U8 => Some((0, 0xff)),
        Primitive::U16 => Some((0, 0xffff)),
        Primitive::U32 => Some((0, 0xffff_ffff)),
        Primitive::U64 => Some((0, 0xffff_ffff_ffff_ffff)),
        Primitive::U128 => Some((0, 0xffff_ffff_ffff_ffff_ffff_ffff_ffff_ffff)),
        _ => None,
    }
}

/// `true` when `s` is the schema of a primitive integer kind whose values
/// run from `lo` to `hi`.
pub open spec fn describes_integers(s: Schema, lo: int, hi: int) -> bool {
    s matches Schema::Primitive(p) && primitive_int_range(p) == Some((lo, hi))
}

/// The schema of each integer type is the primitive kind whose values are
/// exactly that type's values: no integer type is described by the kind of
/// another, narrower or wider, or signed where it is unsigned.
pub proof fn lemma_integer_shapes_match_their_ranges(s: Schema)
    ensures
        <i8 as TypeShape>::is_shape(s) ==> describes_integers(s, i8::MIN as int, i8::MAX as int),
        <i16 as TypeShape>::is_shape(s) ==> describes_integers(s, i16::MIN as int, i16::MAX as int),
        <i32 as TypeShape>::is_shape(s) ==> describes_integers(s, i32::MIN as int, i32::MAX as int),
        <i64 as TypeShape>::is_shape(s) ==> describes_integers(s, i64::MIN as int, i64::MAX as int),
        <i128 as TypeShape>::is_shape(s) ==> describes_integers(
            s,
            i128::MIN as int,
            i128::MAX as int,
        ),
        <u8 as TypeShape>::is_shape(s) ==> describes_integers(s, 0, u8::MAX as int),
        <u16 as TypeShape>::is_shape(s) ==> describes_integers(s, 0, u16::MAX as int),
        <u32 as TypeShape>::is_shape(s) ==> describes_integers(s, 0, u32::MAX as int),
        <u64 as TypeShape>::is_shape(s) ==> describes_integers(s, 0, u64::MAX as int),
        <u128 as TypeShape>::is_shape(s) ==> describes_integers(s, 0, u128::MAX as int),
{
}

/// Marks types whose schema is an enum.
pub trait MarkerCompositeTypeShapeEnum {}

/// Marks types whose schema is a named struct.
pub trait MarkerCompositeTypeShapeNamedStruct {}

/// Marks types whose schema is a tuple struct.
pub trait MarkerCompositeTypeShapeTupleStruct {}

/// Marks types whose schema is a newtype struct.
pub trait MarkerCompositeTypeShapeNewTypeStruct {}

/// `true` when the range is the default lifecycle: introduced at 0.0.0,
/// never deprecated, never removed.
pub open spec fn is_default_range(r: VersionRange) -> bool {
    r.introduced@ == 0 && r.deprecations@.len() == 0 && r.removed_in is None
}

impl TypeShape for bool {
    open spec fn is_shape(s: Schema) -> bool {
        s == Schema::Primitive(Primitive::Bool)
    }

    fn schema() -> (r: Schema) {
        Schema::Primitive(Primitive::Bool)
    }
}

impl TypeShape for i8 {
    open spec fn is_shape(s: Schema) -> bool {
        s == Schema::Primitive(Primitive::I8)
    }

    fn schema() -> (r: Schema) {
        Schema::Primitive(Primitive::I8)
    }
}

impl TypeShape for i16 {
    open spec fn is_shape(s: Schema) -> bool {
        s == Schema::Primitive(Primitive::I16)
    }

    fn schema() -> (r: Schema) {
        Schema::Primitive(Primitive::I16)
    }
}

impl TypeShape for i32 {
    open spec fn is_shape(s: Schema) -> bool {
        s == Schema::Primitive(Primitive::I32)
    }

    fn schema() -> (r: Schema) {
        Schema::Primitive(Primitive::I32)
    }
}

impl TypeShape for i64 {
    open spec fn is_shape(s: Schema) -> bool {
        s == Schema::Primitive(Primitive::I64)
    }

    fn schema() -> (r: Schema) {
        Schema::Primitive(Primitive::I64)
    }
}

impl TypeShape for i128 {
    open spec fn is_shape(s: Schema) -> bool {
        s == Schema::Primitive(Primitive::I128)
    }

    fn schema() -> (r: Schema) {
        Schema::Primitive(Primitive::I128)
    }
}

impl TypeShape for u8 {
    open spec fn is_shape(s: Schema) -> bool {
        s == Schema::Primitive(Primitive::U8)
    }

    fn schema() -> (r: Schema) {
        Schema::Primitive(Primitive::U8)
    }
}

impl TypeShape for u16 {
    open spec fn is_shape(s: Schema) -> bool {
        s == Schema::Primitive(Primitive::U16)
    }

    fn schema() -> (r: Schema) {
        Schema::Primitive(Primitive::U16)
    }
}

impl TypeShape for u32 {
    open spec fn is_shape(s: Schema) -> bool {
        s == Schema::Primitive(Primitive::U32)
    }

    fn schema() -> (r: Schema) {
        Schema::Primitive(Primitive::U32)
    }
}

impl TypeShape for u64 {
    open spec fn is_shape(s: Schema) -> bool {
        s == Schema::Primitive(Primitive::U64)
    }

    fn schema() -> (r: Schema) {
        Schema::Primitive(Primitive::U64)
    }
}

impl TypeShape for u128 {
    open spec fn is_shape(s: Schema) -> bool {
        s == Schema::Primitive(Primitive::U128)
    }

    fn schema() -> (r: Schema) {
        Schema::Primitive(Primitive::U128)
    }
}

impl TypeShape for char {
    open spec fn is_shape(s: Schema) -> bool {
        s == Schema::Primitive(Primitive::Char)
    }

    fn schema() -> (r: Schema) {
        Schema::Primitive(Primitive::Char)
    }
}

impl TypeShape for String {
    open spec fn is_shape(s: Schema) -> bool {
        s == Schema::Primitive(Primitive::String)
    }

    fn schema() -> (r: Schema) {
        Schema::Primitive(Primitive::String)
    }
}

impl TypeShape for () {
    open spec fn is_shape(s: Schema) -> bool {
        s matches Schema::Tuple(elems) && elems@.len() == 0
    }

    fn schema() -> (r: Schema) {
        Schema::Tuple(Vec::new())
    }
}

impl<T: TypeShape> TypeShape for Option<T> {
    open spec fn is_shape(s: Schema) -> bool {
        s matches Schema::Option(inner) && T::is_shape(*inner)
    }

    fn schema() -> (r: Schema) {
        Schema::Option(Box::new(T::schema()))
    }
}

impl<T: TypeShape> TypeShape for Vec<T> {
    open spec fn is_shape(s: Schema) -> bool {
        s matches Schema::Sequence(inner) && T::is_shape(*inner)
    }

    fn schema() -> (r: Schema) {
        Schema::Sequence(Box::new(T::schema()))
    }
}

impl<T: TypeShape> TypeShape for VecDeque<T> {
    open spec fn is_shape(s: Schema) -> bool {
        s matches Schema::Sequence(inner) && T::is_shape(*inner)
    }

    fn schema() -> (r: Schema) {
        Schema::Sequence(Box::new(T::schema()))
    }
}

impl<T: TypeShape> TypeShape for Box<[T]> {
    open spec fn is_shape(s: Schema) -> bool {
        s matches Schema::Sequence(inner) && T::is_shape(*inner)
    }

    fn schema() -> (r: Schema) {
        Schema::Sequence(Box::new(T::schema()))
    }
}

impl<T: TypeShape> TypeShape for BTreeSet<T> {
    open spec fn is_shape(s: Schema) -> bool {
        s matches Schema::Sequence(inner) && T::is_shape(*inner)
    }

    fn schema() -> (r: Schema) {
        Schema::Sequence(Box::new(T::schema()))
    }
}

impl<T: TypeShape, const N: usize> TypeShape for [T; N] {
    open spec fn is_shape(s: Schema) -> bool {
        s matches Schema::Sequence(inner) && T::is_shape(*inner)
    }

    fn schema() -> (r: Schema) {
        Schema::Sequence(Box::new(T::schema()))
    }
}

impl<K: TypeShape, V: TypeShape> TypeShape for BTreeMap<K, V> {
    open spec fn is_shape(s: Schema) -> bool {
        s matches Schema::Mapping(k, v) && K::is_shape(*k) && V::is_shape(*v)
    }

    fn schema() -> (r: Schema) {
        Schema::Mapping(Box::new(K::schema()), Box::new(V::schema()))
    }
}

impl<T: TypeShape> TypeShape for HashSet<T> {
    open spec fn is_shape(s: Schema) -> bool {
        s matches Schema::Sequence(inner) && T::is_shape(*inner)
    }

    fn schema() -> (r: Schema) {
        Schema::Sequence(Box::new(T::schema()))
    }
}

impl<K: TypeShape, V: TypeShape> TypeShape for HashMap<K, V> {
    open spec fn is_shape(s: Schema) -> bool {
        s matches Schema::Mapping(k, v) && K::is_shape(*k) && V::is_shape(*v)
    }

    fn schema() -> (r: Schema) {
        Schema::Mapping(Box::new(K::schema()), Box::new(V::schema()))
    }
}

impl<T: TypeShape, E: TypeShape> TypeShape for Result<T, E> {
    open spec fn is_shape(s: Schema) -> bool {
        &&& s matches Schema::Enum(e)
        &&& e.name@ == "Result"@
        &&& e.variants@.len() == 2
        &&& e.variants@[0].id == 0
        &&& e.variants@[0].kind matches VariantKind::NewType(ok) && ok.name@ == "Ok"@
            && T::is_shape(*ok.inner) && is_default_range(ok.version)
        &&& e.variants@[1].id == 1
        &&& e.variants@[1].kind matches VariantKind::NewType(err) && err.name@ == "Err"@
            && E::is_shape(*err.inner) && is_default_range(err.version)
        &&& is_default_range(e.version)
        &&& e.variant_activations@.len() == 0
    }

    fn schema() -> (r: Schema) {
        let ok = Variant::newtype(
            0,
            String::from_str("Ok"),
            T::schema(),
            VersionRange::default(),
        );
        let err = Variant::newtype(
            1,
            String::from_str("Err"),
            E::schema(),
            VersionRange::default(),
        );
        Schema::Enum(
            EnumSchema::new(
                String::from_str("Result"),
                vec![ok, err],
                VersionRange::default(),
                Vec::new(),
            ),
        )
    }
}

impl Field {
    /// Create a field whose type schema is that of `T`.
    pub fn new_typed<T: TypeShape>(id: u32, name: String) -> (f: Field)
        ensures
            f.id == id,
            f.name == name,
            T::is_shape(*f.ty),
            is_default_range(f.version),
    {
        Field::new(id, name, T::schema())
    }

    /// Create a field whose type schema is that of `T`, with an explicit
    /// lifecycle.
    pub fn new_typed_with_version<T: TypeShape>(id: u32, name: String, version: VersionRange) -> (f:
        Field)
        ensures
            f.id == id,
            f.name == name,
            T::is_shape(*f.ty),
            f.version == version,
    {
        Field::new_with_version(id, name, T::schema(), version)
    }
}

/// A service whose calls can be dispatched; each service definition
/// supplies its schema.
pub trait ServiceFactory {
    /// The schema that describes this service, as the specification names it.
    spec fn spec_service_schema() -> ServiceSchema;

    /// The schema that describes this service.
    fn service_schema() -> (s: ServiceSchema)
        ensures
            s == Self::spec_service_schema(),
            service_well_formed(s),
    ;

    /// The exact schema hash of this service's effective surface at
    /// `version`.
    fn effective_schema_hash(version: Version) -> (h: [u8; 32])
        ensures
            h@ == blake3_hash_of(service_digest(Self::spec_service_schema(), version)),
    {
        let schema = Self::service_schema();
        schema.effective_schema_hash(version)
    }
}

} // verus!
