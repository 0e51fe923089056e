//! Representation of a value's schema following Serde's data model.
//!
//! A `Schema` describes the shape of values that can be sent and received:
//! primitives, options, sequences, tuples, maps, and the named struct and
//! enum shapes whose fields and variants carry version lifecycles.

use crate::wire::{be_u32, be_u64, framed_text, push_be_u32, push_be_u64, push_framed_text, push_u8};
use crate::version::{
    activation_table_sorted, binary_search_activation, states_at, ActivationState, Version,
    VersionActivationEntry, VersionRange,
};
use vstd::prelude::*;

verus! {

/// Primitive schema kinds: the atomic, non-structured types (integers,
/// floats, bool, char, strings, file handles).
#[derive(Copy, Clone, Debug, PartialEq, Eq, Structural)]
pub enum Primitive {
    Bool,
    I8,
    I16,
    I32,
    I64,
    I128,
    U8,
    U16,
    U32,
    U64,
    U128,
    F32,
    F64,
    Char,
    /// UTF-8 string
    String,
    /// File descriptor / file handle.
    File,
}

/// Unit struct schema (named type with no fields)
#[derive(Debug, Clone, PartialEq, Eq)]
pub struct UnitStructSchema {
    /// Name for the unit struct (e.g., fully-qualified path)
    pub name: String,
    /// Version lifecycle metadata.
    pub version: VersionRange,
}

/// Newtype struct schema (single unnamed field)
#[derive(Debug, PartialEq, Eq)]
pub struct NewTypeStructSchema {
    /// Name for the newtype struct
    pub name: String,
    /// Inner type schema
    pub inner: Box<Schema>,
    /// Version lifecycle metadata.
    pub version: VersionRange,
}

/// Tuple struct schema (named, but fields are positional)
#[derive(Debug, PartialEq, Eq)]
pub struct TupleStructSchema {
    /// Name for the tuple struct
    pub name: String,
    /// Element schemas
    pub elems: Vec<Schema>,
    /// Version lifecycle metadata.
    pub version: VersionRange,
}

/// Field in a struct
#[derive(Debug, PartialEq, Eq)]
pub struct Field {
    /// Explicit field ID for wire stability.
    pub id: u32,
    /// Field name.
    pub name: String,
    /// Field type schema.
    pub ty: Box<Schema>,
    /// Version lifecycle metadata for this field.
    pub version: VersionRange,
}

/// Struct schema with ordered fields and a name index.
#[derive(Debug, PartialEq, Eq)]
pub struct NamedStructSchema {
    /// Name for the struct (e.g., fully-qualified path)
    pub name: String,
    /// Ordered list of fields in declaration order.
    pub fields: Vec<Field>,
    /// Index for looking up fields by name: (name, position in `fields`)
    /// pairs sorted by name.
    pub index: Vec<(String, usize)>,
    /// Version lifecycle metadata.
    pub version: VersionRange,
    /// Version activation table for fields, ordered by ascending version.
    /// Each entry maps a starting version to the states of the fields from
    /// that version onward.
    pub field_activations: Vec<VersionActivationEntry>,
}

/// Enum schema using Serde variant kinds: unit, newtype, tuple, and named struct.
#[derive(Debug, PartialEq, Eq)]
pub struct EnumSchema {
    /// Name for the enum type.
    pub name: String,
    /// Variant schemas.
    pub variants: Vec<Variant>,
    /// Version lifecycle metadata.
    pub version: VersionRange,
    /// Version activation table for variants, ordered by ascending version.
    pub variant_activations: Vec<VersionActivationEntry>,
}

/// A single variant in an enum schema, carrying an explicit ID for wire stability.
#[derive(Debug, PartialEq, Eq)]
pub struct Variant {
    /// Explicit variant ID for wire stability.
    pub id: u32,
    /// The kind and payload of this variant.
    pub kind: VariantKind,
}

/// The kind of an enum variant (unit, newtype, tuple, or named struct).
#[derive(Debug, PartialEq, Eq)]
pub enum VariantKind {
    /// Unit variant (no data)
    Unit(UnitStructSchema),
    /// Newtype variant (single value payload)
    NewType(NewTypeStructSchema),
    /// Tuple variant with element schemas
    Tuple(TupleStructSchema),
    /// Named struct variant with named fields
    Named(NamedStructSchema),
}

/// Main schema enum describing all supported shapes
#[derive(Debug, PartialEq, Eq)]
pub enum Schema {
    /// Primitive scalar types grouped under `Primitive`.
    Primitive(Primitive),
    /// Option<T>
    Option(Box<Schema>),
    /// Sequence: variably sized sequence of elements (Vec, slice)
    Sequence(Box<Schema>),
    /// Tuple: fixed-size heterogeneous tuple / array
    Tuple(Vec<Schema>),
    /// Map: variably sized mapping
    Mapping(Box<Schema>, Box<Schema>),
    /// Unit: `()`
    Unit,
    /// Unit struct: named value with no data
    UnitStruct(UnitStructSchema),
    /// Newtype struct: named wrapper around one value
    NewTypeStruct(NewTypeStructSchema),
    /// Tuple struct: named tuple
    TupleStruct(TupleStructSchema),
    /// Struct with named fields
    Named(NamedStructSchema),
    /// Enum with Serde-style variants
    Enum(EnumSchema),
}

/// The tag byte that identifies a primitive kind in a schema digest.
pub open spec fn primitive_tag(p: Primitive) -> u8 {
    match p {
        Primitive::Bool => 0x20u8,
        Primitive::I8 => 0x21u8,
        Primitive::I16 => 0x22u8,
        Primitive::I32 => 0x23u8,
        Primitive::I64 => 0x24u8,
        Primitive::I128 => 0x25u8,
        Primitive::U8 => 0x26u8,
        Primitive::U16 => 0x27u8,
        Primitive::U32 => 0x28u8,
        Primitive::U64 => 0x29u8,
        Primitive::U128 => 0x2Au8,
        Primitive::F32 => 0x2Bu8,
        Primitive::F64 => 0x2Cu8,
        Primitive::Char => 0x2Du8,
        Primitive::String => 0x2Eu8,
        Primitive::File => 0x2Fu8,
    }
}

/// Number of states that are not `Inactive`.
pub open spec fn count_present(states: Seq<ActivationState>) -> nat
    decreases states.len(),
{
    if states.len() == 0 {
        0
    } else {
        count_present(states.drop_last()) + if states.last() == ActivationState::Inactive {
            0nat
        } else {
            1nat
        }
    }
}

/// The state byte that precedes an included field or variant: 0x01 for
/// `Deprecated`, 0x00 otherwise.
pub open spec fn state_byte(state: ActivationState) -> u8 {
    if state == ActivationState::Deprecated {
        1u8
    } else {
        0u8
    }
}

/// Digest input of a unit struct: its framed name and its version range.
pub open spec fn unit_digest(u: UnitStructSchema) -> Seq<u8> {
    framed_text(u.name@) + u.version.digest_bytes()
}

/// Digest input of a schema as seen at protocol version `v`.
pub open spec fn schema_digest(s: Schema, v: Version) -> Seq<u8>
    decreases s, 0int,
{
    match s {
        Schema::Primitive(p) => seq![primitive_tag(p)],
        Schema::Option(inner) => seq![0x10u8] + schema_digest(*inner, v),
        Schema::Sequence(inner) => seq![0x11u8] + schema_digest(*inner, v),
        Schema::Tuple(elems) => seq![0x12u8] + be_u64(elems@.len() as u64) + schemas_digest(
            elems@,
            v,
        ),
        Schema::Mapping(k, val) => seq![0x13u8] + schema_digest(*k, v) + schema_digest(*val, v),
        Schema::Unit => seq![0x14u8],
        Schema::UnitStruct(u) => seq![0x15u8] + unit_digest(u),
        Schema::NewTypeStruct(n) => seq![0x16u8] + newtype_digest(n, v),
        Schema::TupleStruct(t) => seq![0x17u8] + tuple_struct_digest(t, v),
        Schema::Named(n) => seq![0x18u8] + named_digest(n, v),
        Schema::Enum(e) => seq![0x19u8] + enum_digest(e, v),
    }
}

/// Concatenated digest inputs of a list of schemas.
pub open spec fn schemas_digest(items: Seq<Schema>, v: Version) -> Seq<u8>
    decreases items, 0int,
{
    if items.len() == 0 {
        Seq::empty()
    } else {
        schemas_digest(items.subrange(0, items.len() - 1), v) + schema_digest(
            items[items.len() - 1],
            v,
        )
    }
}

/// Digest input of a newtype struct.
pub open spec fn newtype_digest(n: NewTypeStructSchema, v: Version) -> Seq<u8>
    decreases n, 0int,
{
    framed_text(n.name@) + schema_digest(*n.inner, v) + n.version.digest_bytes()
}

/// Digest input of a tuple struct.
pub open spec fn tuple_struct_digest(t: TupleStructSchema, v: Version) -> Seq<u8>
    decreases t, 0int,
{
    framed_text(t.name@) + be_u64(t.elems@.len() as u64) + schemas_digest(t.elems@, v)
        + t.version.digest_bytes()
}

/// Digest input of a field.
pub open spec fn field_digest(f: Field, v: Version) -> Seq<u8>
    decreases f, 0int,
{
    be_u32(f.id) + framed_text(f.name@) + schema_digest(*f.ty, v) + f.version.digest_bytes()
}

/// Digest input of the fields selected by `states`: each field whose state
/// is not `Inactive`, preceded by its state byte.
pub open spec fn gated_fields_digest(
    fields: Seq<Field>,
    states: Seq<ActivationState>,
    v: Version,
) -> Seq<u8>
    decreases fields, states.len(),
{
    if states.len() == 0 {
        Seq::empty()
    } else {
        let k = states.len() - 1;
        gated_fields_digest(fields, states.subrange(0, k), v) + if states[k]
            == ActivationState::Inactive || k >= fields.len() {
            Seq::empty()
        } else {
            seq![state_byte(states[k])] + field_digest(fields[k], v)
        }
    }
}

/// The digest of the fields selected by a prefix of the states is a prefix
/// of the digest of the fields selected by all of them.
proof fn lemma_gated_fields_prefix(
    fields: Seq<Field>,
    states: Seq<ActivationState>,
    v: Version,
    j: int,
)
    requires
        0 <= j <= states.len(),
    ensures
        gated_fields_digest(fields, states.subrange(0, j), v).len() <= gated_fields_digest(
            fields,
            states,
            v,
        ).len(),
        gated_fields_digest(fields, states, v).take(
            gated_fields_digest(fields, states.subrange(0, j), v).len() as int,
        ) == gated_fields_digest(fields, states.subrange(0, j), v),
    decreases states.len(),
{
    if j == states.len() {
        assert(states.subrange(0, j) =~= states);
    } else {
        let shorter = states.subrange(0, states.len() - 1);
        lemma_gated_fields_prefix(fields, shorter, v, j);
        assert(shorter.subrange(0, j) =~= states.subrange(0, j));
        let whole = gated_fields_digest(fields, states, v);
        let part = gated_fields_digest(fields, shorter, v);
        let small = gated_fields_digest(fields, states.subrange(0, j), v);
        assert(whole.take(part.len() as int) =~= part);
        assert(whole.take(small.len() as int) =~= part.take(small.len() as int));
    }
}

/// In the digest input of a named struct at `v` whose fields have states
/// `states` there, every included field (one not `Inactive`) is preceded by
/// a byte that is 0x01 when the field is deprecated and 0x00 when it is
/// active, followed by the field's own digest input.
#[verifier::spinoff_prover]
#[verifier::rlimit(40)]
pub proof fn lemma_named_digest_tags_fields(
    n: NamedStructSchema,
    v: Version,
    states: Seq<ActivationState>,
    k: int,
)
    requires
        states_at(n.field_activations@, v) == Some(states),
        0 <= k < states.len(),
        k < n.fields@.len(),
        states[k] != ActivationState::Inactive,
    ensures
        ({
            let at = framed_text(n.name@).len() + 8 + gated_fields_digest(
                n.fields@,
                states.subrange(0, k),
                v,
            ).len() as int;
            let field = field_digest(n.fields@[k], v);
            &&& named_digest(n, v).len() >= at + 1 + field.len()
            &&& named_digest(n, v)[at] == if states[k] == ActivationState::Deprecated {
                1u8
            } else {
                0u8
            }
            &&& named_digest(n, v).subrange(at + 1, at + 1 + field.len()) == field
        }),
{
    let fields = n.fields@;
    let upto = states.subrange(0, k + 1);
    lemma_gated_fields_prefix(fields, states, v, k + 1);
    assert(upto.subrange(0, k) =~= states.subrange(0, k));
    let before = gated_fields_digest(fields, states.subrange(0, k), v);
    let field = field_digest(fields[k], v);
    let b: u8 = if states[k] == ActivationState::Deprecated {
        1u8
    } else {
        0u8
    };
    assert(gated_fields_digest(fields, upto, v) == before + (seq![b] + field));
    let all = gated_fields_digest(fields, states, v);
    let head = framed_text(n.name@) + be_u64(count_present(states) as u64);
    assert(named_digest(n, v) == head + all + n.version.digest_bytes());
    lemma_locate(named_digest(n, v), head, all, n.version.digest_bytes(), before, b, field);
}

/// Where a known part sits inside a concatenation: when the middle part of
/// `head + all + tail` starts with `before`, the byte `b`, and `field`, then
/// `b` and `field` sit right after `head` and `before`.
proof fn lemma_locate(
    d: Seq<u8>,
    head: Seq<u8>,
    all: Seq<u8>,
    tail: Seq<u8>,
    before: Seq<u8>,
    b: u8,
    field: Seq<u8>,
)
    requires
        d == head + all + tail,
        before.len() + 1 + field.len() <= all.len(),
        all.take((before.len() + 1 + field.len()) as int) == before + (seq![b] + field),
    ensures
        ({
            let at = head.len() + before.len() as int;
            &&& d.len() >= at + 1 + field.len()
            &&& d[at] == b
            &&& d.subrange(at + 1, at + 1 + field.len()) == field
        }),
{
    let at = head.len() + before.len() as int;
    let m = before.len() + 1 + field.len();
    assert(all.take(m as int)[before.len() as int] == b);
    assert(d[at] == all[before.len() as int]);
    assert forall|i: int| 0 <= i < field.len() implies d.subrange(at + 1, at + 1 + field.len())[i]
        == field[i] by {
        assert(d[at + 1 + i] == all[before.len() + 1 + i]);
        assert(all.take(m as int)[before.len() + 1 + i] == (before + (seq![b] + field))[before.len()
            + 1 + i]);
    }
    assert(d.subrange(at + 1, at + 1 + field.len()) =~= field);
}

/// Digest input of all fields, each marked active.
pub open spec fn all_fields_digest(fields: Seq<Field>, v: Version) -> Seq<u8>
    decreases fields, 0int,
{
    if fields.len() == 0 {
        Seq::empty()
    } else {
        all_fields_digest(fields.subrange(0, fields.len() - 1), v) + seq![0u8] + field_digest(
            fields[fields.len() - 1],
            v,
        )
    }
}

/// Digest input of a named struct as seen at `v`: fields inactive at `v` are
/// left out, and the others are tagged active or deprecated. Without an
/// activation entry for `v`, every field is included as active.
pub open spec fn named_digest(n: NamedStructSchema, v: Version) -> Seq<u8>
    decreases n, 0int,
{
    framed_text(n.name@) + match states_at(n.field_activations@, v) {
        Some(states) => be_u64(count_present(states) as u64) + gated_fields_digest(
            n.fields@,
            states,
            v,
        ),
        None => be_u64(n.fields@.len() as u64) + all_fields_digest(n.fields@, v),
    } + n.version.digest_bytes()
}

/// Digest input of a variant.
pub open spec fn variant_digest(var: Variant, v: Version) -> Seq<u8>
    decreases var, 0int,
{
    be_u32(var.id) + kind_digest(var.kind, v)
}

/// Digest input of a variant kind.
pub open spec fn kind_digest(k: VariantKind, v: Version) -> Seq<u8>
    decreases k, 0int,
{
    match k {
        VariantKind::Unit(u) => seq![0x30u8] + unit_digest(u),
        VariantKind::NewType(n) => seq![0x31u8] + newtype_digest(n, v),
        VariantKind::Tuple(t) => seq![0x32u8] + tuple_struct_digest(t, v),
        VariantKind::Named(s) => seq![0x33u8] + named_digest(s, v),
    }
}

/// Digest input of the variants selected by `states`.
pub open spec fn gated_variants_digest(
    variants: Seq<Variant>,
    states: Seq<ActivationState>,
    v: Version,
) -> Seq<u8>
    decreases variants, states.len(),
{
    if states.len() == 0 {
        Seq::empty()
    } else {
        let k = states.len() - 1;
        gated_variants_digest(variants, states.subrange(0, k), v) + if states[k]
            == ActivationState::Inactive || k >= variants.len() {
            Seq::empty()
        } else {
            seq![state_byte(states[k])] + variant_digest(variants[k], v)
        }
    }
}

/// The digest of the variants selected by a prefix of the states is a
/// prefix of the digest of the variants selected by all of them.
proof fn lemma_gated_variants_prefix(
    variants: Seq<Variant>,
    states: Seq<ActivationState>,
    v: Version,
    j: int,
)
    requires
        0 <= j <= states.len(),
    ensures
        gated_variants_digest(variants, states.subrange(0, j), v).len() <= gated_variants_digest(
            variants,
            states,
            v,
        ).len(),
        gated_variants_digest(variants, states, v).take(
            gated_variants_digest(variants, states.subrange(0, j), v).len() as int,
        ) == gated_variants_digest(variants, states.subrange(0, j), v),
    decreases states.len(),
{
    if j == states.len() {
        assert(states.subrange(0, j) =~= states);
    } else {
        let shorter = states.subrange(0, states.len() - 1);
        lemma_gated_variants_prefix(variants, shorter, v, j);
        assert(shorter.subrange(0, j) =~= states.subrange(0, j));
        let whole = gated_variants_digest(variants, states, v);
        let part = gated_variants_digest(variants, shorter, v);
        let small = gated_variants_digest(variants, states.subrange(0, j), v);
        assert(whole.take(part.len() as int) =~= part);
        assert(whole.take(small.len() as int) =~= part.take(small.len() as int));
    }
}

/// In the digest input of an enum at `v` whose variants have states
/// `states` there, every included variant (one not `Inactive`) is preceded
/// by a byte that is 0x01 when the variant is deprecated and 0x00 when it is
/// active, followed by the variant's own digest input.
#[verifier::spinoff_prover]
#[verifier::rlimit(40)]
pub proof fn lemma_enum_digest_tags_variants(
    e: EnumSchema,
    v: Version,
    states: Seq<ActivationState>,
    k: int,
)
    requires
        states_at(e.variant_activations@, v) == Some(states),
        0 <= k < states.len(),
        k < e.variants@.len(),
        states[k] != ActivationState::Inactive,
    ensures
        ({
            let at = framed_text(e.name@).len() + 8 + gated_variants_digest(
                e.variants@,
                states.subrange(0, k),
                v,
            ).len() as int;
            let variant = variant_digest(e.variants@[k], v);
            &&& enum_digest(e, v).len() >= at + 1 + variant.len()
            &&& enum_digest(e, v)[at] == if states[k] == ActivationState::Deprecated {
                1u8
            } else {
                0u8
            }
            &&& enum_digest(e, v).subrange(at + 1, at + 1 + variant.len()) == variant
        }),
{
    let variants = e.variants@;
    let upto = states.subrange(0, k + 1);
    lemma_gated_variants_prefix(variants, states, v, k + 1);
    assert(upto.subrange(0, k) =~= states.subrange(0, k));
    let before = gated_variants_digest(variants, states.subrange(0, k), v);
    let variant = variant_digest(variants[k], v);
    let b: u8 = if states[k] == ActivationState::Deprecated {
        1u8
    } else {
        0u8
    };
    assert(gated_variants_digest(variants, upto, v) == before + (seq![b] + variant));
    let all = gated_variants_digest(variants, states, v);
    let head = framed_text(e.name@) + be_u64(count_present(states) as u64);
    assert(enum_digest(e, v) == head + all + e.version.digest_bytes());
    lemma_locate(enum_digest(e, v), head, all, e.version.digest_bytes(), before, b, variant);
}

/// Digest input of all variants, each marked active.
pub open spec fn all_variants_digest(variants: Seq<Variant>, v: Version) -> Seq<u8>
    decreases variants, 0int,
{
    if variants.len() == 0 {
        Seq::empty()
    } else {
        all_variants_digest(variants.subrange(0, variants.len() - 1), v) + seq![0u8]
            + variant_digest(variants[variants.len() - 1], v)
    }
}

/// Digest input of an enum as seen at `v`.
pub open spec fn enum_digest(e: EnumSchema, v: Version) -> Seq<u8>
    decreases e, 0int,
{
    framed_text(e.name@) + match states_at(e.variant_activations@, v) {
        Some(states) => be_u64(count_present(states) as u64) + gated_variants_digest(
            e.variants@,
            states,
            v,
        ),
        None => be_u64(e.variants@.len() as u64) + all_variants_digest(e.variants@, v),
    } + e.version.digest_bytes()
}

/// `true` when digesting `s` at `v` is well defined: every activation table
/// that the digest consults is ordered, and its governing entry has no more
/// states than there are fields or variants.
pub open spec fn schema_digestible(s: Schema, v: Version) -> bool
    decreases s, 0int,
{
    match s {
        Schema::Option(inner) => schema_digestible(*inner, v),
        Schema::Sequence(inner) => schema_digestible(*inner, v),
        Schema::Tuple(elems) => schemas_digestible(elems@, v),
        Schema::Mapping(k, val) => schema_digestible(*k, v) && schema_digestible(*val, v),
        Schema::NewTypeStruct(n) => newtype_digestible(n, v),
        Schema::TupleStruct(t) => tuple_struct_digestible(t, v),
        Schema::Named(n) => named_digestible(n, v),
        Schema::Enum(e) => enum_digestible(e, v),
        _ => true,
    }
}

/// Every schema of the list is digestible at `v`.
pub open spec fn schemas_digestible(items: Seq<Schema>, v: Version) -> bool
    decreases items, 0int,
{
    forall|i: int| 0 <= i < items.len() ==> schema_digestible(#[trigger] items[i], v)
}

/// The inner schema of the newtype is digestible at `v`.
pub open spec fn newtype_digestible(n: NewTypeStructSchema, v: Version) -> bool
    decreases n, 0int,
{
    schema_digestible(*n.inner, v)
}

/// The element schemas of the tuple struct are digestible at `v`.
pub open spec fn tuple_struct_digestible(t: TupleStructSchema, v: Version) -> bool
    decreases t, 0int,
{
    schemas_digestible(t.elems@, v)
}

/// The type of the field is digestible at `v`.
pub open spec fn field_digestible(f: Field, v: Version) -> bool
    decreases f, 0int,
{
    schema_digestible(*f.ty, v)
}

/// The named struct is digestible at `v`.
pub open spec fn named_digestible(n: NamedStructSchema, v: Version) -> bool
    decreases n, 0int,
{
    &&& activation_table_sorted(n.field_activations@)
    &&& match states_at(n.field_activations@, v) {
        Some(states) => {
            &&& states.len() <= n.fields@.len()
            &&& forall|k: int|
                0 <= k < states.len() && states[k] != ActivationState::Inactive
                    ==> field_digestible(#[trigger] n.fields@[k], v)
        },
        None => forall|k: int| 0 <= k < n.fields@.len() ==> field_digestible(#[trigger] n.fields@[k], v),
    }
}

/// The variant is digestible at `v`.
pub open spec fn variant_digestible(var: Variant, v: Version) -> bool
    decreases var, 0int,
{
    kind_digestible(var.kind, v)
}

/// The variant kind is digestible at `v`.
pub open spec fn kind_digestible(k: VariantKind, v: Version) -> bool
    decreases k, 0int,
{
    match k {
        VariantKind::Unit(_) => true,
        VariantKind::NewType(n) => newtype_digestible(n, v),
        VariantKind::Tuple(t) => tuple_struct_digestible(t, v),
        VariantKind::Named(s) => named_digestible(s, v),
    }
}

/// The enum is digestible at `v`.
pub open spec fn enum_digestible(e: EnumSchema, v: Version) -> bool
    decreases e, 0int,
{
    &&& activation_table_sorted(e.variant_activations@)
    &&& match states_at(e.variant_activations@, v) {
        Some(states) => {
            &&& states.len() <= e.variants@.len()
            &&& forall|k: int|
                0 <= k < states.len() && states[k] != ActivationState::Inactive
                    ==> variant_digestible(#[trigger] e.variants@[k], v)
        },
        None => forall|k: int|
            0 <= k < e.variants@.len() ==> variant_digestible(#[trigger] e.variants@[k], v),
    }
}

/// Number of states in `states` that are not `Inactive`.
fn present_count(states: &[ActivationState]) -> (n: usize)
    ensures
        n == count_present(states@),
{
    let mut n: usize = 0;
    let mut i: usize = 0;
    while i < states.len()
        invariant
            0 <= i <= states@.len(),
            n == count_present(states@.subrange(0, i as int)),
            n <= i,
        decreases states@.len() - i,
    {
        assert(states@.subrange(0, i + 1).drop_last() =~= states@.subrange(0, i as int));
        if !states[i].is_inactive() {
            n += 1;
        }
        i += 1;
    }
    assert(states@.subrange(0, i as int) =~= states@);
    n
}

impl Primitive {
    /// Contribute this primitive kind to a schema digest input.
    pub fn hash_build(&self, build: &mut Vec<u8>)
        ensures
            final(build)@ == old(build)@ + seq![primitive_tag(*self)],
    {
        let tag = match self {
            Primitive::Bool => 0x20u8,
            Primitive::I8 => 0x21u8,
            Primitive::I16 => 0x22u8,
            Primitive::I32 => 0x23u8,
            Primitive::I64 => 0x24u8,
            Primitive::I128 => 0x25u8,
            Primitive::U8 => 0x26u8,
            Primitive::U16 => 0x27u8,
            Primitive::U32 => 0x28u8,
            Primitive::U64 => 0x29u8,
            Primitive::U128 => 0x2Au8,
            Primitive::F32 => 0x2Bu8,
            Primitive::F64 => 0x2Cu8,
            Primitive::Char => 0x2Du8,
            Primitive::String => 0x2Eu8,
            Primitive::File => 0x2Fu8,
        };
        push_u8(build, tag);
    }
}

impl UnitStructSchema {
    /// Contribute this unit struct to a schema digest input.
    pub fn hash_build(&self, build: &mut Vec<u8>)
        ensures
            final(build)@ == old(build)@ + unit_digest(*self),
    {
        push_framed_text(build, self.name.as_str());
        self.version.hash_build(build);
        assert(build@ =~= old(build)@ + unit_digest(*self));
    }
}

impl NewTypeStructSchema {
    /// Contribute this newtype struct to a schema digest input (version-aware).
    pub fn hash_build(&self, version: Version, build: &mut Vec<u8>)
        requires
            newtype_digestible(*self, version),
        ensures
            final(build)@ == old(build)@ + newtype_digest(*self, version),
        decreases self,
    {
        push_framed_text(build, self.name.as_str());
        self.inner.hash_build(version, build);
        self.version.hash_build(build);
        assert(build@ =~= old(build)@ + newtype_digest(*self, version));
    }
}

impl TupleStructSchema {
    /// Contribute this tuple struct to a schema digest input (version-aware).
    pub fn hash_build(&self, version: Version, build: &mut Vec<u8>)
        requires
            tuple_struct_digestible(*self, version),
        ensures
            final(build)@ == old(build)@ + tuple_struct_digest(*self, version),
        decreases self,
    {
        push_framed_text(build, self.name.as_str());
        push_be_u64(build, self.elems.len() as u64);
        hash_build_all(&self.elems, version, build);
        self.version.hash_build(build);
        assert(build@ =~= old(build)@ + tuple_struct_digest(*self, version));
    }
}

impl Field {
    /// Contribute this field to a schema digest input (version-aware).
    pub fn hash_build(&self, version: Version, build: &mut Vec<u8>)
        requires
            field_digestible(*self, version),
        ensures
            final(build)@ == old(build)@ + field_digest(*self, version),
        decreases self,
    {
        push_be_u32(build, self.id);
        push_framed_text(build, self.name.as_str());
        self.ty.hash_build(version, build);
        self.version.hash_build(build);
        assert(build@ =~= old(build)@ + field_digest(*self, version));
    }
}

impl NamedStructSchema {
    /// Contribute this named struct to a schema digest input (version-aware).
    ///
    /// Inactive fields (not yet introduced or removed) are excluded entirely.
    /// Active and deprecated fields are both included, but each is prefixed
    /// with a state byte: `0x00` for `Active`, `0x01` for `Deprecated`.
    /// This ensures the digest reflects deprecation transitions across versions.
    pub fn hash_build(&self, version: Version, build: &mut Vec<u8>)
        requires
            named_digestible(*self, version),
        ensures
            final(build)@ == old(build)@ + named_digest(*self, version),
        decreases self,
    {
        push_framed_text(build, self.name.as_str());
        let ghost mid0 = build@;
        match binary_search_activation(self.field_activations.as_slice(), version) {
            Some(states) => {
                let included = present_count(states);
                push_be_u64(build, included as u64);
                let ghost mid = build@;
                let mut i: usize = 0;
                while i < states.len()
                    invariant
                        0 <= i <= states@.len(),
                        states@.len() <= self.fields@.len(),
                        named_digestible(*self, version),
                        states_at(self.field_activations@, version) == Some(states@),
                        build@ == mid + gated_fields_digest(
                            self.fields@,
                            states@.subrange(0, i as int),
                            version,
                        ),
                    decreases states@.len() - i,
                {
                    let ghost before = states@.subrange(0, i as int);
                    assert(states@.subrange(0, i + 1).subrange(0, i as int) =~= before);
                    if !states[i].is_inactive() {
                        assert(field_digestible(self.fields@[i as int], version));
                        push_u8(build, if states[i].is_deprecated() { 1u8 } else { 0u8 });
                        self.fields[i].hash_build(version, build);
                    }
                    i += 1;
                }
                assert(states@.subrange(0, i as int) =~= states@);
                assert(build@ =~= mid0 + be_u64(count_present(states@) as u64)
                    + gated_fields_digest(self.fields@, states@, version));
            },
            None => {
                push_be_u64(build, self.fields.len() as u64);
                let ghost mid = build@;
                let mut i: usize = 0;
                while i < self.fields.len()
                    invariant
                        0 <= i <= self.fields@.len(),
                        named_digestible(*self, version),
                        states_at(self.field_activations@, version) is None,
                        build@ == mid + all_fields_digest(self.fields@.subrange(0, i as int), version),
                    decreases self.fields@.len() - i,
                {
                    assert(self.fields@.subrange(0, i + 1).subrange(0, i as int)
                        =~= self.fields@.subrange(0, i as int));
                    assert(field_digestible(self.fields@[i as int], version));
                    push_u8(build, 0u8);
                    self.fields[i].hash_build(version, build);
                    i += 1;
                }
                assert(self.fields@.subrange(0, i as int) =~= self.fields@);
                assert(build@ =~= mid0 + be_u64(self.fields@.len() as u64) + all_fields_digest(
                    self.fields@,
                    version,
                ));
            },
        }
        self.version.hash_build(build);
        assert(build@ =~= old(build)@ + named_digest(*self, version));
    }
}

impl Variant {
    /// Contribute this variant to a schema digest input (version-aware).
    pub fn hash_build(&self, version: Version, build: &mut Vec<u8>)
        requires
            variant_digestible(*self, version),
        ensures
            final(build)@ == old(build)@ + variant_digest(*self, version),
        decreases self,
    {
        push_be_u32(build, self.id);
        self.kind.hash_build(version, build);
        assert(build@ =~= old(build)@ + variant_digest(*self, version));
    }
}

impl VariantKind {
    /// Contribute this variant kind to a schema digest input (version-aware).
    pub fn hash_build(&self, version: Version, build: &mut Vec<u8>)
        requires
            kind_digestible(*self, version),
        ensures
            final(build)@ == old(build)@ + kind_digest(*self, version),
        decreases self,
    {
        match self {
            VariantKind::Unit(u) => {
                push_u8(build, 0x30);
                u.hash_build(build);
            },
            VariantKind::NewType(n) => {
                push_u8(build, 0x31);
                n.hash_build(version, build);
            },
            VariantKind::Tuple(t) => {
                push_u8(build, 0x32);
                t.hash_build(version, build);
            },
            VariantKind::Named(s) => {
                push_u8(build, 0x33);
                s.hash_build(version, build);
            },
        }
        assert(build@ =~= old(build)@ + kind_digest(*self, version));
    }
}

impl EnumSchema {
    /// Contribute this enum to a schema digest input (version-aware).
    ///
    /// Inactive variants are excluded entirely; active and deprecated
    /// variants are included, each prefixed with its state byte.
    #[verifier::spinoff_prover]
    #[verifier::rlimit(40)]
    pub fn hash_build(&self, version: Version, build: &mut Vec<u8>)
        requires
            enum_digestible(*self, version),
        ensures
            final(build)@ == old(build)@ + enum_digest(*self, version),
        decreases self,
    {
        push_framed_text(build, self.name.as_str());
        let ghost mid0 = build@;
        match binary_search_activation(self.variant_activations.as_slice(), version) {
            Some(states) => {
                let included = present_count(states);
                push_be_u64(build, included as u64);
                let ghost mid = build@;
                let mut i: usize = 0;
                while i < states.len()
                    invariant
                        0 <= i <= states@.len(),
                        states@.len() <= self.variants@.len(),
                        enum_digestible(*self, version),
                        states_at(self.variant_activations@, version) == Some(states@),
                        build@ == mid + gated_variants_digest(
                            self.variants@,
                            states@.subrange(0, i as int),
                            version,
                        ),
                    decreases states@.len() - i,
                {
                    let ghost before = states@.subrange(0, i as int);
                    assert(states@.subrange(0, i + 1).subrange(0, i as int) =~= before);
                    if !states[i].is_inactive() {
                        assert(variant_digestible(self.variants@[i as int], version));
                        push_u8(build, if states[i].is_deprecated() { 1u8 } else { 0u8 });
                        self.variants[i].hash_build(version, build);
                    }
                    i += 1;
                }
                assert(states@.subrange(0, i as int) =~= states@);
                assert(build@ =~= mid0 + be_u64(count_present(states@) as u64)
                    + gated_variants_digest(self.variants@, states@, version));
            },
            None => {
                push_be_u64(build, self.variants.len() as u64);
                let ghost mid = build@;
                let mut i: usize = 0;
                while i < self.variants.len()
                    invariant
                        0 <= i <= self.variants@.len(),
                        enum_digestible(*self, version),
                        states_at(self.variant_activations@, version) is None,
                        build@ == mid + all_variants_digest(
                            self.variants@.subrange(0, i as int),
                            version,
                        ),
                    decreases self.variants@.len() - i,
                {
                    assert(self.variants@.subrange(0, i + 1).subrange(0, i as int)
                        =~= self.variants@.subrange(0, i as int));
                    assert(variant_digestible(self.variants@[i as int], version));
                    push_u8(build, 0u8);
                    self.variants[i].hash_build(version, build);
                    i += 1;
                }
                assert(self.variants@.subrange(0, i as int) =~= self.variants@);
                assert(build@ =~= mid0 + be_u64(self.variants@.len() as u64)
                    + all_variants_digest(self.variants@, version));
            },
        }
        self.version.hash_build(build);
        assert(build@ =~= old(build)@ + enum_digest(*self, version));
    }
}

/// Contribute every schema of `items`, in order, to a schema digest input.
fn hash_build_all(items: &Vec<Schema>, version: Version, build: &mut Vec<u8>)
    requires
        schemas_digestible(items@, version),
    ensures
        final(build)@ == old(build)@ + schemas_digest(items@, version),
    decreases items,
{
    let ghost mid = build@;
    let mut i: usize = 0;
    while i < items.len()
        invariant
            0 <= i <= items@.len(),
            schemas_digestible(items@, version),
            build@ == mid + schemas_digest(items@.subrange(0, i as int), version),
        decreases items@.len() - i,
    {
        assert(schema_digestible(items@[i as int], version));
        items[i].hash_build(version, build);
        assert(items@.subrange(0, i + 1).subrange(0, i as int) =~= items@.subrange(0, i as int));
        i += 1;
    }
    assert(items@.subrange(0, i as int) =~= items@);
}

impl Schema {
    /// Contribute this schema, as seen at `version`, to a schema digest input.
    ///
    /// For `Named` and `Enum` schemas, only fields/variants that are present
    /// at `version` are included, so the digest reflects the schema shape as
    /// seen at that protocol version.
    pub fn hash_build(&self, version: Version, build: &mut Vec<u8>)
        requires
            schema_digestible(*self, version),
        ensures
            final(build)@ == old(build)@ + schema_digest(*self, version),
        decreases self,
    {
        match self {
            Schema::Primitive(p) => p.hash_build(build),
            Schema::Option(inner) => {
                push_u8(build, 0x10);
                inner.hash_build(version, build);
            },
            Schema::Sequence(inner) => {
                push_u8(build, 0x11);
                inner.hash_build(version, build);
            },
            Schema::Tuple(elems) => {
                push_u8(build, 0x12);
                push_be_u64(build, elems.len() as u64);
                hash_build_all(elems, version, build);
            },
            Schema::Mapping(k, v) => {
                push_u8(build, 0x13);
                k.hash_build(version, build);
                v.hash_build(version, build);
            },
            Schema::Unit => {
                push_u8(build, 0x14);
            },
            Schema::UnitStruct(u) => {
                push_u8(build, 0x15);
                u.hash_build(build);
            },
            Schema::NewTypeStruct(n) => {
                push_u8(build, 0x16);
                n.hash_build(version, build);
            },
            Schema::TupleStruct(t) => {
                push_u8(build, 0x17);
                t.hash_build(version, build);
            },
            Schema::Named(s) => {
                push_u8(build, 0x18);
                s.hash_build(version, build);
            },
            Schema::Enum(e) => {
                push_u8(build, 0x19);
                e.hash_build(version, build);
            },
        }
        assert(build@ =~= old(build)@ + schema_digest(*self, version));
    }
}

/// `true` when the UTF-8 bytes of `a` and `b` are equal.
fn same_text(a: &str, b: &str) -> (r: bool)
    ensures
        r == (vstd::utf8::encode_utf8(a@) == vstd::utf8::encode_utf8(b@)),
{
    let x = a.as_bytes();
    let y = b.as_bytes();
    if x.len() != y.len() {
        return false;
    }
    let mut i: usize = 0;
    while i < x.len()
        invariant
            0 <= i <= x@.len(),
            x@.len() == y@.len(),
            x@ == vstd::utf8::encode_utf8(a@),
            y@ == vstd::utf8::encode_utf8(b@),
            x@.subrange(0, i as int) == y@.subrange(0, i as int),
        decreases x@.len() - i,
    {
        if x[i] != y[i] {
            assert(x@[i as int] != y@[i as int]);
            return false;
        }
        assert(x@.subrange(0, i + 1) =~= x@.subrange(0, i as int).push(x@[i as int]));
        assert(y@.subrange(0, i + 1) =~= y@.subrange(0, i as int).push(y@[i as int]));
        i += 1;
    }
    assert(x@ =~= x@.subrange(0, i as int));
    assert(y@ =~= y@.subrange(0, i as int));
    true
}

/// The UTF-8 bytes of a string.
pub open spec fn text_bytes(s: String) -> Seq<u8> {
    vstd::utf8::encode_utf8(s@)
}

impl Field {
    /// Create a new named field with the default version range.
    pub fn new(id: u32, name: String, ty: Schema) -> (f: Self)
        ensures
            f.id == id,
            f.name == name,
            *f.ty == ty,
            f.version.introduced@ == 0,
            f.version.deprecations@.len() == 0,
            f.version.removed_in is None,
    {
        Field { id, name, ty: Box::new(ty), version: VersionRange::default() }
    }

    /// Create a new named field with an explicit version range.
    pub fn new_with_version(id: u32, name: String, ty: Schema, version: VersionRange) -> (f: Self)
        ensures
            f == (Field { id, name, ty: Box::new(ty), version }),
    {
        Field { id, name, ty: Box::new(ty), version }
    }
}

impl NamedStructSchema {
    /// Create a struct schema with explicit version metadata and field activation table.
    ///
    /// The `field_activations` table must be ordered by ascending starting version.
    pub fn new(
        name: String,
        fields: Vec<Field>,
        index: Vec<(String, usize)>,
        version: VersionRange,
        field_activations: Vec<VersionActivationEntry>,
    ) -> (s: Self)
        ensures
            s == (NamedStructSchema { name, fields, index, version, field_activations }),
    {
        NamedStructSchema { name, fields, index, version, field_activations }
    }

    /// Lookup a field by name using the name index.
    /// Returns the field that the index associates with `name`, or `None`
    /// when the index has no entry for `name`.
    pub fn field_by_name(&self, name: &str) -> (r: Option<&Field>)
        requires
            forall|i: int| 0 <= i < self.index@.len() ==> #[trigger] self.index@[i].1 < self.fields@.len(),
        ensures
            r is None <==> forall|i: int|
                0 <= i < self.index@.len() ==> text_bytes(#[trigger] self.index@[i].0) != vstd::utf8::encode_utf8(name@),
            r matches Some(f) ==> exists|i: int|
                0 <= i < self.index@.len() && text_bytes(#[trigger] self.index@[i].0) == vstd::utf8::encode_utf8(name@)
                    && *f == self.fields@[self.index@[i].1 as int],
    {
        let mut i: usize = 0;
        while i < self.index.len()
            invariant
                0 <= i <= self.index@.len(),
                forall|j: int|
                    0 <= j < self.index@.len() ==> #[trigger] self.index@[j].1 < self.fields@.len(),
                forall|j: int|
                    0 <= j < i ==> text_bytes(#[trigger] self.index@[j].0) != vstd::utf8::encode_utf8(name@),
            decreases self.index@.len() - i,
        {
            if same_text(self.index[i].0.as_str(), name) {
                let at = self.index[i].1;
                return Some(&self.fields[at]);
            }
            i += 1;
        }
        None
    }

    /// Look up which fields are present at the given version using binary
    /// search on the field activation table. Returns the states of the entry
    /// governing `version`, or None if the version is before all entries.
    pub fn active_fields_at(&self, version: Version) -> (r: Option<&[ActivationState]>)
        requires
            activation_table_sorted(self.field_activations@),
        ensures
            r is None <==> states_at(self.field_activations@, version) is None,
            r matches Some(a) ==> states_at(self.field_activations@, version) == Some(a@),
    {
        binary_search_activation(self.field_activations.as_slice(), version)
    }
}

impl EnumSchema {
    /// Create an enum schema with explicit version metadata and variant activation table.
    ///
    /// The `variant_activations` table must be ordered by ascending starting version.
    pub fn new(
        name: String,
        variants: Vec<Variant>,
        version: VersionRange,
        variant_activations: Vec<VersionActivationEntry>,
    ) -> (s: Self)
        ensures
            s == (EnumSchema { name, variants, version, variant_activations }),
    {
        EnumSchema { name, variants, version, variant_activations }
    }

    /// Look up which variants are present at the given version using binary
    /// search on the variant activation table.
    pub fn active_variants_at(&self, version: Version) -> (r: Option<&[ActivationState]>)
        requires
            activation_table_sorted(self.variant_activations@),
        ensures
            r is None <==> states_at(self.variant_activations@, version) is None,
            r matches Some(a) ==> states_at(self.variant_activations@, version) == Some(a@),
    {
        binary_search_activation(self.variant_activations.as_slice(), version)
    }

    /// Access a variant by its index (id order).
    pub fn variant(&self, index: usize) -> (r: &Variant)
        requires
            index < self.variants@.len(),
        ensures
            *r == self.variants@[index as int],
    {
        &self.variants[index]
    }
}

impl Variant {
    /// Create a unit variant schema with explicit version.
    pub fn unit(id: u32, name: String, version: VersionRange) -> (v: Self)
        ensures
            v == (Variant { id, kind: VariantKind::Unit(UnitStructSchema { name, version }) }),
    {
        Variant { id, kind: VariantKind::Unit(UnitStructSchema { name, version }) }
    }

    /// Create a newtype variant schema with explicit version.
    pub fn newtype(id: u32, name: String, inner: Schema, version: VersionRange) -> (v: Self)
        ensures
            v.id == id,
            v.kind matches VariantKind::NewType(n) && n.name == name && *n.inner == inner
                && n.version == version,
    {
        Variant {
            id,
            kind: VariantKind::NewType(NewTypeStructSchema { name, inner: Box::new(inner), version }),
        }
    }

    /// Create a tuple variant schema with explicit version.
    pub fn tuple(id: u32, name: String, elems: Vec<Schema>, version: VersionRange) -> (v: Self)
        ensures
            v == (Variant {
                id,
                kind: VariantKind::Tuple(TupleStructSchema { name, elems, version }),
            }),
    {
        Variant { id, kind: VariantKind::Tuple(TupleStructSchema { name, elems, version }) }
    }

    /// Create a struct-like variant schema with explicit version and field activation table.
    pub fn named(
        id: u32,
        name: String,
        fields: Vec<Field>,
        index: Vec<(String, usize)>,
        version: VersionRange,
        field_activations: Vec<VersionActivationEntry>,
    ) -> (v: Self)
        ensures
            v == (Variant {
                id,
                kind: VariantKind::Named(
                    NamedStructSchema { name, fields, index, version, field_activations },
                ),
            }),
    {
        Variant {
            id,
            kind: VariantKind::Named(
                NamedStructSchema { name, fields, index, version, field_activations },
            ),
        }
    }
}

impl VariantKind {
    /// Returns the inner `UnitStructSchema` if this is a `Unit` variant.
    pub fn as_unit(&self) -> (r: Option<&UnitStructSchema>)
        ensures
            match *self {
                VariantKind::Unit(u) => r == Some(&u),
                _ => r is None,
            },
    {
        match self {
            VariantKind::Unit(u) => Some(u),
            _ => None,
        }
    }

    /// Returns the inner `NewTypeStructSchema` if this is a `NewType` variant.
    pub fn as_newtype(&self) -> (r: Option<&NewTypeStructSchema>)
        ensures
            match *self {
                VariantKind::NewType(n) => r == Some(&n),
                _ => r is None,
            },
    {
        match self {
            VariantKind::NewType(n) => Some(n),
            _ => None,
        }
    }

    /// Returns the inner `TupleStructSchema` if this is a `Tuple` variant.
    pub fn as_tuple(&self) -> (r: Option<&TupleStructSchema>)
        ensures
            match *self {
                VariantKind::Tuple(t) => r == Some(&t),
                _ => r is None,
            },
    {
        match self {
            VariantKind::Tuple(t) => Some(t),
            _ => None,
        }
    }

    /// Returns the inner `NamedStructSchema` if this is a `Named` variant.
    pub fn as_named(&self) -> (r: Option<&NamedStructSchema>)
        ensures
            match *self {
                VariantKind::Named(n) => r == Some(&n),
                _ => r is None,
            },
    {
        match self {
            VariantKind::Named(n) => Some(n),
            _ => None,
        }
    }
}

impl Schema {
    /// Returns the inner `EnumSchema` if this is an `Enum` schema.
    pub fn as_enum(&self) -> (r: Option<&EnumSchema>)
        ensures
            match *self {
                Schema::Enum(e) => r == Some(&e),
                _ => r is None,
            },
    {
        match self {
            Schema::Enum(e) => Some(e),
            _ => None,
        }
    }

    /// Returns the inner `NamedStructSchema` if this is a `Named` schema.
    pub fn as_named(&self) -> (r: Option<&NamedStructSchema>)
        ensures
            match *self {
                Schema::Named(n) => r == Some(&n),
                _ => r is None,
            },
    {
        match self {
            Schema::Named(n) => Some(n),
            _ => None,
        }
    }
}

} // verus!
