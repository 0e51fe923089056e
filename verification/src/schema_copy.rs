//! Copying schemas: the structural sameness of two schemas, and copies that
//! are the same as what they copy.

use crate::schema::{
    all_fields_digest, all_variants_digest, enum_digest, enum_digestible, field_digest,
    field_digestible, gated_fields_digest, gated_variants_digest, kind_digest, kind_digestible,
    named_digest, named_digestible, newtype_digest, newtype_digestible, schema_digest,
    schema_digestible, schemas_digest, schemas_digestible, tuple_struct_digest,
    tuple_struct_digestible, variant_digest, variant_digestible, EnumSchema, Field,
    NamedStructSchema, NewTypeStructSchema, Schema, TupleStructSchema, UnitStructSchema, Variant,
    VariantKind,
};
use crate::version::{
    activation_table_sorted, governs, lemma_governing_entry_unique, states_at, ActivationState,
    DeprecationSpan, Version, VersionActivationEntry, VersionRange,
};
use vstd::prelude::*;

verus! {

/// Two version ranges hold the same lifecycle.
pub open spec fn same_range(a: VersionRange, b: VersionRange) -> bool {
    &&& a.introduced == b.introduced
    &&& a.deprecations@ == b.deprecations@
    &&& a.removed_in == b.removed_in
}

/// Two activation tables hold the same entries.
pub open spec fn same_entries(a: Seq<VersionActivationEntry>, b: Seq<VersionActivationEntry>) -> bool {
    &&& a.len() == b.len()
    &&& forall|i: int|
        0 <= i < a.len() ==> (#[trigger] a[i]).version == b[i].version && a[i].active@
            == b[i].active@
}

/// Two unit structs are the same.
pub open spec fn same_unit(a: UnitStructSchema, b: UnitStructSchema) -> bool {
    a.name == b.name && same_range(a.version, b.version)
}

/// Two schemas have the same shape, names, identifiers and lifecycles.
pub open spec fn same_schema(a: Schema, b: Schema) -> bool
    decreases a, 0int,
{
    match (a, b) {
        (Schema::Primitive(p), Schema::Primitive(q)) => p == q,
        (Schema::Option(x), Schema::Option(y)) => same_schema(*x, *y),
        (Schema::Sequence(x), Schema::Sequence(y)) => same_schema(*x, *y),
        (Schema::Tuple(xs), Schema::Tuple(ys)) => same_schemas(xs@, ys@),
        (Schema::Mapping(k1, v1), Schema::Mapping(k2, v2)) => same_schema(*k1, *k2) && same_schema(
            *v1,
            *v2,
        ),
        (Schema::Unit, Schema::Unit) => true,
        (Schema::UnitStruct(u), Schema::UnitStruct(w)) => same_unit(u, w),
        (Schema::NewTypeStruct(n), Schema::NewTypeStruct(m)) => same_newtype(n, m),
        (Schema::TupleStruct(t), Schema::TupleStruct(u)) => same_tuple_struct(t, u),
        (Schema::Named(n), Schema::Named(m)) => same_named(n, m),
        (Schema::Enum(e), Schema::Enum(f)) => same_enum(e, f),
        _ => false,
    }
}

/// Two lists of schemas are the same, item by item.
pub open spec fn same_schemas(a: Seq<Schema>, b: Seq<Schema>) -> bool
    decreases a, 0int,
{
    &&& a.len() == b.len()
    &&& forall|i: int| 0 <= i < a.len() ==> same_schema(#[trigger] a[i], b[i])
}

/// Two newtype structs are the same.
pub open spec fn same_newtype(a: NewTypeStructSchema, b: NewTypeStructSchema) -> bool
    decreases a, 0int,
{
    a.name == b.name && same_schema(*a.inner, *b.inner) && same_range(a.version, b.version)
}

/// Two tuple structs are the same.
pub open spec fn same_tuple_struct(a: TupleStructSchema, b: TupleStructSchema) -> bool
    decreases a, 0int,
{
    a.name == b.name && same_schemas(a.elems@, b.elems@) && same_range(a.version, b.version)
}

/// Two fields are the same.
pub open spec fn same_field(a: Field, b: Field) -> bool
    decreases a, 0int,
{
    &&& a.id == b.id
    &&& a.name == b.name
    &&& same_schema(*a.ty, *b.ty)
    &&& same_range(a.version, b.version)
}

/// Two named structs are the same.
pub open spec fn same_named(a: NamedStructSchema, b: NamedStructSchema) -> bool
    decreases a, 0int,
{
    &&& a.name == b.name
    &&& a.fields@.len() == b.fields@.len()
    &&& forall|i: int| 0 <= i < a.fields@.len() ==> same_field(#[trigger] a.fields@[i], b.fields@[i])
    &&& a.index@ == b.index@
    &&& same_range(a.version, b.version)
    &&& same_entries(a.field_activations@, b.field_activations@)
}

/// Two variants are the same.
pub open spec fn same_variant(a: Variant, b: Variant) -> bool
    decreases a, 0int,
{
    a.id == b.id && same_kind(a.kind, b.kind)
}

/// Two variant kinds are the same.
pub open spec fn same_kind(a: VariantKind, b: VariantKind) -> bool
    decreases a, 0int,
{
    match (a, b) {
        (VariantKind::Unit(u), VariantKind::Unit(w)) => same_unit(u, w),
        (VariantKind::NewType(n), VariantKind::NewType(m)) => same_newtype(n, m),
        (VariantKind::Tuple(t), VariantKind::Tuple(u)) => same_tuple_struct(t, u),
        (VariantKind::Named(n), VariantKind::Named(m)) => same_named(n, m),
        _ => false,
    }
}

/// Two enums are the same.
pub open spec fn same_enum(a: EnumSchema, b: EnumSchema) -> bool
    decreases a, 0int,
{
    &&& a.name == b.name
    &&& a.variants@.len() == b.variants@.len()
    &&& forall|i: int|
        0 <= i < a.variants@.len() ==> same_variant(#[trigger] a.variants@[i], b.variants@[i])
    &&& same_range(a.version, b.version)
    &&& same_entries(a.variant_activations@, b.variant_activations@)
}

/// A copy of the deprecation spans.
fn copy_spans(spans: &Vec<DeprecationSpan>) -> (r: Vec<DeprecationSpan>)
    ensures
        r@ == spans@,
{
    let mut out: Vec<DeprecationSpan> = Vec::new();
    let mut i: usize = 0;
    while i < spans.len()
        invariant
            0 <= i <= spans@.len(),
            out@ == spans@.take(i as int),
        decreases spans@.len() - i,
    {
        out.push(spans[i]);
        i += 1;
        assert(out@ =~= spans@.take(i as int));
    }
    assert(spans@.take(i as int) =~= spans@);
    out
}

impl VersionRange {
    /// A copy of this lifecycle.
    pub fn duplicate(&self) -> (r: VersionRange)
        ensures
            same_range(r, *self),
    {
        VersionRange {
            introduced: self.introduced,
            deprecations: copy_spans(&self.deprecations),
            removed_in: self.removed_in,
        }
    }
}

/// A copy of an activation table.
fn copy_entries(entries: &Vec<VersionActivationEntry>) -> (r: Vec<VersionActivationEntry>)
    ensures
        same_entries(r@, entries@),
{
    let mut out: Vec<VersionActivationEntry> = Vec::new();
    let mut i: usize = 0;
    while i < entries.len()
        invariant
            0 <= i <= entries@.len(),
            out@.len() == i,
            forall|j: int|
                0 <= j < i ==> (#[trigger] out@[j]).version == entries@[j].version
                    && out@[j].active@ == entries@[j].active@,
        decreases entries@.len() - i,
    {
        let entry = &entries[i];
        let mut active = Vec::new();
        let mut k: usize = 0;
        while k < entry.active.len()
            invariant
                0 <= k <= entry.active@.len(),
                active@ == entry.active@.take(k as int),
            decreases entry.active@.len() - k,
        {
            active.push(entry.active[k]);
            k += 1;
            assert(active@ =~= entry.active@.take(k as int));
        }
        assert(entry.active@.take(k as int) =~= entry.active@);
        out.push(VersionActivationEntry { version: entry.version, active });
        i += 1;
    }
    out
}

/// A copy of a name index.
fn copy_index(index: &Vec<(String, usize)>) -> (r: Vec<(String, usize)>)
    ensures
        r@ == index@,
{
    let mut out: Vec<(String, usize)> = Vec::new();
    let mut i: usize = 0;
    while i < index.len()
        invariant
            0 <= i <= index@.len(),
            out@ == index@.take(i as int),
        decreases index@.len() - i,
    {
        let name = index[i].0.clone();
        out.push((name, index[i].1));
        i += 1;
        assert(out@ =~= index@.take(i as int));
    }
    assert(index@.take(i as int) =~= index@);
    out
}

impl UnitStructSchema {
    /// A copy of this unit struct.
    pub fn duplicate(&self) -> (r: UnitStructSchema)
        ensures
            same_unit(r, *self),
    {
        UnitStructSchema { name: self.name.clone(), version: self.version.duplicate() }
    }
}

impl NewTypeStructSchema {
    /// A copy of this newtype struct.
    pub fn duplicate(&self) -> (r: NewTypeStructSchema)
        ensures
            same_newtype(r, *self),
        decreases self,
    {
        NewTypeStructSchema {
            name: self.name.clone(),
            inner: Box::new(Schema::from_ref(&self.inner)),
            version: self.version.duplicate(),
        }
    }
}

impl TupleStructSchema {
    /// A copy of this tuple struct.
    pub fn duplicate(&self) -> (r: TupleStructSchema)
        ensures
            same_tuple_struct(r, *self),
        decreases self,
    {
        TupleStructSchema {
            name: self.name.clone(),
            elems: copy_schemas(&self.elems),
            version: self.version.duplicate(),
        }
    }
}

/// A copy of every schema of `items`.
fn copy_schemas(items: &Vec<Schema>) -> (r: Vec<Schema>)
    ensures
        same_schemas(r@, items@),
    decreases items,
{
    let mut out: Vec<Schema> = Vec::new();
    let mut i: usize = 0;
    while i < items.len()
        invariant
            0 <= i <= items@.len(),
            out@.len() == i,
            forall|j: int| 0 <= j < i ==> same_schema(#[trigger] out@[j], items@[j]),
        decreases items@.len() - i,
    {
        out.push(Schema::from_ref(&items[i]));
        i += 1;
    }
    out
}

impl Field {
    /// A copy of this field.
    pub fn duplicate(&self) -> (r: Field)
        ensures
            same_field(r, *self),
        decreases self,
    {
        Field {
            id: self.id,
            name: self.name.clone(),
            ty: Box::new(Schema::from_ref(&self.ty)),
            version: self.version.duplicate(),
        }
    }
}

impl NamedStructSchema {
    /// A copy of this named struct.
    pub fn duplicate(&self) -> (r: NamedStructSchema)
        ensures
            same_named(r, *self),
        decreases self,
    {
        let mut fields: Vec<Field> = Vec::new();
        let mut i: usize = 0;
        while i < self.fields.len()
            invariant
                0 <= i <= self.fields@.len(),
                fields@.len() == i,
                forall|j: int| 0 <= j < i ==> same_field(#[trigger] fields@[j], self.fields@[j]),
            decreases self.fields@.len() - i,
        {
            fields.push(self.fields[i].duplicate());
            i += 1;
        }
        NamedStructSchema {
            name: self.name.clone(),
            fields,
            index: copy_index(&self.index),
            version: self.version.duplicate(),
            field_activations: copy_entries(&self.field_activations),
        }
    }
}

impl VariantKind {
    /// A copy of this variant kind.
    pub fn duplicate(&self) -> (r: VariantKind)
        ensures
            same_kind(r, *self),
        decreases self,
    {
        match self {
            VariantKind::Unit(u) => VariantKind::Unit(u.duplicate()),
            VariantKind::NewType(n) => VariantKind::NewType(n.duplicate()),
            VariantKind::Tuple(t) => VariantKind::Tuple(t.duplicate()),
            VariantKind::Named(n) => VariantKind::Named(n.duplicate()),
        }
    }
}

impl EnumSchema {
    /// A copy of this enum.
    pub fn duplicate(&self) -> (r: EnumSchema)
        ensures
            same_enum(r, *self),
        decreases self,
    {
        let mut variants: Vec<Variant> = Vec::new();
        let mut i: usize = 0;
        while i < self.variants.len()
            invariant
                0 <= i <= self.variants@.len(),
                variants@.len() == i,
                forall|j: int|
                    0 <= j < i ==> same_variant(#[trigger] variants@[j], self.variants@[j]),
            decreases self.variants@.len() - i,
        {
            let v = &self.variants[i];
            variants.push(Variant { id: v.id, kind: v.kind.duplicate() });
            i += 1;
        }
        EnumSchema {
            name: self.name.clone(),
            variants,
            version: self.version.duplicate(),
            variant_activations: copy_entries(&self.variant_activations),
        }
    }
}

impl Schema {
    /// A copy of a schema, the same as the copied one in every part.
    pub fn from_ref(schema: &Schema) -> (r: Schema)
        ensures
            same_schema(r, *schema),
        decreases schema,
    {
        match schema {
            Schema::Primitive(p) => Schema::Primitive(*p),
            Schema::Option(inner) => Schema::Option(Box::new(Schema::from_ref(inner))),
            Schema::Unit => Schema::Unit,
            Schema::UnitStruct(unit) => Schema::UnitStruct(unit.duplicate()),
            Schema::NewTypeStruct(newtype) => Schema::NewTypeStruct(newtype.duplicate()),
            Schema::TupleStruct(tuple) => Schema::TupleStruct(tuple.duplicate()),
            Schema::Sequence(inner) => Schema::Sequence(Box::new(Schema::from_ref(inner))),
            Schema::Tuple(elems) => Schema::Tuple(copy_schemas(elems)),
            Schema::Mapping(key, value) => Schema::Mapping(
                Box::new(Schema::from_ref(key)),
                Box::new(Schema::from_ref(value)),
            ),
            Schema::Named(named) => Schema::Named(named.duplicate()),
            Schema::Enum(e) => Schema::Enum(e.duplicate()),
        }
    }
}

/// Two ordered activation tables with the same entries govern every version
/// the same way.
proof fn lemma_same_entries_states_at(
    a: Seq<VersionActivationEntry>,
    b: Seq<VersionActivationEntry>,
    v: Version,
)
    requires
        same_entries(a, b),
        activation_table_sorted(a),
    ensures
        activation_table_sorted(b),
        states_at(a, v) == states_at(b, v),
{
    assert forall|i: int, j: int| 0 <= i <= j < b.len() implies #[trigger] b[i].version@
        <= #[trigger] b[j].version@ by {
        assert(a[i].version@ <= a[j].version@);
    }
    assert forall|i: int| #[trigger] governs(a, i, v) <==> governs(b, i, v) by {
        if 0 <= i < a.len() {
            if i + 1 < a.len() {
                assert(a[i + 1].version == b[i + 1].version);
            }
            assert(a[i].version == b[i].version);
        }
    }
    if exists|i: int| governs(a, i, v) {
        let ia = choose|i: int| governs(a, i, v);
        let ib = choose|i: int| governs(b, i, v);
        assert(governs(b, ia, v));
        lemma_governing_entry_unique(b, v, ia, ib);
        assert(a[ia].active@ == b[ia].active@);
    } else {
        if exists|i: int| governs(b, i, v) {
            let ib = choose|i: int| governs(b, i, v);
            assert(governs(a, ib, v));
        }
    }
}

/// The same schemas digest the same at `v`.
proof fn lemma_same_schema_digest(a: Schema, b: Schema, v: Version)
    requires
        same_schema(a, b),
        schema_digestible(a, v),
    ensures
        schema_digest(a, v) == schema_digest(b, v),
    decreases a, 0int,
{
    match (a, b) {
        (Schema::Option(x), Schema::Option(y)) => {
            lemma_same_schema_digest(*x, *y, v);
        },
        (Schema::Sequence(x), Schema::Sequence(y)) => {
            lemma_same_schema_digest(*x, *y, v);
        },
        (Schema::Tuple(xs), Schema::Tuple(ys)) => {
            lemma_same_schemas_digest(xs@, ys@, v);
            assert(schema_digest(a, v) == schema_digest(b, v));
        },
        (Schema::Mapping(k1, v1), Schema::Mapping(k2, v2)) => {
            lemma_same_schema_digest(*k1, *k2, v);
            lemma_same_schema_digest(*v1, *v2, v);
        },
        (Schema::UnitStruct(u), Schema::UnitStruct(w)) => {
            assert(schema_digest(a, v) == schema_digest(b, v));
        },
        (Schema::NewTypeStruct(n), Schema::NewTypeStruct(m)) => {
            lemma_same_newtype_digest(n, m, v);
        },
        (Schema::TupleStruct(t), Schema::TupleStruct(u)) => {
            lemma_same_tuple_struct_digest(t, u, v);
        },
        (Schema::Named(n), Schema::Named(m)) => {
            lemma_same_named_digest(n, m, v);
        },
        (Schema::Enum(e), Schema::Enum(f)) => {
            lemma_same_enum_digest(e, f, v);
        },
        (Schema::Primitive(p), Schema::Primitive(q)) => {
            assert(schema_digest(a, v) == schema_digest(b, v));
        },
        (Schema::Unit, Schema::Unit) => {
            assert(schema_digest(a, v) == schema_digest(b, v));
        },
        _ => {
            assert(false);
        },
    }
}

/// The same lists of schemas digest the same at `v`.
proof fn lemma_same_schemas_digest(a: Seq<Schema>, b: Seq<Schema>, v: Version)
    requires
        same_schemas(a, b),
        schemas_digestible(a, v),
    ensures
        schemas_digest(a, v) == schemas_digest(b, v),
    decreases a, 0int,
{
    if a.len() > 0 {
        let k = a.len() - 1;
        let (ap, bp) = (a.subrange(0, k), b.subrange(0, k));
        assert forall|i: int| 0 <= i < ap.len() implies same_schema(#[trigger] ap[i], bp[i]) by {
            assert(same_schema(a[i], b[i]));
        }
        assert forall|i: int| 0 <= i < ap.len() implies schema_digestible(#[trigger] ap[i], v) by {
            assert(schema_digestible(a[i], v));
        }
        lemma_same_schemas_digest(ap, bp, v);
        assert(same_schema(a[k], b[k]));
        assert(schema_digestible(a[k], v));
        lemma_same_schema_digest(a[k], b[k], v);
    }
}

/// The same newtype structs digest the same at `v`.
proof fn lemma_same_newtype_digest(a: NewTypeStructSchema, b: NewTypeStructSchema, v: Version)
    requires
        same_newtype(a, b),
        newtype_digestible(a, v),
    ensures
        newtype_digest(a, v) == newtype_digest(b, v),
    decreases a, 0int,
{
    lemma_same_schema_digest(*a.inner, *b.inner, v);
}

/// The same tuple structs digest the same at `v`.
proof fn lemma_same_tuple_struct_digest(a: TupleStructSchema, b: TupleStructSchema, v: Version)
    requires
        same_tuple_struct(a, b),
        tuple_struct_digestible(a, v),
    ensures
        tuple_struct_digest(a, v) == tuple_struct_digest(b, v),
    decreases a, 0int,
{
    lemma_same_schemas_digest(a.elems@, b.elems@, v);
}

/// The same fields digest the same at `v`.
proof fn lemma_same_field_digest(a: Field, b: Field, v: Version)
    requires
        same_field(a, b),
        field_digestible(a, v),
    ensures
        field_digest(a, v) == field_digest(b, v),
    decreases a, 0int,
{
    lemma_same_schema_digest(*a.ty, *b.ty, v);
}

/// The same fields, selected by the same states, digest the same at `v`.
proof fn lemma_same_gated_fields_digest(
    a: Seq<Field>,
    b: Seq<Field>,
    states: Seq<ActivationState>,
    v: Version,
)
    requires
        a.len() == b.len(),
        forall|i: int| 0 <= i < a.len() ==> same_field(#[trigger] a[i], b[i]),
        forall|k: int|
            0 <= k < states.len() && k < a.len() && states[k] != ActivationState::Inactive
                ==> field_digestible(#[trigger] a[k], v),
    ensures
        gated_fields_digest(a, states, v) == gated_fields_digest(b, states, v),
    decreases a, states.len(),
{
    if states.len() > 0 {
        let k = states.len() - 1;
        lemma_same_gated_fields_digest(a, b, states.subrange(0, k), v);
        if states[k] != ActivationState::Inactive && k < a.len() {
            lemma_same_field_digest(a[k], b[k], v);
        }
    }
}

/// The same fields, all included, digest the same at `v`.
proof fn lemma_same_all_fields_digest(a: Seq<Field>, b: Seq<Field>, v: Version)
    requires
        a.len() == b.len(),
        forall|i: int| 0 <= i < a.len() ==> same_field(#[trigger] a[i], b[i]),
        forall|k: int| 0 <= k < a.len() ==> field_digestible(#[trigger] a[k], v),
    ensures
        all_fields_digest(a, v) == all_fields_digest(b, v),
    decreases a, 0int,
{
    if a.len() > 0 {
        let k = a.len() - 1;
        let (ap, bp) = (a.subrange(0, k), b.subrange(0, k));
        assert forall|i: int| 0 <= i < ap.len() implies same_field(#[trigger] ap[i], bp[i]) by {
            assert(same_field(a[i], b[i]));
        }
        assert forall|i: int| 0 <= i < ap.len() implies field_digestible(#[trigger] ap[i], v) by {
            assert(field_digestible(a[i], v));
        }
        lemma_same_all_fields_digest(ap, bp, v);
        assert(same_field(a[k], b[k]));
        assert(field_digestible(a[k], v));
        lemma_same_field_digest(a[k], b[k], v);
    }
}

/// The same named structs digest the same at `v`.
proof fn lemma_same_named_digest(a: NamedStructSchema, b: NamedStructSchema, v: Version)
    requires
        same_named(a, b),
        named_digestible(a, v),
    ensures
        named_digest(a, v) == named_digest(b, v),
    decreases a, 0int,
{
    lemma_same_entries_states_at(a.field_activations@, b.field_activations@, v);
    match states_at(a.field_activations@, v) {
        Some(states) => lemma_same_gated_fields_digest(a.fields@, b.fields@, states, v),
        None => lemma_same_all_fields_digest(a.fields@, b.fields@, v),
    }
}

/// The same variants digest the same at `v`.
proof fn lemma_same_variant_digest(a: Variant, b: Variant, v: Version)
    requires
        same_variant(a, b),
        variant_digestible(a, v),
    ensures
        variant_digest(a, v) == variant_digest(b, v),
    decreases a, 0int,
{
    lemma_same_kind_digest(a.kind, b.kind, v);
}

/// The same variant kinds digest the same at `v`.
proof fn lemma_same_kind_digest(a: VariantKind, b: VariantKind, v: Version)
    requires
        same_kind(a, b),
        kind_digestible(a, v),
    ensures
        kind_digest(a, v) == kind_digest(b, v),
    decreases a, 0int,
{
    match (a, b) {
        (VariantKind::NewType(n), VariantKind::NewType(m)) => lemma_same_newtype_digest(n, m, v),
        (VariantKind::Tuple(t), VariantKind::Tuple(u)) => lemma_same_tuple_struct_digest(t, u, v),
        (VariantKind::Named(n), VariantKind::Named(m)) => lemma_same_named_digest(n, m, v),
        _ => {},
    }
}

/// The same variants, selected by the same states, digest the same at `v`.
proof fn lemma_same_gated_variants_digest(
    a: Seq<Variant>,
    b: Seq<Variant>,
    states: Seq<ActivationState>,
    v: Version,
)
    requires
        a.len() == b.len(),
        forall|i: int| 0 <= i < a.len() ==> same_variant(#[trigger] a[i], b[i]),
        forall|k: int|
            0 <= k < states.len() && k < a.len() && states[k] != ActivationState::Inactive
                ==> variant_digestible(#[trigger] a[k], v),
    ensures
        gated_variants_digest(a, states, v) == gated_variants_digest(b, states, v),
    decreases a, states.len(),
{
    if states.len() > 0 {
        let k = states.len() - 1;
        lemma_same_gated_variants_digest(a, b, states.subrange(0, k), v);
        if states[k] != ActivationState::Inactive && k < a.len() {
            lemma_same_variant_digest(a[k], b[k], v);
        }
    }
}

/// The same variants, all included, digest the same at `v`.
proof fn lemma_same_all_variants_digest(a: Seq<Variant>, b: Seq<Variant>, v: Version)
    requires
        a.len() == b.len(),
        forall|i: int| 0 <= i < a.len() ==> same_variant(#[trigger] a[i], b[i]),
        forall|k: int| 0 <= k < a.len() ==> variant_digestible(#[trigger] a[k], v),
    ensures
        all_variants_digest(a, v) == all_variants_digest(b, v),
    decreases a, 0int,
{
    if a.len() > 0 {
        let k = a.len() - 1;
        let (ap, bp) = (a.subrange(0, k), b.subrange(0, k));
        assert forall|i: int| 0 <= i < ap.len() implies same_variant(#[trigger] ap[i], bp[i]) by {
            assert(same_variant(a[i], b[i]));
        }
        assert forall|i: int| 0 <= i < ap.len() implies variant_digestible(#[trigger] ap[i], v) by {
            assert(variant_digestible(a[i], v));
        }
        lemma_same_all_variants_digest(ap, bp, v);
        assert(same_variant(a[k], b[k]));
        assert(variant_digestible(a[k], v));
        lemma_same_variant_digest(a[k], b[k], v);
    }
}

/// The same enums digest the same at `v`.
proof fn lemma_same_enum_digest(a: EnumSchema, b: EnumSchema, v: Version)
    requires
        same_enum(a, b),
        enum_digestible(a, v),
    ensures
        enum_digest(a, v) == enum_digest(b, v),
    decreases a, 0int,
{
    lemma_same_entries_states_at(a.variant_activations@, b.variant_activations@, v);
    match states_at(a.variant_activations@, v) {
        Some(states) => lemma_same_gated_variants_digest(a.variants@, b.variants@, states, v),
        None => lemma_same_all_variants_digest(a.variants@, b.variants@, v),
    }
}

/// A schema that is the same as another digests the same at every version
/// where it can be digested: a copy made by `Schema::from_ref` contributes
/// exactly what the copied schema does to a schema hash.
pub proof fn lemma_copy_digests_alike(a: Schema, b: Schema, v: Version)
    requires
        same_schema(a, b),
        schema_digestible(a, v),
    ensures
        schema_digest(a, v) == schema_digest(b, v),
{
    lemma_same_schema_digest(a, b, v);
}

} // verus!
