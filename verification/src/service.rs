//! Service and method schemas, and the effective schema hash that client and
//! server compare during negotiation.

use crate::schema::{schema_digest, schema_digestible, Schema};
use crate::schema_copy::same_range;
use crate::version::{Version, VersionRange};
use crate::wire::{be_u32, framed_text, push_all, push_be_u32, push_framed_text, push_u8};
use vstd::prelude::*;

verus! {

/// The BLAKE3 digest of `input`.
pub uninterp spec fn blake3_hash_of(input: Seq<u8>) -> Seq<u8>;

/// Calls `blake3::hash`, which returns the 32-byte BLAKE3 digest of its
/// input. The contract claims only that the result is that digest of the
/// bytes handed in; what the digest is, is left to the crate.
#[verifier::external_body]
fn blake3_hash(input: &[u8]) -> (out: [u8; 32])
    ensures
        out@ == blake3_hash_of(input@),
{
    blake3::hash(input).into()
}

/// Describes a single RPC method within a service.
#[derive(Debug, PartialEq, Eq)]
pub struct MethodSchema {
    /// Method name as declared in the service trait.
    pub name: String,
    /// Explicit method ID for ABI stability on the wire.
    pub method_id: u32,
    /// Schema of the generated argument struct (a named struct with field IDs).
    pub arguments: Schema,
    /// Schema of the return type `T` (before `Result` wrapping).
    pub response: Schema,
    /// Version lifecycle for this method.
    pub version: VersionRange,
}

/// Describes an entire RPC service.
#[derive(Debug, PartialEq, Eq)]
pub struct ServiceSchema {
    /// Service name — typically the trait name or explicit textual identifier.
    pub name: String,
    /// All methods declared in the service, in declaration order.
    pub methods: Vec<MethodSchema>,
    /// Version lifecycle for the entire service.
    pub version: VersionRange,
}

/// The byte that records whether an item is deprecated at a version.
pub open spec fn deprecation_byte(range: VersionRange, v: Version) -> u8 {
    if range.deprecated_at(v) {
        1u8
    } else {
        0u8
    }
}

/// Digest input of a method as seen at `v`.
pub open spec fn method_digest(m: MethodSchema, v: Version) -> Seq<u8> {
    be_u32(m.method_id) + framed_text(m.name@) + seq![deprecation_byte(m.version, v)]
        + schema_digest(m.arguments, v) + schema_digest(m.response, v) + m.version.digest_bytes()
}

/// A method's digest input carries, right after its identifier and framed
/// name, a byte that is 1 exactly when the method is deprecated at `v` and 0
/// otherwise.
pub proof fn lemma_method_digest_marks_deprecation(m: MethodSchema, v: Version)
    ensures
        ({
            let at = 4 + framed_text(m.name@).len() as int;
            &&& method_digest(m, v).len() > at
            &&& method_digest(m, v).take(at) == be_u32(m.method_id) + framed_text(m.name@)
            &&& method_digest(m, v)[at] == if m.version.deprecated_at(v) {
                1u8
            } else {
                0u8
            }
        }),
{
    let at = 4 + framed_text(m.name@).len() as int;
    let head = be_u32(m.method_id) + framed_text(m.name@);
    let d = method_digest(m, v);
    assert(head.len() == at);
    assert(d.take(at) =~= head);
}

/// Deprecating a method changes its digest input: at two versions where the
/// method is deprecated at one and not at the other, its digest inputs
/// differ.
pub proof fn lemma_method_deprecation_changes_digest(m: MethodSchema, v1: Version, v2: Version)
    requires
        m.version.deprecated_at(v1) != m.version.deprecated_at(v2),
    ensures
        method_digest(m, v1) != method_digest(m, v2),
{
    lemma_method_digest_marks_deprecation(m, v1);
    lemma_method_digest_marks_deprecation(m, v2);
    let at = 4 + framed_text(m.name@).len() as int;
    assert(method_digest(m, v1)[at] != method_digest(m, v2)[at]);
}

/// A service's digest input carries, right after its tag and framed name,
/// a byte that is 1 exactly when the service is deprecated at `v` and 0
/// otherwise; so the digest inputs at two versions that disagree on whether
/// the service is deprecated differ.
pub proof fn lemma_service_digest_marks_deprecation(s: ServiceSchema, v1: Version, v2: Version)
    ensures
        ({
            let at = service_schema_tag().len() + framed_text(s.name@).len() as int;
            &&& service_digest(s, v1).len() > at
            &&& service_digest(s, v1).take(at) == service_schema_tag() + framed_text(s.name@)
            &&& service_digest(s, v1)[at] == if s.version.deprecated_at(v1) {
                1u8
            } else {
                0u8
            }
        }),
        s.version.deprecated_at(v1) != s.version.deprecated_at(v2) ==> service_digest(s, v1)
            != service_digest(s, v2),
{
    let at = service_schema_tag().len() + framed_text(s.name@).len() as int;
    let head = service_schema_tag() + framed_text(s.name@);
    assert(service_digest(s, v1).take(at) =~= head);
    assert(service_digest(s, v1)[at] == if s.version.deprecated_at(v1) { 1u8 } else { 0u8 });
    assert(service_digest(s, v2)[at] == if s.version.deprecated_at(v2) { 1u8 } else { 0u8 });
}

/// Number of methods available at `v`.
pub open spec fn count_available(methods: Seq<MethodSchema>, v: Version) -> nat
    decreases methods.len(),
{
    if methods.len() == 0 {
        0
    } else {
        count_available(methods.drop_last(), v) + if methods.last().version.live_at(v) {
            1nat
        } else {
            0nat
        }
    }
}

/// Concatenated digest inputs of the methods available at `v`, in order.
pub open spec fn available_methods_digest(methods: Seq<MethodSchema>, v: Version) -> Seq<u8>
    decreases methods.len(),
{
    if methods.len() == 0 {
        Seq::empty()
    } else {
        available_methods_digest(methods.drop_last(), v) + if methods.last().version.live_at(v) {
            method_digest(methods.last(), v)
        } else {
            Seq::empty()
        }
    }
}

/// The ASCII bytes of the domain-separation tag `KALORON_RPC_SERVICE_SCHEMA_V1`.
pub open spec fn service_schema_tag() -> Seq<u8> {
    seq![
        0x4Bu8, 0x41u8, 0x4Cu8, 0x4Fu8, 0x52u8, 0x4Fu8, 0x4Eu8, 0x5Fu8, 0x52u8, 0x50u8, 0x43u8,
        0x5Fu8, 0x53u8, 0x45u8, 0x52u8, 0x56u8, 0x49u8, 0x43u8, 0x45u8, 0x5Fu8, 0x53u8, 0x43u8,
        0x48u8, 0x45u8, 0x4Du8, 0x41u8, 0x5Fu8, 0x56u8, 0x31u8,
    ]
}

/// Digest input of the effective service schema at `v`.
pub open spec fn service_digest(s: ServiceSchema, v: Version) -> Seq<u8> {
    service_schema_tag() + framed_text(s.name@) + seq![deprecation_byte(s.version, v)]
        + s.version.digest_bytes() + be_u32(count_available(s.methods@, v) as u32)
        + available_methods_digest(s.methods@, v)
}

/// Digesting the method at `v` is well defined.
pub open spec fn method_digestible(m: MethodSchema, v: Version) -> bool {
    schema_digestible(m.arguments, v) && schema_digestible(m.response, v)
}

/// Digesting the service at `v` is well defined: every method available at
/// `v` can be digested at `v`.
pub open spec fn service_digestible(s: ServiceSchema, v: Version) -> bool {
    forall|i: int|
        0 <= i < s.methods@.len() && (#[trigger] s.methods@[i]).version.live_at(v)
            ==> method_digestible(s.methods@[i], v)
}

/// The first method of `methods` whose ID is `method_id`, if any.
pub open spec fn first_with_id(methods: Seq<MethodSchema>, method_id: u32) -> Option<int> {
    if exists|i: int| 0 <= i < methods.len() && methods[i].method_id == method_id {
        Some(
            choose|i: int|
                0 <= i < methods.len() && methods[i].method_id == method_id && forall|j: int|
                    0 <= j < i ==> #[trigger] methods[j].method_id != method_id,
        )
    } else {
        None
    }
}

/// The methods of `methods` available at `v`, in order.
pub open spec fn live_methods(methods: Seq<MethodSchema>, v: Version) -> Seq<MethodSchema>
    decreases methods.len(),
{
    if methods.len() == 0 {
        Seq::empty()
    } else if methods.last().version.live_at(v) {
        live_methods(methods.drop_last(), v).push(methods.last())
    } else {
        live_methods(methods.drop_last(), v)
    }
}

/// Concatenated digest inputs of every method of `methods`, in order.
pub open spec fn methods_digest(methods: Seq<MethodSchema>, v: Version) -> Seq<u8>
    decreases methods.len(),
{
    if methods.len() == 0 {
        Seq::empty()
    } else {
        methods_digest(methods.drop_last(), v) + method_digest(methods.last(), v)
    }
}

/// Counting and digesting the available methods only sees the methods
/// available at `v`.
proof fn lemma_available_methods(methods: Seq<MethodSchema>, v: Version)
    ensures
        count_available(methods, v) == live_methods(methods, v).len(),
        available_methods_digest(methods, v) == methods_digest(live_methods(methods, v), v),
    decreases methods.len(),
{
    if methods.len() > 0 {
        lemma_available_methods(methods.drop_last(), v);
        let live = live_methods(methods.drop_last(), v);
        if methods.last().version.live_at(v) {
            assert(live.push(methods.last()).drop_last() =~= live);
        }
        assert(available_methods_digest(methods, v) =~= methods_digest(live_methods(methods, v), v));
    }
}

/// The effective schema at `v` depends only on the service's name and
/// lifecycle and on the methods available at `v`: two services that agree
/// on these have the same digest input, hence the same effective schema
/// hash, whatever other methods they declare.
pub proof fn lemma_digest_depends_on_available_methods(a: ServiceSchema, b: ServiceSchema, v: Version)
    requires
        a.name@ == b.name@,
        same_range(a.version, b.version),
        live_methods(a.methods@, v) == live_methods(b.methods@, v),
    ensures
        service_digest(a, v) == service_digest(b, v),
        blake3_hash_of(service_digest(a, v)) == blake3_hash_of(service_digest(b, v)),
{
    lemma_available_methods(a.methods@, v);
    lemma_available_methods(b.methods@, v);
    assert(a.version.deprecated_at(v) == b.version.deprecated_at(v));
    assert(a.version.digest_bytes() == b.version.digest_bytes());
}

/// Append the ASCII bytes of the service digest tag.
fn push_service_tag(build: &mut Vec<u8>)
    ensures
        final(build)@ == old(build)@ + service_schema_tag(),
{
    let tag: Vec<u8> = vec![
        0x4Bu8, 0x41u8, 0x4Cu8, 0x4Fu8, 0x52u8, 0x4Fu8, 0x4Eu8, 0x5Fu8, 0x52u8, 0x50u8, 0x43u8,
        0x5Fu8, 0x53u8, 0x45u8, 0x52u8, 0x56u8, 0x49u8, 0x43u8, 0x45u8, 0x5Fu8, 0x53u8, 0x43u8,
        0x48u8, 0x45u8, 0x4Du8, 0x41u8, 0x5Fu8, 0x56u8, 0x31u8,
    ];
    assert(tag@ =~= service_schema_tag());
    push_all(build, tag.as_slice());
}

impl MethodSchema {
    /// Returns `true` when this method exists at `version`.
    pub fn is_available_at(&self, version: Version) -> (r: bool)
        ensures
            r == self.version.live_at(version),
    {
        self.version.exists_at(version)
    }

    /// Contribute the effective method shape at `version` to a digest input.
    pub fn hash_build(&self, version: Version, build: &mut Vec<u8>)
        requires
            method_digestible(*self, version),
        ensures
            final(build)@ == old(build)@ + method_digest(*self, version),
    {
        push_be_u32(build, self.method_id);
        push_framed_text(build, self.name.as_str());
        push_u8(build, if self.version.is_deprecated_at(version) { 1u8 } else { 0u8 });
        self.arguments.hash_build(version, build);
        self.response.hash_build(version, build);
        self.version.hash_build(build);
        assert(build@ =~= old(build)@ + method_digest(*self, version));
    }
}

impl ServiceSchema {
    /// Returns `true` when the service exists at `version`.
    pub fn is_available_at(&self, version: Version) -> (r: bool)
        ensures
            r == self.version.live_at(version),
    {
        self.version.exists_at(version)
    }

    /// Look up a method by its explicit wire ID: the first declared method
    /// with that ID, or `None` if no method has it.
    pub fn method_by_id(&self, method_id: u32) -> (r: Option<&MethodSchema>)
        ensures
            match first_with_id(self.methods@, method_id) {
                Some(i) => r == Some(&self.methods@[i]),
                None => r is None,
            },
    {
        let mut i: usize = 0;
        while i < self.methods.len()
            invariant
                0 <= i <= self.methods@.len(),
                forall|j: int| 0 <= j < i ==> #[trigger] self.methods@[j].method_id != method_id,
            decreases self.methods@.len() - i,
        {
            if self.methods[i].method_id == method_id {
                proof {
                    let k = choose|k: int|
                        0 <= k < self.methods@.len() && self.methods@[k].method_id == method_id
                            && forall|j: int|
                            0 <= j < k ==> #[trigger] self.methods@[j].method_id != method_id;
                    assert(self.methods@[i as int].method_id == method_id);
                    if k < i {
                        assert(self.methods@[k].method_id != method_id);
                    } else if k > i {
                        assert(self.methods@[i as int].method_id != method_id);
                    }
                }
                return Some(&self.methods[i]);
            }
            i += 1;
        }
        None
    }

    /// Look up a method by wire ID, filtered to the methods available at `version`.
    pub fn method_by_id_at(&self, method_id: u32, version: Version) -> (r: Option<&MethodSchema>)
        ensures
            match first_with_id(self.methods@, method_id) {
                Some(i) => if self.methods@[i].version.live_at(version) {
                    r == Some(&self.methods@[i])
                } else {
                    r is None
                },
                None => r is None,
            },
    {
        match self.method_by_id(method_id) {
            Some(m) => if m.is_available_at(version) {
                Some(m)
            } else {
                None
            },
            None => None,
        }
    }

    /// Contribute the effective service schema at `version` to a digest input.
    ///
    /// Methods that do not exist at the requested version are excluded
    /// entirely. Methods that are deprecated but still available remain part
    /// of the digest and are tagged accordingly.
    pub fn hash_build(&self, version: Version, build: &mut Vec<u8>)
        requires
            service_digestible(*self, version),
        ensures
            final(build)@ == old(build)@ + service_digest(*self, version),
    {
        push_service_tag(build);
        push_framed_text(build, self.name.as_str());
        push_u8(build, if self.version.is_deprecated_at(version) { 1u8 } else { 0u8 });
        self.version.hash_build(build);
        let mut included: usize = 0;
        let mut i: usize = 0;
        while i < self.methods.len()
            invariant
                0 <= i <= self.methods@.len(),
                included == count_available(self.methods@.subrange(0, i as int), version),
                included <= i,
            decreases self.methods@.len() - i,
        {
            assert(self.methods@.subrange(0, i + 1).drop_last() =~= self.methods@.subrange(
                0,
                i as int,
            ));
            if self.methods[i].is_available_at(version) {
                included = included + 1;
            }
            i += 1;
        }
        assert(self.methods@.subrange(0, i as int) =~= self.methods@);
        push_be_u32(build, included as u32);
        let ghost mid = build@;
        let mut i: usize = 0;
        while i < self.methods.len()
            invariant
                0 <= i <= self.methods@.len(),
                service_digestible(*self, version),
                build@ == mid + available_methods_digest(self.methods@.subrange(0, i as int), version),
            decreases self.methods@.len() - i,
        {
            assert(self.methods@.subrange(0, i + 1).drop_last() =~= self.methods@.subrange(
                0,
                i as int,
            ));
            if self.methods[i].is_available_at(version) {
                assert(method_digestible(self.methods@[i as int], version));
                self.methods[i].hash_build(version, build);
            }
            i += 1;
        }
        assert(self.methods@.subrange(0, i as int) =~= self.methods@);
        assert(build@ =~= old(build)@ + service_digest(*self, version));
    }

    /// Compute the BLAKE3 hash of the effective service schema visible at
    /// `version`.
    pub fn effective_schema_hash(&self, version: Version) -> (h: [u8; 32])
        requires
            service_digestible(*self, version),
        ensures
            h@ == blake3_hash_of(service_digest(*self, version)),
    {
        let mut build: Vec<u8> = Vec::new();
        self.hash_build(version, &mut build);
        assert(build@ =~= service_digest(*self, version));
        blake3_hash(build.as_slice())
    }
}

} // verus!
