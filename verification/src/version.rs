//! Version types for schema lifecycle management.

use crate::wire::{
    be_u32, be_u64, push_be_u32, push_be_u64, push_u8, push_zero_u64, zero_u64_bytes,
};
use vstd::prelude::*;

verus! {

/// The weight of the major component inside a packed version.
pub open spec fn major_unit() -> int {
    0x1_0000_0000_0000
}

/// The weight of the minor component inside a packed version.
pub open spec fn minor_unit() -> int {
    0x1_0000_0000
}

/// The weight of the patch component inside a packed version.
pub open spec fn patch_unit() -> int {
    0x1_0000
}

/// The packed value of the version `major.minor.patch.build`.
pub open spec fn pack(major: u16, minor: u16, patch: u16, build: u16) -> int {
    major * major_unit() + minor * minor_unit() + patch * patch_unit() + build
}

/// Packed semantic version in a u64.
/// Layout: major (16 bits) | minor (16 bits) | patch (16 bits) | build (16 bits)
#[derive(Copy, Clone, Debug, PartialEq, Eq, PartialOrd, Ord, Hash)]
pub struct Version(u64);

impl View for Version {
    type V = u64;

    /// The packed 64-bit value.
    closed spec fn view(&self) -> u64 {
        self.0
    }
}

impl Version {
    /// The components `(major, minor, patch, build)`.
    pub open spec fn components(self) -> (u16, u16, u16, u16) {
        (
            (self@ / 0x1_0000_0000_0000) as u16,
            ((self@ / 0x1_0000_0000) % 0x1_0000) as u16,
            ((self@ / 0x1_0000) % 0x1_0000) as u16,
            (self@ % 0x1_0000) as u16,
        )
    }

    /// Create a new version from components.
    pub fn new(major: u16, minor: u16, patch: u16, build: u16) -> (v: Self)
        ensures
            v@ == pack(major, minor, patch, build),
    {
        let r = (major as u64) << 48u64 | (minor as u64) << 32u64 | (patch as u64) << 16u64
            | (build as u64);
        let (a, b, c, d) = (major as u64, minor as u64, patch as u64, build as u64);
        assert(a << 48u64 | b << 32u64 | c << 16u64 | d == a * 0x1_0000_0000_0000 + b
            * 0x1_0000_0000 + c * 0x1_0000 + d) by (bit_vector)
            requires
                a < 0x10000,
                b < 0x10000,
                c < 0x10000,
                d < 0x10000,
        ;
        Version(r)
    }

    /// The version whose packed value is `packed`.
    pub fn from_packed(packed: u64) -> (v: Self)
        ensures
            v@ == packed,
    {
        Version(packed)
    }

    /// The packed 64-bit value of this version.
    pub fn packed(self) -> (r: u64)
        ensures
            r == self@,
    {
        self.0
    }

    /// The zero version (0.0.0.0).
    pub fn zero() -> (v: Self)
        ensures
            v@ == 0,
    {
        Version(0)
    }

    /// Extract the major version component.
    pub fn major(self) -> (r: u16)
        ensures
            r == self@ as int / major_unit(),
    {
        let x = self.0;
        assert((x >> 48u64) as u16 == x / 0x1_0000_0000_0000) by (bit_vector);
        (x >> 48u64) as u16
    }

    /// Extract the minor version component.
    pub fn minor(self) -> (r: u16)
        ensures
            r == (self@ as int / minor_unit()) % 0x10000,
    {
        let x = self.0;
        assert(((x >> 32u64) & 0xFFFF) as u16 == (x / 0x1_0000_0000) % 0x10000) by (bit_vector);
        ((x >> 32u64) & 0xFFFF) as u16
    }

    /// Extract the patch version component.
    pub fn patch(self) -> (r: u16)
        ensures
            r == (self@ as int / patch_unit()) % 0x10000,
    {
        let x = self.0;
        assert(((x >> 16u64) & 0xFFFF) as u16 == (x / 0x1_0000) % 0x10000) by (bit_vector);
        ((x >> 16u64) & 0xFFFF) as u16
    }

    /// Extract the build version component.
    pub fn build(self) -> (r: u16)
        ensures
            r == self@ % 0x10000,
    {
        let x = self.0;
        assert((x & 0xFFFF) as u16 == x % 0x10000) by (bit_vector);
        (x & 0xFFFF) as u16
    }

    /// Return the next representable version in packed order.
    ///
    /// This advances the build component first and carries into patch,
    /// minor, and major as needed. Returns `None` if this is the maximum
    /// representable version.
    pub fn successor(self) -> (r: Option<Self>)
        ensures
            self@ == u64::MAX <==> r is None,
            r matches Some(n) ==> n@ == self@ + 1,
    {
        if self.0 == u64::MAX {
            None
        } else {
            Some(Version(self.0 + 1))
        }
    }

    /// The digest input contributed by this version: tag byte 0xE0 followed by
    /// the big-endian packed value.
    pub open spec fn digest_bytes(self) -> Seq<u8> {
        seq![0xE0u8] + be_u64(self@)
    }

    /// Contribute this version to a schema digest input.
    /// Tag byte 0xE0 identifies this as a Version.
    pub fn hash_build(&self, build: &mut Vec<u8>)
        ensures
            final(build)@ == old(build)@ + self.digest_bytes(),
    {
        push_u8(build, 0xE0);
        push_be_u64(build, self.0);
        assert(build@ =~= old(build)@ + self.digest_bytes());
    }

    /// `true` when `self` is at or after `other` in packed order.
    pub fn is_at_least(self, other: Version) -> (r: bool)
        ensures
            r == (self@ >= other@),
    {
        self.0 >= other.0
    }

    /// `true` when `self` is strictly before `other` in packed order.
    pub fn is_before(self, other: Version) -> (r: bool)
        ensures
            r == (self@ < other@),
    {
        self.0 < other.0
    }
}

/// Packing a version and reading its components back gives the components.
pub proof fn lemma_version_components_round_trip(major: u16, minor: u16, patch: u16, build: u16)
    ensures
        pack(major, minor, patch, build) / major_unit() == major,
        (pack(major, minor, patch, build) / minor_unit()) % 0x10000 == minor,
        (pack(major, minor, patch, build) / patch_unit()) % 0x10000 == patch,
        pack(major, minor, patch, build) % 0x10000 == build,
        0 <= pack(major, minor, patch, build) <= u64::MAX,
{
    let (a, b, c, d) = (major as u64, minor as u64, patch as u64, build as u64);
    assert({
        let x = a * 0x1_0000_0000_0000 + b * 0x1_0000_0000 + c * 0x1_0000 + d;
        &&& x / 0x1_0000_0000_0000 == a
        &&& (x / 0x1_0000_0000) % 0x10000 == b
        &&& (x / 0x1_0000) % 0x10000 == c
        &&& x % 0x10000 == d
    }) by (bit_vector)
        requires
            a < 0x10000,
            b < 0x10000,
            c < 0x10000,
            d < 0x10000,
    ;
}

/// A version is the packing of its own components.
pub proof fn lemma_version_pack_components(v: Version)
    ensures
        pack(v.components().0, v.components().1, v.components().2, v.components().3) == v@,
{
    let x = v@;
    assert(x == (x / 0x1_0000_0000_0000) * 0x1_0000_0000_0000 + ((x / 0x1_0000_0000) % 0x1_0000)
        * 0x1_0000_0000 + ((x / 0x1_0000) % 0x1_0000) * 0x1_0000 + x % 0x1_0000) by (bit_vector);
    assert(x / 0x1_0000_0000_0000 < 0x1_0000) by (bit_vector);
}

/// The version whose packed value is `packed`.
pub closed spec fn version_from_packed(packed: u64) -> Version {
    Version(packed)
}

/// A version is determined by its packed value.
pub proof fn lemma_version_view(v: Version, packed: u64)
    ensures
        version_from_packed(packed)@ == packed,
        v@ == packed ==> v == version_from_packed(packed),
{
}

/// Packed order is the lexicographic order of (major, minor, patch, build).
pub proof fn lemma_version_order_is_lexicographic(
    a0: u16,
    a1: u16,
    a2: u16,
    a3: u16,
    b0: u16,
    b1: u16,
    b2: u16,
    b3: u16,
)
    ensures
        pack(a0, a1, a2, a3) < pack(b0, b1, b2, b3) <==> (a0 < b0 || (a0 == b0 && (a1 < b1 || (a1
            == b1 && (a2 < b2 || (a2 == b2 && a3 < b3)))))),
        pack(a0, a1, a2, a3) == pack(b0, b1, b2, b3) <==> (a0 == b0 && a1 == b1 && a2 == b2 && a3
            == b3),
{
    assert(pack(a0, a1, a2, a3) < pack(b0, b1, b2, b3) <==> (a0 < b0 || (a0 == b0 && (a1 < b1
        || (a1 == b1 && (a2 < b2 || (a2 == b2 && a3 < b3))))))) by (nonlinear_arith)
        requires
            a1 < 0x10000,
            a2 < 0x10000,
            a3 < 0x10000,
            b1 < 0x10000,
            b2 < 0x10000,
            b3 < 0x10000,
    ;
    lemma_version_components_round_trip(a0, a1, a2, a3);
    lemma_version_components_round_trip(b0, b1, b2, b3);
}

/// A single deprecation period.
/// Both `since` and `until` are inclusive bounds.
#[derive(Copy, Clone, Debug, PartialEq, Eq)]
pub struct DeprecationSpan {
    /// When this deprecation period started (inclusive).
    pub since: Version,
    /// When this deprecation period ended (inclusive, None = still deprecated).
    pub until: Option<Version>,
}

impl DeprecationSpan {
    /// `true` when the span covers `version` (inclusive on both ends).
    pub open spec fn covers(self, version: Version) -> bool {
        &&& version@ >= self.since@
        &&& match self.until {
            Some(until) => version@ <= until@,
            None => true,
        }
    }

    /// Create an open-ended deprecation span (deprecated from `since` onwards).
    pub fn new(since: Version) -> (s: Self)
        ensures
            s == (DeprecationSpan { since, until: None }),
    {
        DeprecationSpan { since, until: None }
    }

    /// Create a closed deprecation span (deprecated from `since` through `until`).
    pub fn new_range(since: Version, until: Version) -> (s: Self)
        ensures
            s == (DeprecationSpan { since, until: Some(until) }),
    {
        DeprecationSpan { since, until: Some(until) }
    }

    /// The digest input contributed by this span: tag byte 0xE1, the start,
    /// a presence byte for the end, and the end (or eight zero bytes).
    pub open spec fn digest_bytes(self) -> Seq<u8> {
        seq![0xE1u8] + be_u64(self.since@) + match self.until {
            Some(v) => seq![1u8] + be_u64(v@),
            None => seq![0u8] + zero_u64_bytes(),
        }
    }

    /// Contribute this span to a schema digest input.
    /// Tag byte 0xE1 identifies this as a DeprecationSpan.
    pub fn hash_build(&self, build: &mut Vec<u8>)
        ensures
            final(build)@ == old(build)@ + self.digest_bytes(),
    {
        push_u8(build, 0xE1);
        push_be_u64(build, self.since.0);
        match self.until {
            Some(v) => {
                push_u8(build, 1);
                push_be_u64(build, v.0);
            },
            None => {
                push_u8(build, 0);
                push_zero_u64(build);
            },
        }
        assert(build@ =~= old(build)@ + self.digest_bytes());
    }

    /// Check if this span covers the given version (inclusive on both ends).
    pub fn contains(&self, version: Version) -> (r: bool)
        ensures
            r == self.covers(version),
    {
        version.0 >= self.since.0 && match self.until {
            Some(until) => version.0 <= until.0,
            None => true,
        }
    }
}

/// The digest inputs of the spans, in order.
pub open spec fn spans_digest(spans: Seq<DeprecationSpan>) -> Seq<u8>
    decreases spans.len(),
{
    if spans.len() == 0 {
        Seq::empty()
    } else {
        spans_digest(spans.drop_last()) + spans.last().digest_bytes()
    }
}

/// Complete version lifecycle for an item.
#[derive(Clone, Debug, PartialEq, Eq)]
pub struct VersionRange {
    /// When this item was first introduced.
    pub introduced: Version,
    /// Deprecation periods (can be empty, or contain multiple spans).
    pub deprecations: Vec<DeprecationSpan>,
    /// When this item was removed (None = not yet removed).
    pub removed_in: Option<Version>,
}

impl VersionRange {
    /// `true` when some deprecation span covers `version`.
    pub open spec fn deprecated_at(self, version: Version) -> bool {
        exists|i: int| 0 <= i < self.deprecations@.len() && #[trigger] self.deprecations@[i].covers(version)
    }

    /// `true` when the item has been removed at or before `version`.
    pub open spec fn removed_at(self, version: Version) -> bool {
        match self.removed_in {
            Some(v) => version@ >= v@,
            None => false,
        }
    }

    /// `true` when the item has been introduced and not yet removed at `version`.
    pub open spec fn live_at(self, version: Version) -> bool {
        version@ >= self.introduced@ && !self.removed_at(version)
    }

    /// The digest input contributed by this range: tag byte 0xF0, the
    /// introduction version, the span count, every span in order, a presence
    /// byte for the removal, and the removal version (or eight zero bytes).
    pub open spec fn digest_bytes(self) -> Seq<u8> {
        seq![0xF0u8] + be_u64(self.introduced@) + be_u32(self.deprecations@.len() as u32)
            + spans_digest(self.deprecations@) + match self.removed_in {
            Some(v) => seq![1u8] + be_u64(v@),
            None => seq![0u8] + zero_u64_bytes(),
        }
    }

    /// Contribute this range to a schema digest input.
    /// Tag byte 0xF0 identifies this as a VersionRange.
    pub fn hash_build(&self, build: &mut Vec<u8>)
        ensures
            final(build)@ == old(build)@ + self.digest_bytes(),
    {
        push_u8(build, 0xF0);
        push_be_u64(build, self.introduced.0);
        push_be_u32(build, self.deprecations.len() as u32);
        let ghost mid = build@;
        let mut i: usize = 0;
        while i < self.deprecations.len()
            invariant
                0 <= i <= self.deprecations@.len(),
                build@ == mid + spans_digest(self.deprecations@.subrange(0, i as int)),
            decreases self.deprecations@.len() - i,
        {
            self.deprecations[i].hash_build(build);
            proof {
                let s = self.deprecations@.subrange(0, i + 1);
                assert(s.drop_last() =~= self.deprecations@.subrange(0, i as int));
            }
            i += 1;
        }
        assert(self.deprecations@.subrange(0, i as int) =~= self.deprecations@);
        match self.removed_in {
            Some(v) => {
                push_u8(build, 1);
                push_be_u64(build, v.0);
            },
            None => {
                push_u8(build, 0);
                push_zero_u64(build);
            },
        }
        assert(build@ =~= old(build)@ + self.digest_bytes());
    }

    /// Default version range: introduced at 0.0.0.0, no deprecations, not removed.
    pub fn default() -> (r: Self)
        ensures
            r.introduced@ == 0,
            r.deprecations@.len() == 0,
            r.removed_in is None,
    {
        VersionRange { introduced: Version::zero(), deprecations: Vec::new(), removed_in: None }
    }

    /// Create a version range with just an introduction version.
    pub fn introduced(v: Version) -> (r: Self)
        ensures
            r.introduced == v,
            r.deprecations@.len() == 0,
            r.removed_in is None,
    {
        VersionRange { introduced: v, deprecations: Vec::new(), removed_in: None }
    }

    /// Create a version range with introduction and removal.
    pub fn introduced_removed(intro: Version, removed: Version) -> (r: Self)
        ensures
            r.introduced == intro,
            r.deprecations@.len() == 0,
            r.removed_in == Some(removed),
    {
        VersionRange { introduced: intro, deprecations: Vec::new(), removed_in: Some(removed) }
    }

    /// Check if this item is deprecated at the given version.
    pub fn is_deprecated_at(&self, version: Version) -> (r: bool)
        ensures
            r == self.deprecated_at(version),
    {
        let mut i: usize = 0;
        while i < self.deprecations.len()
            invariant
                0 <= i <= self.deprecations@.len(),
                forall|j: int| 0 <= j < i ==> !(#[trigger] self.deprecations@[j].covers(version)),
            decreases self.deprecations@.len() - i,
        {
            if self.deprecations[i].contains(version) {
                return true;
            }
            i += 1;
        }
        false
    }

    /// Check if this item is removed at or after the given version.
    pub fn is_removed_at(&self, version: Version) -> (r: bool)
        ensures
            r == self.removed_at(version),
    {
        match self.removed_in {
            Some(v) => version.0 >= v.0,
            None => false,
        }
    }

    /// Check if this item exists at the given version.
    /// Exists means: introduced and not yet removed.
    pub fn exists_at(&self, version: Version) -> (r: bool)
        ensures
            r == self.live_at(version),
    {
        version.0 >= self.introduced.0 && !self.is_removed_at(version)
    }
}

/// A three-state activation marker for fields and variants.
#[derive(Debug, Clone, Copy, PartialEq, Eq, Hash, Structural)]
pub enum ActivationState {
    /// The item exists and is not deprecated at this version.
    Active,
    /// The item exists but is deprecated at this version.
    Deprecated,
    /// The item does not exist at this version.
    Inactive,
}

impl ActivationState {
    /// Returns true if the item is active and not deprecated.
    pub fn is_active(self) -> (r: bool)
        ensures
            r == (self == ActivationState::Active),
    {
        match self {
            ActivationState::Active => true,
            _ => false,
        }
    }

    /// Returns true if the item exists but is deprecated.
    pub fn is_deprecated(self) -> (r: bool)
        ensures
            r == (self == ActivationState::Deprecated),
    {
        match self {
            ActivationState::Deprecated => true,
            _ => false,
        }
    }

    /// Returns true if the item does not exist at this version.
    pub fn is_inactive(self) -> (r: bool)
        ensures
            r == (self == ActivationState::Inactive),
    {
        match self {
            ActivationState::Inactive => true,
            _ => false,
        }
    }
}

/// An entry in the version activation table, mapping a starting version
/// to the per-item activation states from that version onward.
#[derive(Debug, Clone, PartialEq, Eq)]
pub struct VersionActivationEntry {
    /// The starting version for this activation state.
    pub version: Version,
    /// Which fields/variants are active from this version onward.
    /// The index corresponds to the field/variant declaration order.
    pub active: Vec<ActivationState>,
}

/// `true` when the entries are ordered by ascending starting version.
pub open spec fn activation_table_sorted(entries: Seq<VersionActivationEntry>) -> bool {
    forall|i: int, j: int|
        0 <= i <= j < entries.len() ==> #[trigger] entries[i].version@ <= #[trigger] entries[j].version@
}

/// `true` when entry `i` is the last entry starting at or before `version`,
/// i.e. entry `i` governs `version`.
pub open spec fn governs(entries: Seq<VersionActivationEntry>, i: int, version: Version) -> bool {
    &&& 0 <= i < entries.len()
    &&& entries[i].version@ <= version@
    &&& (i + 1 == entries.len() || version@ < entries[i + 1].version@)
}

/// The activation states that govern `version` in an ordered activation
/// table: those of the last entry starting at or before `version`, or `None`
/// if `version` precedes every entry.
pub open spec fn states_at(entries: Seq<VersionActivationEntry>, version: Version) -> Option<
    Seq<ActivationState>,
> {
    if exists|i: int| governs(entries, i, version) {
        Some(entries[choose|i: int| governs(entries, i, version)].active@)
    } else {
        None
    }
}

/// In an ordered table at most one entry governs a version.
pub proof fn lemma_governing_entry_unique(
    entries: Seq<VersionActivationEntry>,
    version: Version,
    i: int,
    j: int,
)
    requires
        activation_table_sorted(entries),
        governs(entries, i, version),
        governs(entries, j, version),
    ensures
        i == j,
{
    if i < j {
        assert(entries[i + 1].version@ <= entries[j].version@);
    } else if j < i {
        assert(entries[j + 1].version@ <= entries[i].version@);
    }
}

/// In an ordered table, the states governing `version` are those of entry `i`
/// whenever entry `i` governs `version`.
pub proof fn lemma_states_at_governing(
    entries: Seq<VersionActivationEntry>,
    version: Version,
    i: int,
)
    requires
        activation_table_sorted(entries),
        governs(entries, i, version),
    ensures
        states_at(entries, version) == Some(entries[i].active@),
{
    let k = choose|k: int| governs(entries, k, version);
    lemma_governing_entry_unique(entries, version, i, k);
}

/// Binary search the activation table for the entry that covers the given version.
/// Returns the activation states, or None if the version is before all entries.
pub fn binary_search_activation(entries: &[VersionActivationEntry], version: Version) -> (r: Option<
    &[ActivationState],
>)
    requires
        activation_table_sorted(entries@),
    ensures
        r is None <==> (entries@.len() == 0 || version@ < entries@[0].version@),
        r is None <==> states_at(entries@, version) is None,
        r matches Some(a) ==> states_at(entries@, version) == Some(a@),
{
    if entries.len() == 0 {
        return None;
    }
    if version.0 < entries[0].version.0 {
        proof {
            assert forall|i: int| !governs(entries@, i, version) by {
                if 0 <= i < entries@.len() {
                    assert(entries@[0].version@ <= entries@[i].version@);
                }
            }
        }
        return None;
    }
    // Invariant: entries[lo] starts at or before `version`, and every entry at
    // index `hi` or later starts after it.
    let mut lo: usize = 0;
    let mut hi: usize = entries.len();
    while lo + 1 < hi
        invariant
            activation_table_sorted(entries@),
            0 <= lo < hi <= entries@.len(),
            entries@[lo as int].version@ <= version@,
            forall|j: int| hi <= j < entries@.len() ==> version@ < #[trigger] entries@[j].version@,
        decreases hi - lo,
    {
        let mid = lo + (hi - lo) / 2;
        if entries[mid].version.0 <= version.0 {
            lo = mid;
        } else {
            assert forall|j: int| mid <= j < entries@.len() implies version@
                < #[trigger] entries@[j].version@ by {
                assert(entries@[mid as int].version@ <= entries@[j].version@);
            }
            hi = mid;
        }
    }
    proof {
        if lo + 1 < entries@.len() {
            assert(hi == lo + 1);
        }
        assert(governs(entries@, lo as int, version));
        lemma_states_at_governing(entries@, version, lo as int);
    }
    Some(entries[lo].active.as_slice())
}

} // verus!
