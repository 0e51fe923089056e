//! Activation tables: from the lifecycles of a type's fields or variants, the
//! versions at which any of them changes state, and the states of all of them
//! from each such version on.

use crate::version::{
    activation_table_sorted, governs, lemma_states_at_governing, states_at, ActivationState,
    DeprecationSpan, Version, VersionActivationEntry, VersionRange,
};
use vstd::prelude::*;

verus! {

/// The state of an item with lifecycle `r` at `v`.
pub open spec fn activation_state(r: VersionRange, v: Version) -> ActivationState {
    if !r.live_at(v) {
        ActivationState::Inactive
    } else if r.deprecated_at(v) {
        ActivationState::Deprecated
    } else {
        ActivationState::Active
    }
}

/// `p` is where a deprecation span starts, or the version right after it
/// ends.
pub open spec fn is_span_point(s: DeprecationSpan, p: u64) -> bool {
    p == s.since@ || (s.until matches Some(u) && u@ < u64::MAX && p == u@ + 1)
}

/// `p` is a version where an item with lifecycle `r` may change state: its
/// introduction, its removal, or a bound of one of its deprecation spans.
pub open spec fn is_range_point(r: VersionRange, p: u64) -> bool {
    ||| p == r.introduced@
    ||| (r.removed_in matches Some(x) && p == x@)
    ||| exists|j: int| 0 <= j < r.deprecations@.len() && is_span_point(#[trigger] r.deprecations@[j], p)
}

/// `p` is a version where one of the items may change state.
pub open spec fn is_change_point(ranges: Seq<VersionRange>, p: u64) -> bool {
    exists|i: int| 0 <= i < ranges.len() && is_range_point(#[trigger] ranges[i], p)
}

/// The states of all items at `v`, in item order.
pub open spec fn states_of(ranges: Seq<VersionRange>, v: Version) -> Seq<ActivationState> {
    Seq::new(ranges.len(), |i: int| activation_state(ranges[i], v))
}

/// `entries` is the activation table of the items with lifecycles `ranges`:
/// one entry per change point, in strictly ascending order, each holding the
/// states of all items at that version.
pub open spec fn is_activation_table(
    ranges: Seq<VersionRange>,
    entries: Seq<VersionActivationEntry>,
) -> bool {
    &&& forall|a: int, b: int|
        0 <= a < b < entries.len() ==> (#[trigger] entries[a]).version@ < (#[trigger] entries[b]).version@
    &&& forall|k: int|
        0 <= k < entries.len() ==> is_change_point(ranges, (#[trigger] entries[k]).version@)
    &&& forall|p: u64|
        is_change_point(ranges, p) ==> exists|k: int|
            0 <= k < entries.len() && (#[trigger] entries[k]).version@ == p
    &&& forall|k: int|
        0 <= k < entries.len() ==> (#[trigger] entries[k]).active@ == states_of(
            ranges,
            entries[k].version,
        )
}

impl VersionRange {
    /// The state of the item at `version`.
    pub fn state_at(&self, version: Version) -> (r: ActivationState)
        ensures
            r == activation_state(*self, version),
    {
        if !self.exists_at(version) {
            ActivationState::Inactive
        } else if self.is_deprecated_at(version) {
            ActivationState::Deprecated
        } else {
            ActivationState::Active
        }
    }
}

/// `true` when `s` is in strictly ascending order.
pub open spec fn strictly_ascending(s: Seq<u64>) -> bool {
    forall|a: int, b: int| 0 <= a < b < s.len() ==> s[a] < s[b]
}

/// Add `p` to a strictly ascending list, keeping it so.
fn insert_point(points: &mut Vec<u64>, p: u64)
    requires
        strictly_ascending(old(points)@),
    ensures
        strictly_ascending(final(points)@),
        forall|x: u64| final(points)@.contains(x) <==> (old(points)@.contains(x) || x == p),
{
    let mut i: usize = 0;
    while i < points.len() && points[i] < p
        invariant
            0 <= i <= points@.len(),
            points@ == old(points)@,
            forall|j: int| 0 <= j < i ==> points@[j] < p,
        decreases points@.len() - i,
    {
        i += 1;
    }
    if i < points.len() && points[i] == p {
        assert(points@.contains(p) && points@ == old(points)@);
        return;
    }
    let ghost before = points@;
    points.insert(i, p);
    assert forall|a: int, b: int| 0 <= a < b < points@.len() implies points@[a] < points@[b] by {
        if b < i {
        } else if b == i {
        } else if a < i {
            assert(points@[b] == before[b - 1]);
        } else if a == i {
            assert(points@[b] == before[b - 1]);
            assert(before[i as int] > p || i == before.len());
        } else {
            assert(points@[a] == before[a - 1]);
            assert(points@[b] == before[b - 1]);
        }
    }
    assert forall|x: u64| #[trigger] points@.contains(x) <==> (before.contains(x) || x == p) by {
        if before.contains(x) {
            let j = choose|j: int| 0 <= j < before.len() && before[j] == x;
            if j < i {
                assert(points@[j] == x);
            } else {
                assert(points@[j + 1] == x);
            }
        }
        if points@.contains(x) {
            let j = choose|j: int| 0 <= j < points@.len() && points@[j] == x;
            if j < i {
                assert(before[j] == x);
            } else if j > i {
                assert(before[j - 1] == x);
            }
        }
        if x == p {
            assert(points@[i as int] == p);
        }
    }
}

/// The change points of the first `i + 1` items are those of the first `i`
/// and those of item `i`.
proof fn lemma_change_point_extend(ranges: Seq<VersionRange>, i: int, p: u64)
    requires
        0 <= i < ranges.len(),
    ensures
        is_change_point(ranges.take(i + 1), p) <==> (is_change_point(ranges.take(i), p)
            || is_range_point(ranges[i], p)),
{
    let upto = ranges.take(i + 1);
    let before = ranges.take(i);
    assert(upto[i] == ranges[i]);
    if is_change_point(before, p) {
        let k = choose|k: int| 0 <= k < before.len() && is_range_point(#[trigger] before[k], p);
        assert(upto[k] == before[k]);
    }
    if is_change_point(upto, p) {
        let k = choose|k: int| 0 <= k < upto.len() && is_range_point(#[trigger] upto[k], p);
        if k < i {
            assert(upto[k] == before[k]);
        }
    }
}

/// Every version where one of the items may change state, in strictly
/// ascending order.
fn change_points(ranges: &[VersionRange]) -> (points: Vec<u64>)
    ensures
        strictly_ascending(points@),
        forall|p: u64| points@.contains(p) <==> is_change_point(ranges@, p),
{
    let mut points: Vec<u64> = Vec::new();
    let mut i: usize = 0;
    while i < ranges.len()
        invariant
            0 <= i <= ranges@.len(),
            strictly_ascending(points@),
            forall|p: u64| points@.contains(p) <==> is_change_point(ranges@.take(i as int), p),
        decreases ranges@.len() - i,
    {
        let r = &ranges[i];
        let ghost prior = points@;
        insert_point(&mut points, r.introduced.packed());
        let mut j: usize = 0;
        while j < r.deprecations.len()
            invariant
                0 <= j <= r.deprecations@.len(),
                strictly_ascending(points@),
                forall|p: u64|
                    #[trigger] points@.contains(p) <==> (prior.contains(p) || p == r.introduced@
                        || exists|k: int|
                        0 <= k < j && is_span_point(#[trigger] r.deprecations@[k], p)),
            decreases r.deprecations@.len() - j,
        {
            let span = r.deprecations[j];
            let ghost mid = points@;
            insert_point(&mut points, span.since.packed());
            let ghost after_since = points@;
            match span.until {
                Some(u) => match u.successor() {
                    Some(next) => insert_point(&mut points, next.packed()),
                    None => {},
                },
                None => {},
            }
            assert forall|p: u64| #[trigger] points@.contains(p) <==> (mid.contains(p)
                || is_span_point(span, p)) by {
                assert(after_since.contains(p) <==> (mid.contains(p) || p == span.since@));
            }
            assert forall|p: u64| #[trigger] points@.contains(p) <==> (prior.contains(p) || p
                == r.introduced@ || exists|k: int|
                0 <= k < j + 1 && is_span_point(#[trigger] r.deprecations@[k], p)) by {
                assert(r.deprecations@[j as int] == span);
                if exists|k: int| 0 <= k < j + 1 && is_span_point(#[trigger] r.deprecations@[k], p) {
                    let k = choose|k: int|
                        0 <= k < j + 1 && is_span_point(#[trigger] r.deprecations@[k], p);
                    if k < j {
                        assert(exists|k2: int|
                            0 <= k2 < j && is_span_point(#[trigger] r.deprecations@[k2], p));
                    }
                }
                if exists|k: int| 0 <= k < j && is_span_point(#[trigger] r.deprecations@[k], p) {
                    let k = choose|k: int| 0 <= k < j && is_span_point(#[trigger] r.deprecations@[k], p);
                    assert(0 <= k < j + 1 && is_span_point(r.deprecations@[k], p));
                }
            }
            j += 1;
        }
        let ghost after_spans = points@;
        match r.removed_in {
            Some(x) => insert_point(&mut points, x.packed()),
            None => {},
        }
        assert forall|p: u64| #[trigger] points@.contains(p) <==> (prior.contains(p)
            || is_range_point(*r, p)) by {
            assert(after_spans.contains(p) <==> (prior.contains(p) || p == r.introduced@
                || exists|k: int|
                0 <= k < r.deprecations@.len() && is_span_point(#[trigger] r.deprecations@[k], p)));
        }
        proof {
            assert forall|p: u64| #[trigger] points@.contains(p) <==> is_change_point(
                ranges@.take(i + 1),
                p,
            ) by {
                lemma_change_point_extend(ranges@, i as int, p);
            }
        }
        i += 1;
    }
    assert(ranges@.take(i as int) =~= ranges@);
    points
}

/// The states of all items at `version`.
fn states_at_version(ranges: &[VersionRange], version: Version) -> (r: Vec<ActivationState>)
    ensures
        r@ == states_of(ranges@, version),
{
    let mut out: Vec<ActivationState> = Vec::new();
    let mut i: usize = 0;
    while i < ranges.len()
        invariant
            0 <= i <= ranges@.len(),
            out@ == states_of(ranges@, version).take(i as int),
        decreases ranges@.len() - i,
    {
        out.push(ranges[i].state_at(version));
        i += 1;
        assert(out@ =~= states_of(ranges@, version).take(i as int));
    }
    assert(out@ =~= states_of(ranges@, version));
    out
}

/// Build the activation table of items with the lifecycles `ranges`: an
/// entry at every version where one of them may change state, in ascending
/// order, holding the states of all of them from that version on.
pub fn activation_table(ranges: &[VersionRange]) -> (r: Vec<VersionActivationEntry>)
    ensures
        is_activation_table(ranges@, r@),
{
    let points = change_points(ranges);
    let mut out: Vec<VersionActivationEntry> = Vec::new();
    let mut k: usize = 0;
    while k < points.len()
        invariant
            0 <= k <= points@.len(),
            strictly_ascending(points@),
            forall|p: u64| points@.contains(p) <==> is_change_point(ranges@, p),
            out@.len() == k,
            forall|a: int|
                0 <= a < k ==> (#[trigger] out@[a]).version@ == points@[a] && out@[a].active@
                    == states_of(ranges@, out@[a].version),
        decreases points@.len() - k,
    {
        let version = Version::from_packed(points[k]);
        out.push(VersionActivationEntry { version, active: states_at_version(ranges, version) });
        k += 1;
    }
    assert forall|p: u64| is_change_point(ranges@, p) implies exists|a: int|
        0 <= a < out@.len() && (#[trigger] out@[a]).version@ == p by {
        assert(points@.contains(p));
        let a = choose|a: int| 0 <= a < points@.len() && points@[a] == p;
        assert(out@[a].version@ == p);
    }
    assert forall|a: int| 0 <= a < out@.len() implies is_change_point(
        ranges@,
        (#[trigger] out@[a]).version@,
    ) by {
        assert(points@.contains(points@[a]));
    }
    out
}

/// An item's state cannot change between two versions unless one of its
/// change points lies after the first and at or before the second.
proof fn lemma_state_stable(r: VersionRange, p: Version, v: Version)
    requires
        p@ <= v@,
        forall|c: u64| is_range_point(r, c) ==> !(p@ < c <= v@),
    ensures
        activation_state(r, p) == activation_state(r, v),
{
    assert(is_range_point(r, r.introduced@));
    if let Some(x) = r.removed_in {
        assert(is_range_point(r, x@));
    }
    assert forall|j: int| 0 <= j < r.deprecations@.len() implies (
    #[trigger] r.deprecations@[j]).covers(p) == r.deprecations@[j].covers(v) by {
        let s = r.deprecations@[j];
        assert(is_span_point(s, s.since@));
        assert(is_range_point(r, s.since@));
        if let Some(u) = s.until {
            if u@ < u64::MAX {
                assert(is_span_point(s, (u@ + 1) as u64));
                assert(is_range_point(r, (u@ + 1) as u64));
            }
        }
    }
    if r.deprecated_at(p) {
        let j = choose|j: int| 0 <= j < r.deprecations@.len() && #[trigger] r.deprecations@[j].covers(p);
        assert(r.deprecations@[j].covers(v));
    }
    if r.deprecated_at(v) {
        let j = choose|j: int| 0 <= j < r.deprecations@.len() && #[trigger] r.deprecations@[j].covers(v);
        assert(r.deprecations@[j].covers(p));
    }
}

/// Looking up a version in the activation table of some items gives the
/// state of every one of them at that version; a version before every
/// entry finds nothing, and there every item is inactive.
pub proof fn lemma_activation_table_governs(
    ranges: Seq<VersionRange>,
    entries: Seq<VersionActivationEntry>,
    v: Version,
)
    requires
        is_activation_table(ranges, entries),
    ensures
        activation_table_sorted(entries),
        match states_at(entries, v) {
            Some(states) => states == states_of(ranges, v),
            None => forall|i: int|
                0 <= i < ranges.len() ==> activation_state(ranges[i], v)
                    == ActivationState::Inactive,
        },
{
    assert forall|a: int, b: int| 0 <= a <= b < entries.len() implies #[trigger] entries[a].version@
        <= #[trigger] entries[b].version@ by {
        if a < b {
            assert(entries[a].version@ < entries[b].version@);
        }
    }
    if entries.len() == 0 || v@ < entries[0].version@ {
        assert forall|i: int| 0 <= i < ranges.len() implies activation_state(ranges[i], v)
            == ActivationState::Inactive by {
            let r = ranges[i];
            assert(is_range_point(r, r.introduced@));
            assert(is_change_point(ranges, r.introduced@));
            let k = choose|k: int| 0 <= k < entries.len() && (#[trigger] entries[k]).version@
                == r.introduced@;
            if k > 0 {
                assert(entries[0].version@ < entries[k].version@);
            }
        }
        assert forall|k: int| !governs(entries, k, v) by {
            if 0 <= k < entries.len() && k > 0 {
                assert(entries[0].version@ < entries[k].version@);
            }
        }
    } else {
        lemma_some_entry_governs(entries, v, entries.len() - 1);
        let k = choose|k: int| governs(entries, k, v);
        assert(governs(entries, k, v));
        lemma_states_at_governing(entries, v, k);
        let p = entries[k].version;
        assert forall|i: int| 0 <= i < ranges.len() implies activation_state(ranges[i], p)
            == activation_state(ranges[i], v) by {
            assert forall|c: u64| is_range_point(ranges[i], c) implies !(p@ < c <= v@) by {
                assert(is_change_point(ranges, c));
                let j = choose|j: int| 0 <= j < entries.len() && (#[trigger] entries[j]).version@ == c;
                if p@ < c && c <= v@ {
                    if j <= k {
                        if j < k {
                            assert(entries[j].version@ < entries[k].version@);
                        }
                    } else {
                        assert(entries[k + 1].version@ <= entries[j].version@) by {
                            if k + 1 < j {
                                assert(entries[k + 1].version@ < entries[j].version@);
                            }
                        }
                    }
                }
            }
            lemma_state_stable(ranges[i], p, v);
        }
        assert(states_at(entries, v) == Some(entries[k].active@));
        assert(entries[k].active@ =~= states_of(ranges, v));
    }
}

/// In an ascending table whose first entry starts at or before `v`, some
/// entry governs `v`.
proof fn lemma_some_entry_governs(entries: Seq<VersionActivationEntry>, v: Version, hi: int)
    requires
        0 <= hi < entries.len(),
        entries[0].version@ <= v@,
        hi == entries.len() - 1 || v@ < entries[hi + 1].version@,
    ensures
        exists|k: int| governs(entries, k, v),
    decreases hi,
{
    if entries[hi].version@ <= v@ {
        assert(governs(entries, hi, v));
    } else {
        lemma_some_entry_governs(entries, v, hi - 1);
    }
}

} // verus!
