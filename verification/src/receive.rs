//! The checks made while a value is received element by element: announced
//! lengths, array sizes, set and map duplicates, option payloads, and which
//! fields of a struct or tuple have been filled.
//!
//! Each receiver is handed the elements a decoder produced, in order, and
//! decides whether the value being built is still valid.

use crate::text::{decimal_text, push_decimal};
use std::collections::hash_map::RandomState;
use std::collections::{BTreeMap, BTreeSet, HashMap, HashSet};
use std::hash::Hash;
use vstd::std_specs::hash::{builds_valid_hashers, obeys_key_model};
use vstd::prelude::*;

verus! {

broadcast use {
    vstd::std_specs::btree::group_btree_axioms,
    vstd::laws_cmp::group_laws_cmp,
    vstd::std_specs::hash::group_hash_axioms,
};

/// Why a received value was refused.
#[derive(Clone, Copy, Debug, PartialEq, Eq, Structural)]
pub enum ReceiveError {
    /// A sequence did not announce its length where one is required.
    LengthMissing,
    /// An array received a number of elements other than its size.
    LengthMismatch { expected: usize, got: usize },
    /// A set received the same element twice.
    DuplicateElement,
    /// A map received the same key twice.
    DuplicateKey,
    /// An option announced a value but none followed.
    MissingPayload,
    /// A field or element index past the end was visited.
    IndexOutOfBounds,
    /// Not every field or element was visited.
    Incomplete,
}

/// The description of a receive error.
pub open spec fn receive_error_text(e: ReceiveError) -> Seq<char> {
    match e {
        ReceiveError::LengthMissing => "sequence length was not found when required"@,
        ReceiveError::LengthMismatch { expected, got } => "array length mismatch: expected "@
            + decimal_text(expected as nat) + ", got "@ + decimal_text(got as nat),
        ReceiveError::DuplicateElement => "duplicate set element received"@,
        ReceiveError::DuplicateKey => "duplicate map key received"@,
        ReceiveError::MissingPayload => "option was signaled as Some but payload was not received"@,
        ReceiveError::IndexOutOfBounds => "visit index out of bounds while building data structure"@,
        ReceiveError::Incomplete => "incomplete data structure: not all fields were visited"@,
    }
}

impl ReceiveError {
    /// Describe the error in words.
    pub fn message(&self) -> (r: String)
        ensures
            r@ == receive_error_text(*self),
    {
        match self {
            ReceiveError::LengthMissing => String::from_str(
                "sequence length was not found when required",
            ),
            ReceiveError::LengthMismatch { expected, got } => {
                let mut text = String::from_str("array length mismatch: expected ");
                push_decimal(&mut text, *expected as u64);
                text.append(", got ");
                push_decimal(&mut text, *got as u64);
                text
            },
            ReceiveError::DuplicateElement => String::from_str("duplicate set element received"),
            ReceiveError::DuplicateKey => String::from_str("duplicate map key received"),
            ReceiveError::MissingPayload => String::from_str(
                "option was signaled as Some but payload was not received",
            ),
            ReceiveError::IndexOutOfBounds => String::from_str(
                "visit index out of bounds while building data structure",
            ),
            ReceiveError::Incomplete => String::from_str(
                "incomplete data structure: not all fields were visited",
            ),
        }
    }
}

/// The announced length of a sequence, which must be present.
pub fn expect_len(size: Option<usize>) -> (r: Result<usize, ReceiveError>)
    ensures
        match size {
            Some(n) => r == Ok::<usize, ReceiveError>(n),
            None => r == Err::<usize, ReceiveError>(ReceiveError::LengthMissing),
        },
{
    match size {
        Some(n) => Ok(n),
        None => Err(ReceiveError::LengthMissing),
    }
}

/// Receives the elements of a fixed-size array.
pub struct ArrayReceiver<T> {
    expected: usize,
    values: Vec<T>,
}

impl<T> ArrayReceiver<T> {
    /// The elements received so far.
    pub closed spec fn values(&self) -> Seq<T> {
        self.values@
    }

    /// The size of the array.
    pub closed spec fn expected(&self) -> usize {
        self.expected
    }

    /// A receiver for an array of `expected` elements.
    pub fn new(expected: usize) -> (r: Self)
        ensures
            r.expected() == expected,
            r.values() == Seq::<T>::empty(),
    {
        ArrayReceiver { expected, values: Vec::new() }
    }

    /// Take in the announced length, which must be present and equal the
    /// array's size.
    pub fn len(&self, size: Option<usize>) -> (r: Result<(), ReceiveError>)
        ensures
            match size {
                None => r == Err::<(), ReceiveError>(ReceiveError::LengthMissing),
                Some(n) => if n == self.expected() {
                    r is Ok
                } else {
                    r == Err::<(), ReceiveError>(
                        ReceiveError::LengthMismatch { expected: self.expected(), got: n },
                    )
                },
            },
    {
        let size = expect_len(size)?;
        if size != self.expected {
            return Err(ReceiveError::LengthMismatch { expected: self.expected, got: size });
        }
        Ok(())
    }

    /// Take in the next element.
    pub fn visit_next(&mut self, value: T)
        ensures
            final(self).values() == old(self).values().push(value),
            final(self).expected() == old(self).expected(),
    {
        self.values.push(value);
    }

    /// The array's elements, which must be exactly as many as its size.
    pub fn finish(self) -> (r: Result<Vec<T>, ReceiveError>)
        ensures
            self.values().len() == self.expected() ==> (r matches Ok(v) && v@ == self.values()),
            self.values().len() != self.expected() ==> r == Err::<Vec<T>, ReceiveError>(
                ReceiveError::LengthMismatch {
                    expected: self.expected(),
                    got: self.values().len() as usize,
                },
            ),
    {
        if self.values.len() != self.expected {
            return Err(
                ReceiveError::LengthMismatch { expected: self.expected, got: self.values.len() },
            );
        }
        Ok(self.values)
    }
}

/// Receives an optional value.
pub struct OptionReceiver<T> {
    is_some: bool,
    value: Option<T>,
}

impl<T> OptionReceiver<T> {
    /// Whether a value was announced.
    pub closed spec fn announced(&self) -> bool {
        self.is_some
    }

    /// The value received, if any.
    pub closed spec fn value(&self) -> Option<T> {
        self.value
    }

    /// Nothing received yet.
    pub fn new() -> (r: Self)
        ensures
            !r.announced(),
            r.value() is None,
    {
        OptionReceiver { is_some: false, value: None }
    }

    /// Take in whether a value follows; announcing none drops any value.
    pub fn as_some(&mut self, some: bool)
        ensures
            final(self).announced() == some,
            final(self).value() == if some {
                old(self).value()
            } else {
                None::<T>
            },
    {
        self.is_some = some;
        if !some {
            self.value = None;
        }
    }

    /// Take in the value.
    pub fn visit(&mut self, value: T)
        ensures
            final(self).announced() == old(self).announced(),
            final(self).value() == Some(value),
    {
        self.value = Some(value);
    }

    /// The option: none when none was announced, the value when one was
    /// announced and received, and an error when one was announced but none
    /// followed.
    pub fn finish(self) -> (r: Result<Option<T>, ReceiveError>)
        ensures
            !self.announced() ==> r == Ok::<Option<T>, ReceiveError>(None),
            self.announced() ==> match self.value() {
                Some(v) => r == Ok::<Option<T>, ReceiveError>(Some(v)),
                None => r == Err::<Option<T>, ReceiveError>(ReceiveError::MissingPayload),
            },
    {
        if self.is_some {
            match self.value {
                Some(v) => Ok(Some(v)),
                None => Err(ReceiveError::MissingPayload),
            }
        } else {
            Ok(None)
        }
    }
}

/// Receives the elements of an ordered set, refusing duplicates.
pub struct SetReceiver<T> {
    values: BTreeSet<T>,
}

impl<T: Ord> SetReceiver<T> {
    /// The elements received so far.
    pub closed spec fn view_set(&self) -> Set<T> {
        self.values@
    }

    /// No element yet.
    pub fn new() -> (r: Self)
        ensures
            r.view_set() == Set::<T>::empty(),
    {
        SetReceiver { values: BTreeSet::new() }
    }

    /// Take in the next element; an element already received is refused.
    /// What is stated holds when `T`'s ordering is lawful.
    pub fn visit_next(&mut self, value: T) -> (r: Result<(), ReceiveError>)
        ensures
            vstd::laws_cmp::obeys_cmp::<T>() ==> {
                &&& final(self).view_set() == old(self).view_set().insert(value)
                &&& r is Ok <==> !old(self).view_set().contains(value)
                &&& r is Err ==> r == Err::<(), ReceiveError>(ReceiveError::DuplicateElement)
            },
    {
        if self.values.insert(value) {
            Ok(())
        } else {
            Err(ReceiveError::DuplicateElement)
        }
    }

    /// The set received.
    pub fn finish(self) -> (r: BTreeSet<T>)
        ensures
            r@ == self.view_set(),
    {
        self.values
    }
}

/// Receives the entries of an ordered map, refusing duplicate keys.
pub struct MapReceiver<K, V> {
    values: BTreeMap<K, V>,
}

impl<K: Ord, V> MapReceiver<K, V> {
    /// The entries received so far.
    pub closed spec fn view_map(&self) -> Map<K, V> {
        self.values@
    }

    /// No entry yet.
    pub fn new() -> (r: Self)
        ensures
            r.view_map() == Map::<K, V>::empty(),
    {
        MapReceiver { values: BTreeMap::new() }
    }

    /// Take in the next entry; a key already received is refused (the later
    /// value is kept). What is stated holds when `K`'s ordering is lawful.
    pub fn visit_next(&mut self, key: K, value: V) -> (r: Result<(), ReceiveError>)
        ensures
            vstd::laws_cmp::obeys_cmp::<K>() ==> {
                &&& final(self).view_map() == old(self).view_map().insert(key, value)
                &&& r is Ok <==> !old(self).view_map().contains_key(key)
                &&& r is Err ==> r == Err::<(), ReceiveError>(ReceiveError::DuplicateKey)
            },
    {
        match self.values.insert(key, value) {
            None => Ok(()),
            Some(_) => Err(ReceiveError::DuplicateKey),
        }
    }

    /// The map received.
    pub fn finish(self) -> (r: BTreeMap<K, V>)
        ensures
            r@ == self.view_map(),
    {
        self.values
    }
}

/// Receives the elements of a hashed set, refusing duplicates.
pub struct HashSetReceiver<T> {
    values: HashSet<T>,
}

impl<T: Eq + Hash> HashSetReceiver<T> {
    /// The elements received so far.
    pub closed spec fn view_set(&self) -> Set<T> {
        self.values@
    }

    /// No element yet.
    pub fn new() -> (r: Self)
        ensures
            r.view_set() == Set::<T>::empty(),
    {
        HashSetReceiver { values: HashSet::new() }
    }

    /// Take in the next element; an element already received is refused.
    /// What is stated holds when `T`'s equality and hashing are lawful.
    pub fn visit_next(&mut self, value: T) -> (r: Result<(), ReceiveError>)
        ensures
            obeys_key_model::<T>() && builds_valid_hashers::<RandomState>() ==> {
                &&& final(self).view_set() == old(self).view_set().insert(value)
                &&& r is Ok <==> !old(self).view_set().contains(value)
                &&& r is Err ==> r == Err::<(), ReceiveError>(ReceiveError::DuplicateElement)
            },
    {
        if self.values.insert(value) {
            Ok(())
        } else {
            Err(ReceiveError::DuplicateElement)
        }
    }

    /// The set received.
    pub fn finish(self) -> (r: HashSet<T>)
        ensures
            r@ == self.view_set(),
    {
        self.values
    }
}

/// Receives the entries of a hashed map, refusing duplicate keys.
pub struct HashMapReceiver<K, V> {
    values: HashMap<K, V>,
}

impl<K: Eq + Hash, V> HashMapReceiver<K, V> {
    /// The entries received so far.
    pub closed spec fn view_map(&self) -> Map<K, V> {
        self.values@
    }

    /// No entry yet.
    pub fn new() -> (r: Self)
        ensures
            r.view_map() == Map::<K, V>::empty(),
    {
        HashMapReceiver { values: HashMap::new() }
    }

    /// Take in the next entry; a key already received is refused (the later
    /// value is kept). What is stated holds when `K`'s equality and hashing
    /// are lawful.
    pub fn visit_next(&mut self, key: K, value: V) -> (r: Result<(), ReceiveError>)
        ensures
            obeys_key_model::<K>() && builds_valid_hashers::<RandomState>() ==> {
                &&& final(self).view_map() == old(self).view_map().insert(key, value)
                &&& r is Ok <==> !old(self).view_map().contains_key(key)
                &&& r is Err ==> r == Err::<(), ReceiveError>(ReceiveError::DuplicateKey)
            },
    {
        match self.values.insert(key, value) {
            None => Ok(()),
            Some(_) => Err(ReceiveError::DuplicateKey),
        }
    }

    /// The map received.
    pub fn finish(self) -> (r: HashMap<K, V>)
        ensures
            r@ == self.view_map(),
    {
        self.values
    }
}

/// Which fields or elements of a struct or tuple have been received.
pub struct FieldSlots {
    filled: Vec<bool>,
}

impl FieldSlots {
    /// For each field, whether it has been received.
    pub closed spec fn filled(&self) -> Seq<bool> {
        self.filled@
    }

    /// `count` fields, none received.
    pub fn new(count: usize) -> (r: Self)
        ensures
            r.filled() == Seq::new(count as nat, |i: int| false),
    {
        let mut filled: Vec<bool> = Vec::new();
        let mut i: usize = 0;
        while i < count
            invariant
                0 <= i <= count,
                filled@ == Seq::new(i as nat, |j: int| false),
            decreases count - i,
        {
            filled.push(false);
            i += 1;
            assert(filled@ =~= Seq::new(i as nat, |j: int| false));
        }
        FieldSlots { filled }
    }

    /// Record that field `index` was received; an index past the last
    /// field is refused.
    pub fn visit(&mut self, index: usize) -> (r: Result<(), ReceiveError>)
        ensures
            index < old(self).filled().len() ==> r is Ok && final(self).filled() == old(
                self,
            ).filled().update(index as int, true),
            index >= old(self).filled().len() ==> r == Err::<(), ReceiveError>(
                ReceiveError::IndexOutOfBounds,
            ) && final(self).filled() == old(self).filled(),
    {
        if index >= self.filled.len() {
            return Err(ReceiveError::IndexOutOfBounds);
        }
        self.filled.set(index, true);
        Ok(())
    }

    /// Whether every field was received.
    pub fn check(&self) -> (r: Result<(), ReceiveError>)
        ensures
            r is Ok <==> forall|i: int| 0 <= i < self.filled().len() ==> #[trigger] self.filled()[i],
            r is Err ==> r == Err::<(), ReceiveError>(ReceiveError::Incomplete),
    {
        let mut i: usize = 0;
        while i < self.filled.len()
            invariant
                0 <= i <= self.filled@.len(),
                forall|j: int| 0 <= j < i ==> #[trigger] self.filled@[j],
            decreases self.filled@.len() - i,
        {
            if !self.filled[i] {
                assert(!self.filled()[i as int]);
                return Err(ReceiveError::Incomplete);
            }
            i += 1;
        }
        Ok(())
    }
}

} // verus!
