//! Receiving containers element by element.

use kaloron::receive::{
    expect_len, ArrayReceiver, FieldSlots, HashMapReceiver, HashSetReceiver, MapReceiver,
    OptionReceiver, ReceiveError, SetReceiver,
};
use std::collections::{BTreeMap, BTreeSet, HashMap, HashSet};

#[test]
fn test_array_recv_rejects_length_mismatch() {
    let mut receiver = ArrayReceiver::<u32>::new(3);
    for value in [4u32, 5] {
        receiver.visit_next(value);
    }
    let err = receiver.finish().unwrap_err();
    assert_eq!(err.message(), "array length mismatch: expected 3, got 2");
}

#[test]
fn test_hash_set_recv_rejects_duplicate_elements() {
    let mut receiver = HashSetReceiver::<u32>::new();
    let mut outcome = Ok(());
    for value in [7u32, 7] {
        outcome = outcome.and_then(|_| receiver.visit_next(value));
    }
    let err = outcome.unwrap_err();
    assert_eq!(err.message(), "duplicate set element received");
}

#[test]
fn test_hash_map_recv_rejects_duplicate_keys() {
    let mut receiver = HashMapReceiver::<u32, u32>::new();
    let mut outcome = Ok(());
    for (k, v) in [(9u32, 90u32), (9, 99)] {
        outcome = outcome.and_then(|_| receiver.visit_next(k, v));
    }
    let err = outcome.unwrap_err();
    assert_eq!(err.message(), "duplicate map key received");
}

#[test]
fn arrays_check_the_announced_length() {
    let receiver = ArrayReceiver::<u8>::new(2);
    assert_eq!(receiver.len(None), Err(ReceiveError::LengthMissing));
    assert_eq!(
        receiver.len(Some(5)),
        Err(ReceiveError::LengthMismatch { expected: 2, got: 5 })
    );
    assert_eq!(receiver.len(Some(2)), Ok(()));
    let mut receiver = receiver;
    receiver.visit_next(1);
    receiver.visit_next(2);
    assert_eq!(receiver.finish(), Ok(vec![1, 2]));
    assert_eq!(expect_len(Some(4)), Ok(4));
    assert_eq!(
        ReceiveError::LengthMissing.message(),
        "sequence length was not found when required"
    );
}

#[test]
fn ordered_sets_and_maps_collect_distinct_items() {
    let mut set = SetReceiver::new();
    assert_eq!(set.visit_next(3u16), Ok(()));
    assert_eq!(set.visit_next(1u16), Ok(()));
    assert_eq!(set.visit_next(3u16), Err(ReceiveError::DuplicateElement));
    assert_eq!(set.finish(), BTreeSet::from([1u16, 3]));

    let mut map = MapReceiver::new();
    assert_eq!(map.visit_next(2u8, 'b'), Ok(()));
    assert_eq!(map.visit_next(1u8, 'a'), Ok(()));
    assert_eq!(map.finish(), BTreeMap::from([(1u8, 'a'), (2u8, 'b')]));

    let mut hashed = HashMapReceiver::new();
    assert_eq!(hashed.visit_next(4u32, 40u32), Ok(()));
    assert_eq!(hashed.visit_next(3u32, 30u32), Ok(()));
    assert_eq!(hashed.finish(), HashMap::from([(3u32, 30u32), (4, 40)]));

    let mut hset = HashSetReceiver::new();
    assert_eq!(hset.visit_next(1u64), Ok(()));
    assert_eq!(hset.finish(), HashSet::from([1u64]));
}

#[test]
fn options_need_their_announced_payload() {
    let mut some = OptionReceiver::new();
    some.as_some(true);
    some.visit(5i32);
    assert_eq!(some.finish(), Ok(Some(5)));

    let mut missing = OptionReceiver::<i32>::new();
    missing.as_some(true);
    let err = missing.finish().unwrap_err();
    assert_eq!(
        err.message(),
        "option was signaled as Some but payload was not received"
    );

    let mut none = OptionReceiver::new();
    none.visit(1u8);
    none.as_some(false);
    assert_eq!(none.finish(), Ok(None));
}

#[test]
fn struct_fields_must_all_be_visited() {
    let mut slots = FieldSlots::new(3);
    assert_eq!(slots.visit(0), Ok(()));
    assert_eq!(slots.visit(2), Ok(()));
    assert_eq!(slots.check(), Err(ReceiveError::Incomplete));
    assert_eq!(slots.visit(3), Err(ReceiveError::IndexOutOfBounds));
    assert_eq!(slots.visit(1), Ok(()));
    assert_eq!(slots.check(), Ok(()));
    assert_eq!(
        ReceiveError::IndexOutOfBounds.message(),
        "visit index out of bounds while building data structure"
    );
    assert_eq!(FieldSlots::new(0).check(), Ok(()));
}
