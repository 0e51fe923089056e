//! Checking gated fields against their lifecycles before a value is sent.

use kaloron::gated::{validate_fields, GateError, GateSlot};
use kaloron::receive::FieldSlots;
use kaloron::{DeprecationSpan, Gated, Version, VersionRange};

/// A struct introduced at 1.0.0 with an ungated field `base`, a field `later`
/// introduced at 2.0.0, and a field `temp` live from 1.5.0 until 3.0.0.
#[derive(Debug, PartialEq)]
struct GatedStruct {
    base: u32,
    later: Gated<u32>,
    temp: Gated<u32>,
}

fn gated_struct_ranges() -> Vec<VersionRange> {
    vec![
        VersionRange::introduced(Version::new(1, 0, 0, 0)),
        VersionRange::introduced(Version::new(2, 0, 0, 0)),
        VersionRange::introduced_removed(Version::new(1, 5, 0, 0), Version::new(3, 0, 0, 0)),
    ]
}

/// A struct with a gated field introduced at 2.0.0 and deprecated from 3.0.0.
struct DeprecatedGatedStruct {
    keep: u32,
    feature: Gated<u32>,
}

fn deprecated_gated_ranges() -> Vec<VersionRange> {
    let mut feature = VersionRange::introduced(Version::new(2, 0, 0, 0));
    feature.deprecations.push(DeprecationSpan::new(Version::new(3, 0, 0, 0)));
    vec![VersionRange::introduced(Version::new(1, 0, 0, 0)), feature]
}

fn validate(slots: &[GateSlot], ranges: &[VersionRange], version: Version) -> Result<(), String> {
    let states: Vec<_> = ranges.iter().map(|r| r.state_at(version)).collect();
    validate_fields(slots, &states).map_err(|e| e.message())
}

fn send_gated(value: &GatedStruct, version: Version) -> Result<(), String> {
    let _ = value.base;
    let slots = [GateSlot::Plain, value.later.slot(), value.temp.slot()];
    validate(&slots, &gated_struct_ranges(), version)
}

fn send_deprecated(value: &DeprecatedGatedStruct, version: Version) -> Result<(), String> {
    let _ = value.keep;
    let slots = [GateSlot::Plain, value.feature.slot()];
    validate(&slots, &deprecated_gated_ranges(), version)
}

#[test]
fn test_send_gated_struct_at_v1_with_void_fields_succeeds() {
    let value = GatedStruct { base: 42, later: Gated::Void, temp: Gated::Void };
    let result = send_gated(&value, Version::new(1, 0, 0, 0));
    assert!(result.is_ok(), "expected Ok, got: {:?}", result);
}

#[test]
fn test_send_gated_struct_at_v1_with_active_later_fails() {
    let value = GatedStruct { base: 42, later: Gated::Active(99), temp: Gated::Void };
    let result = send_gated(&value, Version::new(1, 0, 0, 0));
    assert!(result.is_err());
    let msg = result.unwrap_err();
    assert!(msg.contains("expected inactive"), "unexpected error: {msg}");
}

#[test]
fn test_send_gated_struct_at_v1_with_active_temp_fails() {
    let value = GatedStruct { base: 42, later: Gated::Void, temp: Gated::Active(7) };
    let result = send_gated(&value, Version::new(1, 0, 0, 0));
    assert!(result.is_err());
    let msg = result.unwrap_err();
    assert!(msg.contains("expected inactive"), "unexpected error: {msg}");
}

#[test]
fn test_send_gated_struct_at_v2_all_active_succeeds() {
    let value = GatedStruct { base: 42, later: Gated::Active(99), temp: Gated::Active(7) };
    let result = send_gated(&value, Version::new(2, 0, 0, 0));
    assert!(result.is_ok(), "expected Ok, got: {:?}", result);
}

#[test]
fn test_send_gated_struct_at_v2_void_later_fails() {
    let value = GatedStruct { base: 42, later: Gated::Void, temp: Gated::Active(7) };
    let result = send_gated(&value, Version::new(2, 0, 0, 0));
    assert!(result.is_err());
    let msg = result.unwrap_err();
    assert!(msg.contains("expected active"), "unexpected error: {msg}");
}

#[test]
fn test_send_gated_struct_at_v3_temp_removed_void_succeeds() {
    let value = GatedStruct { base: 42, later: Gated::Active(99), temp: Gated::Void };
    let result = send_gated(&value, Version::new(3, 0, 0, 0));
    assert!(result.is_ok(), "expected Ok, got: {:?}", result);
}

#[test]
fn test_send_gated_struct_at_v3_temp_removed_active_fails() {
    let value = GatedStruct { base: 42, later: Gated::Active(99), temp: Gated::Active(7) };
    let result = send_gated(&value, Version::new(3, 0, 0, 0));
    assert!(result.is_err());
    let msg = result.unwrap_err();
    assert!(msg.contains("expected inactive"), "unexpected error: {msg}");
}

#[test]
fn test_send_deprecated_gated_field_active_at_deprecated_version_succeeds() {
    let value = DeprecatedGatedStruct { keep: 1, feature: Gated::Active(42) };
    let result = send_deprecated(&value, Version::new(3, 0, 0, 0));
    assert!(result.is_ok(), "expected Ok, got: {:?}", result);
}

#[test]
fn test_send_deprecated_gated_field_void_at_deprecated_version_succeeds() {
    let value = DeprecatedGatedStruct { keep: 1, feature: Gated::Void };
    let result = send_deprecated(&value, Version::new(3, 0, 0, 0));
    assert!(result.is_ok(), "expected Ok, got: {:?}", result);
}

#[test]
fn test_send_deprecated_gated_field_void_before_introduction_succeeds() {
    let value = DeprecatedGatedStruct { keep: 1, feature: Gated::Void };
    let result = send_deprecated(&value, Version::new(1, 0, 0, 0));
    assert!(result.is_ok(), "expected Ok, got: {:?}", result);
}

#[test]
fn test_send_deprecated_gated_field_active_before_introduction_fails() {
    let value = DeprecatedGatedStruct { keep: 1, feature: Gated::Active(99) };
    let result = send_deprecated(&value, Version::new(1, 0, 0, 0));
    assert!(result.is_err());
    let msg = result.unwrap_err();
    assert!(msg.contains("expected inactive"), "unexpected error: {msg}");
}

#[test]
fn gate_errors_describe_themselves() {
    assert_eq!(GateError::ExpectedActive.message(), "expected active, got inactive");
    assert_eq!(GateError::ExpectedInactive.message(), "expected inactive, got active");
}

/// What a peer hands over for a `GatedStruct`: every field, with `Void` for
/// each gated field that is not active at the peer's version.
struct GatedStructPeer {
    version: Version,
    base: u32,
    later: u32,
    temp: u32,
}

impl GatedStructPeer {
    fn fields(&self) -> (u32, Gated<u32>, Gated<u32>) {
        let later = if self.version >= Version::new(2, 0, 0, 0) {
            Gated::Active(self.later)
        } else {
            Gated::Void
        };
        let temp = if self.version >= Version::new(1, 5, 0, 0) && self.version < Version::new(3, 0, 0, 0)
        {
            Gated::Active(self.temp)
        } else {
            Gated::Void
        };
        (self.base, later, temp)
    }
}

/// Receive a `GatedStruct` at `version`: every field must be visited, then
/// each gated field is checked against its state at the version.
fn recv_gated(version: Version, peer: &GatedStructPeer) -> Result<GatedStruct, String> {
    let (base, later, temp) = peer.fields();
    let mut filled = FieldSlots::new(3);
    for index in 0..3 {
        filled.visit(index).map_err(|e| e.message())?;
    }
    filled.check().map_err(|e| e.message())?;
    let slots = [GateSlot::Plain, later.slot(), temp.slot()];
    validate(&slots, &gated_struct_ranges(), version)?;
    Ok(GatedStruct { base, later, temp })
}

#[test]
fn test_recv_gated_struct_at_v1_sets_inactive_to_void() {
    let peer = GatedStructPeer { version: Version::new(1, 0, 0, 0), base: 42, later: 0, temp: 0 };
    let result = recv_gated(Version::new(1, 0, 0, 0), &peer);
    assert!(result.is_ok(), "expected Ok, got: {:?}", result);
    let value = result.unwrap();
    assert_eq!(value.base, 42);
    assert_eq!(value.later, Gated::Void);
    assert_eq!(value.temp, Gated::Void);
}

#[test]
fn test_recv_gated_struct_at_v1_5_sets_later_void_temp_active() {
    let peer = GatedStructPeer { version: Version::new(1, 5, 0, 0), base: 10, later: 0, temp: 77 };
    let result = recv_gated(Version::new(1, 5, 0, 0), &peer);
    assert!(result.is_ok(), "expected Ok, got: {:?}", result);
    let value = result.unwrap();
    assert_eq!(value.base, 10);
    assert_eq!(value.later, Gated::Void);
    assert_eq!(value.temp, Gated::Active(77));
}

#[test]
fn test_recv_gated_struct_at_v2_all_active() {
    let peer = GatedStructPeer { version: Version::new(2, 0, 0, 0), base: 10, later: 20, temp: 30 };
    let result = recv_gated(Version::new(2, 0, 0, 0), &peer);
    assert!(result.is_ok(), "expected Ok, got: {:?}", result);
    let value = result.unwrap();
    assert_eq!(value.base, 10);
    assert_eq!(value.later, Gated::Active(20));
    assert_eq!(value.temp, Gated::Active(30));
}

#[test]
fn test_recv_gated_struct_at_v3_temp_removed() {
    let peer = GatedStructPeer { version: Version::new(3, 0, 0, 0), base: 10, later: 20, temp: 0 };
    let result = recv_gated(Version::new(3, 0, 0, 0), &peer);
    assert!(result.is_ok(), "expected Ok, got: {:?}", result);
    let value = result.unwrap();
    assert_eq!(value.base, 10);
    assert_eq!(value.later, Gated::Active(20));
    assert_eq!(value.temp, Gated::Void);
}

#[test]
fn recv_refuses_a_gated_value_that_disagrees_with_the_version() {
    // The peer speaks 2.0.0 but the value is read as 1.0.0: `later` is
    // active where it does not exist yet.
    let peer = GatedStructPeer { version: Version::new(2, 0, 0, 0), base: 1, later: 2, temp: 3 };
    let result = recv_gated(Version::new(1, 0, 0, 0), &peer);
    assert_eq!(result, Err("expected inactive, got active".to_string()));
}
