//! Gated values, gating checks, and error messages.

use kaloron::gated::{validate_fields, GateError, GateSlot};
use kaloron::{ActivationState, Gated, RpcError, Version};

#[test]
fn gated_behaves_like_an_option() {
    let active: Gated<u32> = Gated::Active(5);
    let void: Gated<u32> = Gated::Void;
    assert!(active.is_active() && !active.is_void());
    assert!(void.is_void() && !void.is_active());
    assert_eq!(active.into_option(), Some(5));
    assert_eq!(void.into_option(), None);
    assert_eq!(active.as_ref(), Some(&5));
    assert_eq!(active.unwrap(), 5);
    assert_eq!(void.unwrap_or(9), 9);
    assert_eq!(void.unwrap_or_else(|| 3), 3);
    assert_eq!(active.map(|x| x * 2), Gated::Active(10));
    assert_eq!(void.map(|x| x * 2), Gated::Void);
    assert_eq!(active.and_then(|x| if x > 3 { Gated::Active(x) } else { Gated::Void }), active);
    assert_eq!(void.unwrap_or_default(), 0);
    assert_eq!(Gated::from(Some(1u8)), Gated::Active(1));
    assert_eq!(Option::<u8>::from(Gated::Active(1u8)), Some(1));
    assert_eq!(Gated::<u8>::default(), Gated::Void);
    let mut m = Gated::Active(1u8);
    if let Some(x) = m.as_mut() {
        *x = 4;
    }
    assert_eq!(m, Gated::Active(4));
}

#[test]
fn gated_values_are_checked_against_field_states() {
    let active: Gated<bool> = Gated::Active(true);
    let void: Gated<bool> = Gated::Void;
    assert_eq!(active.check(ActivationState::Active), Ok(()));
    assert_eq!(void.check(ActivationState::Active), Err(GateError::ExpectedActive));
    assert_eq!(active.check(ActivationState::Deprecated), Ok(()));
    assert_eq!(void.check(ActivationState::Deprecated), Ok(()));
    assert_eq!(active.check(ActivationState::Inactive), Err(GateError::ExpectedInactive));
    assert_eq!(void.check(ActivationState::Inactive), Ok(()));
}

#[test]
fn a_row_is_checked_field_by_field() {
    let (active, deprecated, inactive) =
        (ActivationState::Active, ActivationState::Deprecated, ActivationState::Inactive);
    // At 1.0 only the first field exists: a later field sent as active fails.
    assert_eq!(
        validate_fields(&[GateSlot::Plain, GateSlot::Active, GateSlot::Void], &[active, inactive, inactive]),
        Err(GateError::ExpectedInactive)
    );
    assert_eq!(
        validate_fields(&[GateSlot::Plain, GateSlot::Void, GateSlot::Void], &[active, inactive, inactive]),
        Ok(())
    );
    assert_eq!(
        validate_fields(&[GateSlot::Plain, GateSlot::Void, GateSlot::Active], &[active, active, active]),
        Err(GateError::ExpectedActive)
    );
    assert_eq!(
        validate_fields(&[GateSlot::Void, GateSlot::Active], &[deprecated, deprecated]),
        Ok(())
    );
    assert_eq!(Gated::Active(1u8).slot(), GateSlot::Active);
}

#[test]
fn error_messages() {
    assert_eq!(RpcError::UnknownService("Echo".into()).message(), "unknown service: Echo");
    assert_eq!(RpcError::UnknownMethod(255).message(), "unknown method: 0xff");
    assert_eq!(RpcError::UnknownMethod(0).message(), "unknown method: 0x0");
    assert_eq!(RpcError::UnsupportedProtocol {}.message(), "unsupported RPC protocol");
    assert_eq!(RpcError::DuplicateCallId(42).message(), "duplicate call id: 42");
    assert_eq!(RpcError::CallIdExhausted.message(), "no available call ids remain");
    assert_eq!(RpcError::DecodeError("x".into()).message(), "decode error: x");
    assert_eq!(RpcError::EncodeError("y".into()).message(), "encode error: y");
    assert_eq!(RpcError::TransportError("z".into()).message(), "transport error: z");
    let mut client_hash = [0u8; 32];
    client_hash[0] = 0xab;
    let server_hash = [1u8; 32];
    let text = RpcError::SchemaHashMismatch {
        service: "Echo".into(),
        version: "1.0.0".into(),
        client_hash,
        server_hash,
    }
    .message();
    let expected = format!(
        "schema hash mismatch for service 'Echo' at version 1.0.0: client=ab{}, server={}",
        "00".repeat(31),
        "01".repeat(32)
    );
    assert_eq!(text, expected);
}

#[test]
fn versions_compare_and_decompose() {
    let v = Version::new(1, 2, 3, 4);
    assert_eq!((v.major(), v.minor(), v.patch(), v.build()), (1, 2, 3, 4));
    assert!(v.is_at_least(Version::new(1, 2, 3, 4)));
    assert!(v.is_before(Version::new(1, 3, 0, 0)));
    assert_eq!(Version::new(1, 2, 3, 0xffff).successor(), Some(Version::new(1, 2, 4, 0)));
    assert_eq!(Version::from_packed(u64::MAX).successor(), None);
    assert_eq!(Version::zero().packed(), 0);
}

#[test]
fn server_faults_name_the_method() {
    assert_eq!(
        kaloron::error::decode_error_for("get_user"),
        RpcError::DecodeError(
            "request payload for method `get_user` did not match the expected schema".to_string()
        )
    );
    assert_eq!(kaloron::error::unknown_method_error(0x77), RpcError::UnknownMethod(0x77));
}
