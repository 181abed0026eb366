use opendal::ErrorKind;
use opendal_mbt::bridge::Bridge;
use opendal_mbt::codes::{
    ERROR_ABI_MISMATCH, ERROR_BUFFER_TOO_LARGE, ERROR_INVALID_ARGUMENT, ERROR_NOT_FOUND, ERROR_RESOURCE_CLOSED, ERROR_SNAPSHOT_HEADER_LENGTH, ERROR_STATUS_PERMANENT, MAX_GENERATION, MAX_SLOTS,
};
use opendal_mbt::arena::Slot;
use opendal_mbt::error::BridgeError;
use opendal_mbt::handle::encode_handle;
use opendal_mbt::labels::{ResourceKind, TypeLabel};
use opendal_mbt::resources::Resource;
use opendal_mbt::snapshot::{decode_error_snapshot, error_snapshot_bytes, DecodedErrorSnapshot};

fn invalid_argument(message: &str) -> BridgeError {
    BridgeError::InvalidArgument { message: message.as_bytes().to_vec() }
}

fn take_buffer(bridge: &mut Bridge, handle: u32) -> Vec<u8> {
    let bytes = match bridge.arena.typed(handle, ResourceKind::Buffer) {
        Ok(Resource::Buffer(b)) => b.clone(),
        _ => panic!("not a buffer"),
    };
    assert_eq!(bridge.buffer_release(handle), 0);
    bytes
}

#[test]
fn binding_errors_use_the_native_binding_codes() {
    for (error, expected_code, expected_name) in [
        (invalid_argument("invalid"), ERROR_INVALID_ARGUMENT, "InvalidArgument"),
        (BridgeError::InvalidHandle { handle: 1 }, ERROR_RESOURCE_CLOSED, "ResourceClosed"),
        (BridgeError::BufferTooLarge, ERROR_BUFFER_TOO_LARGE, "BufferTooLarge"),
        (
            BridgeError::WrongResourceType {
                handle: 1,
                expected: TypeLabel::Resource(ResourceKind::Buffer),
                actual: TypeLabel::Resource(ResourceKind::Operator),
            },
            ERROR_ABI_MISMATCH,
            "AbiMismatch",
        ),
    ] {
        let snapshot = error_snapshot_bytes(&error).ok().unwrap();
        let decoded = decode_error_snapshot(&snapshot).unwrap();
        assert_eq!((decoded.kind, decoded.kind_name), (expected_code, expected_name));
    }
}

#[test]
fn error_snapshot_decoder_rejects_malformed_or_truncated_data() {
    let valid = error_snapshot_bytes(&invalid_argument("message")).ok().unwrap();
    let mut malformed = valid.clone();
    malformed[0] = b'X';

    assert!(decode_error_snapshot(&malformed).is_err());
    assert!(decode_error_snapshot(&valid[..valid.len() - 1]).is_err());
}

#[test]
fn error_snapshot_decoder_rejects_invalid_utf8() {
    let mut snapshot = error_snapshot_bytes(&invalid_argument("message")).ok().unwrap();
    snapshot[ERROR_SNAPSHOT_HEADER_LENGTH] = 0xff;

    assert_eq!(decode_error_snapshot(&snapshot), Err("kind name is not UTF-8"));
}

#[test]
fn error_snapshot_take_preserves_error_when_replacement_has_no_capacity() {
    let mut bridge = Bridge::new();
    let error = encode_handle(0, MAX_GENERATION);
    bridge.arena.slots = (0..MAX_SLOTS)
        .map(|index| Slot {
            generation: if index == 0 { MAX_GENERATION } else { 0 },
            resource: if index == 0 { Some(Resource::Error(invalid_argument("preserve me"))) } else { None },
        })
        .collect();
    bridge.arena.live = 1;

    assert_eq!(bridge.error_snapshot_take(error), 0);
    assert!(bridge.arena.typed(error, ResourceKind::Error).is_ok());
}

#[test]
fn error_snapshot_take_consumes_error_and_publishes_one_buffer() {
    let mut bridge = Bridge::new();
    let error = bridge
        .arena
        .insert(Resource::Error(BridgeError::from_service_error(&opendal::Error::new(
            opendal::ErrorKind::NotFound,
            "missing object",
        ))))
        .ok()
        .unwrap();

    let snapshot = bridge.error_snapshot_take(error);

    assert_ne!(snapshot, 0);
    assert!(bridge.arena.typed(error, ResourceKind::Error).is_err());
    let bytes = take_buffer(&mut bridge, snapshot);
    assert_eq!(
        decode_error_snapshot(&bytes).unwrap(),
        DecodedErrorSnapshot {
            kind: ERROR_NOT_FOUND,
            status: ERROR_STATUS_PERMANENT,
            kind_name: "NotFound",
            message: "missing object",
        }
    );
    assert_eq!(bridge.arena.live, 0);
}

#[test]
fn opendal_error_kinds_use_the_native_binding_codes() {
    for (kind, expected_code, expected_name) in [
        (ErrorKind::Unexpected, 1, "Unexpected"),
        (ErrorKind::Unsupported, 2, "Unsupported"),
        (ErrorKind::ConfigInvalid, 3, "ConfigInvalid"),
        (ErrorKind::NotFound, 4, "NotFound"),
        (ErrorKind::PermissionDenied, 5, "PermissionDenied"),
        (ErrorKind::IsADirectory, 6, "IsADirectory"),
        (ErrorKind::NotADirectory, 7, "NotADirectory"),
        (ErrorKind::AlreadyExists, 8, "AlreadyExists"),
        (ErrorKind::RateLimited, 9, "RateLimited"),
        (ErrorKind::IsSameFile, 10, "IsSameFile"),
        (ErrorKind::ConditionNotMatch, 11, "ConditionNotMatch"),
        (ErrorKind::RangeNotSatisfied, 12, "RangeNotSatisfied"),
    ] {
        let error = BridgeError::from_service_error(&opendal::Error::new(kind, "stable message"));
        let snapshot = error_snapshot_bytes(&error).ok().unwrap();
        assert_eq!(
            decode_error_snapshot(&snapshot).unwrap(),
            DecodedErrorSnapshot {
                kind: expected_code,
                status: ERROR_STATUS_PERMANENT,
                kind_name: expected_name,
                message: "stable message",
            }
        );
    }
}

#[test]
fn opendal_error_status_preserves_temporary_and_persistent() {
    for (error, expected_status) in [
        (opendal::Error::new(ErrorKind::Unexpected, "temporary").set_temporary(), 2),
        (opendal::Error::new(ErrorKind::Unexpected, "persistent").set_persistent(), 3),
    ] {
        let snapshot = error_snapshot_bytes(&BridgeError::from_service_error(&error)).ok().unwrap();
        assert_eq!(decode_error_snapshot(&snapshot).unwrap().status, expected_status);
    }
}

#[test]
fn construction_error_snapshot_redacts_backend_diagnostics() {
    let error = BridgeError::from_construction_error(&opendal::Error::new(
        opendal::ErrorKind::ConfigInvalid,
        "secret_access_key=do-not-leak",
    ));
    let snapshot = error_snapshot_bytes(&error).ok().unwrap();

    assert_eq!(decode_error_snapshot(&snapshot).unwrap().message, "operator construction failed");
}

#[test]
fn conflict_errors_keep_their_name_under_the_unexpected_code() {
    let error = BridgeError::from_service_error(&opendal::Error::new(opendal::ErrorKind::Conflict, "busy"));
    assert_eq!(error.kind(), 1);
    assert_eq!(error.kind_name(), b"Conflict");
    assert_eq!(error.code(), 8);
}

#[test]
fn error_texts_render_their_fields() {
    assert_eq!(BridgeError::InvalidHandle { handle: 65537 }.text(), b"invalid or stale handle 65537".to_vec());
    assert_eq!(
        BridgeError::WrongResourceType {
            handle: 3,
            expected: TypeLabel::Resource(ResourceKind::Buffer),
            actual: TypeLabel::Completion(2),
        }
        .text(),
        b"handle 3 contains read completion, expected buffer".to_vec()
    );
    assert_eq!(
        BridgeError::IndexOutOfBounds { index: 8, length: 8 }.text(),
        b"buffer index 8 is out of bounds for length 8".to_vec()
    );
    assert_eq!(invalid_argument("x").diagnostic_message(), b"invalid scalar argument: x".to_vec());
}
