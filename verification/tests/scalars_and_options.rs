use opendal_mbt::bridge::Bridge;
use opendal_mbt::codes::{feature_flags, ABI_VERSION, FEATURE_COPY_RENAME, FEATURE_EXPLICIT_EOF, FEATURE_STATEFUL_LISTER, FEATURE_STATEFUL_READER, FEATURE_STATEFUL_WRITER, MAX_CONFIG_BYTES, MAX_CONFIG_ENTRIES, MAX_TRANSFER_CHUNK, RANGE_FULL, RANGE_OFFSET_LENGTH, RANGE_SUFFIX, STATUS_OK};
use opendal_mbt::buffers::owned_writer_chunk;
use opendal_mbt::error::BridgeError;
use opendal_mbt::labels::ResourceKind;
use opendal_mbt::operators::{capability_word, push_operator_config};
use opendal_mbt::options::{read_options_from_scalars, read_stream_options_from_scalars, stat_options_from_scalars, write_options_from_scalars};
use opendal_mbt::resources::{Completion, OperatorBuilder, Resource};
use opendal_mbt::scalars::{byte_range, checked_buffer_window, optional_list_limit, scalar_bool, ByteRange};
use opendal_mbt::service::CapabilityRecord;

fn insert(bridge: &mut Bridge, resource: Resource) -> u32 {
    bridge.arena.insert(resource).unwrap()
}

fn transfer_window_check() {
    assert_eq!(
        checked_buffer_window(MAX_TRANSFER_CHUNK, 0, MAX_TRANSFER_CHUNK as u32).unwrap(),
        0..MAX_TRANSFER_CHUNK
    );
    assert!(matches!(checked_buffer_window(1, 0, 0), Err(BridgeError::InvalidArgument { .. })));
    assert!(matches!(
        checked_buffer_window(MAX_TRANSFER_CHUNK + 1, 0, (MAX_TRANSFER_CHUNK + 1) as u32),
        Err(BridgeError::InvalidArgument { .. })
    ));
    assert!(matches!(checked_buffer_window(8, 8, 1), Err(BridgeError::IndexOutOfBounds { .. })));
    assert!(matches!(checked_buffer_window(8, u32::MAX, 1), Err(BridgeError::IndexOutOfBounds { .. })));
}

#[test]
fn transfer_windows_are_non_empty_bounded_and_in_range() {
    transfer_window_check();
}

#[test]
fn lib_transfer_windows_are_non_empty_bounded_and_in_range() {
    transfer_window_check();
}

#[test]
fn transfer_window_errors_carry_their_message_and_index() {
    match checked_buffer_window(4, 0, 0) {
        Err(BridgeError::InvalidArgument { message }) => {
            assert_eq!(message, b"transfer length must be 1..=262144, found 0".to_vec())
        }
        _ => panic!("expected an invalid argument"),
    }
    assert!(matches!(checked_buffer_window(8, 5, 4), Err(BridgeError::IndexOutOfBounds { index: 5, length: 8 })));
    assert!(matches!(
        checked_buffer_window(8, u32::MAX, 1),
        Err(BridgeError::IndexOutOfBounds { index: u32::MAX, length: 8 })
    ));
}

#[test]
fn buffer_windows_check_the_buffer_length() {
    let mut bridge = Bridge::new();
    let buffer = bridge.buffer_new_sized(8);
    assert_eq!(bridge.buffer_window(buffer, 2, 6), Some(2..8));
    assert_eq!(bridge.buffer_window(buffer, 3, 6), None);
    assert_eq!(bridge.last_error_code(), 4);
}

#[test]
fn scalar_booleans_and_list_limits_are_canonical() {
    assert_eq!(scalar_bool(0, "flag").unwrap(), false);
    assert_eq!(scalar_bool(1, "flag").unwrap(), true);
    match scalar_bool(2, "flag") {
        Err(BridgeError::InvalidArgument { message }) => assert_eq!(message, b"flag must be 0 or 1, found 2".to_vec()),
        _ => panic!("expected an invalid argument"),
    }
    assert_eq!(optional_list_limit(0, 99).unwrap(), None);
    assert_eq!(optional_list_limit(1, 99).unwrap(), Some(99));
    assert!(matches!(optional_list_limit(1, u64::from(u32::MAX) + 1), Err(BridgeError::LengthOverflow)));
    assert!(matches!(optional_list_limit(3, 1), Err(BridgeError::InvalidArgument { .. })));
}

#[test]
fn byte_ranges_accept_only_canonical_encodings() {
    assert_eq!(byte_range(RANGE_FULL, 0, 0).unwrap(), ByteRange { offset: 0, length: None, suffix: false });
    assert_eq!(byte_range(1, 5, 0).unwrap(), ByteRange { offset: 5, length: None, suffix: false });
    assert_eq!(byte_range(RANGE_OFFSET_LENGTH, 2, 3).unwrap(), ByteRange { offset: 2, length: Some(3), suffix: false });
    assert_eq!(byte_range(RANGE_SUFFIX, 0, 4).unwrap(), ByteRange { offset: 0, length: Some(4), suffix: true });
    assert!(matches!(byte_range(RANGE_FULL, 1, 0), Err(BridgeError::InvalidArgument { .. })));
    assert!(matches!(byte_range(RANGE_OFFSET_LENGTH, u64::MAX, 1), Err(BridgeError::InvalidArgument { .. })));
    assert!(matches!(byte_range(RANGE_SUFFIX, 1, 4), Err(BridgeError::InvalidArgument { .. })));
    assert!(matches!(byte_range(9, 0, 0), Err(BridgeError::InvalidArgument { .. })));
}

#[test]
fn operation_options_preserve_empty_values_and_validate_scalars() {
    let mut bridge = Bridge::new();
    let empty = insert(&mut bridge, Resource::Buffer(Vec::new()));
    let value = insert(&mut bridge, Resource::Buffer(b"value".to_vec()));

    let read = read_options_from_scalars(&bridge, RANGE_OFFSET_LENGTH, 2, 3, empty, value, 0).ok().unwrap();
    assert_eq!(read.range, ByteRange { offset: 2, length: Some(3), suffix: false });
    assert_eq!(read.version.as_deref(), Some(&b""[..]));
    assert_eq!(read.if_match.as_deref(), Some(&b"value"[..]));
    assert_eq!(read.if_none_match, None);

    let stat = stat_options_from_scalars(&bridge, 0, empty, value).ok().unwrap();
    assert_eq!(stat.version, None);
    assert_eq!(stat.if_match.as_deref(), Some(&b""[..]));
    assert_eq!(stat.if_none_match.as_deref(), Some(&b"value"[..]));

    let write = write_options_from_scalars(&bridge, 1, empty, value, 0, empty, value, 0).ok().unwrap();
    assert!(write.append);
    assert_eq!(write.content_type.as_deref(), Some(&b""[..]));
    assert_eq!(write.content_disposition.as_deref(), Some(&b"value"[..]));
    assert_eq!(write.content_encoding, None);
    assert_eq!(write.cache_control.as_deref(), Some(&b""[..]));
    assert_eq!(write.if_match.as_deref(), Some(&b"value"[..]));
    assert_eq!(write.if_none_match, None);

    assert!(matches!(byte_range(RANGE_FULL, 1, 0), Err(BridgeError::InvalidArgument { .. })));
    assert!(matches!(byte_range(RANGE_OFFSET_LENGTH, u64::MAX, 1), Err(BridgeError::InvalidArgument { .. })));
    assert!(matches!(
        write_options_from_scalars(&bridge, 2, 0, 0, 0, 0, 0, 0),
        Err(BridgeError::InvalidArgument { .. })
    ));

    assert_eq!(bridge.buffer_release(empty), STATUS_OK);
    assert_eq!(bridge.buffer_release(value), STATUS_OK);
    assert_eq!(bridge.arena.live, 0);
}

#[test]
fn stream_chunk_limits_accept_the_boundary_and_reject_one_more() {
    let mut bridge = Bridge::new();
    assert!(read_stream_options_from_scalars(&bridge, MAX_TRANSFER_CHUNK as u32, RANGE_FULL, 0, 0, 0, 0, 0).is_ok());
    assert!(matches!(
        read_stream_options_from_scalars(&bridge, 0, RANGE_FULL, 0, 0, 0, 0, 0),
        Err(BridgeError::InvalidArgument { .. })
    ));
    assert!(matches!(
        read_stream_options_from_scalars(&bridge, MAX_TRANSFER_CHUNK as u32 + 1, RANGE_FULL, 0, 0, 0, 0, 0),
        Err(BridgeError::InvalidArgument { .. })
    ));

    let accepted = insert(&mut bridge, Resource::Buffer(vec![0; MAX_TRANSFER_CHUNK]));
    let rejected = insert(&mut bridge, Resource::Buffer(vec![0; MAX_TRANSFER_CHUNK + 1]));
    assert_eq!(owned_writer_chunk(&bridge, accepted).ok().unwrap().len(), MAX_TRANSFER_CHUNK);
    assert!(matches!(owned_writer_chunk(&bridge, rejected), Err(BridgeError::BufferTooLarge)));
    assert_eq!(bridge.buffer_release(accepted), STATUS_OK);
    assert_eq!(bridge.buffer_release(rejected), STATUS_OK);
    assert_eq!(bridge.arena.live, 0);
}

#[test]
fn streaming_feature_bits_and_completion_kinds_are_stable() {
    assert_eq!(ABI_VERSION, 0x0001_0007);
    let features = feature_flags();
    assert_ne!(features & FEATURE_COPY_RENAME, 0);
    assert_ne!(features & FEATURE_STATEFUL_READER, 0);
    assert_ne!(features & FEATURE_STATEFUL_WRITER, 0);
    assert_ne!(features & FEATURE_STATEFUL_LISTER, 0);
    assert_ne!(features & FEATURE_EXPLICIT_EOF, 0);
    assert_eq!(Completion::Rename(Ok(())).kind(), 8);
    assert_eq!(Completion::ReadStreamNext(Ok(None)).kind(), 10);
    assert_eq!(Completion::WriterWrite(Ok(())).kind(), 12);
    assert_eq!(Completion::WriterAbort(Ok(())).kind(), 14);
    assert_eq!(Completion::ListerNext(Ok(None)).kind(), 16);
}

fn builder_with(config: Vec<(Vec<u8>, Vec<u8>)>, config_bytes: usize) -> OperatorBuilder {
    OperatorBuilder { scheme: b"memory".to_vec(), config, config_bytes }
}

#[test]
fn generic_builder_rejects_duplicate_and_unbounded_config() {
    let mut bridge = Bridge::new();
    let scheme = insert(&mut bridge, Resource::Buffer(b"memory".to_vec()));
    let builder = bridge.operator_builder_new(scheme);
    assert_ne!(builder, 0);
    assert_eq!(bridge.buffer_release(scheme), STATUS_OK);

    let upper_key = insert(&mut bridge, Resource::Buffer(b"Root".to_vec()));
    let first_value = insert(&mut bridge, Resource::Buffer(b"first".to_vec()));
    assert_eq!(bridge.operator_builder_set(builder, upper_key, first_value), STATUS_OK);
    assert_eq!(bridge.buffer_release(upper_key), STATUS_OK);
    assert_eq!(bridge.buffer_release(first_value), STATUS_OK);

    let lower_key = insert(&mut bridge, Resource::Buffer(b"root".to_vec()));
    let second_value = insert(&mut bridge, Resource::Buffer(b"second".to_vec()));
    assert_eq!(bridge.operator_builder_set(builder, lower_key, second_value), 17);
    assert_eq!(bridge.last_error_code(), 17);
    assert_eq!(bridge.last_error_clear(), STATUS_OK);
    assert_eq!(bridge.buffer_release(lower_key), STATUS_OK);
    assert_eq!(bridge.buffer_release(second_value), STATUS_OK);
    match bridge.arena.typed(builder, ResourceKind::OperatorBuilder) {
        Ok(Resource::OperatorBuilder(b)) => {
            assert_eq!(b.config.len(), 1);
            assert_eq!(b.config_bytes, 9);
        }
        _ => panic!("builder is gone"),
    }
    assert_eq!(bridge.operator_builder_release(builder), STATUS_OK);

    let mut byte_limited = builder_with(Vec::new(), MAX_CONFIG_BYTES);
    assert!(matches!(
        push_operator_config(&mut byte_limited, b"x".to_vec(), Vec::new()),
        Err(BridgeError::InvalidArgument { .. })
    ));
    assert!(byte_limited.config.is_empty());
    assert_eq!(byte_limited.config_bytes, MAX_CONFIG_BYTES);

    let mut entry_limited = builder_with(vec![(b"existing".to_vec(), Vec::new()); MAX_CONFIG_ENTRIES], 0);
    assert!(matches!(
        push_operator_config(&mut entry_limited, b"new".to_vec(), Vec::new()),
        Err(BridgeError::InvalidArgument { .. })
    ));
    assert_eq!(entry_limited.config.len(), MAX_CONFIG_ENTRIES);
}

#[test]
fn empty_schemes_are_rejected() {
    let mut bridge = Bridge::new();
    let scheme = insert(&mut bridge, Resource::Buffer(Vec::new()));
    assert_eq!(bridge.operator_builder_new(scheme), 0);
    assert_eq!(bridge.last_error_code(), 17);
    let invalid = insert(&mut bridge, Resource::Buffer(vec![0xff]));
    assert_eq!(bridge.operator_builder_new(invalid), 0);
    assert_eq!(bridge.last_error_code(), 6);
}

fn generic_builder_check() {
    let mut bridge = Bridge::new();
    let schemes = bridge.registered_schemes();
    assert_ne!(schemes, 0);
    let listed = match bridge.arena.typed(schemes, ResourceKind::Buffer) {
        Ok(Resource::Buffer(b)) => String::from_utf8(b.clone()).unwrap(),
        _ => panic!("not a buffer"),
    };
    let names: Vec<&str> = listed.split('\n').collect();
    assert!(names.contains(&"memory"));
    let mut sorted = names.clone();
    sorted.sort_unstable();
    assert_eq!(names, sorted);
    assert_eq!(bridge.buffer_release(schemes), STATUS_OK);

    let scheme = insert(&mut bridge, Resource::Buffer(b"memory".to_vec()));
    let builder = bridge.operator_builder_new(scheme);
    assert_ne!(builder, 0);
    let key = insert(&mut bridge, Resource::Buffer(b"root".to_vec()));
    let value = insert(&mut bridge, Resource::Buffer(b"generic-prefix".to_vec()));
    assert_eq!(bridge.operator_builder_set(builder, key, value), STATUS_OK);
    let operator = bridge.operator_builder_build(builder);
    assert_ne!(operator, 0);
    let root = bridge.operator_info_buffer(operator, opendal_mbt::operators::InfoField::Root);
    match bridge.arena.typed(root, ResourceKind::Buffer) {
        Ok(Resource::Buffer(b)) => assert_eq!(b.as_slice(), b"/generic-prefix/"),
        _ => panic!("not a buffer"),
    }
    let scheme_name = bridge.operator_info_buffer(operator, opendal_mbt::operators::InfoField::Scheme);
    match bridge.arena.typed(scheme_name, ResourceKind::Buffer) {
        Ok(Resource::Buffer(b)) => assert_eq!(b.as_slice(), b"memory"),
        _ => panic!("not a buffer"),
    }
    for handle in [root, scheme_name, scheme, key, value] {
        assert_eq!(bridge.buffer_release(handle), STATUS_OK);
    }
    assert_eq!(bridge.operator_release(operator), STATUS_OK);
    assert_eq!(bridge.operator_builder_release(builder), STATUS_OK);
    assert_eq!(bridge.arena.live, 0);
}

#[test]
fn generic_builder_constructs_registered_memory_service() {
    generic_builder_check();
}

#[test]
fn lib_generic_builder_constructs_registered_memory_service() {
    generic_builder_check();
}

#[test]
fn generic_builder_redacts_unregistered_scheme_diagnostics_without_leaking() {
    let mut bridge = Bridge::new();
    let scheme = insert(&mut bridge, Resource::Buffer(b"not-compiled-in".to_vec()));
    let builder = bridge.operator_builder_new(scheme);
    assert_ne!(builder, 0);
    assert_eq!(bridge.operator_builder_build(builder), 0);
    let error = bridge.last_error_take();
    assert_ne!(error, 0);
    let snapshot = bridge.error_snapshot_take(error);
    let bytes = match bridge.arena.typed(snapshot, ResourceKind::Buffer) {
        Ok(Resource::Buffer(b)) => b.clone(),
        _ => panic!("not a buffer"),
    };
    let decoded = opendal_mbt::snapshot::decode_error_snapshot(&bytes).unwrap();
    assert_eq!(decoded.message, "operator construction failed");
    assert!(!decoded.message.contains("not-compiled-in"));
}

#[test]
fn memory_operator_capabilities_are_reported_by_word() {
    let mut bridge = Bridge::new();
    let operator = bridge.operator_new_memory();
    assert_ne!(operator, 0);
    let word0 = bridge.operator_capability_word(operator, 0);
    assert_ne!(word0 & 1, 0);
    assert_ne!(word0 & 2, 0);
    assert_eq!(bridge.operator_capability_word(operator, 2), 0);
    assert_eq!(bridge.operator_capability_word(operator, 4), 0);
    assert_eq!(bridge.last_error_code(), 4);
    assert_eq!(bridge.operator_release(operator), STATUS_OK);
}

#[test]
fn capability_words_pack_each_capability() {
    let record = CapabilityRecord {
        stat: true,
        read: false,
        write: true,
        create_dir: false,
        delete: false,
        list: true,
        copy: false,
        rename: false,
        write_can_append: false,
        list_with_limit: false,
        list_with_start_after: false,
        list_with_recursive: false,
        presign_stat: false,
        presign_read: false,
        presign_write: true,
        delete_max_size: Some(1000),
    };
    assert_eq!(capability_word(record, true, 0).unwrap(), 1 | 4 | 32 | 256 | 32768);
    assert_eq!(capability_word(record, false, 1).unwrap(), 1000);
    assert_eq!(capability_word(record, false, 3).unwrap(), 0);
    assert!(matches!(capability_word(record, false, 4), Err(BridgeError::IndexOutOfBounds { index: 4, length: 4 })));
}
