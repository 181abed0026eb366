use opendal_mbt::codes::{
    CAP_LIST, CAP_READ, CAP_READ_SUFFIX, CAP_STAT, ERROR_BUFFER_TOO_LARGE, ERROR_INVALID_ARGUMENT, ERROR_IS_A_DIRECTORY, ERROR_RESOURCE_CLOSED, ERROR_STATUS_PERMANENT, ERROR_UNEXPECTED, RANGE_FROM, RANGE_FULL, RANGE_OFFSET_LENGTH, RANGE_SUFFIX,
};
use opendal_mbt::metadata::{MetadataRecord, Timestamp};
use opendal_mbt::native::abi::{
    LIST_LIMIT_PRESENT, LIST_RECURSIVE, LIST_START_AFTER_PRESENT, READER_IF_MATCH_PRESENT, READ_STREAM_VERSION_PRESENT, DELETE_RECURSIVE, DELETE_VERSION_PRESENT, OPERATOR_LAYER_RETRY, OPERATOR_LAYER_TIMEOUT, READ_IF_MATCH_PRESENT, READ_VERSION_PRESENT, STATUS_ABI_MISMATCH, STATUS_BUFFER_TOO_SMALL, STATUS_END, STATUS_ERROR, STATUS_OK, STATUS_PANIC, STAT_IF_NONE_MATCH_PRESENT, WHOLE_READ_CHUNK_BYTES, WRITE_APPEND, WRITE_CACHE_CONTROL_PRESENT, WRITE_CONTENT_TYPE_PRESENT,
};
use opendal_mbt::native::bootstrap::{bootstrap_caller_size, check_fields_laid_out, install_plan, install_table, negotiate_api};
use opendal_mbt::native::diagnostics::{
    install_lister_next_test_mode, install_reader_read_test_mode, install_whole_read_observer, install_writer_call_test_mode, observe_whole_read_chunk, take_lister_next_test_mode, take_reader_read_test_mode, take_whole_read_observation, take_writer_call_test_mode, TestModes, WholeReadObservations,
};
use opendal_mbt::native::failure::{
    binding_error, combine_output_validation, construction_error, error_record_from_parts, failure_status, opendal_error, CallFailure,
};
use opendal_mbt::native::layers::{apply_retry_layer, apply_timeout_layer, presign_expiry, positive_millis, retry_count, retry_layer_plan, timeout_layer_plan};
use opendal_mbt::native::outputs::{
    buffer_copy_plan, capability_view, operator_info_from_parts, operator_info_record, checked_entry, checked_metadata, checked_operator_info, checked_presigned_request, metadata_output_view,
};
use opendal_mbt::native::parse::{
    config_length, parse_delete_options, parse_list_options, parse_range, parse_read_options, parse_read_stream_options, parse_reader_options, parse_stat_options, parse_write_options, read_config_items, ByteRangeInput, ConfigItem, DeleteOptionsInput, ListOptionsInput, ReadOptionsInput, ReadStreamOptionsInput, ReaderOptionsInput, StatOptionsInput, WriteOptionsInput,
};
use opendal_mbt::native::states::{
    close_lister_state, close_read_stream_state, close_reader_state, fail_writer_state, lister_next_begin, lister_next_finish, lister_poisoned, read_stream_begin, read_stream_finish, read_stream_lock_failure, reader_state_check, take_writer_for_call, writer_call_finish, writer_poison_failure, ListerBegin, ListerState, ReadStreamState, ReaderState, StepResult, StreamBegin, WriterCall, WriterState, WriterTake,
};
use opendal_mbt::native::views::{
    absent_bytes_is_canonical, borrowed_length, bytes_view, check_error_output, check_required_pointer, check_struct_header, checked_len, checked_region, optional_string_view, optional_text, present_text_length, read_text_value, reject_present_field, require_absent_view, BytesView, StructHeader, TextArg,
};
use opendal_mbt::native::whole_read::{
    append_whole_read_chunk, checked_read_buffer, needs_stat, reader_read_plan, resolve_whole_read_range, whole_read_plan, WholeReadRange,
};
use opendal_mbt::options::ReadOptions;
use opendal_mbt::scalars::ByteRange;
use opendal_mbt::service::{CapabilityRecord, ServiceErrorKind};

fn record(failure: CallFailure) -> (u32, u32, String, String) {
    match failure {
        CallFailure::AbiMismatch => panic!("expected an error record, found an ABI mismatch"),
        CallFailure::Error(r) => (r.kind, r.status, String::from_utf8(r.kind_name).unwrap(), String::from_utf8(r.message).unwrap()),
    }
}

fn message(failure: CallFailure) -> String {
    record(failure).3
}

fn is_mismatch<T>(result: Result<T, CallFailure>) -> bool {
    matches!(result, Err(CallFailure::AbiMismatch))
}

fn view(address: usize, len: u64) -> BytesView {
    BytesView { address, len }
}

fn absent() -> TextArg {
    TextArg { view: view(0, 0), bytes: Vec::new() }
}

fn text(bytes: &[u8]) -> TextArg {
    TextArg { view: view(0x1000, bytes.len() as u64), bytes: bytes.to_vec() }
}

fn range(kind: u32, offset: u64, length: u64) -> ByteRangeInput {
    ByteRangeInput { struct_size: 32, struct_version: 1, kind, reserved0: 0, offset, length }
}

fn read_options(range: ByteRange) -> ReadOptions {
    ReadOptions { range, version: None, if_match: None, if_none_match: None, content_length_hint: None }
}

fn empty_metadata() -> MetadataRecord {
    MetadataRecord {
        mode: 1,
        is_current: None,
        is_deleted: false,
        content_length: 0,
        last_modified: None,
        cache_control: None,
        content_disposition: None,
        content_encoding: None,
        content_md5: None,
        content_type: None,
        etag: None,
        version: None,
    }
}

fn capability() -> CapabilityRecord {
    CapabilityRecord {
        stat: true,
        read: true,
        write: false,
        create_dir: false,
        delete: false,
        list: true,
        copy: false,
        rename: false,
        write_can_append: false,
        list_with_limit: false,
        list_with_start_after: false,
        list_with_recursive: false,
        presign_stat: false,
        presign_read: false,
        presign_write: false,
        delete_max_size: None,
    }
}

#[test]
fn whole_read_plan_preserves_conditions_and_forces_serial_backpressure() {
    let options = ReadOptions {
        range: ByteRange { offset: 0, length: Some(3), suffix: true },
        version: Some(b"version-1".to_vec()),
        if_match: Some(b"etag-1".to_vec()),
        if_none_match: Some(b"etag-2".to_vec()),
        content_length_hint: Some(10),
    };
    let plan = match whole_read_plan(options, 3) {
        Ok(plan) => plan,
        Err(_) => panic!("valid bounded whole-read plan was rejected"),
    };

    assert_eq!(plan.range, WholeReadRange::Suffix { size: 3 });
    assert_eq!(plan.output_limit, 3);
    assert_eq!(plan.version.as_deref(), Some(&b"version-1"[..]));
    assert_eq!(plan.if_match.as_deref(), Some(&b"etag-1"[..]));
    assert_eq!(plan.if_none_match.as_deref(), Some(&b"etag-2"[..]));
    assert_eq!(plan.content_length_hint, Some(10));
    assert_eq!(plan.reader_concurrent, 1);
    assert_eq!(plan.reader_chunk, WHOLE_READ_CHUNK_BYTES);
    assert_eq!(plan.reader_prefetch, 0);
}

#[test]
fn native_whole_read_probes_one_byte_past_the_limit() {
    let plan = whole_read_plan(read_options(ByteRange { offset: 0, length: None, suffix: false }), 7).ok().unwrap();
    assert_eq!(plan.range, WholeReadRange::OpenEnded { offset: 0, probe_size: 8 });
    assert!(needs_stat(plan.range));
    // A large object resolves to the probe, which passes the limit by one byte.
    let resolved = resolve_whole_read_range(plan.range, Some((false, 2 * 1048576 + 17))).ok().unwrap();
    assert_eq!(resolved, ByteRange { offset: 0, length: Some(8), suffix: false });
    let mut output = Vec::new();
    assert_eq!(message(append_whole_read_chunk(&mut output, &[0xA5; 8], plan.output_limit).unwrap_err()), "read result exceeds the negotiated output limit");
    assert!(output.is_empty());

    // The limit is capped at the binding's output limit, and the probe never
    // passes the end of the address space.
    let capped = whole_read_plan(read_options(ByteRange { offset: u64::MAX - 3, length: None, suffix: false }), u64::MAX).ok().unwrap();
    assert_eq!(capped.output_limit, 2147483647);
    assert_eq!(capped.range, WholeReadRange::OpenEnded { offset: u64::MAX - 3, probe_size: 3 });
}

#[test]
fn native_whole_read_handles_empty_zero_and_exact_limits() {
    let plan = whole_read_plan(read_options(ByteRange { offset: 0, length: None, suffix: false }), 0).ok().unwrap();
    assert_eq!(plan.range, WholeReadRange::OpenEnded { offset: 0, probe_size: 1 });
    assert_eq!(resolve_whole_read_range(plan.range, Some((false, 0))).ok().unwrap(), ByteRange { offset: 0, length: Some(0), suffix: false });

    let plan = whole_read_plan(read_options(ByteRange { offset: 0, length: None, suffix: false }), 8).ok().unwrap();
    let resolved = resolve_whole_read_range(plan.range, Some((false, 8))).ok().unwrap();
    assert_eq!(resolved, ByteRange { offset: 0, length: Some(8), suffix: false });
    let mut output = Vec::new();
    assert!(append_whole_read_chunk(&mut output, b"1234", plan.output_limit).is_ok());
    assert!(append_whole_read_chunk(&mut output, b"5678", plan.output_limit).is_ok());
    assert_eq!(output, b"12345678".to_vec());
    assert!(append_whole_read_chunk(&mut output, b"9", plan.output_limit).is_err());
    assert_eq!(output, b"12345678".to_vec());
}

#[test]
fn native_whole_read_preserves_ranges_and_preflights_known_lengths() {
    let from = whole_read_plan(read_options(ByteRange { offset: 3, length: None, suffix: false }), 7).ok().unwrap();
    assert_eq!(resolve_whole_read_range(from.range, Some((false, 10))).ok().unwrap(), ByteRange { offset: 3, length: Some(7), suffix: false });

    let bounded = whole_read_plan(read_options(ByteRange { offset: 2, length: Some(4), suffix: false }), 4).ok().unwrap();
    assert_eq!(bounded.range, WholeReadRange::Bounded { offset: 2, size: 4 });
    assert!(!needs_stat(bounded.range));
    assert_eq!(resolve_whole_read_range(bounded.range, None).ok().unwrap(), ByteRange { offset: 2, length: Some(4), suffix: false });

    let suffix = whole_read_plan(read_options(ByteRange { offset: 0, length: Some(3), suffix: true }), 3).ok().unwrap();
    assert_eq!(resolve_whole_read_range(suffix.range, Some((false, 10))).ok().unwrap(), ByteRange { offset: 7, length: Some(3), suffix: false });
    assert_eq!(resolve_whole_read_range(suffix.range, Some((false, 2))).ok().unwrap(), ByteRange { offset: 0, length: Some(2), suffix: false });

    for oversized in [ByteRange { offset: 2, length: Some(6), suffix: false }, ByteRange { offset: 0, length: Some(6), suffix: true }] {
        let failure = whole_read_plan(read_options(oversized), 5).unwrap_err();
        assert_eq!(record(failure), (ERROR_BUFFER_TOO_LARGE, ERROR_STATUS_PERMANENT, "BufferTooLarge".to_owned(), "read result exceeds the negotiated output limit".to_owned()));
    }

    let directory = resolve_whole_read_range(from.range, Some((true, 0))).unwrap_err();
    assert_eq!(record(directory), (ERROR_IS_A_DIRECTORY, ERROR_STATUS_PERMANENT, "IsADirectory".to_owned(), "read path is a directory".to_owned()));
}

#[test]
fn native_read_buffers_and_reader_ranges_respect_the_negotiated_limit() {
    assert!(checked_read_buffer(5, 5, "reader result").is_ok());
    assert_eq!(message(checked_read_buffer(6, 5, "reader result").unwrap_err()), "reader result exceeds the negotiated output limit");
    assert!(checked_read_buffer(2147483648, u64::MAX, "read stream chunk").is_err());

    assert_eq!(reader_read_plan(&range(RANGE_OFFSET_LENGTH, 1, 4), 4).ok().unwrap(), (ByteRange { offset: 1, length: Some(4), suffix: false }, 4));
    assert_eq!(message(reader_read_plan(&range(RANGE_SUFFIX, 0, 5), 4).unwrap_err()), "reader range exceeds the negotiated output limit");
    assert_eq!(reader_read_plan(&range(RANGE_FROM, 9, 0), u64::MAX).ok().unwrap().1, 2147483647);
    assert!(is_mismatch(reader_read_plan(&range(RANGE_FULL, 1, 0), 4)));
}

#[test]
fn native_lengths_and_regions_are_checked_before_reading() {
    assert_eq!(checked_len(isize::MAX as u64).ok(), Some(isize::MAX as usize));
    assert!(is_mismatch(checked_len(isize::MAX as u64 + 1)));
    assert!(checked_region(0, 0).is_ok());
    assert!(is_mismatch(checked_region(0, 5)));
    assert!(is_mismatch(checked_region(usize::MAX - 2, 5)));
    assert!(checked_region(16, 5).is_ok());
    assert_eq!(borrowed_length(view(0, 0)).ok(), Some(0));
    assert_eq!(borrowed_length(view(64, 3)).ok(), Some(3));
    assert!(is_mismatch(borrowed_length(view(0, 3))));
    assert!(check_required_pointer(16, 8).is_ok());
    assert!(is_mismatch(check_required_pointer(0, 8)));
    assert!(is_mismatch(check_required_pointer(12, 8)));
    assert_eq!(check_error_output(0, 8).ok(), Some(false));
    assert_eq!(check_error_output(8, 8).ok(), Some(true));
    assert!(is_mismatch(check_error_output(9, 8)));
    assert!(check_struct_header(StructHeader { struct_size: 96, struct_version: 1 }, 96).is_ok());
    assert!(is_mismatch(check_struct_header(StructHeader { struct_size: 95, struct_version: 1 }, 96)));
    assert!(is_mismatch(check_struct_header(StructHeader { struct_size: 96, struct_version: 2 }, 96)));
    assert_eq!(bytes_view(0x40, 0), view(0, 0));
    assert_eq!(bytes_view(0x40, 3), view(0x40, 3));
    assert_eq!(optional_string_view(None), view(0, 0));
    assert_eq!(optional_string_view(Some((0x80, 2))), view(0x80, 2));
}

#[test]
fn native_text_arguments_are_strict_utf8_and_canonically_absent() {
    assert_eq!(read_text_value(&text(b"dir/file"), "path").ok(), Some(b"dir/file".to_vec()));
    assert_eq!(read_text_value(&absent(), "path").ok(), Some(Vec::new()));
    let failure = read_text_value(&text(&[0xff, 0xfe]), "path").unwrap_err();
    assert_eq!(record(failure), (ERROR_INVALID_ARGUMENT, ERROR_STATUS_PERMANENT, "InvalidArgument".to_owned(), "path must be valid UTF-8".to_owned()));
    assert!(is_mismatch(read_text_value(&TextArg { view: view(0, 4), bytes: Vec::new() }, "path")));

    assert!(absent_bytes_is_canonical(view(0, 0)));
    assert!(!absent_bytes_is_canonical(view(8, 0)));
    assert_eq!(optional_text(&absent(), 0, 1, "version").ok(), Some(None));
    assert!(is_mismatch(optional_text(&TextArg { view: view(8, 0), bytes: Vec::new() }, 0, 1, "version")));
    assert_eq!(optional_text(&absent(), 1, 1, "version").ok(), Some(Some(Vec::new())));
    assert_eq!(optional_text(&text(b"v1"), 1, 1, "version").ok(), Some(Some(b"v1".to_vec())));
    assert_eq!(present_text_length(view(0x10, 2), 1, 1), 2);
    assert_eq!(present_text_length(view(0x10, 2), 0, 1), 0);
    assert!(require_absent_view(view(0, 0)).is_ok());
    assert!(is_mismatch(require_absent_view(view(0, 1))));
    assert!(reject_present_field(2, 1, "S3 external_id").is_ok());
    assert_eq!(message(reject_present_field(1, 1, "S3 external_id").unwrap_err()), "S3 external_id is not valid for the selected S3 authentication mode");
}

#[test]
fn native_byte_ranges_decode_only_canonical_encodings() {
    assert_eq!(parse_range(&range(RANGE_FULL, 0, 0)).ok(), Some(ByteRange { offset: 0, length: None, suffix: false }));
    assert_eq!(parse_range(&range(RANGE_FROM, 5, 0)).ok(), Some(ByteRange { offset: 5, length: None, suffix: false }));
    assert_eq!(parse_range(&range(RANGE_OFFSET_LENGTH, 5, 2)).ok(), Some(ByteRange { offset: 5, length: Some(2), suffix: false }));
    assert_eq!(parse_range(&range(RANGE_SUFFIX, 0, 2)).ok(), Some(ByteRange { offset: 0, length: Some(2), suffix: true }));
    assert!(is_mismatch(parse_range(&range(RANGE_FULL, 1, 0))));
    assert!(is_mismatch(parse_range(&range(RANGE_FROM, 1, 1))));
    assert!(is_mismatch(parse_range(&range(RANGE_OFFSET_LENGTH, u64::MAX, 1))));
    assert!(is_mismatch(parse_range(&range(RANGE_SUFFIX, 1, 1))));
    assert!(is_mismatch(parse_range(&range(9, 0, 0))));
    assert!(is_mismatch(parse_range(&ByteRangeInput { struct_size: 31, ..range(RANGE_FULL, 0, 0) })));
    assert!(is_mismatch(parse_range(&ByteRangeInput { struct_version: 2, ..range(RANGE_FULL, 0, 0) })));
    assert!(is_mismatch(parse_range(&ByteRangeInput { reserved0: 1, ..range(RANGE_FULL, 0, 0) })));
}

#[test]
fn native_read_and_stat_options_reject_unknown_bits_and_noncanonical_fields() {
    let defaults = parse_read_options(None).ok().unwrap();
    assert_eq!(defaults.range, ByteRange { offset: 0, length: None, suffix: false });
    assert!(defaults.version.is_none() && defaults.if_match.is_none() && defaults.if_none_match.is_none());

    let input = ReadOptionsInput {
        present_bits: READ_VERSION_PRESENT | READ_IF_MATCH_PRESENT,
        range: range(RANGE_OFFSET_LENGTH, 1, 2),
        version: text(b"v2"),
        if_match: text(b""),
        if_none_match: absent(),
    };
    let parsed = parse_read_options(Some(&input)).ok().unwrap();
    assert_eq!(parsed.range, ByteRange { offset: 1, length: Some(2), suffix: false });
    assert_eq!(parsed.version, Some(b"v2".to_vec()));
    assert_eq!(parsed.if_match, Some(Vec::new()));
    assert_eq!(parsed.if_none_match, None);

    let unknown = ReadOptionsInput { present_bits: 8, ..input };
    assert!(is_mismatch(parse_read_options(Some(&unknown))));
    let noncanonical = ReadOptionsInput {
        present_bits: 0,
        range: range(RANGE_FULL, 0, 0),
        version: TextArg { view: view(0x20, 0), bytes: Vec::new() },
        if_match: absent(),
        if_none_match: absent(),
    };
    assert!(is_mismatch(parse_read_options(Some(&noncanonical))));
    let bad_utf8 = ReadOptionsInput {
        present_bits: READ_VERSION_PRESENT,
        range: range(RANGE_FULL, 0, 0),
        version: text(&[0xc3]),
        if_match: absent(),
        if_none_match: absent(),
    };
    assert_eq!(message(parse_read_options(Some(&bad_utf8)).unwrap_err()), "read version must be valid UTF-8");

    let stat = StatOptionsInput { present_bits: STAT_IF_NONE_MATCH_PRESENT, version: absent(), if_match: absent(), if_none_match: text(b"etag") };
    let parsed = parse_stat_options(Some(&stat)).ok().unwrap();
    assert_eq!((parsed.version, parsed.if_match, parsed.if_none_match), (None, None, Some(b"etag".to_vec())));
    assert!(is_mismatch(parse_stat_options(Some(&StatOptionsInput { present_bits: 16, ..stat }))));
    assert!(parse_stat_options(None).ok().unwrap().version.is_none());
}

#[test]
fn native_write_and_delete_options_decode_flags_and_texts() {
    let input = WriteOptionsInput {
        present_bits: WRITE_CONTENT_TYPE_PRESENT | WRITE_CACHE_CONTROL_PRESENT,
        flags: WRITE_APPEND,
        content_type: text(b"text/plain"),
        content_disposition: absent(),
        content_encoding: absent(),
        cache_control: text(b"no-cache"),
        if_match: absent(),
        if_none_match: absent(),
    };
    let parsed = parse_write_options(Some(&input)).ok().unwrap();
    assert!(parsed.append);
    assert_eq!(parsed.content_type, Some(b"text/plain".to_vec()));
    assert_eq!(parsed.cache_control, Some(b"no-cache".to_vec()));
    assert_eq!(parsed.content_disposition, None);
    assert!(is_mismatch(parse_write_options(Some(&WriteOptionsInput { flags: 2, ..input }))));
    let plain = parse_write_options(None).ok().unwrap();
    assert!(!plain.append && plain.content_type.is_none());

    let delete = DeleteOptionsInput { present_bits: DELETE_VERSION_PRESENT, flags: DELETE_RECURSIVE, version: text(b"v3") };
    let parsed = parse_delete_options(Some(&delete)).ok().unwrap();
    assert_eq!((parsed.version, parsed.recursive), (Some(b"v3".to_vec()), true));
    assert!(is_mismatch(parse_delete_options(Some(&DeleteOptionsInput { flags: 4, ..delete }))));
    let plain = parse_delete_options(None).ok().unwrap();
    assert_eq!((plain.version, plain.recursive), (None, false));
}

#[test]
fn native_config_rejects_duplicate_keys_ignoring_ascii_case() {
    let items = vec![
        ConfigItem { key: text(b"root"), value: text(b"/data") },
        ConfigItem { key: text(b"Bucket"), value: text(b"b") },
    ];
    let pairs = read_config_items(&items).ok().unwrap();
    assert_eq!(pairs, vec![(b"root".to_vec(), b"/data".to_vec()), (b"Bucket".to_vec(), b"b".to_vec())]);

    let duplicate = vec![
        ConfigItem { key: text(b"ROOT"), value: text(b"/a") },
        ConfigItem { key: text(b"root"), value: text(b"/b") },
    ];
    let failure = read_config_items(&duplicate).unwrap_err();
    assert_eq!(record(failure), (ERROR_INVALID_ARGUMENT, ERROR_STATUS_PERMANENT, "InvalidArgument".to_owned(), "duplicate config key".to_owned()));

    let bad_value = vec![ConfigItem { key: text(b"root"), value: text(&[0x80]) }];
    assert_eq!(message(read_config_items(&bad_value).unwrap_err()), "config value must be valid UTF-8");

    assert_eq!(config_length(0, 32, 0, 8).ok(), Some(0));
    assert_eq!(config_length(2, 32, 64, 8).ok(), Some(2));
    assert!(is_mismatch(config_length(2, 32, 0, 8)));
    assert!(is_mismatch(config_length(2, 32, 60, 8)));
    assert!(is_mismatch(config_length(isize::MAX as u64, 32, 64, 8)));
}

#[test]
fn native_errors_carry_codes_status_and_capped_messages() {
    let failure = binding_error(ERROR_UNEXPECTED, "Unexpected", b"boom".to_vec());
    assert_eq!(failure_status(&failure), STATUS_ERROR);
    assert_eq!(record(failure), (1, 1, "Unexpected".to_owned(), "boom".to_owned()));
    assert_eq!(failure_status(&CallFailure::AbiMismatch), STATUS_ABI_MISMATCH);

    let conflict = error_record_from_parts(ServiceErrorKind::Conflict, false, true, b"busy");
    assert_eq!(record(conflict), (1, 3, "Conflict".to_owned(), "busy".to_owned()));
    let missing = opendal_error(&opendal::Error::new(opendal::ErrorKind::NotFound, "missing").set_temporary());
    assert_eq!(record(missing), (4, 2, "NotFound".to_owned(), "missing".to_owned()));
    let redacted = construction_error(&opendal::Error::new(opendal::ErrorKind::ConfigInvalid, "secret=do-not-leak"));
    assert_eq!(record(redacted), (3, 1, "ConfigInvalid".to_owned(), "operator construction failed".to_owned()));

    assert!(combine_output_validation(vec![Ok(()), Ok(())]).is_ok());
    let first = combine_output_validation(vec![Ok(()), Err(binding_error(2, "Unsupported", b"first".to_vec())), Err(CallFailure::AbiMismatch)]);
    assert_eq!(message(first.unwrap_err()), "first");
    assert!(is_mismatch(combine_output_validation(vec![Err(CallFailure::AbiMismatch), Err(binding_error(2, "Unsupported", b"second".to_vec()))])));
}

#[test]
fn native_metadata_views_report_presence_and_reject_negative_nanoseconds() {
    let mut metadata = empty_metadata();
    metadata.is_current = Some(true);
    metadata.content_length = 42;
    metadata.last_modified = Some(Timestamp { seconds: 7, subsec_nanos: 9 });
    metadata.etag = Some(b"\"e\"".to_vec());
    metadata.version = Some(b"v".to_vec());
    let view = metadata_output_view(&metadata, StructHeader { struct_size: 168, struct_version: 1 }).ok().unwrap();
    assert_eq!(view.present_bits, 1 | 2 | 128 | 256);
    assert_eq!((view.mode, view.is_current, view.is_deleted, view.content_length), (1, 1, 0, 42));
    assert_eq!((view.unix_seconds, view.nanoseconds), (7, 9));
    assert_eq!((view.struct_size, view.struct_version), (168, 1));

    metadata.last_modified = Some(Timestamp { seconds: -1, subsec_nanos: -5 });
    assert!(is_mismatch(metadata_output_view(&metadata, StructHeader { struct_size: 168, struct_version: 1 })));

    assert!(checked_metadata(&metadata).is_ok());
    assert!(checked_entry(b"dir/a", b"a", &metadata).is_ok());
    assert!(checked_operator_info(b"memory", b"/", b"").is_ok());
}

#[test]
fn native_capability_words_pack_portable_bits() {
    let words = capability_view(capability(), true);
    assert_eq!(words, [CAP_STAT | CAP_READ | CAP_LIST | CAP_READ_SUFFIX, 0, 0, 0]);
    assert_eq!(capability_view(capability(), false)[0], CAP_STAT | CAP_READ | CAP_LIST);
}

#[test]
fn native_buffer_copies_size_then_copy_atomically() {
    let plan = buffer_copy_plan(5, 0, 0);
    assert_eq!((plan.status, plan.report_required, plan.copy), (STATUS_BUFFER_TOO_SMALL, true, false));
    let plan = buffer_copy_plan(0, 0, 0);
    assert_eq!((plan.status, plan.report_required, plan.copy), (STATUS_OK, true, false));
    let plan = buffer_copy_plan(5, 0, 3);
    assert_eq!((plan.status, plan.report_required, plan.copy), (STATUS_ABI_MISMATCH, false, false));
    let plan = buffer_copy_plan(5, 0x1000, 4);
    assert_eq!((plan.status, plan.report_required, plan.copy), (STATUS_BUFFER_TOO_SMALL, true, false));
    let plan = buffer_copy_plan(5, 0x1000, 5);
    assert_eq!((plan.status, plan.report_required, plan.copy), (STATUS_OK, true, true));
    let plan = buffer_copy_plan(5, usize::MAX - 2, 5);
    assert_eq!((plan.status, plan.report_required, plan.copy), (STATUS_ABI_MISMATCH, false, false));
}

#[test]
fn native_presigned_requests_and_durations_are_bounded() {
    assert_eq!(presign_expiry(60).ok(), Some(60));
    assert_eq!(message(presign_expiry(0).unwrap_err()), "presign expires_in_seconds must be greater than zero");
    assert_eq!(positive_millis(5, "io_timeout_millis").ok(), Some(5));
    assert_eq!(message(positive_millis(0, "io_timeout_millis").unwrap_err()), "io_timeout_millis must be greater than zero");
    assert_eq!(retry_count(3).ok(), Some(3));
    assert_eq!(message(retry_count(0).unwrap_err()), "max_retries must be greater than zero");

    let headers = vec![(b"host".to_vec(), b"example".to_vec()), (b"host".to_vec(), vec![0xff, 0x00])];
    assert!(checked_presigned_request(b"GET", b"https://example/object", &headers).is_ok());
}

#[test]
fn native_layer_validation_rejects_zero_bounds_duplicates_and_reverse_order() {
    let timeout = timeout_layer_plan(0, 1000, 100).ok().unwrap();
    assert_eq!(timeout.layer_bits, OPERATOR_LAYER_TIMEOUT);
    assert_eq!(message(timeout_layer_plan(0, 0, 100).unwrap_err()), "operation_timeout_millis must be greater than zero");
    assert_eq!(message(timeout_layer_plan(0, 10, 0).unwrap_err()), "io_timeout_millis must be greater than zero");
    assert_eq!(message(timeout_layer_plan(OPERATOR_LAYER_TIMEOUT, 10, 10).unwrap_err()), "timeout layer is already installed");
    assert_eq!(message(timeout_layer_plan(OPERATOR_LAYER_RETRY, 10, 10).unwrap_err()), "timeout layer must be installed before retry layer");

    let retry = retry_layer_plan(OPERATOR_LAYER_TIMEOUT, 3, 10, 100, 1).ok().unwrap();
    assert_eq!((retry.max_retries, retry.min_delay_millis, retry.max_delay_millis, retry.jitter), (3, 10, 100, true));
    assert_eq!(retry.layer_bits, OPERATOR_LAYER_TIMEOUT | OPERATOR_LAYER_RETRY);
    assert!(is_mismatch(retry_layer_plan(0, 3, 10, 100, 2)));
    assert_eq!(message(retry_layer_plan(0, 0, 10, 100, 0).unwrap_err()), "max_retries must be greater than zero");
    assert_eq!(message(retry_layer_plan(0, 1, 0, 100, 0).unwrap_err()), "min_delay_millis must be greater than zero");
    assert_eq!(message(retry_layer_plan(0, 1, 10, 0, 0).unwrap_err()), "max_delay_millis must be greater than zero");
    assert_eq!(message(retry_layer_plan(0, 1, 100, 10, 0).unwrap_err()), "min_delay_millis must not exceed max_delay_millis");
    assert_eq!(message(retry_layer_plan(OPERATOR_LAYER_RETRY, 1, 10, 100, 0).unwrap_err()), "retry layer is already installed");
}

#[test]
fn native_lister_failures_are_terminal_and_reported_once() {
    let mut state = ListerState::Open(7u32);
    let inner = match lister_next_begin(&mut state) {
        ListerBegin::Take(inner) => inner,
        _ => panic!("open lister was not taken"),
    };
    let out = lister_next_finish(&mut state, inner, StepResult::Value("entry"));
    assert_eq!((out.status, out.value), (STATUS_OK, Some("entry")));
    assert!(matches!(state, ListerState::Open(7)));

    let inner = match lister_next_begin(&mut state) {
        ListerBegin::Take(inner) => inner,
        _ => panic!("open lister was not taken"),
    };
    let out = lister_next_finish::<u32, &str>(&mut state, inner, StepResult::Failure(binding_error(1, "Unexpected", b"injected lister error".to_vec())));
    assert_eq!((out.status, out.dropped), (STATUS_ERROR, Some(7)));
    assert!(matches!(lister_next_begin(&mut state), ListerBegin::End));

    let mut panicked = ListerState::Open(1u32);
    let inner = match lister_next_begin(&mut panicked) {
        ListerBegin::Take(inner) => inner,
        _ => panic!("open lister was not taken"),
    };
    assert_eq!(lister_next_finish::<u32, ()>(&mut panicked, inner, StepResult::Panic).status, STATUS_PANIC);
    assert!(matches!(lister_next_begin(&mut panicked), ListerBegin::End));

    let mut poisoned = ListerState::Open(2u32);
    let (dropped, failure) = lister_poisoned(&mut poisoned);
    assert_eq!(dropped, Some(2));
    assert_eq!(message(failure), "lister state lock was poisoned");
    assert!(matches!(poisoned, ListerState::Exhausted));

    assert_eq!(close_lister_state(&mut poisoned), None);
    match lister_next_begin(&mut poisoned) {
        ListerBegin::Closed(failure) => assert_eq!(record(failure).0, ERROR_RESOURCE_CLOSED),
        _ => panic!("closed lister did not report closed"),
    }
    let mut ended = ListerState::Open(3u32);
    let inner = match lister_next_begin(&mut ended) {
        ListerBegin::Take(inner) => inner,
        _ => panic!("open lister was not taken"),
    };
    assert_eq!(lister_next_finish::<u32, ()>(&mut ended, inner, StepResult::Finished).status, STATUS_END);
}

#[test]
fn native_readers_and_read_streams_keep_terminal_states() {
    let mut reader = ReaderState::Open(5u8);
    assert!(reader_state_check(&reader).is_ok());
    assert_eq!(close_reader_state(&mut reader), Some(5));
    assert_eq!(message(reader_state_check(&reader).unwrap_err()), "reader is closed");
    assert_eq!(close_reader_state(&mut reader), None);

    let mut stream = ReadStreamState::Open(9u8);
    let iterator = match read_stream_begin(&mut stream) {
        StreamBegin::Take(iterator) => iterator,
        _ => panic!("open stream was not taken"),
    };
    let out = read_stream_finish(&mut stream, iterator, StepResult::Value(4), 10, 4);
    assert_eq!((out.status, out.value), (STATUS_OK, Some(4)));
    let iterator = match read_stream_begin(&mut stream) {
        StreamBegin::Take(iterator) => iterator,
        _ => panic!("open stream was not taken"),
    };
    let out = read_stream_finish(&mut stream, iterator, StepResult::Value(5), 10, 4);
    assert_eq!(out.status, STATUS_ERROR);
    assert_eq!(message(out.failure.unwrap()), "read stream chunk exceeds the negotiated output limit");
    match read_stream_begin(&mut stream) {
        StreamBegin::Closed(failure) => assert_eq!(message(failure), "read stream is closed"),
        _ => panic!("failed stream did not report closed"),
    }

    let mut ended = ReadStreamState::Open(1u8);
    let iterator = match read_stream_begin(&mut ended) {
        StreamBegin::Take(iterator) => iterator,
        _ => panic!("open stream was not taken"),
    };
    assert_eq!(read_stream_finish(&mut ended, iterator, StepResult::Finished, 10, 10).status, STATUS_END);
    assert!(matches!(read_stream_begin(&mut ended), StreamBegin::End));
    assert!(matches!(read_stream_begin(&mut ended), StreamBegin::End));

    assert_eq!(message(read_stream_lock_failure(&mut ended)), "read stream state lock was poisoned");
    assert!(matches!(ended, ReadStreamState::Failed));
    close_read_stream_state(&mut ended);
    assert!(matches!(ended, ReadStreamState::Closed));
}

#[test]
fn native_writer_abort_is_explicit_idempotent_and_terminal() {
    let mut state = WriterState::Open(11u8);
    let inner = match take_writer_for_call(&mut state, false) {
        WriterTake::Taken(inner) => inner,
        _ => panic!("open writer was not taken"),
    };
    assert!(matches!(state, WriterState::Busy));
    assert!(matches!(take_writer_for_call(&mut state, false), WriterTake::Wait));
    let out = writer_call_finish(&mut state, inner, WriterCall::Write, StepResult::Value(()));
    assert_eq!((out.status, out.dropped), (STATUS_OK, None));

    let inner = match take_writer_for_call(&mut state, true) {
        WriterTake::Taken(inner) => inner,
        _ => panic!("open writer was not taken"),
    };
    let out = writer_call_finish(&mut state, inner, WriterCall::Abort, StepResult::Value(()));
    assert_eq!((out.status, out.dropped), (STATUS_OK, Some(11)));
    assert!(matches!(take_writer_for_call(&mut state, true), WriterTake::AlreadyAborted));
    match take_writer_for_call(&mut state, false) {
        WriterTake::Closed(failure) => assert_eq!(message(failure), "writer is closed"),
        _ => panic!("aborted writer accepted a write"),
    }

    let mut failing = WriterState::Open(12u8);
    let inner = match take_writer_for_call(&mut failing, false) {
        WriterTake::Taken(inner) => inner,
        _ => panic!("open writer was not taken"),
    };
    let out = writer_call_finish(&mut failing, inner, WriterCall::Close, StepResult::Panic);
    assert_eq!(out.status, STATUS_PANIC);
    assert!(matches!(take_writer_for_call(&mut failing, true), WriterTake::Closed(_)));

    let mut poisoned = WriterState::Open(13u8);
    let (dropped, failure) = writer_poison_failure(&mut poisoned);
    assert_eq!(dropped, Some(13));
    assert_eq!(message(failure), "writer state lock was poisoned");
    assert_eq!(fail_writer_state(&mut poisoned), None);
}

#[test]
fn native_test_modes_fire_once_for_their_target() {
    let mut modes = TestModes::new();
    install_lister_next_test_mode(&mut modes, 0x100, 2);
    assert_eq!(take_lister_next_test_mode(&mut modes, 0x200), 0);
    assert_eq!(take_lister_next_test_mode(&mut modes, 0x100), 2);
    assert_eq!(take_lister_next_test_mode(&mut modes, 0x100), 0);
    install_reader_read_test_mode(&mut modes, 0x300, 1);
    install_writer_call_test_mode(&mut modes, 0x400, 5);
    assert_eq!(take_reader_read_test_mode(&mut modes, 0x300), 1);
    assert_eq!(take_writer_call_test_mode(&mut modes, 0x400), 5);
    assert_eq!(take_writer_call_test_mode(&mut modes, 0x400), 0);

    let mut observations = WholeReadObservations { entries: Vec::new() };
    install_whole_read_observer(&mut observations, 0xA0);
    observe_whole_read_chunk(&mut observations, 0xA0, 7);
    observe_whole_read_chunk(&mut observations, 0xA0, 1);
    observe_whole_read_chunk(&mut observations, 0xB0, 99);
    install_whole_read_observer(&mut observations, 0xB0);
    observe_whole_read_chunk(&mut observations, 0xB0, u64::MAX);
    observe_whole_read_chunk(&mut observations, 0xB0, 1);
    assert_eq!(take_whole_read_observation(&mut observations, 0xA0), 8);
    assert_eq!(take_whole_read_observation(&mut observations, 0xA0), 0);
    assert_eq!(take_whole_read_observation(&mut observations, 0xB0), u64::MAX);
    install_whole_read_observer(&mut observations, 0xC0);
    install_whole_read_observer(&mut observations, 0xC0);
    assert_eq!(observations.entries, vec![(0xC0, 0)]);
}

#[test]
fn native_bootstrap_respects_every_table_boundary() {
    assert_eq!(bootstrap_caller_size(0x1000, 40, 1), Some(40));
    assert_eq!(bootstrap_caller_size(0x1000, 39, 1), None);
    assert_eq!(bootstrap_caller_size(0x1000, 512, 2), None);
    assert_eq!(bootstrap_caller_size(usize::MAX - 10, 40, 1), None);

    let fields = vec![(8, 4), (12, 4), (24, 8), (32, 8), (40, 8), (48, 8)];
    let plan = install_plan(&fields, 44, 56);
    assert_eq!((plan.clear_from, plan.clear_len), (8, 36));
    assert_eq!(plan.installed, vec![true, true, true, true, false, false]);
    let plan = install_plan(&fields, 4096, 56);
    assert_eq!(plan.clear_len, 48);
    assert_eq!(plan.installed, vec![true; 6]);
}


#[test]
fn listing_options_reject_noncanonical_inputs_atomically() {
    let mismatch = |input: &ListOptionsInput| is_mismatch(parse_list_options(Some(input)).map(|_| ()));
    let mut options = ListOptionsInput { present_bits: 1 << 63, flags: 0, limit: 0, start_after: absent() };
    assert!(mismatch(&options));

    options.present_bits = 0;
    options.flags = 1 << 63;
    assert!(mismatch(&options));

    options.flags = 0;
    options.limit = 1;
    assert!(mismatch(&options));

    options.limit = 0;
    options.start_after = text(b"noncanonical-absent");
    assert!(mismatch(&options));

    options.present_bits = LIST_LIMIT_PRESENT;
    options.limit = u64::MAX;
    options.start_after = absent();
    assert!(mismatch(&options));

    options.present_bits = LIST_START_AFTER_PRESENT;
    options.limit = 0;
    options.start_after = text(&[0xFF]);
    let (kind, _, _, message) = record(parse_list_options(Some(&options)).unwrap_err());
    assert_eq!(kind, ERROR_INVALID_ARGUMENT);
    assert_eq!(message, "list start_after must be valid UTF-8");

    options.present_bits = LIST_LIMIT_PRESENT | LIST_START_AFTER_PRESENT;
    options.flags = LIST_RECURSIVE;
    options.limit = 0;
    options.start_after = absent();
    let parsed = parse_list_options(Some(&options)).unwrap();
    assert_eq!(parsed.limit, Some(0));
    assert_eq!(parsed.start_after, Some(Vec::new()));
    assert!(parsed.recursive);

    let plain = parse_list_options(None).unwrap();
    assert_eq!((plain.limit, plain.start_after, plain.recursive), (None, None, false));
}

#[test]
fn native_reader_options_decode_conditions_in_order() {
    assert!(is_mismatch(parse_reader_options(Some(&ReaderOptionsInput { present_bits: 8, version: absent(), if_match: absent(), if_none_match: absent() })).map(|_| ())));
    let parsed = parse_reader_options(Some(&ReaderOptionsInput {
        present_bits: READER_IF_MATCH_PRESENT,
        version: absent(),
        if_match: text(b"etag-1"),
        if_none_match: absent(),
    }))
    .unwrap();
    assert_eq!((parsed.version, parsed.if_match, parsed.if_none_match), (None, Some(b"etag-1".to_vec()), None));

    let input = ReaderOptionsInput { present_bits: 0, version: text(b"v"), if_match: absent(), if_none_match: absent() };
    assert!(is_mismatch(parse_reader_options(Some(&input)).map(|_| ())));
    let none = parse_reader_options(None).unwrap();
    assert_eq!((none.version, none.if_match, none.if_none_match), (None, None, None));
}

#[test]
fn native_read_stream_options_bound_the_chunk_and_force_serial_reads() {
    let options = |chunk_size: u64| ReadStreamOptionsInput {
        present_bits: READ_STREAM_VERSION_PRESENT,
        chunk_size,
        range: range(RANGE_OFFSET_LENGTH, 3, 5),
        version: text(b"version-1"),
        if_match: absent(),
        if_none_match: absent(),
    };
    let parsed = parse_read_stream_options(Some(&options(64))).unwrap();
    assert_eq!(parsed.chunk_size, 64);
    assert_eq!((parsed.reader_concurrent, parsed.reader_chunk, parsed.reader_prefetch), (1, 64, 0));
    assert_eq!(parsed.range, ByteRange { offset: 3, length: Some(5), suffix: false });
    assert_eq!(parsed.reader.version, Some(b"version-1".to_vec()));

    for bad in [0, 1 << 31] {
        let (kind, _, _, message) = record(parse_read_stream_options(Some(&options(bad))).unwrap_err());
        assert_eq!(kind, ERROR_INVALID_ARGUMENT);
        assert_eq!(message, "read stream chunk_size must be between 1 and 2147483647");
    }
    assert!(parse_read_stream_options(Some(&options(2147483647))).is_ok());
    assert!(is_mismatch(parse_read_stream_options(None).map(|_| ())));
    let mut unknown = options(64);
    unknown.present_bits |= 1 << 40;
    assert!(is_mismatch(parse_read_stream_options(Some(&unknown)).map(|_| ())));
}

#[test]
fn native_operator_info_copies_texts_and_packs_capabilities() {
    let record = operator_info_from_parts(b"memory", b"/root/", b"", capability(), true).ok().unwrap();
    assert_eq!((record.scheme, record.root, record.name), (b"memory".to_vec(), b"/root/".to_vec(), Vec::new()));
    assert_eq!(record.capability, [CAP_STAT | CAP_READ | CAP_LIST | CAP_READ_SUFFIX, 0, 0, 0]);

    let operator = opendal::Operator::new(opendal::services::Memory::default()).unwrap();
    let runtime = tokio::runtime::Builder::new_multi_thread().enable_all().build().unwrap();
    let _guard = runtime.enter();
    let blocking = opendal::blocking::Operator::new(operator).unwrap();
    let info = operator_info_record(&blocking).ok().unwrap();
    assert_eq!(info.scheme, b"memory".to_vec());
    assert_eq!(info.root, b"/".to_vec());
    assert_ne!(info.capability[0] & CAP_READ, 0);
    assert_eq!(&info.capability[1..], &[0, 0, 0]);
}

#[test]
fn native_bootstrap_installs_fields_and_keeps_every_tail() {
    let staged: Vec<(usize, Vec<u8>)> = vec![
        (8, vec![1, 2, 3, 4]),
        (12, vec![5, 6, 7, 8]),
        (16, vec![9; 8]),
        (24, vec![10; 8]),
        (32, vec![11; 8]),
        (40, vec![12; 8]),
        (48, vec![13; 8]),
    ];
    let table_size = 56;
    assert!(check_fields_laid_out(&staged, table_size));
    for caller_size in 40..table_size + 16 {
        let original: Vec<u8> = (0..caller_size).map(|k| 0xA0 | (k % 16) as u8).collect();
        let mut table = original.clone();
        install_table(&mut table, &staged, table_size);
        let limit = caller_size.min(table_size);
        assert_eq!(table.len(), caller_size);
        assert_eq!(&table[..8], &original[..8]);
        assert_eq!(&table[limit..], &original[limit..], "caller tail changed at caller_size={caller_size}");
        for (offset, bytes) in &staged {
            let end = offset + bytes.len();
            if end <= limit {
                assert_eq!(&table[*offset..end], &bytes[..]);
            } else if *offset < limit {
                assert!(table[*offset..limit].iter().all(|b| *b == 0), "partially covered field changed at caller_size={caller_size}");
            }
        }
    }

    assert!(!check_fields_laid_out(&vec![(4, vec![0; 8])], 56));
    assert!(!check_fields_laid_out(&vec![(8, vec![0; 8]), (12, vec![0; 4])], 56));
    assert!(!check_fields_laid_out(&vec![(52, vec![0; 8])], 56));
}

#[test]
fn native_layered_operators_still_serve_reads() {
    let operator = opendal::Operator::new(opendal::services::Memory::default()).unwrap();
    let runtime = tokio::runtime::Builder::new_current_thread().enable_all().build().unwrap();
    runtime.block_on(operator.write("layered", b"value".to_vec())).unwrap();
    let timeout = timeout_layer_plan(0, 5000, 2000).ok().unwrap();
    let layered = apply_timeout_layer(&operator, &timeout).into_inner();
    let retry = retry_layer_plan(timeout.layer_bits, 2, 10, 20, 1).ok().unwrap();
    let layered = apply_retry_layer(&layered, &retry).into_inner();
    assert_eq!(retry.layer_bits, OPERATOR_LAYER_TIMEOUT | OPERATOR_LAYER_RETRY);
    assert_eq!(runtime.block_on(layered.read("layered")).unwrap().to_vec(), b"value".to_vec());
}

#[test]
fn native_negotiation_refuses_without_writing_and_installs_within_bounds() {
    let fields: Vec<(usize, Vec<u8>)> = vec![(8, vec![1; 32]), (40, vec![2; 8]), (48, vec![3; 8])];
    let mut short = vec![0xAA; 44];
    assert_eq!(negotiate_api(0x1000, 44, 2, &mut short, &fields, 56), 4);
    assert_eq!(short, vec![0xAA; 44]);
    let mut tiny = vec![0xAA; 40];
    assert_eq!(negotiate_api(0x1000, 39, 1, &mut tiny, &fields, 56), 4);
    assert_eq!(tiny, vec![0xAA; 40]);

    let mut accepted = vec![0xAA; 52];
    assert_eq!(negotiate_api(0x1000, 52, 1, &mut accepted, &fields, 56), 0);
    assert_eq!(&accepted[..8], &[0xAA; 8]);
    assert_eq!(&accepted[8..40], &[1; 32]);
    assert_eq!(&accepted[40..48], &[2; 8]);
    assert_eq!(&accepted[48..52], &[0; 4]);
}
