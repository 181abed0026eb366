use opendal_mbt::arena::Slot;
use opendal_mbt::bridge::Bridge;
use opendal_mbt::codes::{
    COMPLETION_CREATE_DIR, COMPLETION_DELETE, COMPLETION_LIST, COMPLETION_READ, COMPLETION_READER_NEXT, COMPLETION_STAT, COMPLETION_WRITER_WRITE, ENTRY_MODE_DIRECTORY, ENTRY_MODE_FILE, MAX_BUFFER_LENGTH, MAX_GENERATION, MAX_SLOTS, SCALAR_ERROR, STATUS_OK, TASK_CANCELLED, TASK_CONSUMED, TASK_READY,
};
use opendal_mbt::entries::{push_entry_snapshot, ListBounds};
use opendal_mbt::error::BridgeError;
use opendal_mbt::handle::encode_handle;
use opendal_mbt::labels::ResourceKind;
use opendal_mbt::metadata::{metadata_snapshot_bytes, MetadataRecord};
use opendal_mbt::resources::{Completion, EntrySnapshot, Resource, Task};

fn metadata(mode: u32, content_length: u64) -> MetadataRecord {
    MetadataRecord {
        mode,
        is_current: None,
        is_deleted: false,
        content_length,
        last_modified: None,
        cache_control: None,
        content_disposition: None,
        content_encoding: None,
        content_md5: None,
        content_type: None,
        etag: None,
        version: None,
    }
}

fn test_entry_snapshot(path: &str, name: &str, content_length: u64) -> EntrySnapshot {
    EntrySnapshot {
        path: path.as_bytes().to_vec(),
        name: name.as_bytes().to_vec(),
        mode: ENTRY_MODE_FILE,
        content_length,
        metadata_snapshot: metadata_snapshot_bytes(&metadata(ENTRY_MODE_FILE, content_length)).ok().unwrap(),
    }
}

fn insert(bridge: &mut Bridge, resource: Resource) -> u32 {
    bridge.arena.insert(resource).unwrap()
}

fn take_buffer(bridge: &mut Bridge, handle: u32) -> Vec<u8> {
    let bytes = match bridge.arena.typed(handle, ResourceKind::Buffer) {
        Ok(Resource::Buffer(b)) => b.clone(),
        _ => panic!("not a buffer"),
    };
    assert_eq!(bridge.buffer_release(handle), STATUS_OK);
    bytes
}

fn full_arena_with(bridge: &mut Bridge, resource: Resource) -> u32 {
    let handle = encode_handle(0, MAX_GENERATION);
    let mut slots: Vec<Slot> = Vec::new();
    slots.push(Slot { generation: MAX_GENERATION, resource: Some(resource) });
    for _ in 1..MAX_SLOTS {
        slots.push(Slot { generation: 0, resource: None });
    }
    bridge.arena.slots = slots;
    bridge.arena.live = 1;
    handle
}

#[test]
fn sized_buffers_are_zeroed_and_bounded() {
    let mut bridge = Bridge::new();
    let buffer = bridge.buffer_new_sized(4);
    assert_ne!(buffer, 0);
    assert_eq!(bridge.buffer_len(buffer), 4);
    for index in 0..4 {
        assert_eq!(bridge.buffer_get(buffer, index), 0);
    }
    assert_eq!(bridge.buffer_release(buffer), STATUS_OK);

    assert_eq!(bridge.buffer_new_sized((MAX_BUFFER_LENGTH + 1) as u32), 0);
    assert_eq!(bridge.last_error_code(), 3);
    assert_eq!(bridge.last_error_clear(), STATUS_OK);
    assert_eq!(bridge.arena.live, 0);
}

#[test]
fn lib_sized_buffers_are_zeroed_and_bounded() {
    let mut bridge = Bridge::new();
    let buffer = bridge.buffer_new_sized(4);
    assert_ne!(buffer, 0);
    assert_eq!(bridge.buffer_len(buffer), 4);
    for index in 0..4 {
        assert_eq!(bridge.buffer_get(buffer, index), 0);
    }
    assert_eq!(bridge.buffer_release(buffer), STATUS_OK);
    assert_eq!(bridge.buffer_new_sized((MAX_BUFFER_LENGTH + 1) as u32), 0);
    assert_eq!(bridge.last_error_code(), 3);
    assert_eq!(bridge.last_error_clear(), STATUS_OK);
    assert_eq!(bridge.arena.live, 0);
}

#[test]
fn buffer_push_appends_checked_bytes() {
    let mut bridge = Bridge::new();
    let buffer = bridge.buffer_new();
    assert_eq!(bridge.buffer_push(buffer, 7), STATUS_OK);
    assert_eq!(bridge.buffer_push(buffer, 255), STATUS_OK);
    assert_eq!(bridge.buffer_push(buffer, 256), 5);
    assert_eq!(bridge.buffer_len(buffer), 2);
    assert_eq!(bridge.buffer_get(buffer, 1), 255);
    assert_eq!(bridge.buffer_get(buffer, 2), SCALAR_ERROR);
    assert_eq!(bridge.last_error_code(), 4);
    assert_eq!(take_buffer(&mut bridge, buffer), vec![7, 255]);
}

#[test]
fn forced_pending_is_an_explicit_canary_setting() {
    let mut bridge = Bridge::new();
    assert!(!bridge.force_pending_for_canary);
    assert_eq!(bridge.set_force_pending(1), STATUS_OK);
    assert!(bridge.force_pending_for_canary);
    assert_eq!(bridge.set_force_pending(0), STATUS_OK);
    assert!(!bridge.force_pending_for_canary);
    assert_eq!(bridge.set_force_pending(2), 17);
    assert_eq!(bridge.last_error_code(), 17);
}

#[test]
fn lib_forced_pending_is_an_explicit_canary_setting() {
    let mut bridge = Bridge::new();
    assert!(!bridge.force_pending_for_canary);
    assert_eq!(bridge.set_force_pending(1), STATUS_OK);
    assert!(bridge.force_pending_for_canary);
    assert_eq!(bridge.set_force_pending(0), STATUS_OK);
    assert!(!bridge.force_pending_for_canary);
    assert_eq!(bridge.set_force_pending(2), 17);
    assert_eq!(bridge.last_error_code(), 17);
}

#[test]
fn stale_handle_canary_rejects_released_handles() {
    let mut bridge = Bridge::new();
    assert_eq!(bridge.canary_stale_handle_rejected(), 1);
    assert_eq!(bridge.arena.live, 0);
}

#[test]
fn released_handles_stay_invalid_after_reuse() {
    let mut bridge = Bridge::new();
    let first = bridge.buffer_new();
    assert_eq!(bridge.buffer_release(first), STATUS_OK);
    let second = bridge.buffer_new();
    assert_ne!(first, second);
    assert_eq!(first & 0xffff, second & 0xffff);
    assert_eq!(bridge.buffer_len(first), SCALAR_ERROR);
    assert_eq!(bridge.last_error_code(), 1);
    assert_eq!(bridge.buffer_len(second), 0);
}

fn unit_mutation_completions_check() {
    let mut bridge = Bridge::new();
    for (completion, expected_kind) in [
        (Completion::CreateDir(Ok(())), COMPLETION_CREATE_DIR),
        (Completion::Delete(Ok(())), COMPLETION_DELETE),
    ] {
        let task = insert(&mut bridge, Resource::Task(Task::Ready(completion, None)));
        let completion = bridge.task_take(task);
        assert_ne!(completion, 0);
        assert_eq!(bridge.completion_kind(completion), expected_kind);
        assert_eq!(bridge.completion_status(completion), STATUS_OK);
        assert_eq!(bridge.completion_release(completion), STATUS_OK);
        assert_eq!(bridge.task_release(task), STATUS_OK);
    }
    assert_eq!(bridge.arena.live, 0);
}

#[test]
fn unit_mutation_completions_are_typed_and_releasable() {
    unit_mutation_completions_check();
}

#[test]
fn lib_unit_mutation_completions_are_typed_and_releasable() {
    unit_mutation_completions_check();
}

fn bounded_entry_collection_check() {
    let mut entries = Vec::new();
    let mut bytes = 0;
    let bounds = ListBounds { max_entries: 2, max_bytes: 172 };
    assert!(push_entry_snapshot(&mut entries, &mut bytes, test_entry_snapshot("a", "a", 1), bounds).is_ok());
    assert!(push_entry_snapshot(&mut entries, &mut bytes, test_entry_snapshot("b", "b", 1), bounds).is_ok());
    assert_eq!(entries.len(), 2);
    assert_eq!(bytes, 172);

    assert!(matches!(
        push_entry_snapshot(&mut entries, &mut bytes, test_entry_snapshot("c", "c", 1), bounds),
        Err(BridgeError::ListTooLarge)
    ));
    assert_eq!(entries.len(), 2);
    assert_eq!(bytes, 172);

    let mut bytes_limited = Vec::new();
    let mut byte_count = 0;
    assert!(matches!(
        push_entry_snapshot(
            &mut bytes_limited,
            &mut byte_count,
            test_entry_snapshot("abc", "def", 3),
            ListBounds { max_entries: 2, max_bytes: 89 },
        ),
        Err(BridgeError::ListTooLarge)
    ));
    assert!(bytes_limited.is_empty());
    assert_eq!(byte_count, 0);
}

#[test]
fn bounded_entry_snapshot_collection_is_failure_atomic() {
    bounded_entry_collection_check();
}

#[test]
fn lib_bounded_entry_snapshot_collection_is_failure_atomic() {
    bounded_entry_collection_check();
}

fn entry_list_take_check() {
    let mut bridge = Bridge::new();
    let entry = EntrySnapshot {
        path: b"tree/value.bin".to_vec(),
        name: b"value.bin".to_vec(),
        mode: ENTRY_MODE_FILE,
        content_length: 3,
        metadata_snapshot: metadata_snapshot_bytes(&metadata(ENTRY_MODE_FILE, 3)).ok().unwrap(),
    };
    let completion = insert(&mut bridge, Resource::Completion(Completion::List(Ok(vec![entry]))));

    assert_eq!(bridge.completion_take_buffer(completion), 0);
    assert_eq!(bridge.last_error_code(), 2);
    assert_eq!(bridge.last_error_clear(), STATUS_OK);
    assert_eq!(bridge.completion_kind(completion), COMPLETION_LIST);

    let entries = bridge.completion_take_entry_list(completion);
    assert_ne!(entries, 0);
    assert_eq!(bridge.entry_list_len(entries), 1);
    let path = bridge.entry_list_text(entries, 0, true);
    assert_eq!(take_buffer(&mut bridge, path), b"tree/value.bin");
    let name = bridge.entry_list_text(entries, 0, false);
    assert_eq!(take_buffer(&mut bridge, name), b"value.bin");
    assert_eq!(bridge.entry_list_mode(entries, 0), ENTRY_MODE_FILE as i32);
    assert_eq!(bridge.entry_list_content_length(entries, 0), 3);
    let snapshot = bridge.entry_list_metadata_snapshot(entries, 0);
    assert_ne!(snapshot, 0);
    assert_eq!(&take_buffer(&mut bridge, snapshot)[0..4], b"ODM1");
    assert_eq!(bridge.entry_list_metadata_snapshot(entries, 0), 0);
    assert_eq!(bridge.last_error_code(), 17);
    assert_eq!(bridge.last_error_clear(), STATUS_OK);
    assert_eq!(bridge.entry_list_content_length(entries, 0), 3);
    assert_eq!(bridge.entry_list_mode(entries, 1), SCALAR_ERROR);
    assert_eq!(bridge.last_error_code(), 4);
    assert_eq!(bridge.last_error_clear(), STATUS_OK);
    assert_eq!(bridge.entry_list_release(entries), STATUS_OK);
    assert_eq!(bridge.arena.live, 0);
}

#[test]
fn entry_list_take_and_index_access_are_owned_and_checked() {
    entry_list_take_check();
}

#[test]
fn lib_entry_list_take_and_index_access_are_owned_and_checked() {
    entry_list_take_check();
}

#[test]
fn entry_metadata_snapshot_take_is_failure_atomic_and_single_use() {
    let mut bridge = Bridge::new();
    let entries = full_arena_with(
        &mut bridge,
        Resource::EntryList(vec![test_entry_snapshot("value.bin", "value.bin", 3)]),
    );

    assert_eq!(bridge.entry_list_metadata_snapshot(entries, 0), 0);
    match bridge.arena.typed(entries, ResourceKind::EntryList) {
        Ok(Resource::EntryList(list)) => assert!(!list[0].metadata_snapshot.is_empty()),
        _ => panic!("entry list is gone"),
    }
    assert_eq!(bridge.last_error_clear(), STATUS_OK);

    bridge.arena.slots[1].generation = 1;
    let snapshot = bridge.entry_list_metadata_snapshot(entries, 0);
    assert_ne!(snapshot, 0);
    assert_eq!(&take_buffer(&mut bridge, snapshot)[0..4], b"ODM1");
    assert_eq!(bridge.entry_list_metadata_snapshot(entries, 0), 0);
    assert_eq!(bridge.last_error_code(), 17);
    assert_eq!(bridge.last_error_clear(), STATUS_OK);
    assert_eq!(bridge.entry_list_release(entries), STATUS_OK);
    assert_eq!(bridge.arena.live, 0);
}

fn ready_task_check() {
    let mut bridge = Bridge::new();
    let task = insert(&mut bridge, Resource::Task(Task::Ready(Completion::Read(Ok(vec![0, 255, 42])), None)));

    let completion = bridge.task_take(task);
    assert_ne!(completion, 0);
    assert_eq!(bridge.task_state(task), TASK_CONSUMED);
    assert_eq!(bridge.task_take(task), 0);
    assert_eq!(bridge.last_error_code(), 13);
    assert_eq!(bridge.last_error_clear(), STATUS_OK);

    let buffer = bridge.completion_take_buffer(completion);
    assert_ne!(buffer, 0);
    assert_eq!(bridge.buffer_len(buffer), 3);
    assert_eq!(bridge.buffer_get(buffer, 1), 255);
    assert_eq!(bridge.buffer_release(buffer), STATUS_OK);
    assert_eq!(bridge.task_release(task), STATUS_OK);
    assert_eq!(bridge.task_release(task), 1);
    assert_eq!(bridge.arena.live, 0);
}

#[test]
fn ready_task_moves_its_completion_exactly_once() {
    ready_task_check();
}

#[test]
fn lib_ready_task_moves_its_completion_exactly_once() {
    ready_task_check();
}

fn typed_take_check() {
    let mut bridge = Bridge::new();
    let completion = insert(&mut bridge, Resource::Completion(Completion::Read(Ok(vec![7, 8, 9]))));

    assert_eq!(bridge.completion_take_metadata(completion), 0);
    assert_eq!(bridge.last_error_code(), 2);
    assert_eq!(bridge.last_error_clear(), STATUS_OK);
    assert_eq!(bridge.completion_kind(completion), COMPLETION_READ);

    let buffer = bridge.completion_take_buffer(completion);
    assert_ne!(buffer, 0);
    assert_eq!(bridge.buffer_release(buffer), STATUS_OK);
    assert_eq!(bridge.arena.live, 0);
}

#[test]
fn typed_take_failure_preserves_the_completion() {
    typed_take_check();
}

#[test]
fn lib_typed_take_failure_preserves_the_completion() {
    typed_take_check();
}

#[test]
fn failed_result_remains_available_for_owned_error_take() {
    let mut bridge = Bridge::new();
    let failure = BridgeError::from_service_error(&opendal::Error::new(opendal::ErrorKind::NotFound, "missing"));
    let task = insert(&mut bridge, Resource::Task(Task::Ready(Completion::Read(Err(failure)), None)));
    let completion = bridge.task_take(task);
    assert_ne!(completion, 0);
    assert_eq!(bridge.completion_status(completion), 7);
    assert_eq!(bridge.completion_take_buffer(completion), 0);
    assert_eq!(bridge.last_error_code(), 7);
    let error = bridge.completion_take_error(completion);
    assert_ne!(error, 0);
    assert_eq!(bridge.error_code(error), 7);
    assert_eq!(bridge.error_release(error), STATUS_OK);
    assert_eq!(bridge.task_release(task), STATUS_OK);
    assert_eq!(bridge.arena.live, 0);
}

#[test]
fn owned_completion_error_snapshot_is_isolated_from_later_sticky_errors() {
    let mut bridge = Bridge::new();
    let failure = BridgeError::from_service_error(&opendal::Error::new(opendal::ErrorKind::NotFound, "missing"));
    let completion = insert(&mut bridge, Resource::Completion(Completion::Read(Err(failure))));

    assert_eq!(bridge.completion_take_buffer(completion), 0);
    assert_eq!(bridge.last_error_code(), 7);
    assert_eq!(bridge.last_error_clear(), STATUS_OK);

    let error = bridge.completion_take_error(completion);
    assert_ne!(error, 0);
    assert_eq!(bridge.error_code(error), 7);
    assert_eq!(bridge.buffer_get(0, 0), SCALAR_ERROR);
    assert_eq!(bridge.last_error_code(), 1);

    let snapshot = bridge.error_snapshot_take(error);
    let bytes = take_buffer(&mut bridge, snapshot);
    let decoded = opendal_mbt::snapshot::decode_error_snapshot(&bytes).unwrap();
    assert_eq!((decoded.kind, decoded.status, decoded.kind_name, decoded.message), (4, 1, "NotFound", "missing"));
    assert_eq!(bridge.last_error_code(), 1);
    assert_eq!(bridge.last_error_clear(), STATUS_OK);
    assert_eq!(bridge.arena.live, 0);
}

fn cancellation_inert_check() {
    let mut bridge = Bridge::new();
    let stale = insert(&mut bridge, Resource::Task(Task::Pending(None)));

    assert_eq!(bridge.task_cancel(stale), STATUS_OK);
    assert_eq!(bridge.task_state(stale), TASK_CANCELLED);
    bridge.publish_task(stale, Completion::Write(Ok(metadata(ENTRY_MODE_FILE, 0))));
    assert_eq!(bridge.task_state(stale), TASK_CANCELLED);
    assert_eq!(bridge.task_release(stale), STATUS_OK);

    let current = bridge.buffer_new();
    assert_ne!(current, 0);
    assert_ne!(current, stale);
    bridge.publish_task(stale, Completion::Write(Ok(metadata(ENTRY_MODE_FILE, 0))));
    assert_eq!(bridge.buffer_len(current), 0);
    assert_eq!(bridge.buffer_release(current), STATUS_OK);
    assert_eq!(bridge.arena.live, 0);
}

#[test]
fn cancellation_and_release_make_late_completion_inert() {
    cancellation_inert_check();
}

#[test]
fn lib_cancellation_and_release_make_late_completion_inert() {
    cancellation_inert_check();
}

fn cancellation_wins_check() {
    let mut bridge = Bridge::new();
    let task = insert(
        &mut bridge,
        Resource::Task(Task::Ready(Completion::Write(Ok(metadata(ENTRY_MODE_FILE, 0))), None)),
    );
    assert_eq!(bridge.task_cancel(task), STATUS_OK);
    assert_eq!(bridge.task_state(task), TASK_CANCELLED);
    assert_eq!(bridge.task_take(task), 0);
    assert_eq!(bridge.task_release(task), STATUS_OK);
    assert_eq!(bridge.arena.live, 0);
}

#[test]
fn cancellation_wins_over_an_unclaimed_ready_result() {
    cancellation_wins_check();
}

#[test]
fn lib_cancellation_wins_over_an_unclaimed_ready_result() {
    cancellation_wins_check();
}

fn teardown_check() {
    let mut bridge = Bridge::new();
    let task = insert(&mut bridge, Resource::Task(Task::Pending(None)));

    assert_eq!(bridge.teardown(), STATUS_OK);
    assert_eq!(bridge.teardown(), STATUS_OK);
    bridge.publish_task(task, Completion::Write(Ok(metadata(ENTRY_MODE_FILE, 0))));
    assert_eq!(bridge.arena.live, 0);

    assert_eq!(bridge.buffer_new(), 0);
    assert_eq!(bridge.last_error_code(), 14);
    assert_eq!(bridge.last_error_clear(), STATUS_OK);
    assert_eq!(bridge.buffer_new_sized(16), 0);
    assert_eq!(bridge.last_error_code(), 14);
    assert_eq!(bridge.operator_new_memory(), 0);
    assert_eq!(bridge.last_error_code(), 14);
    assert_eq!(bridge.registered_schemes(), 0);
    assert_eq!(bridge.last_error_code(), 14);
    assert_eq!(bridge.last_error_take(), 0);
    assert_eq!(bridge.arena.live, 0);
}

#[test]
fn teardown_is_permanent_and_late_completion_cannot_revive_state() {
    teardown_check();
}

#[test]
fn lib_teardown_is_permanent_and_late_completion_cannot_revive_state() {
    teardown_check();
}

#[test]
fn explicit_eof_is_non_consuming_and_distinguishes_empty_values() {
    let mut bridge = Bridge::new();
    let eof = insert(&mut bridge, Resource::Completion(Completion::ReadStreamNext(Ok(None))));
    assert_eq!(bridge.completion_is_end(eof), 1);
    assert_eq!(bridge.completion_is_end(eof), 1);
    assert_eq!(bridge.completion_kind(eof), COMPLETION_READER_NEXT);
    assert_eq!(bridge.completion_take_buffer(eof), 0);

    let empty = insert(&mut bridge, Resource::Completion(Completion::ReadStreamNext(Ok(Some(Vec::new())))));
    assert_eq!(bridge.completion_is_end(empty), 0);
    assert_eq!(bridge.completion_is_end(empty), 0);
    let buffer = bridge.completion_take_buffer(empty);
    assert_ne!(buffer, 0);
    assert_eq!(bridge.buffer_len(buffer), 0);
    assert_eq!(bridge.buffer_release(buffer), STATUS_OK);

    let lister_eof = insert(&mut bridge, Resource::Completion(Completion::ListerNext(Ok(None))));
    assert_eq!(bridge.completion_is_end(lister_eof), 1);
    assert_eq!(bridge.completion_is_end(lister_eof), 1);
    assert_eq!(bridge.completion_take_entry_list(lister_eof), 0);
    assert_eq!(bridge.arena.live, 0);
}

#[test]
fn metadata_completion_snapshot_take_supports_write_and_stat() {
    for completion in [
        Completion::Write(Ok(metadata(ENTRY_MODE_FILE, 3))),
        Completion::Stat(Ok(metadata(ENTRY_MODE_DIRECTORY, 4))),
    ] {
        let mut bridge = Bridge::new();
        let completion = insert(&mut bridge, Resource::Completion(completion));

        let snapshot = bridge.completion_take_metadata_snapshot(completion);

        assert_ne!(snapshot, 0);
        assert!(bridge.arena.typed(completion, ResourceKind::Completion).is_err());
        assert_eq!(&take_buffer(&mut bridge, snapshot)[0..4], b"ODM1");
        assert_eq!(bridge.arena.live, 0);
    }
}

#[test]
fn metadata_completion_snapshot_take_is_failure_atomic_without_capacity() {
    let mut bridge = Bridge::new();
    let completion = full_arena_with(
        &mut bridge,
        Resource::Completion(Completion::Stat(Ok(metadata(ENTRY_MODE_FILE, 0)))),
    );

    assert_eq!(bridge.completion_take_metadata_snapshot(completion), 0);
    assert_eq!(bridge.completion_kind(completion), COMPLETION_STAT);
}

#[test]
fn completion_take_metadata_moves_stat_results() {
    let mut bridge = Bridge::new();
    let completion = insert(&mut bridge, Resource::Completion(Completion::Stat(Ok(metadata(ENTRY_MODE_FILE, 0x1_0000_0005)))));
    let handle = bridge.completion_take_metadata(completion);
    assert_ne!(handle, 0);
    assert_eq!(bridge.metadata_content_length(handle, false), 5);
    assert_eq!(bridge.metadata_content_length(handle, true), 1);
    assert_eq!(bridge.metadata_is_file(handle), 1);
    assert_eq!(bridge.metadata_mode(handle), ENTRY_MODE_FILE as i32);
    assert_eq!(bridge.metadata_release(handle), STATUS_OK);
    assert_eq!(bridge.arena.live, 0);
}

#[test]
fn last_error_take_moves_the_sticky_error_into_a_handle() {
    let mut bridge = Bridge::new();
    assert_eq!(bridge.last_error_take(), 0);
    assert_eq!(bridge.buffer_len(12345), SCALAR_ERROR);
    let error = bridge.last_error_take();
    assert_ne!(error, 0);
    assert_eq!(bridge.last_error_code(), 0);
    assert_eq!(bridge.error_code(error), 1);
    let message = bridge.error_message(error);
    assert_eq!(take_buffer(&mut bridge, message), b"invalid or stale handle 12345".to_vec());
    assert_eq!(bridge.error_release(error), STATUS_OK);
    assert_eq!(bridge.arena.live, 0);
}

#[test]
fn wrong_completion_kinds_are_reported_with_labels() {
    let mut bridge = Bridge::new();
    let completion = insert(&mut bridge, Resource::Completion(Completion::WriterWrite(Ok(()))));
    assert_eq!(bridge.completion_kind(completion), COMPLETION_WRITER_WRITE);
    assert_eq!(bridge.completion_is_end(completion), SCALAR_ERROR);
    let error = bridge.last_error_take();
    let message = bridge.error_message(error);
    assert_eq!(
        take_buffer(&mut bridge, message),
        format!("handle {completion} contains non-next completion, expected next completion").into_bytes()
    );
    assert_eq!(bridge.completion_take_error(completion), 0);
    assert_eq!(bridge.last_error_code(), 2);
}
