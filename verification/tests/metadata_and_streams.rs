use futures_util::FutureExt;
use opendal_mbt::bridge::Bridge;
use opendal_mbt::codes::{
    COMPLETION_WRITER_WRITE, ENTRY_MODE_FILE, ERROR_RESOURCE_BUSY, METADATA_LAST_MODIFIED_PRESENT, METADATA_SNAPSHOT_HEADER_LENGTH, STATUS_OK, TASK_CANCELLED, TASK_READY,
};
use opendal_mbt::error::BridgeError;
use opendal_mbt::labels::ResourceKind;
use opendal_mbt::metadata::{metadata_snapshot_bytes, MetadataRecord, Timestamp};
use opendal_mbt::resources::{Completion, ListerState, ReadStreamState, Resource, ResourceLease, ResourceUpdate, Task, WriterState, WriterUpdate};
use opendal_mbt::streams::{reserve_lister_next, reserve_read_stream_next, reserve_writer_call, writer_abort_state, writer_finish_state};

fn word(snapshot: &[u8], offset: usize) -> u32 {
    u32::from_le_bytes(snapshot[offset..offset + 4].try_into().unwrap())
}

fn word64(snapshot: &[u8], offset: usize) -> u64 {
    u64::from_le_bytes(snapshot[offset..offset + 8].try_into().unwrap())
}

fn empty_metadata() -> MetadataRecord {
    MetadataRecord {
        mode: 0,
        is_current: None,
        is_deleted: false,
        content_length: 0,
        last_modified: None,
        cache_control: None,
        content_disposition: None,
        content_encoding: None,
        content_md5: None,
        content_type: None,
        etag: None,
        version: None,
    }
}

fn insert(bridge: &mut Bridge, resource: Resource) -> u32 {
    bridge.arena.insert(resource).unwrap()
}

fn memory_writer(path: &str) -> opendal::Writer {
    let operator = opendal::Operator::new(opendal::services::Memory::default()).unwrap();
    operator.writer(path).now_or_never().unwrap().unwrap()
}

fn writer_state_is(bridge: &Bridge, handle: u32, check: impl Fn(&WriterState) -> bool) -> bool {
    match bridge.arena.typed(handle, ResourceKind::Writer) {
        Ok(Resource::Writer(state)) => check(state),
        _ => false,
    }
}

#[test]
fn metadata_snapshot_encodes_the_complete_native_shaped_contract() {
    let metadata = MetadataRecord {
        mode: ENTRY_MODE_FILE,
        is_current: Some(false),
        is_deleted: true,
        content_length: u64::MAX,
        last_modified: Some(Timestamp { seconds: 123, subsec_nanos: 456_789 }),
        cache_control: Some(b"cache".to_vec()),
        content_disposition: Some(b"disposition".to_vec()),
        content_encoding: Some(b"encoding".to_vec()),
        content_md5: Some(b"md5".to_vec()),
        content_type: Some(b"type".to_vec()),
        etag: Some(b"etag".to_vec()),
        version: Some(b"version".to_vec()),
    };

    let snapshot = metadata_snapshot_bytes(&metadata).ok().unwrap();

    assert_eq!(&snapshot[0..4], b"ODM1");
    assert_eq!(word(&snapshot, 4), 1);
    assert_eq!(word64(&snapshot, 8), (1 << 9) - 1);
    assert_eq!(word(&snapshot, 16), ENTRY_MODE_FILE);
    assert_eq!(word(&snapshot, 20), 0);
    assert_eq!(word(&snapshot, 24), 1);
    assert_eq!(word(&snapshot, 28), 0);
    assert_eq!(word64(&snapshot, 32), u64::MAX);
    assert_eq!(word64(&snapshot, 40) as i64, 123);
    assert_eq!(word(&snapshot, 48), 456_789);
    assert_eq!(word(&snapshot, 52), 0);
    assert_eq!(
        (0..7).map(|index| word(&snapshot, 56 + index * 4)).collect::<Vec<_>>(),
        vec![5, 11, 8, 3, 4, 4, 7]
    );
    assert_eq!(&snapshot[METADATA_SNAPSHOT_HEADER_LENGTH..], b"cachedispositionencodingmd5typeetagversion");
}

#[test]
fn metadata_snapshot_uses_canonical_zeroes_for_absent_values() {
    let snapshot = metadata_snapshot_bytes(&empty_metadata()).ok().unwrap();

    assert_eq!(snapshot.len(), METADATA_SNAPSHOT_HEADER_LENGTH);
    assert_eq!(word64(&snapshot, 8), 0);
    assert!(snapshot[16..].iter().all(|byte| *byte == 0));
}

#[test]
fn metadata_snapshot_canonicalizes_pre_epoch_fractional_timestamps() {
    let mut metadata = empty_metadata();
    metadata.last_modified = Some(Timestamp { seconds: -4, subsec_nanos: -1 });

    let snapshot = metadata_snapshot_bytes(&metadata).ok().unwrap();

    assert_eq!(word64(&snapshot, 8), METADATA_LAST_MODIFIED_PRESENT);
    assert_eq!(word64(&snapshot, 40) as i64, -5);
    assert_eq!(word(&snapshot, 48), 999_999_999);
}

#[test]
fn metadata_snapshot_rejects_timestamps_without_a_canonical_form() {
    let mut metadata = empty_metadata();
    metadata.last_modified = Some(Timestamp { seconds: i64::MIN, subsec_nanos: -1 });
    assert!(matches!(metadata_snapshot_bytes(&metadata), Err(BridgeError::LengthOverflow)));
}

#[test]
fn resource_busy_closed_and_error_states_are_explicit() {
    let mut bridge = Bridge::new();
    let reader = insert(&mut bridge, Resource::ReadStream(ReadStreamState::Busy(1)));
    let writer = insert(&mut bridge, Resource::Writer(WriterState::Busy(2)));
    let lister = insert(&mut bridge, Resource::Lister(ListerState::Busy(3)));
    assert!(matches!(reserve_read_stream_next(&mut bridge, reader), Err(BridgeError::ResourceBusy { handle }) if handle == reader));
    assert!(matches!(reserve_writer_call(&mut bridge, writer), Err(BridgeError::ResourceBusy { handle }) if handle == writer));
    assert!(matches!(reserve_lister_next(&mut bridge, lister), Err(BridgeError::ResourceBusy { handle }) if handle == lister));
    assert_eq!(BridgeError::ResourceBusy { handle: writer }.kind(), ERROR_RESOURCE_BUSY);

    bridge.arena.replace(reader, Resource::ReadStream(ReadStreamState::End));
    bridge.arena.replace(writer, Resource::Writer(WriterState::Aborted));
    bridge.arena.replace(lister, Resource::Lister(ListerState::Failed));
    assert!(matches!(reserve_read_stream_next(&mut bridge, reader), Err(BridgeError::ResourceClosed { .. })));
    assert!(matches!(reserve_writer_call(&mut bridge, writer), Err(BridgeError::ResourceClosed { .. })));
    assert!(matches!(reserve_lister_next(&mut bridge, lister), Err(BridgeError::ResourceClosed { .. })));
    assert_eq!(bridge.read_stream_release(reader), STATUS_OK);
    assert_eq!(bridge.writer_release(writer), STATUS_OK);
    assert_eq!(bridge.lister_release(lister), STATUS_OK);
    assert_eq!(bridge.arena.live, 0);
}

#[test]
fn cancellation_and_release_terminalize_leased_resources_without_resurrection() {
    let mut bridge = Bridge::new();
    let writer_handle = insert(&mut bridge, Resource::Writer(WriterState::Busy(1)));
    let lease = ResourceLease { handle: writer_handle, kind: ResourceKind::Writer, operation: 1 };
    let task = insert(&mut bridge, Resource::Task(Task::Pending(Some(lease))));
    assert_eq!(bridge.task_cancel(task), STATUS_OK);
    assert!(writer_state_is(&bridge, writer_handle, |s| matches!(s, WriterState::Failed)));
    bridge.publish_resource_task(
        task,
        lease,
        ResourceUpdate::Writer(WriterUpdate::Open(memory_writer("cancelled"))),
        Completion::WriterWrite(Ok(())),
    );
    assert_eq!(bridge.task_state(task), TASK_CANCELLED);
    assert!(writer_state_is(&bridge, writer_handle, |s| matches!(s, WriterState::Failed)));
    assert_eq!(bridge.task_release(task), STATUS_OK);
    assert_eq!(bridge.writer_release(writer_handle), STATUS_OK);

    let stale = insert(&mut bridge, Resource::Writer(WriterState::Busy(2)));
    let stale_lease = ResourceLease { handle: stale, kind: ResourceKind::Writer, operation: 2 };
    let late_task = insert(&mut bridge, Resource::Task(Task::Pending(Some(stale_lease))));
    assert_eq!(bridge.writer_release(stale), STATUS_OK);
    let current = bridge.buffer_new();
    assert_ne!(current, stale);
    bridge.publish_resource_task(
        late_task,
        stale_lease,
        ResourceUpdate::Writer(WriterUpdate::Open(memory_writer("late"))),
        Completion::WriterWrite(Ok(())),
    );
    assert_eq!(bridge.buffer_len(current), 0);
    assert_eq!(bridge.task_state(late_task), TASK_READY);
    let completion = bridge.task_take(late_task);
    assert_eq!(bridge.completion_kind(completion), COMPLETION_WRITER_WRITE);
    assert_eq!(bridge.completion_release(completion), STATUS_OK);
    assert_eq!(bridge.task_release(late_task), STATUS_OK);
    assert_eq!(bridge.buffer_release(current), STATUS_OK);
    assert_eq!(bridge.arena.live, 0);
}

#[test]
fn old_ready_task_cannot_terminalize_a_newer_writer_operation() {
    for cancel_old_task in [true, false] {
        let mut bridge = Bridge::new();
        let writer_handle = insert(&mut bridge, Resource::Writer(WriterState::Open(memory_writer("operation-token"), 0)));

        let (task_a, lease_a, writer_a) = reserve_writer_call(&mut bridge, writer_handle).ok().unwrap();
        bridge.publish_resource_task(task_a, lease_a, ResourceUpdate::Writer(WriterUpdate::Open(writer_a)), Completion::WriterWrite(Ok(())));
        assert_eq!(bridge.task_state(task_a), TASK_READY);

        let (task_b, lease_b, writer_b) = reserve_writer_call(&mut bridge, writer_handle).ok().unwrap();
        assert_ne!(lease_a.operation, lease_b.operation);
        assert!(writer_state_is(&bridge, writer_handle, |s| matches!(s, WriterState::Busy(op) if *op == lease_b.operation)));

        if cancel_old_task {
            assert_eq!(bridge.task_cancel(task_a), STATUS_OK);
        } else {
            assert_eq!(bridge.task_release(task_a), STATUS_OK);
        }
        assert!(writer_state_is(&bridge, writer_handle, |s| matches!(s, WriterState::Busy(op) if *op == lease_b.operation)));

        bridge.publish_resource_task(task_b, lease_b, ResourceUpdate::Writer(WriterUpdate::Open(writer_b)), Completion::WriterWrite(Ok(())));
        assert!(writer_state_is(&bridge, writer_handle, |s| matches!(s, WriterState::Open(_, op) if *op == lease_b.operation)));
        let completion_b = bridge.task_take(task_b);
        assert_eq!(bridge.completion_kind(completion_b), COMPLETION_WRITER_WRITE);
        assert_eq!(bridge.completion_release(completion_b), STATUS_OK);
        if cancel_old_task {
            assert_eq!(bridge.task_release(task_a), STATUS_OK);
        }
        assert_eq!(bridge.task_release(task_b), STATUS_OK);
        assert_eq!(bridge.writer_release(writer_handle), STATUS_OK);
        assert_eq!(bridge.arena.live, 0);
    }
}

#[test]
fn failed_resource_completion_is_owned_and_terminal() {
    let mut bridge = Bridge::new();
    let writer = insert(&mut bridge, Resource::Writer(WriterState::Busy(1)));
    let lease = ResourceLease { handle: writer, kind: ResourceKind::Writer, operation: 1 };
    let task = insert(&mut bridge, Resource::Task(Task::Pending(Some(lease))));
    let failure = BridgeError::from_service_error(&opendal::Error::new(opendal::ErrorKind::Unexpected, "write failed"));
    bridge.publish_resource_task(task, lease, ResourceUpdate::Writer(WriterUpdate::Failed), Completion::WriterWrite(Err(failure)));
    assert!(writer_state_is(&bridge, writer, |s| matches!(s, WriterState::Failed)));
    let completion = bridge.task_take(task);
    assert_ne!(completion, 0);
    assert_eq!(bridge.completion_status(completion), 8);
    let error = bridge.completion_take_error(completion);
    assert_ne!(error, 0);
    assert!(matches!(reserve_writer_call(&mut bridge, writer), Err(BridgeError::ResourceClosed { .. })));
    assert!(matches!(writer_finish_state(&bridge, writer), Err(BridgeError::ResourceClosed { .. })));
    assert!(matches!(writer_abort_state(&bridge, writer), Err(BridgeError::ResourceClosed { .. })));
    assert_eq!(bridge.error_release(error), STATUS_OK);
    assert_eq!(bridge.task_release(task), STATUS_OK);
    assert_eq!(bridge.writer_release(writer), STATUS_OK);
    assert_eq!(bridge.arena.live, 0);
}

#[test]
fn typed_open_completions_transfer_each_opendal_resource_once() {
    let mut bridge = Bridge::new();
    let completion = insert(&mut bridge, Resource::Completion(Completion::OpenWriter(Ok(memory_writer("tree/value")))));
    assert_eq!(bridge.completion_take_lister(completion), 0);
    assert_eq!(bridge.last_error_code(), 2);
    let writer = bridge.completion_take_writer(completion);
    assert_ne!(writer, 0);
    assert_eq!(bridge.completion_take_writer(completion), 0);
    assert_eq!(bridge.last_error_code(), 1);
    assert!(writer_state_is(&bridge, writer, |s| matches!(s, WriterState::Open(_, 0))));
    assert!(matches!(writer_finish_state(&bridge, writer), Ok(None)));
    assert!(matches!(writer_abort_state(&bridge, writer), Ok(false)));
    assert_eq!(bridge.writer_release(writer), STATUS_OK);
    assert_eq!(bridge.arena.live, 0);
}

#[test]
fn cancellation_terminalizes_reader_and_lister_leases() {
    let mut bridge = Bridge::new();
    let reader = insert(&mut bridge, Resource::ReadStream(ReadStreamState::Busy(1)));
    let lister = insert(&mut bridge, Resource::Lister(ListerState::Busy(2)));
    let reader_lease = ResourceLease { handle: reader, kind: ResourceKind::ReadStream, operation: 1 };
    let lister_lease = ResourceLease { handle: lister, kind: ResourceKind::Lister, operation: 2 };
    let reader_task = insert(&mut bridge, Resource::Task(Task::Pending(Some(reader_lease))));
    let lister_task = insert(&mut bridge, Resource::Task(Task::Pending(Some(lister_lease))));
    assert_eq!(bridge.task_cancel(reader_task), STATUS_OK);
    assert_eq!(bridge.task_release(lister_task), STATUS_OK);
    assert!(matches!(bridge.arena.typed(reader, ResourceKind::ReadStream), Ok(Resource::ReadStream(ReadStreamState::Failed))));
    assert!(matches!(bridge.arena.typed(lister, ResourceKind::Lister), Ok(Resource::Lister(ListerState::Failed))));
    assert!(matches!(reserve_read_stream_next(&mut bridge, reader), Err(BridgeError::ResourceClosed { .. })));
    assert!(matches!(reserve_lister_next(&mut bridge, lister), Err(BridgeError::ResourceClosed { .. })));
    assert_eq!(bridge.task_release(reader_task), STATUS_OK);
    assert_eq!(bridge.read_stream_release(reader), STATUS_OK);
    assert_eq!(bridge.lister_release(lister), STATUS_OK);
    assert_eq!(bridge.arena.live, 0);
}

#[test]
fn writer_steps_settle_their_writer() {
    let (update, completion) = opendal_mbt::streams::writer_finish_step(Ok(empty_metadata()));
    assert!(matches!(update, ResourceUpdate::Writer(WriterUpdate::Finished(_))));
    assert!(matches!(completion, Completion::WriterFinish(Ok(_))));
    let (update, completion) = opendal_mbt::streams::writer_abort_step(Err(BridgeError::AllocationFailed));
    assert!(matches!(update, ResourceUpdate::Writer(WriterUpdate::Failed)));
    assert!(matches!(completion, Completion::WriterAbort(Err(BridgeError::AllocationFailed))));
}
