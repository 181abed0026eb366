use futures_util::{FutureExt, TryStreamExt};
use opendal_mbt::bridge::Bridge;
use opendal_mbt::chunks::{copy_stream_chunk, try_owned_opendal_buffer};
use opendal_mbt::codes::{CAP_READ_SUFFIX, ERROR_UNSUPPORTED, MAX_TRANSFER_CHUNK};
use opendal_mbt::operators::{check_suffix_support, ensure_suffix_is_native};
use opendal_mbt::resources::{Completion, ReadStreamCursor, ReadStreamUpdate, ResourceUpdate};
use opendal_mbt::scalars::ByteRange;
use opendal_mbt::streams::read_stream_step;

#[test]
fn owned_buffer_copies_every_byte() {
    let buffer = opendal::Buffer::from(b"hello storage".to_vec());
    let owned = try_owned_opendal_buffer(buffer).unwrap();
    assert_eq!(owned, b"hello storage".to_vec());
}

#[test]
fn owned_buffer_of_nothing_is_empty() {
    let buffer = opendal::Buffer::from(Vec::<u8>::new());
    assert!(try_owned_opendal_buffer(buffer).unwrap().is_empty());
}

#[test]
fn stream_chunk_splits_at_the_limit_and_keeps_the_rest() {
    let buffer = opendal::Buffer::from(b"abcdefgh".to_vec());
    let (chunk, rest) = copy_stream_chunk(buffer, 3).unwrap();
    assert_eq!(chunk, b"abc".to_vec());
    let rest = rest.expect("five bytes remain");
    assert_eq!(rest.to_vec(), b"defgh".to_vec());

    let (second, rest) = copy_stream_chunk(rest, 3).unwrap();
    assert_eq!(second, b"def".to_vec());
    let (third, rest) = copy_stream_chunk(rest.unwrap(), 3).unwrap();
    assert_eq!(third, b"gh".to_vec());
    assert!(rest.is_none());
}

#[test]
fn stream_chunk_takes_a_short_buffer_whole() {
    let buffer = opendal::Buffer::from(b"xy".to_vec());
    let (chunk, rest) = copy_stream_chunk(buffer, 1024).unwrap();
    assert_eq!(chunk, b"xy".to_vec());
    assert!(rest.is_none());
}

#[test]
fn stream_chunk_of_exactly_the_limit_leaves_nothing() {
    let buffer = opendal::Buffer::from(b"four".to_vec());
    let (chunk, rest) = copy_stream_chunk(buffer, 4).unwrap();
    assert_eq!(chunk, b"four".to_vec());
    assert!(rest.is_none());
}

#[test]
fn actual_reader_is_bounded_and_reaches_explicit_eof() {
    let operator = opendal::Operator::new(opendal::services::Memory::default()).unwrap();
    let data = vec![9u8; MAX_TRANSFER_CHUNK * 2 + 17];
    operator.write("large", data.clone()).now_or_never().unwrap().unwrap();
    let reader = operator
        .reader_options("large", opendal::options::ReaderOptions { chunk: Some(MAX_TRANSFER_CHUNK), ..Default::default() })
        .now_or_never()
        .unwrap()
        .unwrap();
    let stream = reader.into_stream(opendal::BytesRange::default()).now_or_never().unwrap().unwrap();
    let mut cursor = ReadStreamCursor { stream, pending: None, max_chunk: MAX_TRANSFER_CHUNK };
    let mut collected = Vec::new();
    loop {
        let next = match cursor.pending.take() {
            Some(buffer) => Some(buffer),
            None => cursor.stream.try_next().now_or_never().unwrap().unwrap(),
        };
        let chunk = match next {
            Some(buffer) => copy_stream_chunk(buffer, cursor.max_chunk).map(Some),
            None => Ok(None),
        };
        let (update, completion) = read_stream_step(cursor, chunk);
        match completion {
            Completion::ReadStreamNext(Ok(Some(chunk))) => {
                assert!(!chunk.is_empty());
                assert!(chunk.len() <= MAX_TRANSFER_CHUNK);
                collected.extend_from_slice(&chunk);
                let ResourceUpdate::ReadStream(ReadStreamUpdate::Open(next)) = update else {
                    panic!("successful chunk must reopen the stream")
                };
                cursor = next;
            }
            Completion::ReadStreamNext(Ok(None)) => {
                assert!(matches!(update, ResourceUpdate::ReadStream(ReadStreamUpdate::End)));
                break;
            }
            Completion::ReadStreamNext(Err(error)) => panic!("unexpected read error: {:?}", error),
            _ => panic!("unexpected completion kind"),
        }
    }
    assert_eq!(collected, data);
}

#[test]
fn suffix_capability_and_guard_use_the_native_memory_service() {
    let masked_memory = opendal::Operator::new(opendal::services::Memory::default()).unwrap().layer(
        opendal::layers::CapabilityOverrideLayer::new(|mut capability| {
            capability.read_with_suffix = false;
            capability
        }),
    );
    let (context, service) = masked_memory.into_parts();
    let operator = opendal::Operator::from_parts(context, service).layer(opendal::layers::SimulateLayer::default());
    assert!(operator.info().capability().read_with_suffix);
    assert!(!operator.base_service().capability_dyn().read_with_suffix);
    let suffix = ByteRange { offset: 0, length: Some(1), suffix: true };
    assert_eq!(ensure_suffix_is_native(&operator, &suffix).unwrap_err().kind(), ERROR_UNSUPPORTED);
    let plain = ByteRange { offset: 0, length: Some(1), suffix: false };
    assert!(ensure_suffix_is_native(&operator, &plain).is_ok());

    let native = opendal::Operator::new(opendal::services::Memory::default()).unwrap();
    assert!(ensure_suffix_is_native(&native, &suffix).is_ok());

    let mut bridge = Bridge::new();
    let memory = bridge.operator_new_memory();
    assert_ne!(bridge.operator_capability_word(memory, 0) & CAP_READ_SUFFIX, 0);
}

#[test]
fn suffix_support_refuses_only_emulated_suffix_reads() {
    let suffix = ByteRange { offset: 0, length: Some(4), suffix: true };
    let plain = ByteRange { offset: 2, length: None, suffix: false };
    assert_eq!(check_suffix_support(&suffix, false).unwrap_err().kind(), ERROR_UNSUPPORTED);
    assert!(check_suffix_support(&suffix, true).is_ok());
    assert!(check_suffix_support(&plain, false).is_ok());
    assert!(check_suffix_support(&plain, true).is_ok());
}
