use opendal_mbt::bridge::Bridge;
use opendal_mbt::codes::STATUS_OK;
use opendal_mbt::error::BridgeError;
use opendal_mbt::labels::ResourceKind;
use opendal_mbt::native::failure::CallFailure;
use opendal_mbt::native::registry::operator_from_registry;
use opendal_mbt::operators::{registry_arguments, InfoField};
use opendal_mbt::resources::{OperatorBuilder, Resource};
use opendal_mbt::schemes::scheme_listing;
use opendal_mbt::tasks::single_poll_outcome;

fn buffer_text(bridge: &Bridge, handle: u32) -> Vec<u8> {
    match bridge.arena.typed(handle, ResourceKind::Buffer) {
        Ok(Resource::Buffer(b)) => b.clone(),
        _ => panic!("not a buffer"),
    }
}

#[test]
fn registry_arguments_keep_each_pair_in_order() {
    let builder = OperatorBuilder {
        scheme: b"memory".to_vec(),
        config: vec![(b"root".to_vec(), b"/a".to_vec()), (b"name".to_vec(), b"b".to_vec())],
        config_bytes: 11,
    };
    let (scheme, pairs) = registry_arguments(&builder).ok().unwrap();
    assert_eq!(scheme, "memory");
    assert_eq!(pairs, vec![("root".to_string(), "/a".to_string()), ("name".to_string(), "b".to_string())]);
}

#[test]
fn registry_arguments_refuse_non_utf8_text() {
    let bad_value = OperatorBuilder { scheme: b"memory".to_vec(), config: vec![(b"root".to_vec(), vec![0xff])], config_bytes: 5 };
    assert!(matches!(registry_arguments(&bad_value), Err(BridgeError::InvalidUtf8)));
    let bad_scheme = OperatorBuilder { scheme: vec![0xc3], config: Vec::new(), config_bytes: 0 };
    assert!(matches!(registry_arguments(&bad_scheme), Err(BridgeError::InvalidUtf8)));
}

#[test]
fn scheme_listing_sorts_and_joins_exactly_the_names() {
    let names = vec!["s3".to_string(), "memory".to_string(), "fs".to_string()];
    assert_eq!(scheme_listing(&names), b"fs\nmemory\ns3".to_vec());
    assert_eq!(scheme_listing(&Vec::new()), Vec::<u8>::new());
}

#[test]
fn a_single_poll_answers_pending_when_not_ready() {
    assert!(matches!(single_poll_outcome(Some(7u32)), Ok(7)));
    assert!(matches!(single_poll_outcome::<u32>(None), Err(BridgeError::AsyncPending)));
}

#[test]
fn native_registry_builds_configured_operators() {
    let operator = operator_from_registry("memory", vec![("root".to_string(), "/native".to_string())]).ok().unwrap();
    assert_eq!(operator.info().root(), "/native/");
    match operator_from_registry("no-such-scheme", Vec::new()) {
        Err(CallFailure::Error(record)) => assert_eq!(record.message, b"operator construction failed".to_vec()),
        _ => panic!("expected a construction failure"),
    }
}

#[test]
fn memory_operator_reports_its_scheme_and_root() {
    let mut bridge = Bridge::new();
    let operator = bridge.operator_new_memory();
    assert_ne!(operator, 0);
    let scheme = bridge.operator_info_buffer(operator, InfoField::Scheme);
    let root = bridge.operator_info_buffer(operator, InfoField::Root);
    assert_eq!(buffer_text(&bridge, scheme), b"memory".to_vec());
    assert_eq!(buffer_text(&bridge, root), b"/".to_vec());
    for handle in [scheme, root] {
        assert_eq!(bridge.buffer_release(handle), STATUS_OK);
    }
    assert_eq!(bridge.operator_release(operator), STATUS_OK);
}
