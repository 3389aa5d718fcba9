use libmapper_rs::constants::{MprDir, MprType};
use libmapper_rs::device::{Device, SignalInfo};
use libmapper_rs::graph::Graph;
use libmapper_rs::util::read_list;

#[test]
fn device_without_shared_graph() {
    let dev = Device::create("solo");
    assert!(!dev.has_shared_graph());
    assert!(dev.get_graph().is_none());
    assert!(dev.release());
}

#[test]
fn device_with_shared_graph() {
    let graph = Graph::create();
    let dev = Device::create_from_graph("pooled", &graph);
    assert!(dev.has_shared_graph());
    assert!(dev.get_graph().is_some());
    assert!(dev.release());
    assert!(graph.release());
}

#[test]
fn device_readiness_is_reported_by_the_foreign_side() {
    let mut dev = Device::create("slow");
    assert!(!dev.is_ready());
    dev.poll();
    assert!(!dev.is_ready());
    dev.record_ready();
    assert!(dev.is_ready());
}

#[test]
fn poll_requests_carry_the_blocking_budget() {
    let dev = Device::create("rig");
    assert_eq!(dev.poll().timeout_ms, 0);
    assert_eq!(dev.poll_all().timeout_ms, -1);
    assert_eq!(dev.poll_and_block(10).timeout_ms, 10);
    let graph = Graph::create();
    assert_eq!(graph.poll().timeout_ms, 0);
    assert_eq!(graph.poll_and_block(250).timeout_ms, 250);
}

#[test]
fn materializing_an_empty_list_yields_nothing() {
    let dev = Device::create("rig");
    let signals = dev.get_signals(&Vec::new());
    assert!(signals.is_empty());
}

#[test]
fn materializing_a_list_keeps_order_and_disclaims_ownership() {
    let dev = Device::create("rig");
    let list = vec![
        SignalInfo { data_type: MprType::Int32, direction: MprDir::Out, vector_length: 1 },
        SignalInfo { data_type: MprType::Int64, direction: MprDir::In, vector_length: 4 },
        SignalInfo { data_type: MprType::Int32, direction: MprDir::Out, vector_length: 2 },
    ];
    let signals = dev.get_signals(&list);
    assert_eq!(signals.len(), 3);
    let types: Vec<MprType> = signals.iter().map(|s| s.get_type()).collect();
    assert_eq!(types, vec![MprType::Int32, MprType::Int64, MprType::Int32]);
    let lengths: Vec<u32> = signals.iter().map(|s| s.get_vector_length()).collect();
    assert_eq!(lengths, vec![1, 4, 2]);
    // Observed wrappers never ask for a foreign release.
    for sig in signals {
        assert!(!sig.release());
    }
}

#[test]
fn read_list_applies_the_constructor_once_per_element_in_order() {
    let list = vec![10u32, 20, 30];
    let out = read_list(&list, |x: u32| x + 1);
    assert_eq!(out, vec![11, 21, 31]);
    let empty: Vec<u32> = Vec::new();
    let nothing = read_list(&empty, |x: u32| x);
    assert!(nothing.is_empty());
}
