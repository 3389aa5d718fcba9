use libmapper_rs::constants::{MprDir, MprProp, MprType};
use libmapper_rs::device::Device;
use libmapper_rs::graph::{Graph, SignalMap};
use libmapper_rs::object::MapperObject;

#[test]
fn subscribe_to_all_devices_folds_the_type_mask() {
    let graph = Graph::create();
    let req = graph.subscribe(None, &[MprType::Dev, MprType::Sig]);
    assert!(req.all_devices);
    assert_eq!(req.type_mask, 0x07);
}

#[test]
fn subscribe_to_one_device_is_scoped() {
    let graph = Graph::create();
    let dev = Device::create("watched");
    let req = graph.subscribe(Some(dev), &[MprType::MapObj]);
    assert!(!req.all_devices);
    assert_eq!(req.type_mask, 0x18);
}

#[test]
fn subscribe_with_no_types_has_an_empty_mask() {
    let graph = Graph::create();
    let req = graph.subscribe(None, &[]);
    assert!(req.all_devices);
    assert_eq!(req.type_mask, 0);
}

#[test]
fn map_lifecycle_created_pushed_ready() {
    let dev = Device::create("rig");
    let src = dev.create_signal::<i32>("out", MprDir::Out);
    let dst = dev.create_signal::<i32>("in", MprDir::In);
    let mut map = SignalMap::create(&src, &dst);
    assert!(!map.is_pushed());
    assert!(!map.is_ready());
    map.push();
    assert!(map.is_pushed());
    assert!(!map.is_ready());
    map.record_ready();
    assert!(map.is_ready());
    assert!(map.release());
}

#[test]
fn map_release_before_push_discards_the_proposal() {
    let dev = Device::create("rig");
    let src = dev.create_signal::<i32>("out", MprDir::Out);
    let dst = dev.create_signal::<i32>("in", MprDir::In);
    let map = SignalMap::create(&src, &dst);
    assert!(map.release());
}

#[test]
fn map_expression_is_a_string_property() {
    let dev = Device::create("rig");
    let src = dev.create_signal::<i32>("out", MprDir::Out);
    let dst = dev.create_signal::<i32>("in", MprDir::In);
    let mut map = SignalMap::create(&src, &dst);
    map.set_expr("y=x*2");
    assert_eq!(map.get_property_str(MprProp::Expr), Ok(String::from("y=x*2")));
    assert_eq!(MapperObject::get_type(&map), MprType::MapObj);
}
