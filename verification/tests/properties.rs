use libmapper_rs::constants::{MprDir, MprProp, MprType};
use libmapper_rs::device::Device;
use libmapper_rs::object::{MapperObject, PropertyError};

#[test]
fn scalar_property_round_trip() {
    let mut dev = Device::create("rig");
    dev.set_property::<i32>(MprProp::Port, 9000);
    assert_eq!(dev.get_property::<i32>(MprProp::Port), Ok(9000));
}

#[test]
fn scalar_property_round_trip_negative_values() {
    let mut dev = Device::create("rig");
    dev.set_property::<i32>(MprProp::Min, -2147483648);
    dev.set_property::<i64>(MprProp::Max, -1);
    assert_eq!(dev.get_property::<i32>(MprProp::Min), Ok(-2147483648));
    assert_eq!(dev.get_property::<i64>(MprProp::Max), Ok(-1));
}

#[test]
fn type_tag_as_property_value() {
    let mut dev = Device::create("rig");
    dev.set_property::<MprType>(MprProp::Type, MprType::Int64);
    assert_eq!(dev.get_property::<MprType>(MprProp::Type), Ok(MprType::Int64));
}

#[test]
fn get_property_type_mismatch() {
    let mut dev = Device::create("rig");
    dev.set_property::<i32>(MprProp::Port, 7);
    assert_eq!(
        dev.get_property::<i64>(MprProp::Port),
        Err(PropertyError::TypeMismatch)
    );
    assert_eq!(
        dev.get_property::<MprType>(MprProp::Port),
        Err(PropertyError::TypeMismatch)
    );
}

#[test]
fn get_property_not_found() {
    let dev = Device::create("rig");
    assert_eq!(
        dev.get_property::<i32>(MprProp::Port),
        Err(PropertyError::PropertyNotFound)
    );
}

#[test]
fn string_property_round_trip() {
    let mut dev = Device::create("rig");
    dev.set_property_str(MprProp::Unit, "meters");
    assert_eq!(dev.get_property_str(MprProp::Unit), Ok(String::from("meters")));
}

#[test]
fn string_property_missing_is_not_found() {
    // Querying a string property that was never set reports an absent
    // property, not an empty string and not a crash.
    let dev = Device::create("rig");
    let sig = dev.create_signal::<i32>("pressure", MprDir::Out);
    assert_eq!(
        sig.get_property_str(MprProp::Unit),
        Err(PropertyError::PropertyNotFound)
    );
}

#[test]
fn string_property_type_mismatch_both_ways() {
    let mut dev = Device::create("rig");
    dev.set_property::<i32>(MprProp::Port, 7);
    dev.set_property_str(MprProp::Unit, "volts");
    assert_eq!(
        dev.get_property_str(MprProp::Port),
        Err(PropertyError::TypeMismatch)
    );
    assert_eq!(
        dev.get_property::<i32>(MprProp::Unit),
        Err(PropertyError::TypeMismatch)
    );
}

#[test]
fn setting_a_property_twice_keeps_the_latest_value() {
    let mut dev = Device::create("rig");
    dev.set_property::<i32>(MprProp::Port, 1);
    dev.set_property::<i32>(MprProp::Port, 2);
    assert_eq!(dev.get_property::<i32>(MprProp::Port), Ok(2));
    dev.set_property_str(MprProp::Port, "anything");
    assert_eq!(
        dev.get_property::<i32>(MprProp::Port),
        Err(PropertyError::TypeMismatch)
    );
    assert_eq!(dev.get_property_str(MprProp::Port), Ok(String::from("anything")));
}

#[test]
fn fresh_signal_carries_name_type_and_length_properties() {
    let dev = Device::create("rig");
    let sig = dev.create_vector_signal::<i32>("knob", MprDir::Out, 3);
    assert_eq!(sig.get_property_str(MprProp::Name), Ok(String::from("knob")));
    assert_eq!(sig.get_property::<MprType>(MprProp::Type), Ok(MprType::Int32));
    assert_eq!(sig.get_property::<i32>(MprProp::Len), Ok(3));
}

#[test]
fn fresh_device_carries_its_name_property() {
    let dev = Device::create("CoolDevice");
    assert_eq!(
        dev.get_property_str(MprProp::Name),
        Ok(String::from("CoolDevice"))
    );
}

#[test]
fn object_types_of_entities() {
    let dev = Device::create("rig");
    let sig = dev.create_signal::<i64>("s", MprDir::In);
    assert_eq!(MapperObject::get_type(&dev), MprType::Dev);
    assert_eq!(MapperObject::get_type(&sig), MprType::Sig);
}
