use libmapper_rs::constants::{MprDir, MprType};
use libmapper_rs::device::{Device, MappableType};
use libmapper_rs::signal::SignalError;

#[test]
fn signal_reports_type_and_vector_length() {
    let dev = Device::create("rig");
    let sig = dev.create_vector_signal::<i64>("s", MprDir::Out, 4);
    assert_eq!(sig.get_type(), MprType::Int64);
    assert_eq!(sig.get_vector_length(), 4);
    let single = dev.create_signal::<i32>("t", MprDir::In);
    assert_eq!(single.get_type(), MprType::Int32);
    assert_eq!(single.get_vector_length(), 1);
}

#[test]
fn get_value_before_any_set_is_no_value() {
    let dev = Device::create("rig");
    let sig = dev.create_signal::<i32>("s", MprDir::Out);
    assert!(matches!(sig.get_value_single::<i32>(), Err(SignalError::NoValue)));
    assert!(matches!(sig.get_value::<i32>(), Err(SignalError::NoValue)));
}

#[test]
fn value_type_mismatch_is_wrong_type() {
    let dev = Device::create("rig");
    let mut sig = dev.create_signal::<i32>("s", MprDir::Out);
    assert!(matches!(sig.set_value_single::<i64>(&1), Err(SignalError::WrongType)));
    assert!(matches!(sig.set_value::<i64>(&[1]), Err(SignalError::WrongType)));
    sig.set_value_single::<i32>(&5).unwrap();
    assert!(matches!(sig.get_value_single::<i64>(), Err(SignalError::WrongType)));
    assert!(matches!(sig.get_value::<i64>(), Err(SignalError::WrongType)));
}

#[test]
fn set_value_with_wrong_length_fails() {
    let dev = Device::create("rig");
    let mut sig = dev.create_vector_signal::<i32>("vec", MprDir::Out, 3);
    assert!(matches!(
        sig.set_value::<i32>(&[1, 2]),
        Err(SignalError::WrongLengthArg)
    ));
    assert!(matches!(
        sig.set_value::<i32>(&[1, 2, 3, 4]),
        Err(SignalError::WrongLengthArg)
    ));
    // A failed set leaves the signal without a value.
    assert!(matches!(sig.get_value::<i32>(), Err(SignalError::NoValue)));
}

#[test]
fn vector_value_round_trip() {
    let dev = Device::create("rig");
    let mut sig = dev.create_vector_signal::<i32>("vec", MprDir::Out, 3);
    sig.set_value::<i32>(&[7, -8, 9]).unwrap();
    let (values, _time) = sig.get_value::<i32>().unwrap();
    assert_eq!(values, vec![7, -8, 9]);
}

#[test]
fn single_value_round_trip() {
    let dev = Device::create("rig");
    let mut sig = dev.create_signal::<i64>("s", MprDir::Out);
    sig.set_value_single::<i64>(&-42).unwrap();
    let (value, _time) = sig.get_value_single::<i64>().unwrap();
    assert_eq!(value, -42);
}

#[test]
fn single_set_on_vector_signal_touches_first_element_only() {
    let dev = Device::create("rig");
    let mut sig = dev.create_vector_signal::<i32>("vec", MprDir::Out, 3);
    sig.set_value_single::<i32>(&5).unwrap();
    let (values, _time) = sig.get_value::<i32>().unwrap();
    assert_eq!(values, vec![5, 0, 0]);
    sig.set_value::<i32>(&[1, 2, 3]).unwrap();
    sig.set_value_single::<i32>(&9).unwrap();
    let (values, _time) = sig.get_value::<i32>().unwrap();
    assert_eq!(values, vec![9, 2, 3]);
}

#[test]
fn status_flags_follow_local_sets_and_reset_on_query() {
    let dev = Device::create("rig");
    let mut sig = dev.create_signal::<i32>("s", MprDir::Out);
    let st = sig.get_status();
    assert!(!st.has_value());
    assert!(!st.is_active());
    assert!(!st.was_set_local());
    assert!(!st.was_set_remote());

    sig.set_value_single::<i32>(&1).unwrap();
    let st = sig.get_status();
    assert!(st.has_value());
    assert!(st.is_active());
    assert!(st.was_set_local());
    assert!(!st.was_set_remote());

    // The two set bits are a destructive read; the value itself stays.
    let st = sig.get_status();
    assert!(st.has_value());
    assert!(st.is_active());
    assert!(!st.was_set_local());
    assert!(!st.was_set_remote());
}

#[test]
fn remote_update_sets_the_remote_flag_and_the_value() {
    let dev = Device::create("rig");
    let mut sig = dev.create_signal::<i32>("s", MprDir::In);
    sig.record_remote_update(vec![17i32.to_bits()], 99);
    let st = sig.get_status();
    assert!(st.was_set_remote());
    assert!(!st.was_set_local());
    assert!(st.has_value());
    let (value, time) = sig.get_value_single::<i32>().unwrap();
    assert_eq!(value, 17);
    assert_eq!(time, 99);
}

#[test]
fn owned_signal_release_asks_for_exactly_one_foreign_free() {
    let dev = Device::create("rig");
    let sig = dev.create_signal::<i32>("s", MprDir::Out);
    assert!(sig.release());
}
