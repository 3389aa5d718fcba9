use libmapper_rs::constants::{dir_code, type_code, MprDir, MprType};
use libmapper_rs::device::MappableType;

#[test]
fn each_supported_type_registers_its_tag() {
    assert_eq!(<i32 as MappableType>::get_mpr_type(), MprType::Int32);
    assert_eq!(<i64 as MappableType>::get_mpr_type(), MprType::Int64);
    assert_eq!(<MprType as MappableType>::get_mpr_type(), MprType::Type);
}

#[test]
fn bit_patterns_round_trip_for_every_supported_type() {
    for v in [0i32, 1, -1, i32::MIN, i32::MAX] {
        assert_eq!(<i32 as MappableType>::from_bits(v.to_bits()), v);
    }
    for v in [0i64, 1, -1, i64::MIN, i64::MAX] {
        assert_eq!(<i64 as MappableType>::from_bits(v.to_bits()), v);
    }
    for t in [MprType::Int32, MprType::Str, MprType::Dbl, MprType::Null] {
        assert_eq!(<MprType as MappableType>::from_bits(t.to_bits()), t);
    }
}

#[test]
fn foreign_codes_match_the_native_tables() {
    assert_eq!(type_code(MprType::Dev), 0x01);
    assert_eq!(type_code(MprType::Sig), 0x06);
    assert_eq!(type_code(MprType::MapObj), 0x18);
    assert_eq!(type_code(MprType::Int32), 0x69);
    assert_eq!(type_code(MprType::Str), 0x73);
    assert_eq!(dir_code(MprDir::In), 1);
    assert_eq!(dir_code(MprDir::Out), 2);
    assert_eq!(dir_code(MprDir::Any), 3);
}
