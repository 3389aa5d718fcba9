//! The foreign library's runtime tag enums.
//!
//! The native side identifies every object category and every data type by a
//! small integer code.  This module mirrors those codes as Rust enums plus
//! the code tables the binding needs when it talks to the foreign side.

use vstd::prelude::*;

verus! {

/// Runtime type tag of the foreign library.
///
/// One enum covers both object categories (device, signal, map) and data
/// types (the data-type codes are the ASCII codes the foreign library uses).
#[derive(Clone, Copy, Debug, PartialEq, Eq, Structural)]
pub enum MprType {
    /// No type; also the tag reported for an absent property value.
    Null,
    /// A device object.
    Dev,
    /// An incoming signal object.
    SigIn,
    /// An outgoing signal object.
    SigOut,
    /// Any signal object (incoming or outgoing).
    Sig,
    /// A map viewed from its destination.
    MapIn,
    /// A map viewed from its source.
    MapOut,
    /// Any map object.
    MapObj,
    /// A graph object.
    GraphObj,
    /// The data type "type tag used as a value".
    Type,
    /// 64-bit floating point data.
    Dbl,
    /// 32-bit floating point data.
    Flt,
    /// 64-bit integer data.
    Int64,
    /// 32-bit integer data.
    Int32,
    /// String data.
    Str,
    /// Timestamp data.
    Time,
}

/// The numeric code the foreign library uses for each type tag.
///
/// Object categories are single bits so they can be combined into
/// subscription filters; data types are ASCII character codes.
pub open spec fn spec_type_code(t: MprType) -> i32 {
    match t {
        MprType::Null => 0x00,
        MprType::Dev => 0x01,
        MprType::SigIn => 0x02,
        MprType::SigOut => 0x04,
        MprType::Sig => 0x06,
        MprType::MapIn => 0x08,
        MprType::MapOut => 0x10,
        MprType::MapObj => 0x18,
        MprType::GraphObj => 0x41,
        MprType::Type => 0x63,
        MprType::Dbl => 0x64,
        MprType::Flt => 0x66,
        MprType::Int64 => 0x68,
        MprType::Int32 => 0x69,
        MprType::Str => 0x73,
        MprType::Time => 0x74,
    }
}

/// The tag a foreign type code stands for; unknown codes fall back to `Null`.
pub open spec fn spec_type_of_code(c: i32) -> MprType {
    if c == 0x01 {
        MprType::Dev
    } else if c == 0x02 {
        MprType::SigIn
    } else if c == 0x04 {
        MprType::SigOut
    } else if c == 0x06 {
        MprType::Sig
    } else if c == 0x08 {
        MprType::MapIn
    } else if c == 0x10 {
        MprType::MapOut
    } else if c == 0x18 {
        MprType::MapObj
    } else if c == 0x41 {
        MprType::GraphObj
    } else if c == 0x63 {
        MprType::Type
    } else if c == 0x64 {
        MprType::Dbl
    } else if c == 0x66 {
        MprType::Flt
    } else if c == 0x68 {
        MprType::Int64
    } else if c == 0x69 {
        MprType::Int32
    } else if c == 0x73 {
        MprType::Str
    } else if c == 0x74 {
        MprType::Time
    } else {
        MprType::Null
    }
}

/// Every type tag survives the trip through its foreign code.
pub proof fn lemma_type_code_round_trip(t: MprType)
    ensures
        spec_type_of_code(spec_type_code(t)) == t,
{
}

/// Executable form of [`spec_type_code`].
pub fn type_code(t: MprType) -> (c: i32)
    ensures
        c == spec_type_code(t),
{
    match t {
        MprType::Null => 0x00,
        MprType::Dev => 0x01,
        MprType::SigIn => 0x02,
        MprType::SigOut => 0x04,
        MprType::Sig => 0x06,
        MprType::MapIn => 0x08,
        MprType::MapOut => 0x10,
        MprType::MapObj => 0x18,
        MprType::GraphObj => 0x41,
        MprType::Type => 0x63,
        MprType::Dbl => 0x64,
        MprType::Flt => 0x66,
        MprType::Int64 => 0x68,
        MprType::Int32 => 0x69,
        MprType::Str => 0x73,
        MprType::Time => 0x74,
    }
}

/// Executable form of [`spec_type_of_code`].
pub fn type_of_code(c: i32) -> (t: MprType)
    ensures
        t == spec_type_of_code(c),
{
    if c == 0x01 {
        MprType::Dev
    } else if c == 0x02 {
        MprType::SigIn
    } else if c == 0x04 {
        MprType::SigOut
    } else if c == 0x06 {
        MprType::Sig
    } else if c == 0x08 {
        MprType::MapIn
    } else if c == 0x10 {
        MprType::MapOut
    } else if c == 0x18 {
        MprType::MapObj
    } else if c == 0x41 {
        MprType::GraphObj
    } else if c == 0x63 {
        MprType::Type
    } else if c == 0x64 {
        MprType::Dbl
    } else if c == 0x66 {
        MprType::Flt
    } else if c == 0x68 {
        MprType::Int64
    } else if c == 0x69 {
        MprType::Int32
    } else if c == 0x73 {
        MprType::Str
    } else if c == 0x74 {
        MprType::Time
    } else {
        MprType::Null
    }
}

/// Direction of a signal: whether the device produces or consumes its data.
#[derive(Clone, Copy, Debug, PartialEq, Eq, Structural)]
pub enum MprDir {
    /// Direction not determined.
    Undefined,
    /// The signal consumes data (input).
    In,
    /// The signal produces data (output).
    Out,
    /// Either direction.
    Any,
}

/// The numeric code the foreign library uses for each direction.
pub open spec fn spec_dir_code(d: MprDir) -> i32 {
    match d {
        MprDir::Undefined => 0,
        MprDir::In => 1,
        MprDir::Out => 2,
        MprDir::Any => 3,
    }
}

/// Executable form of [`spec_dir_code`].
pub fn dir_code(d: MprDir) -> (c: i32)
    ensures
        c == spec_dir_code(d),
{
    match d {
        MprDir::Undefined => 0,
        MprDir::In => 1,
        MprDir::Out => 2,
        MprDir::Any => 3,
    }
}

/// Key of a typed property attached to a device, signal, or map.
#[derive(Clone, Copy, Debug, PartialEq, Eq, Structural)]
pub enum MprProp {
    /// Direction of a signal.
    Dir,
    /// Expression a map applies to the values it routes.
    Expr,
    /// Stable identifier the foreign library assigned to the object.
    Id,
    /// Vector length of a signal.
    Len,
    /// Largest value a signal is expected to carry.
    Max,
    /// Smallest value a signal is expected to carry.
    Min,
    /// Name of the object.
    Name,
    /// Network port of a device.
    Port,
    /// Data type of a signal.
    Type,
    /// Unit of measurement of a signal.
    Unit,
    /// Version of the object's description.
    Version,
}

} // verus!
