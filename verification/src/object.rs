//! Typed property access for devices, signals, and maps.
//!
//! The foreign library attaches typed key-value properties to every object
//! and hands each value out as a (type tag, raw span) pair.  This module is
//! the single chokepoint that proves tag equality before any value is
//! reinterpreted as a host type: [`Properties`] models an object's attribute
//! table, and [`MapperObject`] is the uniform accessor surface over it.

use vstd::prelude::*;

use crate::constants::{MprProp, MprType};
use crate::device::MappableType;
use crate::nul_free;

verus! {

/// Errors that can occur when working with properties.
#[derive(Debug, PartialEq, Eq)]
pub enum PropertyError {
    /// The property was not found on the object.
    PropertyNotFound,
    /// The property was found, but the type did not match the expected type.
    TypeMismatch,
}

/// A stored property value: the tagged union the foreign library keeps.
///
/// A scalar is kept as its type tag plus the bit pattern of the value; a
/// string is kept as text.  Which host type a scalar may be read back as is
/// decided by the tag alone.
pub enum PropValue {
    /// A fixed-size scalar, stored as its tag and raw bit pattern.
    Scalar {
        /// The foreign type tag of the stored value.
        tag: MprType,
        /// The stored bit pattern.
        bits: u64,
    },
    /// A string value.
    Str(String),
}

/// Mathematical image of one stored property value.
pub enum PropVal {
    /// A fixed-size scalar: its foreign type tag and raw bit pattern.
    Scalar {
        /// The foreign type tag of the stored value.
        tag: MprType,
        /// The stored bit pattern.
        bits: u64,
    },
    /// A string value, as its sequence of characters.
    Text(Seq<char>),
}

impl View for PropValue {
    type V = PropVal;

    open spec fn view(&self) -> PropVal {
        match self {
            PropValue::Scalar { tag, bits } => PropVal::Scalar { tag: *tag, bits: *bits },
            PropValue::Str(s) => PropVal::Text(s@),
        }
    }
}

/// The type tag under which a stored value answers a typed lookup.
pub open spec fn prop_val_tag(v: PropVal) -> MprType {
    match v {
        PropVal::Scalar { tag, .. } => tag,
        PropVal::Text(_) => MprType::Str,
    }
}

/// What a typed scalar lookup returns on a given attribute table.
///
/// An absent key fails with `PropertyNotFound`; a present value whose tag
/// differs from `T`'s registered tag fails with `TypeMismatch`; otherwise
/// the stored bit pattern is read back as a `T`.
pub open spec fn spec_get_property<T: MappableType>(
    props: Map<MprProp, PropVal>,
    key: MprProp,
) -> Result<T, PropertyError> {
    if !props.contains_key(key) {
        Err(PropertyError::PropertyNotFound)
    } else {
        match props[key] {
            PropVal::Scalar { tag, bits } => {
                if tag == T::spec_tag() {
                    Ok(T::spec_of_bits(bits))
                } else {
                    Err(PropertyError::TypeMismatch)
                }
            },
            PropVal::Text(_) => Err(PropertyError::TypeMismatch),
        }
    }
}

/// What a string lookup returns on a given attribute table.
pub open spec fn spec_get_property_str(
    props: Map<MprProp, PropVal>,
    key: MprProp,
) -> Result<Seq<char>, PropertyError> {
    if !props.contains_key(key) {
        Err(PropertyError::PropertyNotFound)
    } else {
        match props[key] {
            PropVal::Scalar { .. } => Err(PropertyError::TypeMismatch),
            PropVal::Text(t) => Ok(t),
        }
    }
}

/// An object's attribute table: the typed key-value properties the foreign
/// library keeps for a device, signal, or map.
///
/// Entries are appended; the view keeps, for each key, the latest binding.
pub struct Properties {
    entries: Vec<(MprProp, PropValue)>,
}

/// The map a list of bindings denotes: later entries override earlier ones.
pub open spec fn entries_view(s: Seq<(MprProp, PropValue)>) -> Map<MprProp, PropVal>
    decreases s.len(),
{
    if s.len() == 0 {
        Map::empty()
    } else {
        entries_view(s.drop_last()).insert(s.last().0, s.last().1@)
    }
}

impl View for Properties {
    type V = Map<MprProp, PropVal>;

    closed spec fn view(&self) -> Map<MprProp, PropVal> {
        entries_view(self.entries@)
    }
}

/// A binding that no later entry shadows decides the key's value.
proof fn lemma_entries_view_found(s: Seq<(MprProp, PropValue)>, key: MprProp, i: int)
    requires
        0 <= i < s.len(),
        s[i].0 == key,
        forall|j: int| i < j < s.len() ==> s[j].0 != key,
    ensures
        entries_view(s).contains_key(key),
        entries_view(s)[key] == s[i].1@,
    decreases s.len(),
{
    if i == s.len() - 1 {
    } else {
        assert(s.drop_last()[i] == s[i]);
        lemma_entries_view_found(s.drop_last(), key, i);
    }
}

/// A key that no entry binds is absent from the view.
proof fn lemma_entries_view_absent(s: Seq<(MprProp, PropValue)>, key: MprProp)
    requires
        forall|j: int| 0 <= j < s.len() ==> s[j].0 != key,
    ensures
        !entries_view(s).contains_key(key),
    decreases s.len(),
{
    if s.len() > 0 {
        lemma_entries_view_absent(s.drop_last(), key);
    }
}

/// Appending a binding updates the view at exactly that key.
proof fn lemma_entries_view_push(s: Seq<(MprProp, PropValue)>, e: (MprProp, PropValue))
    ensures
        entries_view(s.push(e)) == entries_view(s).insert(e.0, e.1@),
{
    assert(s.push(e).drop_last() =~= s);
    assert(s.push(e).last() == e);
}

impl Properties {
    /// An empty attribute table.
    pub fn new() -> (r: Properties)
        ensures
            r@ == Map::<MprProp, PropVal>::empty(),
    {
        Properties { entries: Vec::new() }
    }

    /// Look up `key` and read the stored scalar back as a `T`.
    pub fn get<T: MappableType>(&self, key: MprProp) -> (r: Result<T, PropertyError>)
        ensures
            r == spec_get_property::<T>(self@, key),
    {
        let n: usize = self.entries.len();
        let mut i: usize = n;
        while i > 0
            invariant
                i <= n,
                n == self.entries@.len(),
                forall|j: int| i <= j < n ==> self.entries@[j].0 != key,
            decreases i,
        {
            i = i - 1;
            if self.entries[i].0 == key {
                proof {
                    lemma_entries_view_found(self.entries@, key, i as int);
                }
                match &self.entries[i].1 {
                    PropValue::Scalar { tag, bits } => {
                        if *tag == T::get_mpr_type() {
                            return Ok(T::from_bits(*bits));
                        } else {
                            return Err(PropertyError::TypeMismatch);
                        }
                    },
                    PropValue::Str(_) => {
                        return Err(PropertyError::TypeMismatch);
                    },
                }
            }
        }
        proof {
            lemma_entries_view_absent(self.entries@, key);
        }
        Err(PropertyError::PropertyNotFound)
    }

    /// Look up `key` and copy the stored string out.
    pub fn get_str(&self, key: MprProp) -> (r: Result<String, PropertyError>)
        ensures
            r matches Ok(s) ==> spec_get_property_str(self@, key) == Ok::<Seq<char>, PropertyError>(
                s@,
            ),
            r matches Err(e) ==> spec_get_property_str(self@, key) == Err::<Seq<char>, PropertyError>(
                e,
            ),
    {
        let n: usize = self.entries.len();
        let mut i: usize = n;
        while i > 0
            invariant
                i <= n,
                n == self.entries@.len(),
                forall|j: int| i <= j < n ==> self.entries@[j].0 != key,
            decreases i,
        {
            i = i - 1;
            if self.entries[i].0 == key {
                proof {
                    lemma_entries_view_found(self.entries@, key, i as int);
                }
                match &self.entries[i].1 {
                    PropValue::Scalar { .. } => {
                        return Err(PropertyError::TypeMismatch);
                    },
                    PropValue::Str(s) => {
                        return Ok(s.clone());
                    },
                }
            }
        }
        proof {
            lemma_entries_view_absent(self.entries@, key);
        }
        Err(PropertyError::PropertyNotFound)
    }

    /// Bind `key` to a scalar value, stored under `T`'s registered tag.
    pub fn set<T: MappableType>(&mut self, key: MprProp, value: T)
        ensures
            final(self)@ == old(self)@.insert(
                key,
                PropVal::Scalar { tag: T::spec_tag(), bits: value.spec_bits() },
            ),
    {
        let entry = (key, PropValue::Scalar { tag: T::get_mpr_type(), bits: value.to_bits() });
        proof {
            lemma_entries_view_push(self.entries@, entry);
        }
        self.entries.push(entry);
    }

    /// Bind `key` to a string value.
    pub fn set_str(&mut self, key: MprProp, value: &str)
        ensures
            final(self)@ == old(self)@.insert(key, PropVal::Text(value@)),
    {
        let entry = (key, PropValue::Str(value.to_owned()));
        proof {
            lemma_entries_view_push(self.entries@, entry);
        }
        self.entries.push(entry);
    }
}

/// Uniform accessor surface over any entity that carries an attribute table.
///
/// Devices, signals, and maps all expose the same typed property interface;
/// this trait is what ties their accessors to one shared specification.
pub trait MapperObject: Sized {
    /// The entity's attribute table.
    spec fn props(&self) -> Map<MprProp, PropVal>;

    /// The foreign object category of this entity.
    spec fn object_type(&self) -> MprType;

    /// `other` agrees with `self` on everything except the attribute table.
    spec fn same_except_props(&self, other: &Self) -> bool;

    /// Get the type tag representing this object.
    fn get_type(&self) -> (t: MprType)
        ensures
            t == self.object_type(),
    ;

    /// Set a property on this object to a scalar value.
    fn set_property<T: MappableType>(&mut self, property: MprProp, value: T)
        ensures
            final(self).props() == old(self).props().insert(
                property,
                PropVal::Scalar { tag: T::spec_tag(), bits: value.spec_bits() },
            ),
            final(self).same_except_props(old(self)),
            final(self).object_type() == old(self).object_type(),
    ;

    /// Set a property on this object to a string value.
    fn set_property_str(&mut self, property: MprProp, value: &str)
        requires
            nul_free(value@),
        ensures
            final(self).props() == old(self).props().insert(property, PropVal::Text(value@)),
            final(self).same_except_props(old(self)),
            final(self).object_type() == old(self).object_type(),
    ;

    /// Get the value of a property by its key from this object.
    ///
    /// If the property does not exist, or if its type is not matched, this
    /// function returns an error.
    fn get_property<T: MappableType>(&self, property: MprProp) -> (r: Result<T, PropertyError>)
        ensures
            r == spec_get_property::<T>(self.props(), property),
    ;

    /// Get the value of a string property by its key from this object.
    ///
    /// If the property does not exist, or if its type is not matched, this
    /// function returns an error.
    fn get_property_str(&self, property: MprProp) -> (r: Result<String, PropertyError>)
        ensures
            r matches Ok(s) ==> spec_get_property_str(self.props(), property) == Ok::<
                Seq<char>,
                PropertyError,
            >(s@),
            r matches Err(e) ==> spec_get_property_str(self.props(), property) == Err::<
                Seq<char>,
                PropertyError,
            >(e),
    ;
}

/// A typed lookup classifies its outcome by presence and tag alone: it fails
/// with `PropertyNotFound` exactly on absent keys, fails with `TypeMismatch`
/// exactly when the stored tag differs from `T`'s registered tag, and
/// otherwise returns the stored bit pattern read back as a `T`.
pub proof fn lemma_get_property_classifies<T: MappableType>(
    props: Map<MprProp, PropVal>,
    key: MprProp,
)
    ensures
        spec_get_property::<T>(props, key) == Err::<T, PropertyError>(
            PropertyError::PropertyNotFound,
        ) <==> !props.contains_key(key),
        props.contains_key(key) ==> (spec_get_property::<T>(props, key) == Err::<T, PropertyError>(
            PropertyError::TypeMismatch,
        ) <==> prop_val_tag(props[key]) != T::spec_tag()),
        props.contains_key(key) && prop_val_tag(props[key]) == T::spec_tag() ==> (props[key] matches PropVal::Scalar { tag, bits }
            && spec_get_property::<T>(props, key) == Ok::<T, PropertyError>(T::spec_of_bits(bits))),
{
    T::lemma_tag_not_str();
}

/// Round trip: after a scalar property is set to `value` under `T`'s tag,
/// a typed lookup with the same type yields `value` again, bit for bit.
pub proof fn lemma_property_round_trip<T: MappableType>(
    props: Map<MprProp, PropVal>,
    key: MprProp,
    value: T,
)
    ensures
        spec_get_property::<T>(
            props.insert(key, PropVal::Scalar { tag: T::spec_tag(), bits: value.spec_bits() }),
            key,
        ) == Ok::<T, PropertyError>(value),
{
    T::lemma_bits_round_trip(value);
}

/// Round trip for strings: after a string property is set, a string lookup
/// yields the same text.
pub proof fn lemma_property_str_round_trip(
    props: Map<MprProp, PropVal>,
    key: MprProp,
    value: Seq<char>,
)
    ensures
        spec_get_property_str(props.insert(key, PropVal::Text(value)), key) == Ok::<
            Seq<char>,
            PropertyError,
        >(value),
{
}

} // verus!
