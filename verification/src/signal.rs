//! Signals: typed, fixed-vector-length data channels owned by a device.
//!
//! A signal wrapper caches the data type and vector length the signal was
//! created with and guards every value transfer with a tag check and a
//! length check.  Values cross the boundary as raw bit patterns; the
//! [`MappableType`] registry decides how a host value maps to and from them.

use vstd::prelude::*;

use crate::constants::{MprDir, MprProp, MprType};
use crate::device::MappableType;
use crate::nul_free;
use crate::object::{MapperObject, Properties, PropertyError, PropVal};

verus! {

/// The largest vector length a signal can be created with: the foreign
/// library takes the length as a signed 32-bit count.
pub const MAX_VECTOR_LENGTH: u32 = 0x7fffffff;

/// Status bit: the signal instance is active.
pub const SIG_STATUS_ACTIVE: i32 = 0x20;

/// Status bit: the signal instance has a value.
pub const SIG_STATUS_HAS_VALUE: i32 = 0x40;

/// Status bit: the value was set locally since the last status query.
pub const SIG_STATUS_SET_LOCAL: i32 = 0x100;

/// Status bit: the value was set remotely since the last status query.
pub const SIG_STATUS_SET_REMOTE: i32 = 0x200;

/// An error that can occur when getting or setting the value of a signal.
#[derive(Debug)]
pub enum SignalError {
    /// The data type of the signal does not match the type of the passed generic type.
    WrongType,
    /// The signal does not have a value set yet.
    NoValue,
    /// The length of the passed slice does not match the vector length of the signal.
    WrongLengthArg,
}

/// A typed, fixed-vector-length data channel belonging to a device.
pub struct Signal {
    owned: bool,
    data_type: MprType,
    direction: MprDir,
    vector_length: u32,
    value: Option<Vec<u64>>,
    timestamp: u64,
    set_remote: bool,
    set_local: bool,
    props: Properties,
}

/// The bit pattern sequence a slice of host values is stored as.
pub open spec fn encoded_bits<T: MappableType>(values: Seq<T>) -> Seq<u64> {
    Seq::new(values.len(), |i: int| values[i].spec_bits())
}

/// The host values a stored bit pattern sequence is read back as.
pub open spec fn decoded_bits<T: MappableType>(bits: Seq<u64>) -> Seq<T> {
    Seq::new(bits.len(), |i: int| T::spec_of_bits(bits[i]))
}

/// Round trip: the bit patterns [`Signal::set_value`] stores for a slice
/// of host values are read back by [`Signal::get_value`] with the same
/// type as exactly that slice.
pub proof fn lemma_value_round_trip<T: MappableType>(values: Seq<T>)
    ensures
        decoded_bits::<T>(encoded_bits::<T>(values)) == values,
{
    let dec = decoded_bits::<T>(encoded_bits::<T>(values));
    assert forall|i: int| 0 <= i < values.len() implies dec[i] == values[i] by {
        T::lemma_bits_round_trip(values[i]);
    }
    assert(dec =~= values);
}

impl Signal {
    /// The signal carries its configured vector length, and a stored value
    /// always has exactly that many elements.
    pub open spec fn wf(&self) -> bool {
        &&& 1 <= self.spec_vector_length() <= MAX_VECTOR_LENGTH
        &&& match self.spec_value() {
            Some(v) => v.len() == self.spec_vector_length(),
            None => true,
        }
    }

    /// Whether destruction of this wrapper must release the foreign signal.
    pub closed spec fn spec_owned(&self) -> bool {
        self.owned
    }

    /// The data type this signal was created with.
    pub closed spec fn spec_data_type(&self) -> MprType {
        self.data_type
    }

    /// The direction this signal was created with.
    pub closed spec fn spec_direction(&self) -> MprDir {
        self.direction
    }

    /// The vector length this signal was created with.
    pub closed spec fn spec_vector_length(&self) -> u32 {
        self.vector_length
    }

    /// The stored value, as the bit patterns of its elements.
    pub closed spec fn spec_value(&self) -> Option<Seq<u64>> {
        match self.value {
            Some(v) => Some(v@),
            None => None,
        }
    }

    /// The timestamp of the last value transfer.
    pub closed spec fn spec_timestamp(&self) -> u64 {
        self.timestamp
    }

    /// Whether a remote set has happened since the last status query.
    pub closed spec fn spec_set_remote(&self) -> bool {
        self.set_remote
    }

    /// Whether a local set has happened since the last status query.
    pub closed spec fn spec_set_local(&self) -> bool {
        self.set_local
    }

    /// `other` agrees with `self` on everything except the stored value,
    /// the timestamp, and the two set flags.
    pub open spec fn same_config(&self, other: &Signal) -> bool {
        &&& self.spec_owned() == other.spec_owned()
        &&& self.spec_data_type() == other.spec_data_type()
        &&& self.spec_direction() == other.spec_direction()
        &&& self.spec_vector_length() == other.spec_vector_length()
        &&& self.props() == other.props()
    }

    /// Build the wrapper for a freshly created, locally owned signal.
    ///
    /// The attribute table starts out the way the foreign library populates
    /// it: name, data type, and vector length.
    pub(crate) fn new_owned(
        data_type: MprType,
        direction: MprDir,
        vector_length: u32,
        name: &str,
    ) -> (s: Signal)
        requires
            1 <= vector_length <= MAX_VECTOR_LENGTH,
            nul_free(name@),
        ensures
            s.wf(),
            s.spec_owned(),
            s.spec_data_type() == data_type,
            s.spec_direction() == direction,
            s.spec_vector_length() == vector_length,
            s.spec_value() is None,
            !s.spec_set_remote(),
            !s.spec_set_local(),
            s.props() == Map::<MprProp, PropVal>::empty().insert(
                MprProp::Name,
                PropVal::Text(name@),
            ).insert(
                MprProp::Type,
                PropVal::Scalar {
                    tag: MprType::Type,
                    bits: crate::constants::spec_type_code(data_type) as u64,
                },
            ).insert(
                MprProp::Len,
                PropVal::Scalar { tag: MprType::Int32, bits: vector_length as u64 },
            ),
    {
        let mut props = Properties::new();
        props.set_str(MprProp::Name, name);
        props.set::<MprType>(MprProp::Type, data_type);
        props.set::<i32>(MprProp::Len, vector_length as i32);
        Signal {
            owned: true,
            data_type,
            direction,
            vector_length,
            value: None,
            timestamp: 0,
            set_remote: false,
            set_local: false,
            props,
        }
    }

    /// Build the wrapper for a signal observed in a foreign-owned list.
    ///
    /// The wrapper does not own the foreign signal, so dropping it must not
    /// release anything.
    pub(crate) fn new_observed(
        data_type: MprType,
        direction: MprDir,
        vector_length: u32,
    ) -> (s: Signal)
        requires
            1 <= vector_length <= MAX_VECTOR_LENGTH,
        ensures
            s.wf(),
            !s.spec_owned(),
            s.spec_data_type() == data_type,
            s.spec_direction() == direction,
            s.spec_vector_length() == vector_length,
            s.spec_value() is None,
            !s.spec_set_remote(),
            !s.spec_set_local(),
            s.props() == Map::<MprProp, PropVal>::empty().insert(
                MprProp::Type,
                PropVal::Scalar {
                    tag: MprType::Type,
                    bits: crate::constants::spec_type_code(data_type) as u64,
                },
            ).insert(
                MprProp::Len,
                PropVal::Scalar { tag: MprType::Int32, bits: vector_length as u64 },
            ),
    {
        let mut props = Properties::new();
        props.set::<MprType>(MprProp::Type, data_type);
        props.set::<i32>(MprProp::Len, vector_length as i32);
        Signal {
            owned: false,
            data_type,
            direction,
            vector_length,
            value: None,
            timestamp: 0,
            set_remote: false,
            set_local: false,
            props,
        }
    }

    /// Get the type of data this signal is storing.
    pub fn get_type(&self) -> (t: MprType)
        ensures
            t == self.spec_data_type(),
    {
        self.data_type
    }

    /// Get the length of the vector this signal is storing.
    ///
    /// This is how long the slice returned from [`Signal::get_value`] will
    /// be.  If this is 1, use [`Signal::get_value_single`] instead.
    pub fn get_vector_length(&self) -> (l: u32)
        ensures
            l == self.spec_vector_length(),
    {
        self.vector_length
    }

    /// Consume the wrapper when it goes out of use and say whether the
    /// foreign signal must now be released.
    ///
    /// The result is `true` exactly when the wrapper owned its signal: a
    /// wrapper that merely observed a foreign-owned signal asks for no
    /// release.  Consuming the wrapper is what makes the release happen at
    /// most once.
    pub fn release(self) -> (must_free: bool)
        ensures
            must_free == self.spec_owned(),
    {
        self.owned
    }
}

/// The status of a signal instance at the moment of a query.
///
/// When this struct is created by [`Signal::get_status`], the flags behind
/// [`SignalStatus::was_set_remote`] and [`SignalStatus::was_set_local`] are
/// reset on the signal: each snapshot reflects only the activity since the
/// previous query.
pub struct SignalStatus(i32);

impl SignalStatus {
    /// The raw foreign status bitmask this snapshot carries.
    pub closed spec fn spec_raw(&self) -> i32 {
        self.0
    }

    /// Whether the snapshot carries the remote-set bit.
    pub open spec fn spec_was_set_remote(&self) -> bool {
        self.spec_raw() & SIG_STATUS_SET_REMOTE != 0
    }

    /// Whether the snapshot carries the local-set bit.
    pub open spec fn spec_was_set_local(&self) -> bool {
        self.spec_raw() & SIG_STATUS_SET_LOCAL != 0
    }

    /// Whether the snapshot carries the has-value bit.
    pub open spec fn spec_has_value(&self) -> bool {
        self.spec_raw() & SIG_STATUS_HAS_VALUE != 0
    }

    /// Whether the snapshot carries the active bit.
    pub open spec fn spec_is_active(&self) -> bool {
        self.spec_raw() & SIG_STATUS_ACTIVE != 0
    }

    /// Returns true if the signal was set remotely since the last time the
    /// status was queried.
    pub fn was_set_remote(&self) -> (r: bool)
        ensures
            r == self.spec_was_set_remote(),
    {
        self.0 & SIG_STATUS_SET_REMOTE != 0
    }

    /// Returns true if the signal was set locally since the last time the
    /// status was queried.
    pub fn was_set_local(&self) -> (r: bool)
        ensures
            r == self.spec_was_set_local(),
    {
        self.0 & SIG_STATUS_SET_LOCAL != 0
    }

    /// Returns true if the signal has a value (i.e. `Signal::get_value*`
    /// will return `Ok`).
    pub fn has_value(&self) -> (r: bool)
        ensures
            r == self.spec_has_value(),
    {
        self.0 & SIG_STATUS_HAS_VALUE != 0
    }

    /// If the signal is active.
    pub fn is_active(&self) -> (r: bool)
        ensures
            r == self.spec_is_active(),
    {
        self.0 & SIG_STATUS_ACTIVE != 0
    }
}

/// The bitmask a status query composes from the signal's flags.
pub open spec fn spec_compose_status(remote: bool, local: bool, has_value: bool) -> i32 {
    (if remote {
        SIG_STATUS_SET_REMOTE
    } else {
        0
    }) | (if local {
        SIG_STATUS_SET_LOCAL
    } else {
        0
    }) | (if has_value {
        SIG_STATUS_HAS_VALUE | SIG_STATUS_ACTIVE
    } else {
        0
    })
}

/// Each flag is readable back out of the composed status bitmask.
pub proof fn lemma_compose_status_bits(remote: bool, local: bool, has_value: bool)
    ensures
        spec_compose_status(remote, local, has_value) & SIG_STATUS_SET_REMOTE != 0 <==> remote,
        spec_compose_status(remote, local, has_value) & SIG_STATUS_SET_LOCAL != 0 <==> local,
        spec_compose_status(remote, local, has_value) & SIG_STATUS_HAS_VALUE != 0 <==> has_value,
        spec_compose_status(remote, local, has_value) & SIG_STATUS_ACTIVE != 0 <==> has_value,
{
    assert(0x40i32 | 0x20i32 == 0x60i32) by (bit_vector);
    let r: i32 = if remote { SIG_STATUS_SET_REMOTE } else { 0 };
    let l: i32 = if local { SIG_STATUS_SET_LOCAL } else { 0 };
    let h: i32 = if has_value { SIG_STATUS_HAS_VALUE | SIG_STATUS_ACTIVE } else { 0 };
    assert((r == 0x200 || r == 0) && (l == 0x100 || l == 0) && (h == 0x60 || h == 0) ==> (
    ((r | l | h) & 0x200i32 != 0 <==> r == 0x200) && ((r | l | h) & 0x100i32 != 0 <==> l == 0x100)
        && ((r | l | h) & 0x40i32 != 0 <==> h == 0x60) && ((r | l | h) & 0x20i32 != 0 <==> h
        == 0x60))) by (bit_vector);
}

impl Signal {
    /// Get the status of the signal instance.
    ///
    /// Querying is a destructive read for two bits: the flags behind
    /// `was_set_remote` and `was_set_local` are reset, and the returned
    /// snapshot carries their pre-reset values.
    pub fn get_status(&mut self) -> (st: SignalStatus)
        ensures
            st.spec_raw() == spec_compose_status(
                old(self).spec_set_remote(),
                old(self).spec_set_local(),
                old(self).spec_value() is Some,
            ),
            st.spec_was_set_remote() == old(self).spec_set_remote(),
            st.spec_was_set_local() == old(self).spec_set_local(),
            st.spec_has_value() == (old(self).spec_value() is Some),
            st.spec_is_active() == (old(self).spec_value() is Some),
            !final(self).spec_set_remote(),
            !final(self).spec_set_local(),
            final(self).spec_value() == old(self).spec_value(),
            final(self).spec_timestamp() == old(self).spec_timestamp(),
            final(self).same_config(old(self)),
            old(self).wf() ==> final(self).wf(),
    {
        let remote = self.set_remote;
        let local = self.set_local;
        let has = self.value.is_some();
        self.set_remote = false;
        self.set_local = false;
        let base: i32 = if remote {
            SIG_STATUS_SET_REMOTE
        } else {
            0
        };
        let with_local: i32 = base | (if local {
            SIG_STATUS_SET_LOCAL
        } else {
            0
        });
        let mask: i32 = with_local | (if has {
            SIG_STATUS_HAS_VALUE | SIG_STATUS_ACTIVE
        } else {
            0
        });
        proof {
            lemma_compose_status_bits(remote, local, has);
        }
        SignalStatus(mask)
    }
}

impl Signal {
    /// Set the value of the signal.
    ///
    /// This function returns [`SignalError::WrongType`] if the passed
    /// generic type does not match the signal's type.  If this signal is a
    /// vector, only the first element of the vector is set; elements that
    /// had no value yet start out as zero.
    pub fn set_value_single<T: MappableType>(&mut self, value: &T) -> (r: Result<(), SignalError>)
        requires
            old(self).wf(),
        ensures
            final(self).wf(),
            final(self).same_config(old(self)),
            T::spec_tag() != old(self).spec_data_type() ==> (r matches Err(
                SignalError::WrongType,
            ) && *final(self) == *old(self)),
            T::spec_tag() == old(self).spec_data_type() ==> (r matches Ok(())
                && final(self).spec_value() == Some(
                match old(self).spec_value() {
                    Some(v) => v.update(0, value.spec_bits()),
                    None => Seq::new(old(self).spec_vector_length() as nat, |i: int| 0u64).update(
                        0,
                        value.spec_bits(),
                    ),
                },
            ) && final(self).spec_set_local() && final(self).spec_set_remote() == old(
                self,
            ).spec_set_remote() && final(self).spec_timestamp() == old(self).spec_timestamp()),
    {
        if T::get_mpr_type() != self.data_type {
            return Err(SignalError::WrongType);
        }
        let bits = value.to_bits();
        match &mut self.value {
            Some(v) => {
                v.set(0, bits);
            },
            None => {
                let mut v: Vec<u64> = vec![0u64; self.vector_length as usize];
                v.set(0, bits);
                self.value = Some(v);
            },
        }
        self.set_local = true;
        Ok(())
    }

    /// Get the value of the signal.
    ///
    /// This function returns [`SignalError::WrongType`] if the passed
    /// generic type does not match the signal's type, and
    /// [`SignalError::NoValue`] if no value has been set yet.  If this
    /// signal is a vector, only the first element of the vector is
    /// returned.
    pub fn get_value_single<T: MappableType>(&self) -> (r: Result<(T, u64), SignalError>)
        requires
            self.wf(),
        ensures
            T::spec_tag() != self.spec_data_type() ==> r matches Err(SignalError::WrongType),
            T::spec_tag() == self.spec_data_type() && self.spec_value() is None ==> r matches Err(
                SignalError::NoValue,
            ),
            self.spec_value() matches Some(v) ==> (T::spec_tag() == self.spec_data_type() ==> (r
                matches Ok((value, time)) && value == T::spec_of_bits(v[0]) && time
                == self.spec_timestamp())),
    {
        if T::get_mpr_type() != self.data_type {
            return Err(SignalError::WrongType);
        }
        match &self.value {
            Some(v) => Ok((T::from_bits(v[0]), self.timestamp)),
            None => Err(SignalError::NoValue),
        }
    }

    /// Get the value of the signal.
    ///
    /// This function returns [`SignalError::WrongType`] if the passed
    /// generic type does not match the signal's type, and
    /// [`SignalError::NoValue`] if no value has been set yet.  The length
    /// of the returned vector equals [`Signal::get_vector_length`].
    pub fn get_value<T: MappableType>(&self) -> (r: Result<(Vec<T>, u64), SignalError>)
        requires
            self.wf(),
        ensures
            T::spec_tag() != self.spec_data_type() ==> r matches Err(SignalError::WrongType),
            T::spec_tag() == self.spec_data_type() && self.spec_value() is None ==> r matches Err(
                SignalError::NoValue,
            ),
            self.spec_value() matches Some(v) ==> (T::spec_tag() == self.spec_data_type() ==> (r
                matches Ok((values, time)) && values@ == decoded_bits::<T>(v) && time
                == self.spec_timestamp())),
    {
        if T::get_mpr_type() != self.data_type {
            return Err(SignalError::WrongType);
        }
        match &self.value {
            Some(v) => {
                let n = v.len();
                let mut values: Vec<T> = Vec::new();
                let mut i: usize = 0;
                while i < n
                    invariant
                        i <= n,
                        n == v@.len(),
                        values@.len() == i,
                        forall|j: int| 0 <= j < i ==> values@[j] == T::spec_of_bits(v@[j]),
                    decreases n - i,
                {
                    values.push(T::from_bits(v[i]));
                    i = i + 1;
                }
                proof {
                    assert(values@ =~= decoded_bits::<T>(v@));
                }
                Ok((values, self.timestamp))
            },
            None => Err(SignalError::NoValue),
        }
    }

    /// Set the value of the signal.
    ///
    /// This function returns [`SignalError::WrongType`] if the passed
    /// generic type does not match the signal's type.  The length of the
    /// slice must equal [`Signal::get_vector_length`]; otherwise
    /// [`SignalError::WrongLengthArg`] is returned and nothing changes.
    pub fn set_value<T: MappableType>(&mut self, values: &[T]) -> (r: Result<(), SignalError>)
        requires
            old(self).wf(),
        ensures
            final(self).wf(),
            final(self).same_config(old(self)),
            T::spec_tag() != old(self).spec_data_type() ==> (r matches Err(
                SignalError::WrongType,
            ) && *final(self) == *old(self)),
            T::spec_tag() == old(self).spec_data_type() && values@.len() != old(
                self,
            ).spec_vector_length() ==> (r matches Err(SignalError::WrongLengthArg) && *final(self)
                == *old(self)),
            T::spec_tag() == old(self).spec_data_type() && values@.len() == old(
                self,
            ).spec_vector_length() ==> (r matches Ok(()) && final(self).spec_value() == Some(
                encoded_bits::<T>(values@),
            ) && final(self).spec_set_local() && final(self).spec_set_remote() == old(
                self,
            ).spec_set_remote() && final(self).spec_timestamp() == old(self).spec_timestamp()),
    {
        if T::get_mpr_type() != self.data_type {
            return Err(SignalError::WrongType);
        }
        if values.len() != self.vector_length as usize {
            return Err(SignalError::WrongLengthArg);
        }
        let n = values.len();
        let mut bits: Vec<u64> = Vec::new();
        let mut i: usize = 0;
        while i < n
            invariant
                i <= n,
                n == values@.len(),
                bits@.len() == i,
                forall|j: int| 0 <= j < i ==> bits@[j] == values@[j].spec_bits(),
            decreases n - i,
        {
            bits.push(values[i].to_bits());
            i = i + 1;
        }
        proof {
            assert(bits@ =~= encoded_bits::<T>(values@));
        }
        self.value = Some(bits);
        self.set_local = true;
        Ok(())
    }

    /// Boundary intake: record a value update the foreign library reported
    /// for this signal after polling.
    ///
    /// A remote update always arrives with exactly the signal's vector
    /// length.  It stores the delivered bit patterns, stamps them with the
    /// delivery time, and raises the remote-set flag.
    pub fn record_remote_update(&mut self, bits: Vec<u64>, time: u64)
        requires
            old(self).wf(),
            bits@.len() == old(self).spec_vector_length(),
        ensures
            final(self).wf(),
            final(self).same_config(old(self)),
            final(self).spec_value() == Some(bits@),
            final(self).spec_timestamp() == time,
            final(self).spec_set_remote(),
            final(self).spec_set_local() == old(self).spec_set_local(),
    {
        self.value = Some(bits);
        self.timestamp = time;
        self.set_remote = true;
    }
}

impl MapperObject for Signal {
    closed spec fn props(&self) -> Map<MprProp, PropVal> {
        self.props@
    }

    open spec fn object_type(&self) -> MprType {
        MprType::Sig
    }

    open spec fn same_except_props(&self, other: &Signal) -> bool {
        &&& self.spec_owned() == other.spec_owned()
        &&& self.spec_data_type() == other.spec_data_type()
        &&& self.spec_direction() == other.spec_direction()
        &&& self.spec_vector_length() == other.spec_vector_length()
        &&& self.spec_value() == other.spec_value()
        &&& self.spec_timestamp() == other.spec_timestamp()
        &&& self.spec_set_remote() == other.spec_set_remote()
        &&& self.spec_set_local() == other.spec_set_local()
    }

    fn get_type(&self) -> MprType {
        MprType::Sig
    }

    fn set_property<T: MappableType>(&mut self, property: MprProp, value: T) {
        self.props.set::<T>(property, value);
    }

    fn set_property_str(&mut self, property: MprProp, value: &str) {
        self.props.set_str(property, value);
    }

    fn get_property<T: MappableType>(&self, property: MprProp) -> Result<T, PropertyError> {
        self.props.get::<T>(property)
    }

    fn get_property_str(&self, property: MprProp) -> Result<String, PropertyError> {
        self.props.get_str(property)
    }
}

} // verus!
