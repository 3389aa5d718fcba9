//! Devices and the type-tag registry.
//!
//! A device is the library's connection to the distributed graph: a named
//! container for signals.  This module also holds [`MappableType`], the
//! registry that ties each supported host scalar type to the foreign
//! library's runtime type tag and pins down how its values are carried as
//! raw bit patterns across the boundary.

use vstd::prelude::*;

use crate::constants::{
    spec_type_code, spec_type_of_code, type_code, type_of_code, MprDir, MprProp, MprType,
};
use crate::graph::{Graph, PollRequest};
use crate::nul_free;
use crate::object::{MapperObject, Properties, PropertyError, PropVal};
use crate::signal::{Signal, MAX_VECTOR_LENGTH};
use crate::util::read_list;

verus! {

/// A host scalar type the foreign library can store and transport.
///
/// The foreign side keeps every value as a tagged span of raw bytes.  This
/// trait is the one audited place that says, for each supported type, which
/// tag marks its values and how a value maps to and from its stored bit
/// pattern.  Every reinterpretation the accessors perform goes through
/// these functions, so tag equality is what makes a reinterpretation valid.
pub trait MappableType: Copy {
    /// The foreign type tag registered for this type.
    spec fn spec_tag() -> MprType;

    /// The bit pattern under which a value is stored.
    spec fn spec_bits(self) -> u64;

    /// The value a stored bit pattern stands for.
    spec fn spec_of_bits(b: u64) -> Self;

    /// Get the type tag representing this type.
    fn get_mpr_type() -> (t: MprType)
        ensures
            t == Self::spec_tag(),
    ;

    /// Marshal a value into the bit pattern handed to the foreign side.
    fn to_bits(self) -> (b: u64)
        ensures
            b == self.spec_bits(),
    ;

    /// Read a value back out of a stored bit pattern.
    fn from_bits(b: u64) -> (v: Self)
        ensures
            v == Self::spec_of_bits(b),
    ;

    /// A value survives the trip through its bit pattern unchanged.
    proof fn lemma_bits_round_trip(v: Self)
        ensures
            Self::spec_of_bits(v.spec_bits()) == v,
    ;

    /// The registered tag is a scalar data tag, never the string tag.
    proof fn lemma_tag_not_str()
        ensures
            Self::spec_tag() != MprType::Str,
    ;
}

impl MappableType for i32 {
    open spec fn spec_tag() -> MprType {
        MprType::Int32
    }

    open spec fn spec_bits(self) -> u64 {
        (self as u32) as u64
    }

    open spec fn spec_of_bits(b: u64) -> Self {
        (b as u32) as i32
    }

    fn get_mpr_type() -> MprType {
        MprType::Int32
    }

    fn to_bits(self) -> u64 {
        (self as u32) as u64
    }

    fn from_bits(b: u64) -> i32 {
        (b as u32) as i32
    }

    proof fn lemma_bits_round_trip(v: Self) {
        assert((((v as u32) as u64) as u32) as i32 == v) by (bit_vector);
    }

    proof fn lemma_tag_not_str() {
    }
}

impl MappableType for i64 {
    open spec fn spec_tag() -> MprType {
        MprType::Int64
    }

    open spec fn spec_bits(self) -> u64 {
        self as u64
    }

    open spec fn spec_of_bits(b: u64) -> Self {
        b as i64
    }

    fn get_mpr_type() -> MprType {
        MprType::Int64
    }

    fn to_bits(self) -> u64 {
        self as u64
    }

    fn from_bits(b: u64) -> i64 {
        b as i64
    }

    proof fn lemma_bits_round_trip(v: Self) {
        assert(((v as u64) as i64) == v) by (bit_vector);
    }

    proof fn lemma_tag_not_str() {
    }
}

impl MappableType for MprType {
    open spec fn spec_tag() -> MprType {
        MprType::Type
    }

    open spec fn spec_bits(self) -> u64 {
        spec_type_code(self) as u64
    }

    open spec fn spec_of_bits(b: u64) -> Self {
        spec_type_of_code(b as i32)
    }

    fn get_mpr_type() -> MprType {
        MprType::Type
    }

    fn to_bits(self) -> u64 {
        type_code(self) as u64
    }

    fn from_bits(b: u64) -> MprType {
        type_of_code(b as i32)
    }

    proof fn lemma_bits_round_trip(v: Self) {
        let c = spec_type_code(v);
        assert(0 <= c <= 0x74);
        assert((c as u64) as i32 == c) by (bit_vector)
            requires
                0 <= c <= 0x74,
        ;
        crate::constants::lemma_type_code_round_trip(v);
    }

    proof fn lemma_tag_not_str() {
    }
}

/// One record of a foreign signal enumeration: what the foreign list
/// exposes about a signal that belongs to a device.
#[derive(Clone, Copy, Debug, PartialEq, Eq, Structural)]
pub struct SignalInfo {
    /// The data type the signal stores.
    pub data_type: MprType,
    /// The direction of the signal.
    pub direction: MprDir,
    /// The vector length of the signal.
    pub vector_length: u32,
}

/// A device: the library's connection to the distributed graph, and a
/// named container for signals.
///
/// A device either carries its own connection or borrows a shared
/// [`Graph`]; in the latter case the device must not outlive the graph,
/// which the borrow checker enforces.
pub struct Device<'a> {
    owned: bool,
    graph: Option<&'a Graph>,
    ready: bool,
    props: Properties,
}

impl<'a> Device<'a> {
    /// Whether destruction of this wrapper must release the foreign device.
    pub closed spec fn spec_owned(&self) -> bool {
        self.owned
    }

    /// The shared graph this device borrows, if any.
    pub closed spec fn spec_graph(&self) -> Option<&'a Graph> {
        self.graph
    }

    /// Whether the foreign side has reported the device ready.
    pub closed spec fn spec_ready(&self) -> bool {
        self.ready
    }

    /// Create a new device with the given name.
    ///
    /// The device uses its own connection to the graph.  Before calling
    /// any other methods on the device, poll it until it is ready.  When
    /// creating multiple devices, consider [`Device::create_from_graph`]
    /// instead, to pool resources.
    pub fn create(name: &str) -> (d: Device<'static>)
        requires
            nul_free(name@),
        ensures
            d.spec_owned(),
            d.spec_graph() is None,
            !d.spec_ready(),
            d.props() == Map::<MprProp, PropVal>::empty().insert(MprProp::Name, PropVal::Text(name@)),
    {
        let mut props = Properties::new();
        props.set_str(MprProp::Name, name);
        Device { owned: true, graph: None, ready: false, props }
    }

    /// Create a new device on a shared graph.
    ///
    /// Sharing a graph between devices lets them pool some resources and
    /// networking, potentially improving performance.
    pub fn create_from_graph(name: &str, graph: &'a Graph) -> (d: Device<'a>)
        requires
            nul_free(name@),
        ensures
            d.spec_owned(),
            d.spec_graph() == Some(graph),
            !d.spec_ready(),
            d.props() == Map::<MprProp, PropVal>::empty().insert(MprProp::Name, PropVal::Text(name@)),
    {
        let mut props = Properties::new();
        props.set_str(MprProp::Name, name);
        Device { owned: true, graph: Some(graph), ready: false, props }
    }

    /// Poll the device without blocking.
    ///
    /// With a zero budget the foreign side uses a heuristic to decide how
    /// many messages to parse at once; use [`Device::poll_all`] to drain
    /// the queue regardless of how long it takes.
    pub fn poll(&self) -> (r: PollRequest)
        ensures
            r.timeout_ms == 0,
    {
        PollRequest { timeout_ms: 0 }
    }

    /// Process all messages in the device's queue, no matter how long it
    /// takes.
    pub fn poll_all(&self) -> (r: PollRequest)
        ensures
            r.timeout_ms == -1,
    {
        PollRequest { timeout_ms: -1 }
    }

    /// Poll and block the current thread for up to `time_ms` milliseconds.
    ///
    /// Use this instead of sleeping in a loop.
    pub fn poll_and_block(&self, time_ms: u32) -> (r: PollRequest)
        ensures
            r.timeout_ms == time_ms as i32,
    {
        PollRequest { timeout_ms: time_ms as i32 }
    }

    /// Tests if the device is ready to use.
    ///
    /// Do not call value or map operations until this returns `true`.
    pub fn is_ready(&self) -> (r: bool)
        ensures
            r == self.spec_ready(),
    {
        self.ready
    }

    /// Boundary intake: record that the foreign side has reported this
    /// device ready after polling.
    pub fn record_ready(&mut self)
        ensures
            final(self).spec_ready(),
            final(self).spec_owned() == old(self).spec_owned(),
            final(self).spec_graph() == old(self).spec_graph(),
            final(self).props() == old(self).props(),
    {
        self.ready = true;
    }

    /// Get the shared graph used by this device.
    ///
    /// If the device was created with [`Device::create`], this returns
    /// `None`.
    pub fn get_graph(&self) -> (r: Option<&'a Graph>)
        ensures
            r == self.spec_graph(),
    {
        self.graph
    }

    /// Check if the device was created with a shared graph.
    pub fn has_shared_graph(&self) -> (r: bool)
        ensures
            r == (self.spec_graph() is Some),
    {
        self.graph.is_some()
    }

    /// Create a signal with the given name and direction.
    ///
    /// The signal has a vector length of 1 (a single value); the generic
    /// parameter controls what type of data the signal holds.
    pub fn create_signal<T: MappableType>(&self, name: &str, direction: MprDir) -> (s: Signal)
        requires
            nul_free(name@),
        ensures
            s.wf(),
            s.spec_owned(),
            s.spec_data_type() == T::spec_tag(),
            s.spec_direction() == direction,
            s.spec_vector_length() == 1,
            s.spec_value() is None,
            !s.spec_set_remote(),
            !s.spec_set_local(),
            s.props() == Map::<MprProp, PropVal>::empty().insert(
                MprProp::Name,
                PropVal::Text(name@),
            ).insert(
                MprProp::Type,
                PropVal::Scalar { tag: MprType::Type, bits: spec_type_code(T::spec_tag()) as u64 },
            ).insert(MprProp::Len, PropVal::Scalar { tag: MprType::Int32, bits: 1 }),
    {
        self.create_vector_signal::<T>(name, direction, 1)
    }

    /// Create a signal with the given name, direction, and vector length.
    ///
    /// The generic parameter controls what type of data the signal holds.
    pub fn create_vector_signal<T: MappableType>(
        &self,
        name: &str,
        direction: MprDir,
        vector_length: u32,
    ) -> (s: Signal)
        requires
            nul_free(name@),
            1 <= vector_length <= MAX_VECTOR_LENGTH,
        ensures
            s.wf(),
            s.spec_owned(),
            s.spec_data_type() == T::spec_tag(),
            s.spec_direction() == direction,
            s.spec_vector_length() == vector_length,
            s.spec_value() is None,
            !s.spec_set_remote(),
            !s.spec_set_local(),
            s.props() == Map::<MprProp, PropVal>::empty().insert(
                MprProp::Name,
                PropVal::Text(name@),
            ).insert(
                MprProp::Type,
                PropVal::Scalar { tag: MprType::Type, bits: spec_type_code(T::spec_tag()) as u64 },
            ).insert(
                MprProp::Len,
                PropVal::Scalar { tag: MprType::Int32, bits: vector_length as u64 },
            ),
    {
        let data_type: MprType = T::get_mpr_type();
        Signal::new_owned(data_type, direction, vector_length, name)
    }

    /// Materialize the foreign enumeration of this device's signals.
    ///
    /// `list` is what the foreign enumeration reported, one record per
    /// signal in list order.  Every wrapper in the result is built with
    /// `owned` false: the signals belong to the device, so dropping the
    /// wrappers releases nothing.
    pub fn get_signals(&self, list: &Vec<SignalInfo>) -> (r: Vec<Signal>)
        requires
            forall|i: int| 0 <= i < list@.len() ==> 1 <= (#[trigger] list@[i]).vector_length <= MAX_VECTOR_LENGTH,
        ensures
            r@.len() == list@.len(),
            forall|i: int|
                0 <= i < list@.len() ==> {
                    &&& (#[trigger] r@[i]).wf()
                    &&& !r@[i].spec_owned()
                    &&& r@[i].spec_data_type() == list@[i].data_type
                    &&& r@[i].spec_direction() == list@[i].direction
                    &&& r@[i].spec_vector_length() == list@[i].vector_length
                    &&& r@[i].spec_value() is None
                    &&& r@[i].props() == Map::<MprProp, PropVal>::empty().insert(
                        MprProp::Type,
                        PropVal::Scalar {
                            tag: MprType::Type,
                            bits: spec_type_code(list@[i].data_type) as u64,
                        },
                    ).insert(
                        MprProp::Len,
                        PropVal::Scalar { tag: MprType::Int32, bits: list@[i].vector_length as u64 },
                    )
                },
    {
        let constructor = |info: SignalInfo| -> (s: Signal)
            requires
                1 <= info.vector_length <= MAX_VECTOR_LENGTH,
            ensures
                s.wf(),
                !s.spec_owned(),
                s.spec_data_type() == info.data_type,
                s.spec_direction() == info.direction,
                s.spec_vector_length() == info.vector_length,
                s.spec_value() is None,
                s.props() == Map::<MprProp, PropVal>::empty().insert(
                    MprProp::Type,
                    PropVal::Scalar {
                        tag: MprType::Type,
                        bits: spec_type_code(info.data_type) as u64,
                    },
                ).insert(
                    MprProp::Len,
                    PropVal::Scalar { tag: MprType::Int32, bits: info.vector_length as u64 },
                ),
            { Signal::new_observed(info.data_type, info.direction, info.vector_length) };
        read_list(list, constructor)
    }

    /// Consume the wrapper when it goes out of use and say whether the
    /// foreign device must now be released.
    ///
    /// Releasing a device also invalidates all foreign signals still
    /// belonging to it; wrappers observed from its enumeration must not be
    /// used afterwards.
    pub fn release(self) -> (must_free: bool)
        ensures
            must_free == self.spec_owned(),
    {
        self.owned
    }
}

impl<'a> MapperObject for Device<'a> {
    closed spec fn props(&self) -> Map<MprProp, PropVal> {
        self.props@
    }

    open spec fn object_type(&self) -> MprType {
        MprType::Dev
    }

    open spec fn same_except_props(&self, other: &Device<'a>) -> bool {
        &&& self.spec_owned() == other.spec_owned()
        &&& self.spec_graph() == other.spec_graph()
        &&& self.spec_ready() == other.spec_ready()
    }

    fn get_type(&self) -> MprType {
        MprType::Dev
    }

    fn set_property<T: MappableType>(&mut self, property: MprProp, value: T) {
        self.props.set::<T>(property, value);
    }

    fn set_property_str(&mut self, property: MprProp, value: &str) {
        self.props.set_str(property, value);
    }

    fn get_property<T: MappableType>(&self, property: MprProp) -> Result<T, PropertyError> {
        self.props.get::<T>(property)
    }

    fn get_property_str(&self, property: MprProp) -> Result<String, PropertyError> {
        self.props.get_str(property)
    }
}

} // verus!
