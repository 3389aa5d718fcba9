//! Graphs and maps: the shared network context and the routing connections.
//!
//! A [`Graph`] is a lightweight connection to the distributed graph that
//! devices can share to pool network resources.  A [`SignalMap`] is a
//! directional routing connection between two signals; it is proposed
//! locally, pushed to the network, and confirmed ready by the foreign side.

use vstd::prelude::*;

use crate::constants::{spec_type_code, type_code, MprProp, MprType};
use crate::device::Device;
use crate::nul_free;
use crate::object::{MapperObject, Properties, PropVal};
use crate::signal::Signal;

verus! {

/// The command one poll call hands to the foreign library.
///
/// Polling is the only operation that processes pending network messages
/// and advances readiness; the wrapper's poll methods decide the blocking
/// budget, and the foreign layer performs the call.
#[derive(Clone, Copy, Debug, PartialEq, Eq, Structural)]
pub struct PollRequest {
    /// How many milliseconds the foreign side may block: `0` to process a
    /// bounded batch without waiting, `-1` to drain the whole queue.
    pub timeout_ms: i32,
}

/// The discovery subscription one subscribe call hands to the foreign
/// library.
///
/// Without a subscription, discovery-dependent queries return empty results
/// even if remote entities exist.
#[derive(Clone, Copy, Debug, PartialEq, Eq, Structural)]
pub struct SubscribeRequest {
    /// Subscribe to every device, including ones not yet visible.
    pub all_devices: bool,
    /// Bitwise OR of the foreign codes of the object categories of
    /// interest.
    pub type_mask: i32,
}

/// The subscription filter mask a list of type tags folds into.
pub open spec fn spec_type_mask(types: Seq<MprType>) -> i32
    decreases types.len(),
{
    if types.len() == 0 {
        0
    } else {
        spec_type_mask(types.drop_last()) | spec_type_code(types.last())
    }
}

/// A lightweight connection to the foreign library's distributed graph.
///
/// A graph may be shared by several devices; the graph must outlive the
/// devices borrowing it, which the borrow checker enforces.
pub struct Graph {
    owned: bool,
}

impl Graph {
    /// Whether destruction of this wrapper must release the foreign graph.
    pub closed spec fn spec_owned(&self) -> bool {
        self.owned
    }

    /// Create a new graph with its own connection to the network.
    pub fn create() -> (g: Graph)
        ensures
            g.spec_owned(),
    {
        Graph { owned: true }
    }

    /// Poll the graph without blocking.
    pub fn poll(&self) -> (r: PollRequest)
        ensures
            r.timeout_ms == 0,
    {
        PollRequest { timeout_ms: 0 }
    }

    /// Poll the graph and block for up to `time_ms` milliseconds.
    ///
    /// Use this instead of sleeping in a loop.
    pub fn poll_and_block(&self, time_ms: u32) -> (r: PollRequest)
        ensures
            r.timeout_ms == time_ms as i32,
    {
        PollRequest { timeout_ms: time_ms as i32 }
    }

    /// Tell the graph to subscribe to updates for the given device and
    /// object categories.
    ///
    /// If `device` is `None`, the subscription covers all devices as they
    /// become visible.  `types` filters the objects of interest; its tags
    /// are folded into one foreign filter mask.  Discovery-dependent
    /// queries return results only after this subscription is made.
    pub fn subscribe(&self, device: Option<Device<'_>>, types: &[MprType]) -> (r: SubscribeRequest)
        ensures
            r.all_devices == (device is None),
            r.type_mask == spec_type_mask(types@),
    {
        let n = types.len();
        let mut mask: i32 = 0;
        proof {
            assert(types@.take(0) =~= Seq::<MprType>::empty());
        }
        let mut i: usize = 0;
        while i < n
            invariant
                i <= n,
                n == types@.len(),
                mask == spec_type_mask(types@.take(i as int)),
            decreases n - i,
        {
            mask = mask | type_code(types[i]);
            proof {
                assert(types@.take(i + 1).drop_last() =~= types@.take(i as int));
                assert(types@.take(i + 1).last() == types@[i as int]);
            }
            i = i + 1;
        }
        proof {
            assert(types@.take(n as int) =~= types@);
        }
        SubscribeRequest { all_devices: device.is_none(), type_mask: mask }
    }

    /// Consume the wrapper when it goes out of use and say whether the
    /// foreign graph must now be released.
    pub fn release(self) -> (must_free: bool)
        ensures
            must_free == self.spec_owned(),
    {
        self.owned
    }
}

/// A directional routing connection between two signals.
///
/// A map is first proposed locally, then pushed to the distributed graph,
/// and becomes active once the foreign side confirms it ready.  Releasing
/// before pushing is valid and simply discards the local proposal.
pub struct SignalMap {
    owned: bool,
    pushed: bool,
    ready: bool,
    props: Properties,
}

impl SignalMap {
    /// Whether destruction of this wrapper must release the foreign map.
    pub closed spec fn spec_owned(&self) -> bool {
        self.owned
    }

    /// Whether the map has been announced to the distributed graph.
    pub closed spec fn spec_pushed(&self) -> bool {
        self.pushed
    }

    /// Whether the foreign side has confirmed the map active.
    pub closed spec fn spec_ready(&self) -> bool {
        self.ready
    }

    /// Create a new map between two signals.
    ///
    /// This only proposes the map locally: [`SignalMap::push`] must be
    /// called to let the rest of the graph know about it.
    pub fn create(src: &Signal, dst: &Signal) -> (m: SignalMap)
        ensures
            m.spec_owned(),
            !m.spec_pushed(),
            !m.spec_ready(),
            m.props() == Map::<MprProp, PropVal>::empty(),
    {
        let _ = src;
        let _ = dst;
        SignalMap { owned: true, pushed: false, ready: false, props: Properties::new() }
    }

    /// Publish this map to the distributed graph.
    ///
    /// After this call, once the foreign side reports readiness, the map is
    /// active.
    pub fn push(&mut self)
        ensures
            final(self).spec_pushed(),
            final(self).spec_owned() == old(self).spec_owned(),
            final(self).spec_ready() == old(self).spec_ready(),
            final(self).props() == old(self).props(),
    {
        self.pushed = true;
    }

    /// Returns `true` once [`SignalMap::push`] has announced the map.
    pub fn is_pushed(&self) -> (r: bool)
        ensures
            r == self.spec_pushed(),
    {
        self.pushed
    }

    /// Returns `true` once the map has been published and is active.
    pub fn is_ready(&self) -> (r: bool)
        ensures
            r == self.spec_ready(),
    {
        self.ready
    }

    /// Boundary intake: record that the foreign side has confirmed this
    /// pushed map active.
    pub fn record_ready(&mut self)
        requires
            old(self).spec_pushed(),
        ensures
            final(self).spec_ready(),
            final(self).spec_pushed(),
            final(self).spec_owned() == old(self).spec_owned(),
            final(self).props() == old(self).props(),
    {
        self.ready = true;
    }

    /// Destroy the map, severing the connection between the signals.
    ///
    /// Consuming the wrapper makes the foreign release happen at most once;
    /// the result says whether it must now be issued.
    pub fn release(self) -> (must_release: bool)
        ensures
            must_release == self.spec_owned(),
    {
        self.owned
    }

    /// Set the expression used to map the values from the source to the
    /// destination.
    ///
    /// This is a helper wrapping [`MapperObject::set_property_str`].
    pub fn set_expr(&mut self, expression: &str)
        requires
            nul_free(expression@),
        ensures
            final(self).props() == old(self).props().insert(
                MprProp::Expr,
                PropVal::Text(expression@),
            ),
            final(self).same_except_props(old(self)),
    {
        self.set_property_str(MprProp::Expr, expression);
    }
}

impl MapperObject for SignalMap {
    closed spec fn props(&self) -> Map<MprProp, PropVal> {
        self.props@
    }

    open spec fn object_type(&self) -> MprType {
        MprType::MapObj
    }

    open spec fn same_except_props(&self, other: &SignalMap) -> bool {
        &&& self.spec_owned() == other.spec_owned()
        &&& self.spec_pushed() == other.spec_pushed()
        &&& self.spec_ready() == other.spec_ready()
    }

    fn get_type(&self) -> MprType {
        MprType::MapObj
    }

    fn set_property<T: crate::device::MappableType>(&mut self, property: MprProp, value: T) {
        self.props.set::<T>(property, value);
    }

    fn set_property_str(&mut self, property: MprProp, value: &str) {
        self.props.set_str(property, value);
    }

    fn get_property<T: crate::device::MappableType>(&self, property: MprProp) -> Result<
        T,
        crate::object::PropertyError,
    > {
        self.props.get::<T>(property)
    }

    fn get_property_str(&self, property: MprProp) -> Result<String, crate::object::PropertyError> {
        self.props.get_str(property)
    }
}

} // verus!
