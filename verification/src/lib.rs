//! Safe, verified binding layer for a distributed signal-mapping library.
//!
//! The native library maintains a peer-to-peer graph of named devices, their
//! signals, and the maps (routing connections) between signals.  This crate
//! holds the part of a binding that does real translation work and can be
//! reasoned about on its own: the type-tag registry, the ownership-tracked
//! entity wrappers, the typed property accessors, and list materialization.
//!
//! Everything the native library itself computes (network transport,
//! discovery, routing) reaches this crate as plain values: the functions
//! here decide, and the thin foreign-function layer around the crate
//! performs the calls and hands the results back.

use vstd::prelude::*;

pub mod constants;
pub mod device;
pub mod graph;
pub mod object;
pub mod signal;
pub mod util;

verus! {

/// A string that the foreign library can accept: its text carries no
/// interior NUL, so it can be handed over as a C string without loss.
pub open spec fn nul_free(s: Seq<char>) -> bool {
    forall|i: int| 0 <= i < s.len() ==> s[i] != '\0'
}

} // verus!
