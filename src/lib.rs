//! A bounded, ordered cache of encoded feed records, the selection and
//! framing of snapshots that are served from it, and the per-connection
//! protocol that turns a client's request into a snapshot.
use vstd::prelude::*;

pub mod cache;
pub mod protocol;
pub mod record;
pub mod snapshot;

verus! {

} // verus!
