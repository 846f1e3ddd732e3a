use vstd::prelude::*;

verus! {

/// An opaque identifier of one simulated object.
#[derive(Clone, Copy, Debug, PartialEq, Eq, Structural, Hash)]
pub struct EntityId(pub u64);

} // verus!
