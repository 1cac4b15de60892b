use vstd::prelude::*;

verus! {

/// Implemented only by the axis markers of this crate, so that no other type can
/// implement `StaticAxis`.
pub trait Sealed {}

} // verus!
