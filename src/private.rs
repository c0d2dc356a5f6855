use vstd::prelude::*;

verus! {

/// Restricts who may implement the context probe to this crate.
pub trait Sealed {}

} // verus!
