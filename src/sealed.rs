use vstd::prelude::*;

verus! {

/// Marker that restricts who may implement the extension capability over
/// a handle: only the handle type that the bindings define implements it.
pub trait Sealed {}

} // verus!
