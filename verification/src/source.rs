//! The origin-of-truth capability marker.

use vstd::prelude::*;

verus! {

/// Capability marker for an asset that is an origin of truth — read from
/// storage rather than derived from another asset. Independent of the asset
/// capability: a node may satisfy either one without the other.
pub trait Source {
}

} // verus!
