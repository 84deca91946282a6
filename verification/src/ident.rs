//! Canonical identity of a graph node.
//!
//! An identity is derived deterministically from the node's path and is used
//! by the external memoization engine as its cache key; consumers compare
//! identities but never inspect them for content.

use vstd::prelude::*;

verus! {

/// Canonical, path-derived identity of an asset.
#[derive(Debug, Eq, Hash)]
pub struct AssetIdent {
    path: String,
}

impl View for AssetIdent {
    type V = Seq<char>;

    closed spec fn view(&self) -> Seq<char> {
        self.path@
    }
}

impl AssetIdent {
    /// The identity that `from_path` derives from the given path.
    pub open spec fn spec_from_path(path: Seq<char>) -> Seq<char> {
        path
    }

    /// Derive the identity of the node at `path`. Pure: no I/O.
    pub fn from_path(path: String) -> (r: AssetIdent)
        ensures
            r@ == AssetIdent::spec_from_path(path@),
    {
        AssetIdent { path }
    }

    /// The path this identity was derived from.
    pub fn path(&self) -> (r: &String)
        ensures
            r@ == self@,
    {
        &self.path
    }
}

impl Clone for AssetIdent {
    /// A copy naming the same node.
    fn clone(&self) -> (res: AssetIdent)
        ensures
            res@ == self@,
    {
        AssetIdent { path: self.path.clone() }
    }
}

impl PartialEq for AssetIdent {
    /// Two identities are equal exactly when their paths are.
    fn eq(&self, other: &AssetIdent) -> (r: bool)
    {
        self.path == other.path
    }
}

impl vstd::std_specs::cmp::PartialEqSpecImpl for AssetIdent {
    open spec fn obeys_eq_spec() -> bool {
        true
    }

    open spec fn eq_spec(&self, other: &AssetIdent) -> bool {
        self@ == other@
    }
}

/// Identity determinism: the identities derived from two paths are equal
/// exactly when the paths are equal.
pub proof fn lemma_ident_deterministic(p1: Seq<char>, p2: Seq<char>)
    ensures
        AssetIdent::spec_from_path(p1) == AssetIdent::spec_from_path(p2) <==> p1 == p2,
{
}

} // verus!
