//! Outgoing dependency edges of a graph node.
//!
//! A reference names another node by its identity. A raw leaf node always
//! carries an empty reference set — the base case of graph recursion — while
//! derived node kinds would expose real edges here.

use vstd::prelude::*;

use crate::ident::AssetIdent;

verus! {

/// The set of outgoing dependency edges of an asset, each the identity of the
/// asset it points at.
#[derive(Debug)]
pub struct AssetReferences {
    refs: Vec<AssetIdent>,
}

impl View for AssetReferences {
    type V = Set<Seq<char>>;

    closed spec fn view(&self) -> Set<Seq<char>> {
        self.refs@.map_values(|r: AssetIdent| r@).to_set()
    }
}

impl AssetReferences {
    /// The empty reference set: no outgoing edges.
    pub fn empty() -> (r: AssetReferences)
        ensures
            r@ == Set::<Seq<char>>::empty(),
    {
        let r = AssetReferences { refs: Vec::new() };
        proof {
            assert(r@ =~= Set::<Seq<char>>::empty());
        }
        r
    }

    /// Whether this reference set has no edges at all.
    pub fn is_empty(&self) -> (b: bool)
        ensures
            b == (self@ == Set::<Seq<char>>::empty()),
    {
        let b = self.refs.len() == 0;
        proof {
            if b {
                assert(self@ =~= Set::<Seq<char>>::empty());
            } else {
                let m = self.refs@.map_values(|r: AssetIdent| r@);
                assert(m[0] == self.refs@[0]@);
                assert(m.contains(m[0]));
                assert(self@.contains(m[0]));
            }
        }
        b
    }
}

} // verus!
