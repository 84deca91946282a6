//! The asset capability contract and its content payload.
//!
//! Every graph node — leaf or derived — exposes the same triple: a stable
//! identity used as the memoization key, a resolved content payload, and the
//! identities of the nodes it refers to. [`Asset`] states that triple as a
//! trait whose methods are pinned to spec-level models, so graph traversal
//! can reason uniformly about any node.

use vstd::prelude::*;

use crate::fs_model::{FileContent, FileContentView, FileSystemEntryType, LinkType, PathState,
    PathStateView};
use crate::ident::AssetIdent;
use crate::reference::AssetReferences;

verus! {

/// Resolved payload of an asset: inline file bytes (present or absent), or a
/// description of a symlink redirect.
#[derive(Debug, PartialEq, Eq)]
pub enum AssetContent {
    /// Byte content, or its explicit absence. An absent file is a successful
    /// value, never an error.
    File(FileContent),
    /// The asset is a symlink: follow `target` under `link_type` semantics.
    Redirect { target: String, link_type: LinkType },
}

/// Mathematical model of [`AssetContent`].
pub enum AssetContentView {
    File(FileContentView),
    Redirect { target: Seq<char>, link_type: LinkType },
}

impl View for AssetContent {
    type V = AssetContentView;

    open spec fn view(&self) -> AssetContentView {
        match self {
            AssetContent::File(content) => AssetContentView::File(content@),
            AssetContent::Redirect { target, link_type } => AssetContentView::Redirect {
                target: target@,
                link_type: *link_type,
            },
        }
    }
}

/// Why content resolution failed. Terminal conditions with no retry; a path
/// where nothing exists is *not* an error (it resolves to absent content).
#[derive(Clone, Copy, Debug, PartialEq, Eq, Structural)]
pub enum ContentError {
    /// The path is a symlink whose target cannot be read.
    InvalidSymlink,
    /// The path is an entry kind no content can be resolved for, carrying the
    /// kind that was observed.
    InvalidFileType(FileSystemEntryType),
}

/// The model of a resolution outcome: the content's view on success, the error
/// itself on failure.
pub open spec fn content_result_view(r: Result<AssetContent, ContentError>) -> Result<
    AssetContentView,
    ContentError,
> {
    match r {
        Ok(content) => Ok(content@),
        Err(e) => Err(e),
    }
}

/// Capability contract every graph node satisfies: identity, content, and
/// outgoing references, each pinned to a spec-level model the implementor
/// chooses.
pub trait Asset {
    /// The identity this node exposes, as the path sequence it is derived
    /// from.
    spec fn spec_ident(&self) -> Seq<char>;

    /// The content this node resolves to when its path is in the given state.
    spec fn spec_content(&self, s: PathStateView) -> Result<AssetContentView, ContentError>;

    /// The identities of the nodes this node refers to.
    spec fn spec_references(&self) -> Set<Seq<char>>;

    /// The identity used as the memoization key. Pure: no I/O.
    fn ident(&self) -> (r: AssetIdent)
        ensures
            r@ == self.spec_ident(),
    ;

    /// Resolve the content from the current state of the node's path.
    fn content(&self, state: &PathState) -> (r: Result<AssetContent, ContentError>)
        ensures
            content_result_view(r) == self.spec_content(state@),
    ;

    /// The outgoing dependency edges.
    fn references(&self) -> (r: AssetReferences)
        ensures
            r@ == self.spec_references(),
    ;
}

} // verus!
