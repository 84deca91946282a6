//! Content-resolution leaf node for an asset graph.
//!
//! An asset graph exposes stored bytes (ordinary files, symlinks, or missing
//! paths) as uniform nodes, each with a stable identity, a resolved content
//! payload, and a set of outgoing dependency references. This crate implements
//! the leaf variant of such a node: a raw, untransformed file source. It fixes
//! the semantics of "file exists / is a symlink / is absent / is invalid" that
//! the rest of the graph relies on, and it is the base case of graph
//! recursion: its reference set is always empty.
//!
//! The filesystem itself is an external collaborator. Its answers are modelled
//! by [`PathState`], the state one path is in at the moment it is queried;
//! callers that perform real I/O observe the path and hand the observation to
//! the verified resolution logic. Memoization is external too: identity,
//! content, and references are pure of everything but that observation, so a
//! keyed cache can own invalidation wholesale.

mod asset;
mod file_source;
mod fs_model;
mod ident;
mod reference;
mod source;

pub use asset::{Asset, AssetContent, AssetContentView, ContentError, content_result_view};
pub use fs_model::{
    FileContent, FileContentView, FileSystemEntryType, LinkContent, LinkContentView, LinkType,
    PathState, PathStateView, spec_get_type, spec_read, spec_read_link,
};
pub use ident::{AssetIdent, lemma_ident_deterministic};
pub use reference::AssetReferences;
pub use source::Source;

pub use file_source::{
    ContentStep, ContentStepView, FileSource, content_of_file, content_of_link, content_step,
    lemma_absent_path_is_success, lemma_content_idempotent, lemma_file_resolves_to_bytes,
    lemma_staged_resolution_agrees, lemma_symlink_resolves_to_redirect,
    lemma_unsupported_type_fails, link_redirect, raw_content, step_of_entry_type,
};
