//! The raw asset: content straight from a path, with no references to other
//! assets.
//!
//! [`raw_content`] gives the full semantics of resolution as one spec function
//! over the state the path is in. The executable side follows the staged
//! protocol a real caller runs — query the entry type first, then fetch bytes
//! or the link target only when that type calls for it — and
//! [`lemma_staged_resolution_agrees`] proves that the staged protocol resolves
//! to exactly `raw_content` of the snapshot.

use vstd::prelude::*;

use crate::asset::{Asset, AssetContent, AssetContentView, ContentError, content_result_view};
use crate::fs_model::{FileContent, FileContentView, FileSystemEntryType, LinkContent,
    LinkContentView, LinkType, PathState, PathStateView, spec_get_type, spec_read, spec_read_link};
use crate::ident::AssetIdent;
use crate::reference::AssetReferences;
use crate::source::Source;

verus! {

/// The raw asset. It represents raw content from a path without any
/// references to other assets.
#[derive(Debug)]
pub struct FileSource {
    pub path: String,
}

impl FileSource {
    /// Build the leaf node for a path. Always succeeds; no I/O happens here.
    pub fn new(path: String) -> (r: FileSource)
        ensures
            r.path@ == path@,
    {
        FileSource { path }
    }
}

/// What content resolution yields for a path in the given state:
/// - a regular file resolves to its bytes, present;
/// - an absent path resolves to absent file content — a successful value,
///   never an error;
/// - a readable symlink resolves to a redirect carrying its target and link
///   semantics, and an unreadable one fails with `InvalidSymlink`;
/// - every other entry kind fails with `InvalidFileType` carrying that kind.
pub open spec fn raw_content(s: PathStateView) -> Result<AssetContentView, ContentError> {
    match s {
        PathStateView::NotFound => Ok(AssetContentView::File(FileContentView::NotFound)),
        PathStateView::File(bytes) => Ok(
            AssetContentView::File(FileContentView::Present(bytes)),
        ),
        PathStateView::Symlink(link) => link_redirect(link),
        PathStateView::Directory => Err(
            ContentError::InvalidFileType(FileSystemEntryType::Directory),
        ),
        PathStateView::Other => Err(ContentError::InvalidFileType(FileSystemEntryType::Other)),
    }
}

/// What a symlink's link content resolves to: a redirect for a readable link,
/// `InvalidSymlink` for one whose target cannot be read.
pub open spec fn link_redirect(link: LinkContentView) -> Result<AssetContentView, ContentError> {
    match link {
        LinkContentView::Link { target, link_type } => Ok(
            AssetContentView::Redirect { target, link_type },
        ),
        LinkContentView::Invalid => Err(ContentError::InvalidSymlink),
    }
}

/// What resolution does next once the entry type of the path is known.
#[derive(Debug, PartialEq, Eq)]
pub enum ContentStep {
    /// The path is a regular file: fetch its bytes.
    ReadFile,
    /// The path is a symlink: fetch its link content.
    ReadLink,
    /// Resolution is already complete, with this outcome.
    Resolved(Result<AssetContent, ContentError>),
}

/// Mathematical model of [`ContentStep`].
pub enum ContentStepView {
    ReadFile,
    ReadLink,
    Resolved(Result<AssetContentView, ContentError>),
}

impl View for ContentStep {
    type V = ContentStepView;

    open spec fn view(&self) -> ContentStepView {
        match self {
            ContentStep::ReadFile => ContentStepView::ReadFile,
            ContentStep::ReadLink => ContentStepView::ReadLink,
            ContentStep::Resolved(r) => ContentStepView::Resolved(content_result_view(*r)),
        }
    }
}

/// The step resolution takes for each entry type: read a regular file, follow
/// a symlink, finish successfully with absent content for a missing path, and
/// fail at once for every other kind.
pub open spec fn step_of_entry_type(t: FileSystemEntryType) -> ContentStepView {
    match t {
        FileSystemEntryType::File => ContentStepView::ReadFile,
        FileSystemEntryType::Symlink => ContentStepView::ReadLink,
        FileSystemEntryType::NotFound => ContentStepView::Resolved(
            Ok(AssetContentView::File(FileContentView::NotFound)),
        ),
        FileSystemEntryType::Directory => ContentStepView::Resolved(
            Err(ContentError::InvalidFileType(FileSystemEntryType::Directory)),
        ),
        FileSystemEntryType::Other => ContentStepView::Resolved(
            Err(ContentError::InvalidFileType(FileSystemEntryType::Other)),
        ),
    }
}

/// Decide from an observed entry type what resolution does next.
pub fn content_step(t: FileSystemEntryType) -> (r: ContentStep)
    ensures
        r@ == step_of_entry_type(t),
{
    match t {
        FileSystemEntryType::File => ContentStep::ReadFile,
        FileSystemEntryType::Symlink => ContentStep::ReadLink,
        FileSystemEntryType::NotFound => ContentStep::Resolved(
            Ok(AssetContent::File(FileContent::NotFound)),
        ),
        FileSystemEntryType::Directory => ContentStep::Resolved(
            Err(ContentError::InvalidFileType(FileSystemEntryType::Directory)),
        ),
        FileSystemEntryType::Other => ContentStep::Resolved(
            Err(ContentError::InvalidFileType(FileSystemEntryType::Other)),
        ),
    }
}

/// Wrap fetched byte content as asset content, exactly as fetched: presence
/// and absence pass through unchanged.
pub fn content_of_file(content: FileContent) -> (r: AssetContent)
    ensures
        r@ == AssetContentView::File(content@),
{
    AssetContent::File(content)
}

/// Resolve fetched link content: a readable link becomes a redirect, an
/// unreadable one fails with `InvalidSymlink`.
pub fn content_of_link(link: LinkContent) -> (r: Result<AssetContent, ContentError>)
    ensures
        content_result_view(r) == link_redirect(link@),
{
    match link {
        LinkContent::Link { target, link_type } => Ok(
            AssetContent::Redirect { target, link_type },
        ),
        LinkContent::Invalid => Err(ContentError::InvalidSymlink),
    }
}

impl Asset for FileSource {
    open spec fn spec_ident(&self) -> Seq<char> {
        AssetIdent::spec_from_path(self.path@)
    }

    open spec fn spec_content(&self, s: PathStateView) -> Result<AssetContentView, ContentError> {
        raw_content(s)
    }

    open spec fn spec_references(&self) -> Set<Seq<char>> {
        Set::empty()
    }

    fn ident(&self) -> (r: AssetIdent) {
        AssetIdent::from_path(self.path.clone())
    }

    fn content(&self, state: &PathState) -> (r: Result<AssetContent, ContentError>) {
        match content_step(state.get_type()) {
            ContentStep::ReadFile => Ok(content_of_file(state.read())),
            ContentStep::ReadLink => content_of_link(state.read_link()),
            ContentStep::Resolved(resolved) => resolved,
        }
    }

    fn references(&self) -> (r: AssetReferences) {
        AssetReferences::empty()
    }
}

impl Source for FileSource {
}

/// The staged protocol — query the entry type, then fetch bytes or the link
/// target as the step directs — resolves to exactly `raw_content` of the
/// path's state.
pub proof fn lemma_staged_resolution_agrees(s: PathStateView)
    ensures
        (match step_of_entry_type(spec_get_type(s)) {
            ContentStepView::ReadFile => Ok(AssetContentView::File(spec_read(s))),
            ContentStepView::ReadLink => link_redirect(spec_read_link(s)),
            ContentStepView::Resolved(resolved) => resolved,
        }) == raw_content(s),
{
}

/// A regular file holding bytes `bytes` resolves to exactly those bytes,
/// present.
pub proof fn lemma_file_resolves_to_bytes(bytes: Seq<u8>)
    ensures
        raw_content(PathStateView::File(bytes)) == Ok::<AssetContentView, ContentError>(
            AssetContentView::File(FileContentView::Present(bytes)),
        ),
{
}

/// An absent path resolves to absent file content, successfully: absence is
/// never an error.
pub proof fn lemma_absent_path_is_success()
    ensures
        raw_content(PathStateView::NotFound) == Ok::<AssetContentView, ContentError>(
            AssetContentView::File(FileContentView::NotFound),
        ),
        !(raw_content(PathStateView::NotFound) is Err),
{
}

/// A symlink with readable target `target` and link semantics `link_type`
/// resolves to a redirect carrying exactly that target and those semantics.
pub proof fn lemma_symlink_resolves_to_redirect(target: Seq<char>, link_type: LinkType)
    ensures
        raw_content(PathStateView::Symlink(LinkContentView::Link { target, link_type })) == Ok::<
            AssetContentView,
            ContentError,
        >(AssetContentView::Redirect { target, link_type }),
{
}

/// Every unsupported entry kind fails with `InvalidFileType` carrying the
/// observed kind, and an unreadable symlink fails with `InvalidSymlink`.
pub proof fn lemma_unsupported_type_fails()
    ensures
        raw_content(PathStateView::Directory) == Err::<AssetContentView, ContentError>(
            ContentError::InvalidFileType(FileSystemEntryType::Directory),
        ),
        raw_content(PathStateView::Other) == Err::<AssetContentView, ContentError>(
            ContentError::InvalidFileType(FileSystemEntryType::Other),
        ),
        raw_content(PathStateView::Symlink(LinkContentView::Invalid)) == Err::<
            AssetContentView,
            ContentError,
        >(ContentError::InvalidSymlink),
{
}

/// Idempotence: resolution is a pure function of the path's state, so repeated
/// resolutions with no intervening filesystem mutation yield equal results.
pub proof fn lemma_content_idempotent(s1: PathStateView, s2: PathStateView)
    requires
        s1 == s2,
    ensures
        raw_content(s1) == raw_content(s2),
{
}

} // verus!
