//! Model of the filesystem collaborator.
//!
//! Path resolution, watching, and raw byte retrieval are external concerns.
//! This module models the three queries the resolution logic relies on —
//! entry type, byte content, and symlink target — as plain values, together
//! with [`PathState`], a snapshot of everything those queries can answer for
//! one path at one moment.

use vstd::prelude::*;

verus! {

/// The kind of directory entry a filesystem lookup reports for a path.
#[derive(Clone, Copy, Debug, PartialEq, Eq, Structural)]
pub enum FileSystemEntryType {
    /// Nothing exists at the path.
    NotFound,
    /// An ordinary regular file.
    File,
    /// A directory.
    Directory,
    /// A symbolic link.
    Symlink,
    /// Any other entry kind (device, socket, and the like).
    Other,
}

/// The bytes stored at a path: present with their contents, or absent.
///
/// An absent file is a successful value, distinct from a present file that
/// happens to be empty.
#[derive(Debug, PartialEq, Eq)]
pub enum FileContent {
    Present(Vec<u8>),
    NotFound,
}

/// Mathematical model of [`FileContent`].
pub enum FileContentView {
    Present(Seq<u8>),
    NotFound,
}

impl View for FileContent {
    type V = FileContentView;

    open spec fn view(&self) -> FileContentView {
        match self {
            FileContent::Present(bytes) => FileContentView::Present(bytes@),
            FileContent::NotFound => FileContentView::NotFound,
        }
    }
}

/// Whether a symlink target is an absolute path or relative to the directory
/// holding the link.
#[derive(Clone, Copy, Debug, PartialEq, Eq, Structural)]
pub enum LinkType {
    Absolute,
    Relative,
}

/// What reading a symlink yields: a target with its link semantics, or a link
/// whose target cannot be read.
#[derive(Debug, PartialEq, Eq)]
pub enum LinkContent {
    Link { target: String, link_type: LinkType },
    Invalid,
}

/// Mathematical model of [`LinkContent`].
pub enum LinkContentView {
    Link { target: Seq<char>, link_type: LinkType },
    Invalid,
}

impl View for LinkContent {
    type V = LinkContentView;

    open spec fn view(&self) -> LinkContentView {
        match self {
            LinkContent::Link { target, link_type } => LinkContentView::Link {
                target: target@,
                link_type: *link_type,
            },
            LinkContent::Invalid => LinkContentView::Invalid,
        }
    }
}

impl Clone for LinkContent {
    /// A copy that describes the same link.
    fn clone(&self) -> (res: LinkContent)
        ensures
            res@ == self@,
    {
        match self {
            LinkContent::Link { target, link_type } => LinkContent::Link {
                target: target.clone(),
                link_type: *link_type,
            },
            LinkContent::Invalid => LinkContent::Invalid,
        }
    }
}

/// A snapshot of the state one path is in: everything the filesystem
/// collaborator can answer about that path at one moment.
#[derive(Debug, PartialEq, Eq)]
pub enum PathState {
    /// Nothing exists at the path.
    NotFound,
    /// A regular file holding these bytes.
    File(Vec<u8>),
    /// A symlink whose read yields this link content.
    Symlink(LinkContent),
    /// A directory.
    Directory,
    /// Any other entry kind (device, socket, and the like).
    Other,
}

/// Mathematical model of [`PathState`].
pub enum PathStateView {
    NotFound,
    File(Seq<u8>),
    Symlink(LinkContentView),
    Directory,
    Other,
}

impl View for PathState {
    type V = PathStateView;

    open spec fn view(&self) -> PathStateView {
        match self {
            PathState::NotFound => PathStateView::NotFound,
            PathState::File(bytes) => PathStateView::File(bytes@),
            PathState::Symlink(link) => PathStateView::Symlink(link@),
            PathState::Directory => PathStateView::Directory,
            PathState::Other => PathStateView::Other,
        }
    }
}

/// The entry type a lookup reports for a path in the given state.
pub open spec fn spec_get_type(s: PathStateView) -> FileSystemEntryType {
    match s {
        PathStateView::NotFound => FileSystemEntryType::NotFound,
        PathStateView::File(_) => FileSystemEntryType::File,
        PathStateView::Symlink(_) => FileSystemEntryType::Symlink,
        PathStateView::Directory => FileSystemEntryType::Directory,
        PathStateView::Other => FileSystemEntryType::Other,
    }
}

/// The byte content a read yields for a path in the given state: the bytes of
/// a regular file, absence for everything else.
pub open spec fn spec_read(s: PathStateView) -> FileContentView {
    match s {
        PathStateView::File(bytes) => FileContentView::Present(bytes),
        _ => FileContentView::NotFound,
    }
}

/// The link content a symlink read yields for a path in the given state: the
/// link description of a symlink, an unreadable link for everything else.
pub open spec fn spec_read_link(s: PathStateView) -> LinkContentView {
    match s {
        PathStateView::Symlink(link) => link,
        _ => LinkContentView::Invalid,
    }
}

impl PathState {
    /// Query the entry type, as `spec_get_type` models it.
    pub fn get_type(&self) -> (t: FileSystemEntryType)
        ensures
            t == spec_get_type(self@),
    {
        match self {
            PathState::NotFound => FileSystemEntryType::NotFound,
            PathState::File(_) => FileSystemEntryType::File,
            PathState::Symlink(_) => FileSystemEntryType::Symlink,
            PathState::Directory => FileSystemEntryType::Directory,
            PathState::Other => FileSystemEntryType::Other,
        }
    }

    /// Query the byte content, as `spec_read` models it.
    pub fn read(&self) -> (c: FileContent)
        ensures
            c@ == spec_read(self@),
    {
        match self {
            PathState::File(bytes) => {
                let copy: Vec<u8> = bytes.clone();
                proof {
                    assert forall|i: int| 0 <= i < bytes@.len() implies copy@[i] == bytes@[i] by {
                        assert(cloned::<u8>(bytes@[i], copy@[i]));
                    }
                    assert(copy@ =~= bytes@);
                }
                FileContent::Present(copy)
            },
            _ => FileContent::NotFound,
        }
    }

    /// Query the symlink target, as `spec_read_link` models it.
    pub fn read_link(&self) -> (l: LinkContent)
        ensures
            l@ == spec_read_link(self@),
    {
        match self {
            PathState::Symlink(link) => link.clone(),
            _ => LinkContent::Invalid,
        }
    }
}

} // verus!
