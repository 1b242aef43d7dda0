//! What discovery asks of a filesystem, and what a filesystem may answer.
//!
//! Discovery never touches a disk. It hands out one `FsRequest` at a time and
//! goes on from the `FsReply` that the caller brings back.

use vstd::prelude::*;

verus! {

/// A question to the filesystem.
#[derive(Clone, Debug, PartialEq, Eq)]
pub enum FsRequest {
    /// Is there a directory at this path?
    IsDirectory(String),
    /// Which entries does the directory at this path hold?
    ReadDirectory(String),
    /// What is the text of the file at this path?
    Load(String),
}

/// A question to the filesystem as a mathematical value.
pub enum FsRequestView {
    IsDirectory(Seq<char>),
    ReadDirectory(Seq<char>),
    Load(Seq<char>),
}

impl View for FsRequest {
    type V = FsRequestView;

    open spec fn view(&self) -> FsRequestView {
        match self {
            FsRequest::IsDirectory(path) => FsRequestView::IsDirectory(path@),
            FsRequest::ReadDirectory(path) => FsRequestView::ReadDirectory(path@),
            FsRequest::Load(path) => FsRequestView::Load(path@),
        }
    }
}

/// The filesystem's answer to a question.
#[derive(Clone, Debug, PartialEq, Eq)]
pub enum FsReply {
    /// Whether the path is a directory.
    IsDirectory(bool),
    /// The paths of a directory's entries, `None` in place of one that could
    /// not be read; `None` for all of it where the directory could not be
    /// listed.
    Entries(Option<Vec<Option<String>>>),
    /// The text of a file; `None` where it is missing or cannot be read.
    Text(Option<String>),
}

/// An answer of the filesystem as a mathematical value.
pub enum FsReplyView {
    IsDirectory(bool),
    Entries(Option<Seq<Option<Seq<char>>>>),
    Text(Option<Seq<char>>),
}

impl View for FsReply {
    type V = FsReplyView;

    open spec fn view(&self) -> FsReplyView {
        match self {
            FsReply::IsDirectory(is_directory) => FsReplyView::IsDirectory(*is_directory),
            FsReply::Entries(entries) => FsReplyView::Entries(entries.deep_view()),
            FsReply::Text(text) => FsReplyView::Text(text.deep_view()),
        }
    }
}

/// A filesystem, as far as discovery can tell one from another: which paths
/// are directories, what listing a directory gives, and what text a file
/// holds.
pub struct Filesystem {
    pub directories: Set<Seq<char>>,
    pub listings: Map<Seq<char>, Seq<Option<Seq<char>>>>,
    pub files: Map<Seq<char>, Seq<char>>,
}

impl Filesystem {
    /// What this filesystem answers to `request`.
    pub open spec fn answer(self, request: FsRequestView) -> FsReplyView {
        match request {
            FsRequestView::IsDirectory(path) => FsReplyView::IsDirectory(
                self.directories.contains(path),
            ),
            FsRequestView::ReadDirectory(path) => FsReplyView::Entries(
                if self.listings.dom().contains(path) {
                    Some(self.listings[path])
                } else {
                    None
                },
            ),
            FsRequestView::Load(path) => FsReplyView::Text(
                if self.files.dom().contains(path) {
                    Some(self.files[path])
                } else {
                    None
                },
            ),
        }
    }
}

} // verus!
