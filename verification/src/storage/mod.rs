//! The contract with the remote file store: what is asked of it, what it
//! answers, and the metadata that every successful write returns.

pub mod github;

use crate::error::{GitHubStorageError, GitHubStorageErrorView};
use crate::text::opt_text;
use vstd::prelude::*;

verus! {

/// An instant in universal time: whole seconds since the Unix epoch and the
/// nanoseconds into that second.
#[derive(Debug, Clone, Copy, PartialEq, Eq, Structural)]
pub struct Timestamp {
    pub secs: i64,
    pub nanos: u32,
}

/// What a successful write or read reports of a stored file.
///
/// `created` is the time of the first commit that touched the path, not the
/// time of the operation that returned the value; `modified` is the time of
/// the commit that stores the file as it is now. The time of a commit is the
/// date at which it was committed.
#[derive(Debug, Clone, PartialEq, Eq)]
pub struct FileMeta {
    pub sha: String,
    pub created: Timestamp,
    pub modified: Timestamp,
}

/// View of a [`FileMeta`].
pub struct FileMetaView {
    pub sha: Seq<char>,
    pub created: Timestamp,
    pub modified: Timestamp,
}

impl View for FileMeta {
    type V = FileMetaView;

    open spec fn view(&self) -> FileMetaView {
        FileMetaView { sha: self.sha@, created: self.created, modified: self.modified }
    }
}

/// One entry of a content listing: the content hash of the file and, where
/// the remote sent it, its content in base64.
#[derive(Debug, Clone, PartialEq, Eq)]
pub struct ContentItem {
    pub sha: String,
    pub content: Option<String>,
}

/// View of a [`ContentItem`].
pub struct ContentItemView {
    pub sha: Seq<char>,
    pub content: Option<Seq<char>>,
}

impl View for ContentItem {
    type V = ContentItemView;

    open spec fn view(&self) -> ContentItemView {
        ContentItemView { sha: self.sha@, content: opt_text(self.content) }
    }
}

/// The views of the entries of a content listing.
pub open spec fn items_view(items: Seq<ContentItem>) -> Seq<ContentItemView> {
    items.map_values(|i: ContentItem| i@)
}

/// The author or the committer of a commit, with the date if the remote sent one.
#[derive(Debug, Clone, Copy, PartialEq, Eq)]
pub struct CommitPerson {
    pub date: Option<Timestamp>,
}

/// The two signatures of a commit, each of which the remote may omit.
#[derive(Debug, Clone, Copy, PartialEq, Eq)]
pub struct CommitInfo {
    pub author: Option<CommitPerson>,
    pub committer: Option<CommitPerson>,
}

/// The answer to a create or an update: the content hash of the file as it
/// now stands, and the commit that stored it.
#[derive(Debug, Clone, PartialEq, Eq)]
pub struct FileCommit {
    pub content_sha: String,
    pub commit: CommitInfo,
}

/// View of a [`FileCommit`].
pub struct FileCommitView {
    pub content_sha: Seq<char>,
    pub commit: CommitInfo,
}

impl View for FileCommit {
    type V = FileCommitView;

    open spec fn view(&self) -> FileCommitView {
        FileCommitView { content_sha: self.content_sha@, commit: self.commit }
    }
}

/// The text of a stored file with the content hash under which the remote
/// holds it.
#[derive(Debug, Clone, PartialEq, Eq)]
pub struct StoredFile {
    pub content: String,
    pub sha: String,
}

/// View of a [`StoredFile`].
pub struct StoredFileView {
    pub content: Seq<char>,
    pub sha: Seq<char>,
}

impl View for StoredFile {
    type V = StoredFileView;

    open spec fn view(&self) -> StoredFileView {
        StoredFileView { content: self.content@, sha: self.sha@ }
    }
}

/// The end of a history at which a listing of commits starts.
#[derive(Debug, Clone, Copy, PartialEq, Eq, Structural)]
pub enum CommitOrder {
    /// The first commit that touched the path comes first.
    OldestFirst,
    /// The commit that stores the path as it is now comes first.
    NewestFirst,
}

/// A request to the remote file store.
#[derive(Debug, Clone, PartialEq, Eq)]
pub enum RemoteRequest {
    /// Read the file at `path` on `branch`.
    GetContent { path: String, branch: String },
    /// Tell the content hash of the file at `path` on `branch`, without
    /// sending its content.
    GetHash { path: String, branch: String },
    /// Create the file at `path` on `branch`, with a commit message.
    CreateFile { path: String, message: String, content: String, branch: String },
    /// List the commits that touched `path`, in the given order, `per_page`
    /// at most.
    ListCommits { path: String, per_page: u8, order: CommitOrder },
    /// Replace the file at `path` on `branch`; `sha` is the content hash that
    /// the file is expected to have, and the remote refuses the update if it
    /// has another.
    UpdateFile { path: String, message: String, content: String, sha: String, branch: String },
}

/// View of a [`RemoteRequest`].
pub enum RemoteRequestView {
    GetContent { path: Seq<char>, branch: Seq<char> },
    GetHash { path: Seq<char>, branch: Seq<char> },
    CreateFile { path: Seq<char>, message: Seq<char>, content: Seq<char>, branch: Seq<char> },
    ListCommits { path: Seq<char>, per_page: u8, order: CommitOrder },
    UpdateFile {
        path: Seq<char>,
        message: Seq<char>,
        content: Seq<char>,
        sha: Seq<char>,
        branch: Seq<char>,
    },
}

impl View for RemoteRequest {
    type V = RemoteRequestView;

    open spec fn view(&self) -> RemoteRequestView {
        match self {
            RemoteRequest::GetContent { path, branch } => RemoteRequestView::GetContent {
                path: path@,
                branch: branch@,
            },
            RemoteRequest::GetHash { path, branch } => RemoteRequestView::GetHash {
                path: path@,
                branch: branch@,
            },
            RemoteRequest::CreateFile {
                path,
                message,
                content,
                branch,
            } => RemoteRequestView::CreateFile {
                path: path@,
                message: message@,
                content: content@,
                branch: branch@,
            },
            RemoteRequest::ListCommits {
                path,
                per_page,
                order,
            } => RemoteRequestView::ListCommits { path: path@, per_page: *per_page, order: *order },
            RemoteRequest::UpdateFile {
                path,
                message,
                content,
                sha,
                branch,
            } => RemoteRequestView::UpdateFile {
                path: path@,
                message: message@,
                content: content@,
                sha: sha@,
                branch: branch@,
            },
        }
    }
}

/// What drives an operation forward: its start, or the remote's answer to
/// the request that the operation made last.
#[derive(Debug, Clone, PartialEq, Eq)]
pub enum RemoteEvent {
    /// The operation starts.
    Begin,
    /// The answer to `GetContent`.
    Content(Vec<ContentItem>),
    /// The answer to `GetHash`.
    Hash(String),
    /// The answer to `ListCommits`.
    Commits(Vec<CommitInfo>),
    /// The answer to `CreateFile` or `UpdateFile`.
    Committed(FileCommit),
    /// The request failed.
    Failed(GitHubStorageError),
}

/// View of a [`RemoteEvent`].
pub enum RemoteEventView {
    Begin,
    Content(Seq<ContentItemView>),
    Hash(Seq<char>),
    Commits(Seq<CommitInfo>),
    Committed(FileCommitView),
    Failed(GitHubStorageErrorView),
}

impl View for RemoteEvent {
    type V = RemoteEventView;

    open spec fn view(&self) -> RemoteEventView {
        match self {
            RemoteEvent::Begin => RemoteEventView::Begin,
            RemoteEvent::Content(items) => RemoteEventView::Content(items_view(items@)),
            RemoteEvent::Hash(sha) => RemoteEventView::Hash(sha@),
            RemoteEvent::Commits(commits) => RemoteEventView::Commits(commits@),
            RemoteEvent::Committed(c) => RemoteEventView::Committed(c@),
            RemoteEvent::Failed(e) => RemoteEventView::Failed(e@),
        }
    }
}

} // verus!
