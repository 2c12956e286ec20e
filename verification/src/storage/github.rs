//! Reading and reconciled writing against a GitHub repository.
//!
//! Nothing here talks to the network. An operation is a step function: it is
//! given the state it is in and the remote's last answer, and says what to ask
//! next or how the operation ends. The caller carries the requests out.

use crate::error::{GitHubStorageError, GitHubStorageErrorView, StorageError, StorageErrorView};
use crate::storage::{
    items_view, CommitInfo, CommitOrder, CommitPerson, ContentItem, ContentItemView, FileCommit,
    FileCommitView, FileMeta, FileMetaView, RemoteEvent, RemoteEventView, RemoteRequest,
    RemoteRequestView, StoredFile, StoredFileView, Timestamp,
};
use crate::text::{join2, join3};
use base64::Engine;
use vstd::prelude::*;
use vstd::utf8::{decode_utf8, encode_utf8, valid_utf8};

verus! {

/// The bytes that a text in standard base64 (with padding) stands for, the
/// text given by its bytes; `None` where the text is not valid base64.
pub uninterp spec fn base64_standard_decoded(input: Seq<u8>) -> Option<Seq<u8>>;

/// Decodes standard base64. Trusted: `Engine::decode` of
/// `base64::engine::general_purpose::STANDARD` returns the decoded bytes, or
/// an error for an input that is not valid padded base64; the result depends
/// on the input alone.
#[verifier::external_body]
fn base64_decode(input: &[u8]) -> (r: Option<Vec<u8>>)
    ensures
        match r {
            Some(bytes) => base64_standard_decoded(input@) == Some(bytes@),
            None => base64_standard_decoded(input@) is None,
        },
{
    base64::engine::general_purpose::STANDARD.decode(input).ok()
}

/// Turns bytes into a string. Trusted: `String::from_utf8` succeeds exactly on
/// valid UTF-8 and then holds the characters that the bytes encode.
#[verifier::external_body]
fn string_from_utf8(bytes: Vec<u8>) -> (r: Option<String>)
    ensures
        r is Some <==> valid_utf8(bytes@),
        r matches Some(s) ==> s@ == decode_utf8(bytes@),
{
    String::from_utf8(bytes).ok()
}

/// The byte of a line feed.
pub const LINE_FEED: u8 = 10;

/// Tells the bytes that are no line feed.
pub open spec fn no_line_feed() -> spec_fn(u8) -> bool {
    |b: u8| b != LINE_FEED
}

/// Bytes without the line feeds among them.
pub open spec fn without_line_feeds(bytes: Seq<u8>) -> Seq<u8> {
    bytes.filter(no_line_feed())
}

/// Removes every line feed.
fn strip_line_feeds(bytes: &[u8]) -> (kept: Vec<u8>)
    ensures
        kept@ == without_line_feeds(bytes@),
{
    let mut kept: Vec<u8> = Vec::new();
    let mut i: usize = 0;
    assert(bytes@.subrange(0, 0) =~= Seq::<u8>::empty());
    while i < bytes.len()
        invariant
            i <= bytes@.len(),
            kept@ == without_line_feeds(bytes@.subrange(0, i as int)),
        decreases bytes@.len() - i,
    {
        let b = bytes[i];
        proof {
            let seen = bytes@.subrange(0, i as int);
            assert(bytes@.subrange(0, i + 1) =~= seen.push(b));
            seen.lemma_filter_push(b, no_line_feed());
        }
        if b != LINE_FEED {
            kept.push(b);
        }
        i = i + 1;
    }
    assert(bytes@.subrange(0, i as int) =~= bytes@);
    kept
}

/// The text that decoded content stands for: the bytes must be there and be
/// valid UTF-8.
pub open spec fn text_of_bytes(decoded: Option<Seq<u8>>) -> Result<
    Seq<char>,
    GitHubStorageErrorView,
> {
    match decoded {
        None => Err(GitHubStorageErrorView::EncodingError),
        Some(bytes) => if valid_utf8(bytes) {
            Ok(decode_utf8(bytes))
        } else {
            Err(GitHubStorageErrorView::EncodingError)
        },
    }
}

/// The text of a file as the remote sends it: in base64, which is read
/// without the line feeds that break it into lines, and which must stand for
/// valid UTF-8.
pub open spec fn stored_text(encoded: Seq<char>) -> Result<Seq<char>, GitHubStorageErrorView> {
    text_of_bytes(base64_standard_decoded(without_line_feeds(encode_utf8(encoded))))
}

/// The view of a decoding result.
pub open spec fn text_result_view(r: Result<String, GitHubStorageError>) -> Result<
    Seq<char>,
    GitHubStorageErrorView,
> {
    match r {
        Ok(s) => Ok(s@),
        Err(e) => Err(e@),
    }
}

/// The view of optional bytes.
pub open spec fn opt_bytes(o: Option<Vec<u8>>) -> Option<Seq<u8>> {
    match o {
        Some(v) => Some(v@),
        None => None,
    }
}

/// Reads decoded bytes as text; missing bytes and invalid UTF-8 are both an
/// `EncodingError`.
pub fn text_of_decoded(decoded: Option<Vec<u8>>) -> (r: Result<String, GitHubStorageError>)
    ensures
        text_result_view(r) == text_of_bytes(opt_bytes(decoded)),
{
    match decoded {
        None => Err(GitHubStorageError::EncodingError),
        Some(bytes) => match string_from_utf8(bytes) {
            Some(s) => Ok(s),
            None => Err(GitHubStorageError::EncodingError),
        },
    }
}

/// Decodes the content of a file as the remote sends it.
pub fn decode_content(encoded: &str) -> (r: Result<String, GitHubStorageError>)
    ensures
        text_result_view(r) == stored_text(encoded@),
{
    let cleaned = strip_line_feeds(encoded.as_bytes());
    let decoded = base64_decode(cleaned.as_slice());
    text_of_decoded(decoded)
}

/// The coordinates of the repository branch that holds the files.
#[derive(Debug, Clone, PartialEq, Eq)]
pub struct GitHubStorage {
    owner: String,
    repo: String,
    branch: String,
}

/// View of a [`GitHubStorage`].
pub struct GitHubStorageView {
    pub owner: Seq<char>,
    pub repo: Seq<char>,
    pub branch: Seq<char>,
}

impl View for GitHubStorage {
    type V = GitHubStorageView;

    closed spec fn view(&self) -> GitHubStorageView {
        GitHubStorageView { owner: self.owner@, repo: self.repo@, branch: self.branch@ }
    }
}

/// Where a write stands between two answers of the remote.
#[derive(Debug, Clone, PartialEq, Eq)]
pub enum WriteState {
    /// Nothing has been asked yet.
    Start,
    /// The current content of the path has been asked for.
    Reading,
    /// The path did not exist and its creation has been asked for.
    Creating,
    /// The path exists with content hash `sha`; the first commit of its
    /// history has been asked for. `unchanged` says whether the stored text
    /// equals the new one.
    History { sha: String, unchanged: bool },
    /// The stored text equals the new one; the path was created at `created`,
    /// and the commit that stores it now has been asked for.
    Newest { sha: String, created: Timestamp },
    /// The update has been asked for; `created` is the time of the first commit.
    Updating { created: Timestamp },
    /// The write has ended.
    Done,
}

/// View of a [`WriteState`].
pub enum WriteStateView {
    Start,
    Reading,
    Creating,
    History { sha: Seq<char>, unchanged: bool },
    Newest { sha: Seq<char>, created: Timestamp },
    Updating { created: Timestamp },
    Done,
}

impl View for WriteState {
    type V = WriteStateView;

    open spec fn view(&self) -> WriteStateView {
        match self {
            WriteState::Start => WriteStateView::Start,
            WriteState::Reading => WriteStateView::Reading,
            WriteState::Creating => WriteStateView::Creating,
            WriteState::History { sha, unchanged } => WriteStateView::History {
                sha: sha@,
                unchanged: *unchanged,
            },
            WriteState::Newest { sha, created } => WriteStateView::Newest {
                sha: sha@,
                created: *created,
            },
            WriteState::Updating { created } => WriteStateView::Updating { created: *created },
            WriteState::Done => WriteStateView::Done,
        }
    }
}

/// What a write does next.
#[derive(Debug, PartialEq, Eq)]
pub enum WriteAction {
    /// Send the request and come back with the answer.
    Ask(RemoteRequest),
    /// The write has ended with this result.
    Finish(Result<FileMeta, StorageError>),
}

/// View of a [`WriteAction`].
pub enum WriteActionView {
    Ask(RemoteRequestView),
    Finish(Result<FileMetaView, StorageErrorView>),
}

impl View for WriteAction {
    type V = WriteActionView;

    open spec fn view(&self) -> WriteActionView {
        match self {
            WriteAction::Ask(q) => WriteActionView::Ask(q@),
            WriteAction::Finish(Ok(meta)) => WriteActionView::Finish(Ok(meta@)),
            WriteAction::Finish(Err(e)) => WriteActionView::Finish(Err(e@)),
        }
    }
}

/// The view of the result of a write.
pub open spec fn meta_result_view(r: Result<FileMeta, StorageError>) -> Result<
    FileMetaView,
    StorageErrorView,
> {
    match r {
        Ok(meta) => Ok(meta@),
        Err(e) => Err(e@),
    }
}

/// The error for an answer that lacks `what`.
pub open spec fn missing(what: Seq<char>) -> StorageErrorView {
    StorageErrorView::GitHub(GitHubStorageErrorView::MissingData(what))
}

/// The error for an answer that does not belong to the request made last.
pub open spec fn unexpected() -> StorageErrorView {
    StorageErrorView::GitHub(GitHubStorageErrorView::ApiError("Unexpected reply"@))
}

/// The date of a signature; a commit without the signature, or a signature
/// without a date, is an error that names what is missing.
pub open spec fn signed_date(
    person: Option<CommitPerson>,
    no_person: Seq<char>,
    no_date: Seq<char>,
) -> Result<Timestamp, StorageErrorView> {
    match person {
        None => Err(missing(no_person)),
        Some(p) => match p.date {
            None => Err(missing(no_date)),
            Some(t) => Ok(t),
        },
    }
}

/// The time of a commit: the date at which it was committed. A commit is
/// only read if its author and its committer are both there and dated; what
/// is missing is named, followed by `of`, which says whose commit it is.
pub open spec fn commit_time(c: CommitInfo, of: Seq<char>) -> Result<Timestamp, StorageErrorView> {
    match signed_date(c.author, "Missing author data"@ + of, "Missing author date"@ + of) {
        Err(e) => Err(e),
        Ok(_) => signed_date(
            c.committer,
            "Missing committer data"@ + of,
            "Missing committer date"@ + of,
        ),
    }
}

/// The time of the commit that stands first in a listing for a file that
/// exists; `of` says which commit that is.
pub open spec fn first_commit_time(commits: Seq<CommitInfo>, of: Seq<char>) -> Result<
    Timestamp,
    StorageErrorView,
> {
    if commits.len() == 0 {
        Err(missing("No commit history found for file"@))
    } else {
        commit_time(commits[0], of)
    }
}

/// The metadata of a file that a commit has just created: created and
/// modified at the time of that commit.
pub open spec fn created_meta(c: FileCommitView) -> Result<FileMetaView, StorageErrorView> {
    match commit_time(c.commit, ""@) {
        Err(e) => Err(e),
        Ok(time) => Ok(FileMetaView { sha: c.content_sha, created: time, modified: time }),
    }
}

/// The time at which a path was created: the time of the first commit of
/// its history, which `oldest_first` lists first.
pub open spec fn creation_time(oldest_first: Seq<CommitInfo>) -> Result<
    Timestamp,
    StorageErrorView,
> {
    first_commit_time(oldest_first, " for original file"@)
}

/// The metadata of a file whose stored text already equals the text to
/// write: the stored hash, the time of its creation, and the time of the
/// commit that stores it now, which `newest_first` lists first.
pub open spec fn unchanged_meta(
    sha: Seq<char>,
    created: Timestamp,
    newest_first: Seq<CommitInfo>,
) -> Result<FileMetaView, StorageErrorView> {
    match first_commit_time(newest_first, " for file"@) {
        Err(e) => Err(e),
        Ok(modified) => Ok(FileMetaView { sha, created, modified }),
    }
}

/// The metadata of a file that a commit has just updated: the creation time
/// is kept, the modification time is that of the new commit.
pub open spec fn updated_meta(created: Timestamp, c: FileCommitView) -> Result<
    FileMetaView,
    StorageErrorView,
> {
    match commit_time(c.commit, ""@) {
        Err(e) => Err(e),
        Ok(modified) => Ok(FileMetaView { sha: c.content_sha, created, modified }),
    }
}

/// A write that ends with `r`.
pub open spec fn finished(r: Result<FileMetaView, StorageErrorView>) -> (
    WriteStateView,
    WriteActionView,
) {
    (WriteStateView::Done, WriteActionView::Finish(r))
}

/// The request for one commit of the history of `path`, from the given end.
pub open spec fn one_commit(path: Seq<char>, order: CommitOrder) -> WriteActionView {
    WriteActionView::Ask(RemoteRequestView::ListCommits { path, per_page: 1, order })
}

/// The step after the current content of an existing path has arrived.
///
/// Whether the file changes is decided by comparing the decoded stored text
/// with the new text, character for character. An entry without content
/// counts as changed. Either way the first commit of the path is asked for.
pub open spec fn after_content(
    path: Seq<char>,
    content: Seq<char>,
    items: Seq<ContentItemView>,
) -> (WriteStateView, WriteActionView) {
    if items.len() == 0 {
        finished(Err(missing("No content items found"@)))
    } else {
        let history = one_commit(path, CommitOrder::OldestFirst);
        match items[0].content {
            None => (WriteStateView::History { sha: items[0].sha, unchanged: false }, history),
            Some(encoded) => match stored_text(encoded) {
                Err(e) => finished(Err(StorageErrorView::GitHub(e))),
                Ok(current) => (
                    WriteStateView::History { sha: items[0].sha, unchanged: current == content },
                    history,
                ),
            },
        }
    }
}

/// The step after the first commit of an existing path has arrived: an
/// unchanged file has the commit that stores it now asked for, a changed one
/// is updated.
pub open spec fn after_history(
    branch: Seq<char>,
    path: Seq<char>,
    content: Seq<char>,
    sha: Seq<char>,
    unchanged: bool,
    oldest_first: Seq<CommitInfo>,
) -> (WriteStateView, WriteActionView) {
    match creation_time(oldest_first) {
        Err(e) => finished(Err(e)),
        Ok(created) => if unchanged {
            (WriteStateView::Newest { sha, created }, one_commit(path, CommitOrder::NewestFirst))
        } else {
            (
                WriteStateView::Updating { created },
                WriteActionView::Ask(
                    RemoteRequestView::UpdateFile {
                        path,
                        message: "Update "@ + path,
                        content,
                        sha,
                        branch,
                    },
                ),
            )
        },
    }
}

/// One step of a write of `content` to `path` on `branch`.
///
/// An empty path is refused before anything is asked. A path that does not
/// exist is created. A path whose stored text equals `content` is left alone:
/// what is returned of it is the stored hash, the time of its first commit
/// and the time of the commit that stores it now. Any other path is updated,
/// with the stored content hash as the token that lets the remote refuse a
/// stale update. A failure of the remote ends the write with that failure;
/// only "not found" on the first read does not.
pub open spec fn write_step(
    branch: Seq<char>,
    path: Seq<char>,
    content: Seq<char>,
    state: WriteStateView,
    event: RemoteEventView,
) -> (WriteStateView, WriteActionView) {
    match (state, event) {
        (WriteStateView::Start, RemoteEventView::Begin) => if path.len() == 0 {
            finished(Err(StorageErrorView::InvalidPath("Path cannot be empty"@)))
        } else {
            (
                WriteStateView::Reading,
                WriteActionView::Ask(RemoteRequestView::GetContent { path, branch }),
            )
        },
        (
            WriteStateView::Reading,
            RemoteEventView::Failed(GitHubStorageErrorView::NotFound),
        ) => (
            WriteStateView::Creating,
            WriteActionView::Ask(
                RemoteRequestView::CreateFile { path, message: "Create "@ + path, content, branch },
            ),
        ),
        (WriteStateView::Reading, RemoteEventView::Content(items)) => after_content(
            path,
            content,
            items,
        ),
        (WriteStateView::Creating, RemoteEventView::Committed(c)) => finished(created_meta(c)),
        (
            WriteStateView::History { sha, unchanged },
            RemoteEventView::Commits(commits),
        ) => after_history(branch, path, content, sha, unchanged, commits),
        (WriteStateView::Newest { sha, created }, RemoteEventView::Commits(commits)) => finished(
            unchanged_meta(sha, created, commits),
        ),
        (WriteStateView::Updating { created }, RemoteEventView::Committed(c)) => finished(
            updated_meta(created, c),
        ),
        (WriteStateView::Start, _) => finished(Err(unexpected())),
        (WriteStateView::Done, _) => finished(Err(unexpected())),
        (_, RemoteEventView::Failed(e)) => finished(Err(StorageErrorView::GitHub(e))),
        (_, _) => finished(Err(unexpected())),
    }
}

pub(crate) fn missing_data(what: &str) -> (e: StorageError)
    ensures
        e@ == missing(what@),
{
    StorageError::GitHub(GitHubStorageError::MissingData(String::from_str(what)))
}

pub(crate) fn unexpected_reply() -> (e: StorageError)
    ensures
        e@ == unexpected(),
{
    StorageError::GitHub(GitHubStorageError::ApiError(String::from_str("Unexpected reply")))
}

/// The view of a time or the error in its place.
pub open spec fn time_view(r: Result<Timestamp, StorageError>) -> Result<
    Timestamp,
    StorageErrorView,
> {
    match r {
        Ok(t) => Ok(t),
        Err(e) => Err(e@),
    }
}

fn date_of(person: Option<CommitPerson>, no_person: &str, no_date: &str) -> (r: Result<
    Timestamp,
    StorageError,
>)
    ensures
        time_view(r) == signed_date(person, no_person@, no_date@),
{
    match person {
        None => Err(missing_data(no_person)),
        Some(p) => match p.date {
            None => Err(missing_data(no_date)),
            Some(t) => Ok(t),
        },
    }
}

/// The time of the commit `c`; `of` says whose commit it is.
fn time_of(c: CommitInfo, of: &str) -> (r: Result<Timestamp, StorageError>)
    ensures
        time_view(r) == commit_time(c, of@),
{
    let no_author = join2("Missing author data", of);
    let no_author_date = join2("Missing author date", of);
    match date_of(c.author, no_author.as_str(), no_author_date.as_str()) {
        Err(e) => Err(e),
        Ok(_) => {
            let no_committer = join2("Missing committer data", of);
            let no_committer_date = join2("Missing committer date", of);
            date_of(c.committer, no_committer.as_str(), no_committer_date.as_str())
        },
    }
}

/// The time of the commit that stands first in `commits`.
fn first_time_of(commits: &Vec<CommitInfo>, of: &str) -> (r: Result<Timestamp, StorageError>)
    ensures
        time_view(r) == first_commit_time(commits@, of@),
{
    if commits.len() == 0 {
        Err(missing_data("No commit history found for file"))
    } else {
        time_of(commits[0], of)
    }
}

fn one_commit_of(path: &str, order: CommitOrder) -> (action: WriteAction)
    ensures
        action@ == one_commit(path@, order),
{
    WriteAction::Ask(RemoteRequest::ListCommits { path: String::from_str(path), per_page: 1, order })
}

impl GitHubStorage {
    /// The storage for `branch` of `owner/repo`; the branch is `main` where
    /// none is given.
    pub fn new(owner: &str, repo: &str, branch: Option<&str>) -> (s: GitHubStorage)
        ensures
            s@.owner == owner@,
            s@.repo == repo@,
            s@.branch == match branch {
                Some(b) => b@,
                None => "main"@,
            },
    {
        let branch = match branch {
            Some(b) => String::from_str(b),
            None => String::from_str("main"),
        };
        GitHubStorage { owner: String::from_str(owner), repo: String::from_str(repo), branch }
    }

    /// The owner of the repository.
    pub fn owner(&self) -> (name: &str)
        ensures
            name@ == self@.owner,
    {
        self.owner.as_str()
    }

    /// The name of the repository.
    pub fn repo(&self) -> (name: &str)
        ensures
            name@ == self@.repo,
    {
        self.repo.as_str()
    }

    /// The branch that holds the files.
    pub fn branch(&self) -> (name: &str)
        ensures
            name@ == self@.branch,
    {
        self.branch.as_str()
    }

    /// The storage as text: `GitHubStorage(owner=.., repo=.., branch=..)`.
    pub fn to_string(&self) -> (text: String)
        ensures
            text@ == "GitHubStorage(owner="@ + self@.owner + ", repo="@ + self@.repo
                + ", branch="@ + self@.branch + ")"@,
    {
        let mut text = join3("GitHubStorage(owner=", self.owner.as_str(), ", repo=");
        text.append(self.repo.as_str());
        text.append(", branch=");
        text.append(self.branch.as_str());
        text.append(")");
        text
    }

    /// The metadata of a file that the commit `c` has just created: it was
    /// created and last modified at the time of that commit.
    pub fn create_file(c: FileCommit) -> (r: Result<FileMeta, StorageError>)
        ensures
            meta_result_view(r) == created_meta(c@),
            r matches Ok(meta) ==> meta.created == meta.modified,
    {
        match time_of(c.commit, "") {
            Ok(time) => Ok(FileMeta { sha: c.content_sha, created: time, modified: time }),
            Err(e) => Err(e),
        }
    }

    /// The step of a write after the current content of the path has arrived.
    fn write_after_content(path: &str, content: &str, items: Vec<ContentItem>) -> (r: (
        WriteState,
        WriteAction,
    ))
        ensures
            (r.0@, r.1@) == after_content(path@, content@, items_view(items@)),
    {
        if items.len() == 0 {
            return finish(Err(missing_data("No content items found")));
        }
        let item = &items[0];
        assert(items_view(items@)[0] == items@[0]@);
        let sha = item.sha.clone();
        let unchanged = match &item.content {
            None => false,
            Some(encoded) => match decode_content(encoded.as_str()) {
                Err(e) => { return finish(Err(StorageError::GitHub(e))); },
                Ok(current) => current == String::from_str(content),
            },
        };
        (WriteState::History { sha, unchanged }, one_commit_of(path, CommitOrder::OldestFirst))
    }

    /// The step of a write after the first commit of the path has arrived.
    fn write_after_history(
        &self,
        path: &str,
        content: &str,
        sha: String,
        unchanged: bool,
        oldest_first: Vec<CommitInfo>,
    ) -> (r: (WriteState, WriteAction))
        ensures
            (r.0@, r.1@) == after_history(
                self@.branch,
                path@,
                content@,
                sha@,
                unchanged,
                oldest_first@,
            ),
    {
        let created = match first_time_of(&oldest_first, " for original file") {
            Ok(t) => t,
            Err(e) => { return finish(Err(e)); },
        };
        if unchanged {
            (WriteState::Newest { sha, created }, one_commit_of(path, CommitOrder::NewestFirst))
        } else {
            (
                WriteState::Updating { created },
                WriteAction::Ask(
                    RemoteRequest::UpdateFile {
                        path: String::from_str(path),
                        message: join2("Update ", path),
                        content: String::from_str(content),
                        sha,
                        branch: self.branch.clone(),
                    },
                ),
            )
        }
    }

    /// The metadata of an unchanged file, once the commit that stores it now
    /// has arrived.
    fn unchanged_file(sha: String, created: Timestamp, newest_first: Vec<CommitInfo>) -> (r: Result<
        FileMeta,
        StorageError,
    >)
        ensures
            meta_result_view(r) == unchanged_meta(sha@, created, newest_first@),
    {
        match first_time_of(&newest_first, " for file") {
            Ok(modified) => Ok(FileMeta { sha, created, modified }),
            Err(e) => Err(e),
        }
    }

    /// The metadata of a file that the commit `c` has just updated and that
    /// was created at `created`.
    fn update_file(created: Timestamp, c: FileCommit) -> (r: Result<FileMeta, StorageError>)
        ensures
            meta_result_view(r) == updated_meta(created, c@),
    {
        match time_of(c.commit, "") {
            Ok(modified) => Ok(FileMeta { sha: c.content_sha, created, modified }),
            Err(e) => Err(e),
        }
    }

    /// One step of writing `content` to `path`.
    ///
    /// Called first with the state `Start` and the event `Begin`, then with
    /// the state it returned and the remote's answer to the request it made,
    /// until it returns `Finish`. It never asks for an update when the stored
    /// text equals `content`, and never for anything when `path` is empty.
    pub fn write(&self, path: &str, content: &str, state: WriteState, event: RemoteEvent) -> (r: (
        WriteState,
        WriteAction,
    ))
        ensures
            (r.0@, r.1@) == write_step(self@.branch, path@, content@, state@, event@),
    {
        match state {
            WriteState::Start => match event {
                RemoteEvent::Begin => {
                    if path.is_empty() {
                        finish(
                            Err(StorageError::InvalidPath(String::from_str("Path cannot be empty"))),
                        )
                    } else {
                        (
                            WriteState::Reading,
                            WriteAction::Ask(
                                RemoteRequest::GetContent {
                                    path: String::from_str(path),
                                    branch: self.branch.clone(),
                                },
                            ),
                        )
                    }
                },
                _ => finish(Err(unexpected_reply())),
            },
            WriteState::Reading => match event {
                RemoteEvent::Failed(GitHubStorageError::NotFound) => (
                    WriteState::Creating,
                    WriteAction::Ask(
                        RemoteRequest::CreateFile {
                            path: String::from_str(path),
                            message: join2("Create ", path),
                            content: String::from_str(content),
                            branch: self.branch.clone(),
                        },
                    ),
                ),
                RemoteEvent::Failed(e) => finish(Err(StorageError::GitHub(e))),
                RemoteEvent::Content(items) => Self::write_after_content(path, content, items),
                _ => finish(Err(unexpected_reply())),
            },
            WriteState::Creating => match event {
                RemoteEvent::Committed(c) => finish(Self::create_file(c)),
                RemoteEvent::Failed(e) => finish(Err(StorageError::GitHub(e))),
                _ => finish(Err(unexpected_reply())),
            },
            WriteState::History { sha, unchanged } => match event {
                RemoteEvent::Commits(commits) => self.write_after_history(
                    path,
                    content,
                    sha,
                    unchanged,
                    commits,
                ),
                RemoteEvent::Failed(e) => finish(Err(StorageError::GitHub(e))),
                _ => finish(Err(unexpected_reply())),
            },
            WriteState::Newest { sha, created } => match event {
                RemoteEvent::Commits(commits) => finish(
                    Self::unchanged_file(sha, created, commits),
                ),
                RemoteEvent::Failed(e) => finish(Err(StorageError::GitHub(e))),
                _ => finish(Err(unexpected_reply())),
            },
            WriteState::Updating { created } => match event {
                RemoteEvent::Committed(c) => finish(Self::update_file(created, c)),
                RemoteEvent::Failed(e) => finish(Err(StorageError::GitHub(e))),
                _ => finish(Err(unexpected_reply())),
            },
            WriteState::Done => finish(Err(unexpected_reply())),
        }
    }
}

/// Ends a write with `r`.
fn finish(r: Result<FileMeta, StorageError>) -> (out: (WriteState, WriteAction))
    ensures
        (out.0@, out.1@) == finished(meta_result_view(r)),
{
    (WriteState::Done, WriteAction::Finish(r))
}

/// How a write of `content` to `path` ends when the path is there: the
/// remote answers the read with `items`, the question for the first commit
/// with `oldest_first`, and, if it is asked, the question for the commit that
/// stores the file now with `newest_first`.
pub open spec fn write_of_present(
    branch: Seq<char>,
    path: Seq<char>,
    content: Seq<char>,
    items: Seq<ContentItemView>,
    oldest_first: Seq<CommitInfo>,
    newest_first: Seq<CommitInfo>,
) -> (WriteStateView, WriteActionView) {
    let first = write_step(branch, path, content, WriteStateView::Start, RemoteEventView::Begin);
    let second = write_step(branch, path, content, first.0, RemoteEventView::Content(items));
    let third = write_step(branch, path, content, second.0, RemoteEventView::Commits(oldest_first));
    if third.1 is Finish {
        third
    } else {
        write_step(branch, path, content, third.0, RemoteEventView::Commits(newest_first))
    }
}

/// Whether the remote stores the text `content` under the hash `sha`, as a
/// read of the path shows it.
pub open spec fn stores(items: Seq<ContentItemView>, content: Seq<char>, sha: Seq<char>) -> bool {
    &&& items.len() > 0
    &&& items[0].sha == sha
    &&& items[0].content matches Some(encoded) && stored_text(encoded) == Ok::<
        Seq<char>,
        GitHubStorageErrorView,
    >(content)
}

/// Writing a text to a path that already stores it changes nothing: the
/// write asks for the content, for the first commit and for the newest
/// commit, then ends, without asking for an update or a creation. What it
/// returns is the stored hash, the time of the first commit as `created`,
/// and the time of the newest commit as `modified`.
pub proof fn lemma_unchanged_write_asks_no_update(
    branch: Seq<char>,
    path: Seq<char>,
    content: Seq<char>,
    items: Seq<ContentItemView>,
    oldest_first: Seq<CommitInfo>,
    newest_first: Seq<CommitInfo>,
)
    requires
        path.len() > 0,
        stores(items, content, items[0].sha),
    ensures
        ({
            let first = write_step(
                branch,
                path,
                content,
                WriteStateView::Start,
                RemoteEventView::Begin,
            );
            let second = write_step(branch, path, content, first.0, RemoteEventView::Content(items));
            let third = write_step(
                branch,
                path,
                content,
                second.0,
                RemoteEventView::Commits(oldest_first),
            );
            let last = write_of_present(branch, path, content, items, oldest_first, newest_first);
            &&& first.1 == WriteActionView::Ask(RemoteRequestView::GetContent { path, branch })
            &&& second.1 == one_commit(path, CommitOrder::OldestFirst)
            &&& third.1 == one_commit(path, CommitOrder::NewestFirst) || third.1 is Finish
            &&& last == finished(
                match creation_time(oldest_first) {
                    Err(e) => Err(e),
                    Ok(created) => unchanged_meta(items[0].sha, created, newest_first),
                },
            )
            &&& last.1 matches WriteActionView::Finish(Ok(meta)) ==> {
                &&& meta.sha == items[0].sha
                &&& oldest_first[0].committer matches Some(c) && c.date == Some(meta.created)
                &&& newest_first[0].committer matches Some(c) && c.date == Some(meta.modified)
            }
        }),
{
}

/// A write of the text that an earlier write found stored returns what that
/// write returned: the earlier write left the remote as it found it, so this
/// one sees the same hash, the same first commit and the same newest commit.
pub proof fn lemma_write_after_unchanged_write(
    branch: Seq<char>,
    path: Seq<char>,
    content: Seq<char>,
    items: Seq<ContentItemView>,
    oldest_first: Seq<CommitInfo>,
    newest_first: Seq<CommitInfo>,
    items_after: Seq<ContentItemView>,
    oldest_after: Seq<CommitInfo>,
    newest_after: Seq<CommitInfo>,
)
    requires
        path.len() > 0,
        stores(items, content, items[0].sha),
        stores(items_after, content, items[0].sha),
        oldest_after.len() == oldest_first.len(),
        oldest_first.len() > 0 ==> oldest_after[0] == oldest_first[0],
        newest_after.len() == newest_first.len(),
        newest_first.len() > 0 ==> newest_after[0] == newest_first[0],
    ensures
        write_of_present(branch, path, content, items_after, oldest_after, newest_after)
            == write_of_present(branch, path, content, items, oldest_first, newest_first),
{
}

/// A write of the text that an earlier write has just stored by an update
/// returns what that write returned, so `modified` stays at the time of the
/// update. The earlier write found the first commit `first` and got the
/// commit `update` for an answer; nothing else has written since, so the
/// remote stores the text under the hash of the update, `first` is still the
/// first commit and the commit of the update is the newest.
pub proof fn lemma_write_after_update(
    branch: Seq<char>,
    path: Seq<char>,
    content: Seq<char>,
    created: Timestamp,
    update: FileCommitView,
    earlier: FileMetaView,
    items_after: Seq<ContentItemView>,
    oldest_after: Seq<CommitInfo>,
    newest_after: Seq<CommitInfo>,
)
    requires
        path.len() > 0,
        write_step(
            branch,
            path,
            content,
            WriteStateView::Updating { created },
            RemoteEventView::Committed(update),
        ) == finished(Ok(earlier)),
        stores(items_after, content, update.content_sha),
        creation_time(oldest_after) == Ok::<Timestamp, StorageErrorView>(created),
        newest_after.len() > 0,
        newest_after[0] == update.commit,
    ensures
        write_of_present(branch, path, content, items_after, oldest_after, newest_after)
            == finished(Ok(earlier)),
{
}

/// A write of the text that an earlier write has just stored by creating the
/// path returns what that write returned. The earlier write got the commit
/// `creation` for an answer; nothing else has written since, so the remote
/// stores the text under the hash of the creation, and the commit of the
/// creation is both the first and the newest.
pub proof fn lemma_write_after_create(
    branch: Seq<char>,
    path: Seq<char>,
    content: Seq<char>,
    creation: FileCommitView,
    earlier: FileMetaView,
    items_after: Seq<ContentItemView>,
    oldest_after: Seq<CommitInfo>,
    newest_after: Seq<CommitInfo>,
)
    requires
        path.len() > 0,
        write_step(
            branch,
            path,
            content,
            WriteStateView::Creating,
            RemoteEventView::Committed(creation),
        ) == finished(Ok(earlier)),
        stores(items_after, content, creation.content_sha),
        oldest_after.len() > 0,
        oldest_after[0] == creation.commit,
        newest_after.len() > 0,
        newest_after[0] == creation.commit,
    ensures
        write_of_present(branch, path, content, items_after, oldest_after, newest_after)
            == finished(Ok(earlier)),
{
}

/// Writing to a path that does not exist creates it: the write asks for the
/// content, learns that there is none, asks for the creation, and returns
/// the hash that the creating commit gives with the time of that commit as
/// both `created` and `modified`.
pub proof fn lemma_write_creates_missing_path(
    branch: Seq<char>,
    path: Seq<char>,
    content: Seq<char>,
    c: FileCommitView,
)
    requires
        path.len() > 0,
    ensures
        ({
            let first = write_step(
                branch,
                path,
                content,
                WriteStateView::Start,
                RemoteEventView::Begin,
            );
            let second = write_step(
                branch,
                path,
                content,
                first.0,
                RemoteEventView::Failed(GitHubStorageErrorView::NotFound),
            );
            let third = write_step(branch, path, content, second.0, RemoteEventView::Committed(c));
            &&& first.1 == WriteActionView::Ask(RemoteRequestView::GetContent { path, branch })
            &&& second.1 == WriteActionView::Ask(
                RemoteRequestView::CreateFile { path, message: "Create "@ + path, content, branch },
            )
            &&& third == finished(created_meta(c))
            &&& third.1 matches WriteActionView::Finish(Ok(meta)) ==> {
                &&& meta.sha == c.content_sha
                &&& meta.created == meta.modified
                &&& c.commit.committer matches Some(p) && p.date == Some(meta.modified)
            }
        }),
{
}

/// What a read does next.
#[derive(Debug, PartialEq, Eq)]
pub enum ReadAction {
    /// Send the request and come back with the answer.
    Ask(RemoteRequest),
    /// The read has ended with this result.
    Finish(Result<StoredFile, StorageError>),
}

/// View of a [`ReadAction`].
pub enum ReadActionView {
    Ask(RemoteRequestView),
    Finish(Result<StoredFileView, StorageErrorView>),
}

impl View for ReadAction {
    type V = ReadActionView;

    open spec fn view(&self) -> ReadActionView {
        match self {
            ReadAction::Ask(q) => ReadActionView::Ask(q@),
            ReadAction::Finish(Ok(file)) => ReadActionView::Finish(Ok(file@)),
            ReadAction::Finish(Err(e)) => ReadActionView::Finish(Err(e@)),
        }
    }
}

/// The file that a content listing holds: the text of its first entry,
/// decoded, with the content hash of that entry.
pub open spec fn file_of_items(items: Seq<ContentItemView>) -> Result<
    StoredFileView,
    StorageErrorView,
> {
    if items.len() == 0 {
        Err(missing("No content items found"@))
    } else {
        match items[0].content {
            None => Err(missing("No content found"@)),
            Some(encoded) => match stored_text(encoded) {
                Err(e) => Err(StorageErrorView::GitHub(e)),
                Ok(content) => Ok(StoredFileView { content, sha: items[0].sha }),
            },
        }
    }
}

/// The view of a file read or the error in its place.
pub open spec fn file_result_view(r: Result<StoredFile, StorageError>) -> Result<
    StoredFileView,
    StorageErrorView,
> {
    match r {
        Ok(file) => Ok(file@),
        Err(e) => Err(e@),
    }
}

/// One step of a read of `path` on `branch`: ask for the content, then
/// decode what arrives and return it with its content hash.
pub open spec fn read_step(branch: Seq<char>, path: Seq<char>, event: RemoteEventView) ->
    ReadActionView {
    match event {
        RemoteEventView::Begin => ReadActionView::Ask(
            RemoteRequestView::GetContent { path, branch },
        ),
        RemoteEventView::Content(items) => ReadActionView::Finish(file_of_items(items)),
        RemoteEventView::Failed(e) => ReadActionView::Finish(Err(StorageErrorView::GitHub(e))),
        _ => ReadActionView::Finish(Err(unexpected())),
    }
}

/// Reads the file that a content listing holds.
pub fn read_items(items: Vec<ContentItem>) -> (r: Result<StoredFile, StorageError>)
    ensures
        file_result_view(r) == file_of_items(items_view(items@)),
{
    if items.len() == 0 {
        return Err(missing_data("No content items found"));
    }
    assert(items_view(items@)[0] == items@[0]@);
    let sha = items[0].sha.clone();
    match &items[0].content {
        None => Err(missing_data("No content found")),
        Some(encoded) => match decode_content(encoded.as_str()) {
            Err(e) => Err(StorageError::GitHub(e)),
            Ok(content) => Ok(StoredFile { content, sha }),
        },
    }
}

impl GitHubStorage {
    /// One step of reading the file stored at `path`: its text and its
    /// content hash.
    ///
    /// Called first with the event `Begin`, then with the remote's answer.
    pub fn read(&self, path: &str, event: RemoteEvent) -> (r: ReadAction)
        ensures
            r@ == read_step(self@.branch, path@, event@),
    {
        match event {
            RemoteEvent::Begin => ReadAction::Ask(
                RemoteRequest::GetContent {
                    path: String::from_str(path),
                    branch: self.branch.clone(),
                },
            ),
            RemoteEvent::Content(items) => ReadAction::Finish(read_items(items)),
            RemoteEvent::Failed(e) => ReadAction::Finish(Err(StorageError::GitHub(e))),
            _ => ReadAction::Finish(Err(unexpected_reply())),
        }
    }
}

} // verus!
