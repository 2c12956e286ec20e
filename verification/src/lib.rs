//! A document store kept in a remote, version-controlled file repository:
//! identifier codec, bounded synchronising cache, and write reconciliation.
//!
//! The library decides and computes; it performs no I/O. Every operation
//! against the remote store is a step function that is handed the remote's
//! last answer and says what to ask next.

pub mod cache;
pub mod coder;
pub mod error;
pub mod paths;
pub mod storage;
pub mod text;

use crate::coder::{collection_id, generate_collection_id};
use crate::error::{StorageError, StorageErrorView};
use crate::paths::{
    collection_metadata_path, collection_metadata_path_of, gitkeep_path, gitkeep_path_of,
};
use crate::storage::github::{unexpected, unexpected_reply};
use crate::storage::{RemoteEvent, RemoteEventView, RemoteRequest, RemoteRequestView};
use vstd::prelude::*;

verus! {

/// What is recorded of a document beside its content.
#[derive(Debug, Clone, PartialEq, Eq)]
pub struct Metadata {
    pub created_at: String,
    pub updated_sha: String,
}

/// A document: its identifier, its content as JSON text, and its metadata.
#[derive(Debug, Clone, PartialEq, Eq)]
pub struct Document {
    pub id: String,
    pub content: String,
    pub meta: Metadata,
}

/// The compact JSON text of an object whose members are strings, given as
/// names and values.
pub uninterp spec fn json_object_text(members: Seq<(Seq<char>, Seq<char>)>) -> Seq<char>;

/// The names and values of a list of members.
pub open spec fn members_view(members: Seq<(String, String)>) -> Seq<(Seq<char>, Seq<char>)> {
    members.map_values(|m: (String, String)| (m.0@, m.1@))
}

/// Writes an object of strings as JSON. Trusted: the `Display` of
/// `serde_json::Value` writes an object in compact form, and the text depends
/// on the names and values alone.
#[verifier::external_body]
fn json_object(members: Vec<(String, String)>) -> (text: String)
    ensures
        text@ == json_object_text(members_view(members@)),
{
    serde_json::Value::Object(
        members.into_iter().map(|(name, value)| (name, serde_json::Value::String(value))).collect(),
    ).to_string()
}

/// The repository that holds the collections.
#[derive(Debug, Clone, PartialEq, Eq)]
pub struct GitBase {
    owner: String,
    repo: String,
}

impl View for GitBase {
    type V = (Seq<char>, Seq<char>);

    closed spec fn view(&self) -> (Seq<char>, Seq<char>) {
        (self.owner@, self.repo@)
    }
}

/// Where the creation of a collection stands.
#[derive(Debug, Clone, Copy, PartialEq, Eq, Structural)]
pub enum CollectionState {
    /// Nothing has been asked yet.
    Start,
    /// The placeholder that keeps the directory has been asked for.
    Placeholder,
    /// The metadata file has been asked for.
    Metadata,
    /// The creation has ended.
    Done,
}

/// What the creation of a collection does next.
#[derive(Debug, PartialEq, Eq)]
pub enum CollectionAction {
    /// Send the request and come back with the answer.
    Ask(RemoteRequest),
    /// The creation has ended.
    Finish(Result<(), StorageError>),
}

/// View of a [`CollectionAction`].
pub enum CollectionActionView {
    Ask(RemoteRequestView),
    Finish(Result<(), StorageErrorView>),
}

impl View for CollectionAction {
    type V = CollectionActionView;

    open spec fn view(&self) -> CollectionActionView {
        match self {
            CollectionAction::Ask(q) => CollectionActionView::Ask(q@),
            CollectionAction::Finish(Ok(())) => CollectionActionView::Finish(Ok(())),
            CollectionAction::Finish(Err(e)) => CollectionActionView::Finish(Err(e@)),
        }
    }
}

/// The metadata file of a collection: its name, its identifier, and the
/// time of its creation.
pub open spec fn collection_metadata(name: Seq<char>, created_at: Seq<char>) -> Seq<char> {
    json_object_text(
        seq![
            ("name"@, name),
            ("collection_id"@, collection_id(name)),
            ("created_at"@, created_at),
        ],
    )
}

/// One step of the creation of the collection `name` on `branch`: first the
/// empty placeholder that makes the directory exist, then the metadata file.
/// A failure of the remote ends the creation with that failure.
pub open spec fn create_collection_step(
    name: Seq<char>,
    branch: Seq<char>,
    created_at: Seq<char>,
    state: CollectionState,
    event: RemoteEventView,
) -> (CollectionState, CollectionActionView) {
    match (state, event) {
        (CollectionState::Start, RemoteEventView::Begin) => (
            CollectionState::Placeholder,
            CollectionActionView::Ask(
                RemoteRequestView::CreateFile {
                    path: gitkeep_path(name),
                    message: "Initialize collection directory"@,
                    content: Seq::empty(),
                    branch,
                },
            ),
        ),
        (CollectionState::Placeholder, RemoteEventView::Committed(_)) => (
            CollectionState::Metadata,
            CollectionActionView::Ask(
                RemoteRequestView::CreateFile {
                    path: collection_metadata_path(name),
                    message: "Store collection metadata"@,
                    content: collection_metadata(name, created_at),
                    branch,
                },
            ),
        ),
        (CollectionState::Metadata, RemoteEventView::Committed(_)) => (
            CollectionState::Done,
            CollectionActionView::Finish(Ok(())),
        ),
        (CollectionState::Start, _) => (
            CollectionState::Done,
            CollectionActionView::Finish(Err(unexpected())),
        ),
        (CollectionState::Done, _) => (
            CollectionState::Done,
            CollectionActionView::Finish(Err(unexpected())),
        ),
        (_, RemoteEventView::Failed(e)) => (
            CollectionState::Done,
            CollectionActionView::Finish(Err(StorageErrorView::GitHub(e))),
        ),
        (_, _) => (CollectionState::Done, CollectionActionView::Finish(Err(unexpected()))),
    }
}

impl GitBase {
    /// The repository `owner/repo`.
    pub fn new(owner: &str, repo: &str) -> (base: GitBase)
        ensures
            base@ == (owner@, repo@),
    {
        GitBase { owner: String::from_str(owner), repo: String::from_str(repo) }
    }

    /// The owner of the repository.
    pub fn owner(&self) -> (name: &str)
        ensures
            name@ == self@.0,
    {
        self.owner.as_str()
    }

    /// The name of the repository.
    pub fn repo(&self) -> (name: &str)
        ensures
            name@ == self@.1,
    {
        self.repo.as_str()
    }

    /// One step of creating the collection `name` on `branch`; `created_at`
    /// is the time of the creation as it is to stand in the metadata.
    ///
    /// Called first with the state `Start` and the event `Begin`, then with
    /// the state it returned and the remote's answer to the request it made,
    /// until it returns `Finish`.
    pub fn create_collection(
        &self,
        name: &str,
        branch: &str,
        created_at: &str,
        state: CollectionState,
        event: RemoteEvent,
    ) -> (r: (CollectionState, CollectionAction))
        ensures
            (r.0, r.1@) == create_collection_step(name@, branch@, created_at@, state, event@),
    {
        match state {
            CollectionState::Start => match event {
                RemoteEvent::Begin => (
                    CollectionState::Placeholder,
                    CollectionAction::Ask(
                        RemoteRequest::CreateFile {
                            path: gitkeep_path_of(name),
                            message: String::from_str("Initialize collection directory"),
                            content: String::new(),
                            branch: String::from_str(branch),
                        },
                    ),
                ),
                _ => (CollectionState::Done, CollectionAction::Finish(Err(unexpected_reply()))),
            },
            CollectionState::Placeholder => match event {
                RemoteEvent::Committed(_) => (
                    CollectionState::Metadata,
                    CollectionAction::Ask(
                        RemoteRequest::CreateFile {
                            path: collection_metadata_path_of(name),
                            message: String::from_str("Store collection metadata"),
                            content: metadata_text(name, created_at),
                            branch: String::from_str(branch),
                        },
                    ),
                ),
                RemoteEvent::Failed(e) => (
                    CollectionState::Done,
                    CollectionAction::Finish(Err(StorageError::GitHub(e))),
                ),
                _ => (CollectionState::Done, CollectionAction::Finish(Err(unexpected_reply()))),
            },
            CollectionState::Metadata => match event {
                RemoteEvent::Committed(_) => (
                    CollectionState::Done,
                    CollectionAction::Finish(Ok(())),
                ),
                RemoteEvent::Failed(e) => (
                    CollectionState::Done,
                    CollectionAction::Finish(Err(StorageError::GitHub(e))),
                ),
                _ => (CollectionState::Done, CollectionAction::Finish(Err(unexpected_reply()))),
            },
            CollectionState::Done => (
                CollectionState::Done,
                CollectionAction::Finish(Err(unexpected_reply())),
            ),
        }
    }
}

/// The metadata file of the collection `name`.
fn metadata_text(name: &str, created_at: &str) -> (text: String)
    ensures
        text@ == collection_metadata(name@, created_at@),
{
    let id = generate_collection_id(name).unwrap();
    let mut members: Vec<(String, String)> = Vec::new();
    members.push((String::from_str("name"), String::from_str(name)));
    members.push((String::from_str("collection_id"), id));
    members.push((String::from_str("created_at"), String::from_str(created_at)));
    assert(members_view(members@) =~= seq![
        ("name"@, name@),
        ("collection_id"@, collection_id(name@)),
        ("created_at"@, created_at@),
    ]);
    json_object(members)
}

} // verus!
