use gitbase::coder::generate_collection_id;
use gitbase::error::{GitHubStorageError, StorageError};
use gitbase::paths::{
    collection_dir_of, collection_metadata_path_of, document_path_of, gitkeep_path_of,
};
use gitbase::storage::{CommitInfo, FileCommit, RemoteEvent, RemoteRequest};
use gitbase::text::{join2, join3};
use gitbase::{CollectionAction, CollectionState, Document, GitBase, Metadata};

fn committed() -> RemoteEvent {
    RemoteEvent::Committed(FileCommit {
        content_sha: "sha".to_string(),
        commit: CommitInfo { author: None, committer: None },
    })
}

#[test]
fn path_conventions() {
    assert_eq!(collection_dir_of("notes"), "collections/notes");
    assert_eq!(document_path_of("notes", "gbdoc1abc"), "collections/notes/gbdoc1abc.json");
    assert_eq!(gitkeep_path_of("notes"), "collections/notes/.gitkeep");
    assert_eq!(collection_metadata_path_of("notes"), "collections/notes/collection.json");
    assert_eq!(document_path_of("", ""), "collections//.json");
}

#[test]
fn joining_text() {
    assert_eq!(join2("ab", "cd"), "abcd");
    assert_eq!(join2("", ""), "");
    assert_eq!(join3("a", "", "c"), "ac");
    assert_eq!(join3("é", "✓", "z"), "é✓z");
}

#[test]
fn gitbase_keeps_its_repository() {
    let base = GitBase::new("octo", "docs");
    assert_eq!(base.owner(), "octo");
    assert_eq!(base.repo(), "docs");
}

#[test]
fn create_collection_writes_placeholder_then_metadata() {
    let base = GitBase::new("octo", "docs");
    let when = "2024-05-01T12:00:00+00:00";
    let (state, action) =
        base.create_collection("notes", "main", when, CollectionState::Start, RemoteEvent::Begin);
    assert_eq!(state, CollectionState::Placeholder);
    assert_eq!(
        action,
        CollectionAction::Ask(RemoteRequest::CreateFile {
            path: "collections/notes/.gitkeep".to_string(),
            message: "Initialize collection directory".to_string(),
            content: String::new(),
            branch: "main".to_string(),
        })
    );
    let (state, action) = base.create_collection("notes", "main", when, state, committed());
    assert_eq!(state, CollectionState::Metadata);
    let mut expected = serde_json::Map::new();
    expected.insert("name".to_string(), serde_json::Value::String("notes".to_string()));
    expected.insert(
        "collection_id".to_string(),
        serde_json::Value::String(generate_collection_id("notes").unwrap()),
    );
    expected.insert("created_at".to_string(), serde_json::Value::String(when.to_string()));
    match action {
        CollectionAction::Ask(RemoteRequest::CreateFile { path, message, content, branch }) => {
            assert_eq!(path, "collections/notes/collection.json");
            assert_eq!(message, "Store collection metadata");
            assert_eq!(branch, "main");
            assert_eq!(content, serde_json::Value::Object(expected.clone()).to_string());
            let parsed: serde_json::Value = serde_json::from_str(&content).unwrap();
            assert_eq!(parsed, serde_json::Value::Object(expected));
        }
        other => panic!("unexpected {:?}", other),
    }
    let (state, action) = base.create_collection("notes", "main", when, state, committed());
    assert_eq!(state, CollectionState::Done);
    assert_eq!(action, CollectionAction::Finish(Ok(())));
}

#[test]
fn collection_metadata_escapes_its_name() {
    let base = GitBase::new("octo", "docs");
    let name = "my \"quoted\"\nnotes";
    let (_, action) =
        base.create_collection(name, "main", "now", CollectionState::Placeholder, committed());
    match action {
        CollectionAction::Ask(RemoteRequest::CreateFile { content, .. }) => {
            let parsed: serde_json::Value = serde_json::from_str(&content).unwrap();
            assert_eq!(parsed["name"], serde_json::Value::String(name.to_string()));
            assert_eq!(
                parsed["collection_id"],
                serde_json::Value::String(generate_collection_id(name).unwrap())
            );
            assert_ne!(content, name);
        }
        other => panic!("unexpected {:?}", other),
    }
}

#[test]
fn create_collection_stops_at_the_first_failure() {
    let base = GitBase::new("octo", "docs");
    for state in [CollectionState::Placeholder, CollectionState::Metadata] {
        let (state, action) = base.create_collection(
            "notes",
            "main",
            "now",
            state,
            RemoteEvent::Failed(GitHubStorageError::Forbidden),
        );
        assert_eq!(state, CollectionState::Done);
        assert_eq!(
            action,
            CollectionAction::Finish(Err(StorageError::GitHub(GitHubStorageError::Forbidden)))
        );
    }
}

#[test]
fn create_collection_refuses_an_answer_out_of_turn() {
    let base = GitBase::new("octo", "docs");
    let unexpected =
        StorageError::GitHub(GitHubStorageError::ApiError("Unexpected reply".to_string()));
    let cases = vec![
        (CollectionState::Start, committed()),
        (CollectionState::Start, RemoteEvent::Failed(GitHubStorageError::Forbidden)),
        (CollectionState::Placeholder, RemoteEvent::Begin),
        (CollectionState::Metadata, RemoteEvent::Content(vec![])),
        (CollectionState::Done, RemoteEvent::Begin),
    ];
    for (state, event) in cases {
        let (state, action) = base.create_collection("notes", "main", "now", state, event);
        assert_eq!(state, CollectionState::Done);
        assert_eq!(action, CollectionAction::Finish(Err(unexpected.clone())));
    }
}

#[test]
fn document_holds_its_parts() {
    let doc = Document {
        id: "gbdoc1abc".to_string(),
        content: "{\"title\":\"Hello\"}".to_string(),
        meta: Metadata { created_at: "2024-05-01".to_string(), updated_sha: "sha".to_string() },
    };
    assert_eq!(doc.clone(), doc);
    assert_eq!(doc.meta.updated_sha, "sha");
}
