use gitbase::cache::{
    BatchAction, Cache, CacheEvent, CacheRequest, GetAction, SchedulerAction, SchedulerEvent,
    SyncAction, SyncBatch, SyncFailure, SyncOutcome, CAPACITY, SYNC_INTERVAL_MILLIS,
    SYNC_INTERVAL_SECS,
};
use gitbase::error::{CacheError, GitHubStorageError, StorageError};
use gitbase::storage::{ContentItem, RemoteEvent, RemoteRequest};

fn hash_request(collection: &str, id: &str) -> CacheRequest {
    CacheRequest::Hash { path: format!("collections/{}/{}.json", collection, id) }
}

fn content_request(collection: &str, id: &str) -> CacheRequest {
    CacheRequest::Content { path: format!("collections/{}/{}.json", collection, id) }
}

fn content(text: &str, sha: &str) -> CacheEvent {
    CacheEvent::Content { content: text.to_string(), sha: sha.to_string() }
}

fn rate_limited() -> StorageError {
    StorageError::GitHub(GitHubStorageError::RateLimitExceeded)
}

fn full_cache() -> Cache {
    let mut cache = Cache::new("octo", "docs");
    for i in 0..CAPACITY {
        cache.insert(&format!("doc{}", i), &format!("content{}", i), &format!("sha{}", i));
    }
    cache
}

#[test]
fn new_cache_is_empty() {
    let cache = Cache::new("octo", "docs");
    assert_eq!(cache.owner(), "octo");
    assert_eq!(cache.repo(), "docs");
    assert!(!cache.contains("doc0"));
    assert_eq!(CAPACITY, 100);
}

#[test]
fn insert_then_get_is_a_hit() {
    let mut cache = Cache::new("octo", "docs");
    cache.insert("doc1", "{\"a\":1}", "sha1");
    assert!(cache.contains("doc1"));
    assert_eq!(
        cache.get("notes", "doc1", CacheEvent::Begin),
        GetAction::Finish(Ok(Some("{\"a\":1}".to_string())))
    );
}

#[test]
fn insert_replaces_what_is_cached() {
    let mut cache = Cache::new("octo", "docs");
    cache.insert("doc1", "old", "sha1");
    cache.insert("doc1", "new", "sha2");
    assert_eq!(
        cache.get("notes", "doc1", CacheEvent::Begin),
        GetAction::Finish(Ok(Some("new".to_string())))
    );
    assert_eq!(
        cache.sync_document("notes", "doc1", CacheEvent::Hash("sha2".to_string())),
        SyncAction::Finish(Ok(SyncOutcome::UpToDate))
    );
}

#[test]
fn remove_drops_the_entry_only() {
    let mut cache = Cache::new("octo", "docs");
    cache.insert("doc1", "a", "sha1");
    cache.insert("doc2", "b", "sha2");
    cache.remove("doc1");
    assert!(!cache.contains("doc1"));
    assert!(cache.contains("doc2"));
    cache.remove("doc1");
    cache.remove("never");
    assert!(cache.contains("doc2"));
}

#[test]
fn one_document_too_many_evicts_the_least_recently_used() {
    let mut cache = full_cache();
    for i in 0..CAPACITY {
        assert!(cache.contains(&format!("doc{}", i)));
    }
    cache.insert("doc100", "content100", "sha100");
    assert!(!cache.contains("doc0"));
    for i in 1..=CAPACITY {
        assert!(cache.contains(&format!("doc{}", i)), "doc{} is gone", i);
    }
}

#[test]
fn a_document_that_was_read_is_not_evicted() {
    let mut cache = full_cache();
    assert_eq!(
        cache.get("notes", "doc0", CacheEvent::Begin),
        GetAction::Finish(Ok(Some("content0".to_string())))
    );
    cache.insert("doc100", "content100", "sha100");
    assert!(cache.contains("doc0"));
    assert!(!cache.contains("doc1"));
    for i in 2..=CAPACITY {
        assert!(cache.contains(&format!("doc{}", i)), "doc{} is gone", i);
    }
}

#[test]
fn asking_whether_a_document_is_cached_does_not_protect_it() {
    let mut cache = full_cache();
    assert!(cache.contains("doc0"));
    cache.insert("doc100", "content100", "sha100");
    assert!(!cache.contains("doc0"));
}

#[test]
fn replacing_a_document_in_a_full_cache_evicts_nothing() {
    let mut cache = full_cache();
    cache.insert("doc0", "again", "sha0b");
    for i in 0..CAPACITY {
        assert!(cache.contains(&format!("doc{}", i)));
    }
    cache.insert("doc100", "content100", "sha100");
    assert!(cache.contains("doc0"));
    assert!(!cache.contains("doc1"));
}

#[test]
fn sync_of_an_unchanged_document_fetches_no_content() {
    let mut cache = Cache::new("octo", "docs");
    cache.insert("doc1", "text", "sha1");
    let mut content_requests = 0;
    let mut hash_requests = 0;
    let mut event = CacheEvent::Begin;
    let outcome = loop {
        match cache.sync_document("notes", "doc1", event) {
            SyncAction::Ask(CacheRequest::Hash { path }) => {
                assert_eq!(path, "collections/notes/doc1.json");
                hash_requests += 1;
                event = CacheEvent::Hash("sha1".to_string());
            }
            SyncAction::Ask(CacheRequest::Content { .. }) => {
                content_requests += 1;
                event = content("text", "sha1");
            }
            SyncAction::Wait => panic!("nothing else is under way"),
            SyncAction::Finish(outcome) => break outcome,
        }
    };
    assert_eq!(outcome, Ok(SyncOutcome::UpToDate));
    assert_eq!(hash_requests, 1);
    assert_eq!(content_requests, 0);
    assert_eq!(
        cache.get("notes", "doc1", CacheEvent::Begin),
        GetAction::Finish(Ok(Some("text".to_string())))
    );
}

#[test]
fn sync_of_a_changed_document_fetches_and_caches() {
    let mut cache = Cache::new("octo", "docs");
    cache.insert("doc1", "old", "sha1");
    assert_eq!(
        cache.sync_document("notes", "doc1", CacheEvent::Begin),
        SyncAction::Ask(hash_request("notes", "doc1"))
    );
    assert_eq!(
        cache.sync_document("notes", "doc1", CacheEvent::Hash("sha2".to_string())),
        SyncAction::Ask(content_request("notes", "doc1"))
    );
    assert_eq!(
        cache.sync_document("notes", "doc1", content("new", "sha2")),
        SyncAction::Finish(Ok(SyncOutcome::Synchronized))
    );
    assert_eq!(
        cache.get("notes", "doc1", CacheEvent::Begin),
        GetAction::Finish(Ok(Some("new".to_string())))
    );
    assert_eq!(
        cache.sync_document("notes", "doc1", CacheEvent::Hash("sha2".to_string())),
        SyncAction::Finish(Ok(SyncOutcome::UpToDate))
    );
}

#[test]
fn sync_of_a_document_that_is_not_cached_asks_for_the_content() {
    let mut cache = Cache::new("octo", "docs");
    assert_eq!(
        cache.sync_document("notes", "doc1", CacheEvent::Begin),
        SyncAction::Ask(content_request("notes", "doc1"))
    );
    assert_eq!(
        cache.sync_document("notes", "doc1", CacheEvent::Hash("sha1".to_string())),
        SyncAction::Ask(content_request("notes", "doc1"))
    );
    assert!(!cache.contains("doc1"));
}

#[test]
fn sync_marks_the_document_as_used() {
    let mut cache = full_cache();
    assert!(matches!(
        cache.sync_document("notes", "doc0", CacheEvent::Begin),
        SyncAction::Ask(CacheRequest::Hash { .. })
    ));
    cache.insert("doc100", "content100", "sha100");
    assert!(cache.contains("doc0"));
    assert!(!cache.contains("doc1"));
}

#[test]
fn sync_leaves_the_cache_alone_when_the_remote_has_nothing_or_fails() {
    let mut cache = Cache::new("octo", "docs");
    cache.insert("doc1", "text", "sha1");
    assert_eq!(
        cache.sync_document("notes", "doc1", CacheEvent::Absent),
        SyncAction::Finish(Ok(SyncOutcome::Absent))
    );
    assert_eq!(
        cache.sync_document("notes", "doc1", CacheEvent::Failed(rate_limited())),
        SyncAction::Finish(Err(rate_limited()))
    );
    assert_eq!(
        cache.get("notes", "doc1", CacheEvent::Begin),
        GetAction::Finish(Ok(Some("text".to_string())))
    );
}

#[test]
fn get_miss_fetches_and_returns_the_content() {
    let mut cache = Cache::new("octo", "docs");
    assert_eq!(
        cache.get("notes", "doc1", CacheEvent::Begin),
        GetAction::Ask(content_request("notes", "doc1"))
    );
    assert_eq!(
        cache.get("notes", "doc1", content("text", "sha1")),
        GetAction::Finish(Ok(Some("text".to_string())))
    );
    assert!(cache.contains("doc1"));
    assert_eq!(
        cache.get("notes", "doc1", CacheEvent::Begin),
        GetAction::Finish(Ok(Some("text".to_string())))
    );
}

#[test]
fn get_of_a_document_that_does_not_exist_is_none() {
    let mut cache = Cache::new("octo", "docs");
    assert!(matches!(cache.get("notes", "ghost", CacheEvent::Begin), GetAction::Ask(_)));
    assert_eq!(cache.get("notes", "ghost", CacheEvent::Absent), GetAction::Finish(Ok(None)));
    assert!(!cache.contains("ghost"));
}

#[test]
fn get_passes_a_remote_failure_on_unchanged() {
    let mut cache = Cache::new("octo", "docs");
    assert!(matches!(cache.get("notes", "doc1", CacheEvent::Begin), GetAction::Ask(_)));
    let failure = StorageError::GitHub(GitHubStorageError::ApiError("Status code: 502".to_string()));
    assert_eq!(
        cache.get("notes", "doc1", CacheEvent::Failed(failure.clone())),
        GetAction::Finish(Err(failure))
    );
}

#[test]
fn batch_visits_every_document_in_order_and_survives_failures() {
    let mut cache = Cache::new("octo", "docs");
    cache.insert("doc1", "one", "sha1");
    let catalog = vec![
        ("notes".to_string(), vec!["doc1".to_string(), "doc2".to_string()]),
        ("empty".to_string(), vec![]),
        ("tasks".to_string(), vec!["doc3".to_string(), "doc4".to_string()]),
    ];
    let batch = SyncBatch::from_catalog(&catalog);
    assert_eq!(
        batch,
        SyncBatch::new(vec![
            ("notes".to_string(), "doc1".to_string()),
            ("notes".to_string(), "doc2".to_string()),
            ("tasks".to_string(), "doc3".to_string()),
            ("tasks".to_string(), "doc4".to_string()),
        ])
    );

    let (batch, action) = cache.sync_all_documents(batch, CacheEvent::Begin);
    assert_eq!(action, BatchAction::Ask(hash_request("notes", "doc1")));
    // doc1 is up to date; doc2 starts at once.
    let (batch, action) = cache.sync_all_documents(batch, CacheEvent::Hash("sha1".to_string()));
    assert_eq!(action, BatchAction::Ask(content_request("notes", "doc2")));
    // doc2 fails; doc3 starts all the same.
    let (batch, action) = cache.sync_all_documents(batch, CacheEvent::Failed(rate_limited()));
    assert_eq!(action, BatchAction::Ask(content_request("tasks", "doc3")));
    // doc3 does not exist; doc4 starts.
    let (batch, action) = cache.sync_all_documents(batch, CacheEvent::Absent);
    assert_eq!(action, BatchAction::Ask(content_request("tasks", "doc4")));
    // doc4 arrives; nothing is left.
    let (batch, action) = cache.sync_all_documents(batch, content("four", "sha4"));
    assert_eq!(
        action,
        BatchAction::Finish(vec![SyncFailure {
            collection: "notes".to_string(),
            doc_id: "doc2".to_string(),
            error: rate_limited(),
        }])
    );
    assert!(cache.contains("doc1"));
    assert!(!cache.contains("doc2"));
    assert!(!cache.contains("doc3"));
    assert!(cache.contains("doc4"));
    // A finished batch stays finished and has handed its failures over.
    let (_, action) = cache.sync_all_documents(batch, CacheEvent::Begin);
    assert_eq!(action, BatchAction::Finish(vec![]));
}

#[test]
fn batch_where_every_document_fails_still_ends() {
    let mut cache = Cache::new("octo", "docs");
    let batch = SyncBatch::new(vec![
        ("notes".to_string(), "a".to_string()),
        ("notes".to_string(), "b".to_string()),
    ]);
    let (batch, action) = cache.sync_all_documents(batch, CacheEvent::Begin);
    assert_eq!(action, BatchAction::Ask(content_request("notes", "a")));
    let (batch, action) = cache.sync_all_documents(batch, CacheEvent::Failed(rate_limited()));
    assert_eq!(action, BatchAction::Ask(content_request("notes", "b")));
    let (_, action) = cache.sync_all_documents(batch, CacheEvent::Failed(rate_limited()));
    match action {
        BatchAction::Finish(failures) => {
            assert_eq!(failures.len(), 2);
            assert_eq!(failures[0].doc_id, "a");
            assert_eq!(failures[1].doc_id, "b");
        }
        other => panic!("unexpected {:?}", other),
    }
}

#[test]
fn empty_batch_ends_at_once() {
    let mut cache = Cache::new("octo", "docs");
    let (_, action) = cache.sync_all_documents(SyncBatch::new(vec![]), CacheEvent::Begin);
    assert_eq!(action, BatchAction::Finish(vec![]));
    let (_, action) = cache.sync_all_documents(SyncBatch::from_catalog(&vec![]), CacheEvent::Begin);
    assert_eq!(action, BatchAction::Finish(vec![]));
}

#[test]
fn scheduler_runs_every_ten_minutes_until_shutdown() {
    let cache = Cache::new("octo", "docs");
    assert_eq!(SYNC_INTERVAL_SECS, 600);
    assert_eq!(SYNC_INTERVAL_MILLIS, 600_000);
    assert_eq!(cache.start_auto_sync(SchedulerEvent::Started), SchedulerAction::SyncAll);
    assert_eq!(
        cache.start_auto_sync(SchedulerEvent::BatchDone { failures: 0, elapsed_millis: 0 }),
        SchedulerAction::Wait { millis: 600_000 }
    );
    assert_eq!(
        cache.start_auto_sync(SchedulerEvent::BatchDone { failures: 17, elapsed_millis: 1_500 }),
        SchedulerAction::Wait { millis: 598_500 }
    );
    assert_eq!(
        cache.start_auto_sync(SchedulerEvent::BatchDone { failures: 0, elapsed_millis: 600_000 }),
        SchedulerAction::Wait { millis: 0 }
    );
    assert_eq!(
        cache.start_auto_sync(SchedulerEvent::BatchDone { failures: 2, elapsed_millis: u64::MAX }),
        SchedulerAction::Wait { millis: 0 }
    );
    assert_eq!(cache.start_auto_sync(SchedulerEvent::Tick), SchedulerAction::SyncAll);
    assert_eq!(cache.start_auto_sync(SchedulerEvent::Shutdown), SchedulerAction::Stop);
}

#[test]
fn cache_error_messages() {
    assert_eq!(CacheError::SyncError.to_string(), "Cache synchronization error");
    assert_eq!(
        CacheError::NotFound("doc1".to_string()).to_string(),
        "Document not found: doc1"
    );
    assert_eq!(CacheError::StorageError.to_string(), "Storage backend error");
    assert_eq!(CacheError::InvalidFormat.to_string(), "Invalid document format");
}

#[test]
fn a_second_synchronisation_of_a_document_waits() {
    let mut cache = Cache::new("octo", "docs");
    assert_eq!(
        cache.sync_document("notes", "doc1", CacheEvent::Begin),
        SyncAction::Ask(content_request("notes", "doc1"))
    );
    assert_eq!(cache.sync_document("notes", "doc1", CacheEvent::Begin), SyncAction::Wait);
    assert_eq!(cache.get("notes", "doc1", CacheEvent::Begin), GetAction::Wait);
    // Another document is not held up.
    assert_eq!(
        cache.sync_document("notes", "doc2", CacheEvent::Begin),
        SyncAction::Ask(content_request("notes", "doc2"))
    );
    // The first synchronisation ends; the next one may ask again.
    assert_eq!(
        cache.sync_document("notes", "doc1", content("text", "sha1")),
        SyncAction::Finish(Ok(SyncOutcome::Synchronized))
    );
    assert_eq!(
        cache.get("notes", "doc1", CacheEvent::Begin),
        GetAction::Finish(Ok(Some("text".to_string())))
    );
    assert_eq!(
        cache.sync_document("notes", "doc1", CacheEvent::Begin),
        SyncAction::Ask(hash_request("notes", "doc1"))
    );
    assert_eq!(cache.sync_document("notes", "doc1", CacheEvent::Begin), SyncAction::Wait);
    assert_eq!(
        cache.sync_document("notes", "doc1", CacheEvent::Hash("sha1".to_string())),
        SyncAction::Finish(Ok(SyncOutcome::UpToDate))
    );
    assert_eq!(
        cache.sync_document("notes", "doc1", CacheEvent::Begin),
        SyncAction::Ask(hash_request("notes", "doc1"))
    );
}

#[test]
fn every_ending_frees_the_document() {
    let endings = vec![
        content("text", "sha1"),
        CacheEvent::Absent,
        CacheEvent::Failed(rate_limited()),
    ];
    for ending in endings {
        let mut cache = Cache::new("octo", "docs");
        assert!(matches!(
            cache.sync_document("notes", "doc1", CacheEvent::Begin),
            SyncAction::Ask(_)
        ));
        assert_eq!(cache.sync_document("notes", "doc1", CacheEvent::Begin), SyncAction::Wait);
        assert!(matches!(cache.sync_document("notes", "doc1", ending), SyncAction::Finish(_)));
        assert!(matches!(
            cache.sync_document("notes", "doc1", CacheEvent::Begin),
            SyncAction::Ask(_)
        ));
    }
}

#[test]
fn a_changed_hash_keeps_the_document_under_way() {
    let mut cache = Cache::new("octo", "docs");
    cache.insert("doc1", "old", "sha1");
    assert!(matches!(cache.sync_document("notes", "doc1", CacheEvent::Begin), SyncAction::Ask(_)));
    assert_eq!(
        cache.sync_document("notes", "doc1", CacheEvent::Hash("sha2".to_string())),
        SyncAction::Ask(content_request("notes", "doc1"))
    );
    assert_eq!(cache.sync_document("notes", "doc1", CacheEvent::Begin), SyncAction::Wait);
}

#[test]
fn a_cached_document_is_read_while_it_is_synchronised() {
    let mut cache = Cache::new("octo", "docs");
    cache.insert("doc1", "text", "sha1");
    assert!(matches!(cache.sync_document("notes", "doc1", CacheEvent::Begin), SyncAction::Ask(_)));
    assert_eq!(
        cache.get("notes", "doc1", CacheEvent::Begin),
        GetAction::Finish(Ok(Some("text".to_string())))
    );
}

#[test]
fn an_abandoned_synchronisation_frees_the_document() {
    let mut cache = Cache::new("octo", "docs");
    assert!(matches!(cache.get("notes", "doc1", CacheEvent::Begin), GetAction::Ask(_)));
    assert_eq!(cache.get("notes", "doc1", CacheEvent::Begin), GetAction::Wait);
    cache.abandon("doc1");
    cache.abandon("doc1");
    cache.abandon("never");
    assert_eq!(
        cache.get("notes", "doc1", CacheEvent::Begin),
        GetAction::Ask(content_request("notes", "doc1"))
    );
}

#[test]
fn a_batch_leaves_a_document_to_the_synchronisation_that_has_it() {
    let mut cache = Cache::new("octo", "docs");
    assert!(matches!(cache.sync_document("notes", "a", CacheEvent::Begin), SyncAction::Ask(_)));
    let batch = SyncBatch::new(vec![
        ("notes".to_string(), "a".to_string()),
        ("notes".to_string(), "b".to_string()),
    ]);
    let (batch, action) = cache.sync_all_documents(batch, CacheEvent::Begin);
    assert_eq!(action, BatchAction::Ask(content_request("notes", "b")));
    let (_, action) = cache.sync_all_documents(batch, CacheEvent::Absent);
    assert_eq!(action, BatchAction::Finish(vec![]));
    assert_eq!(cache.sync_document("notes", "a", CacheEvent::Begin), SyncAction::Wait);
}

#[test]
fn the_hash_is_asked_for_without_the_content() {
    let hash = CacheRequest::Hash { path: "collections/notes/d.json".to_string() };
    let full = CacheRequest::Content { path: "collections/notes/d.json".to_string() };
    assert_eq!(
        hash.to_remote("main"),
        RemoteRequest::GetHash {
            path: "collections/notes/d.json".to_string(),
            branch: "main".to_string(),
        }
    );
    assert_eq!(
        full.to_remote("main"),
        RemoteRequest::GetContent {
            path: "collections/notes/d.json".to_string(),
            branch: "main".to_string(),
        }
    );
    assert_ne!(hash.to_remote("main"), full.to_remote("main"));
}

#[test]
fn sync_of_an_unchanged_document_makes_one_hash_request_at_the_remote() {
    let mut cache = Cache::new("octo", "docs");
    cache.insert("doc1", "text", "sha1");
    let mut hash_requests = 0;
    let mut content_fetches = 0;
    let mut event = CacheEvent::Begin;
    let outcome = loop {
        let request = match cache.sync_document("notes", "doc1", event) {
            SyncAction::Ask(request) => request,
            SyncAction::Wait => panic!("nothing else is under way"),
            SyncAction::Finish(outcome) => break outcome,
        };
        let reply = match request.to_remote("main") {
            RemoteRequest::GetHash { path, .. } => {
                assert_eq!(path, "collections/notes/doc1.json");
                hash_requests += 1;
                RemoteEvent::Hash("sha1".to_string())
            }
            RemoteRequest::GetContent { .. } => {
                content_fetches += 1;
                RemoteEvent::Content(vec![ContentItem {
                    sha: "sha1".to_string(),
                    content: Some("dGV4dA==".to_string()),
                }])
            }
            other => panic!("unexpected request {:?}", other),
        };
        event = request.answer(reply);
    };
    assert_eq!(outcome, Ok(SyncOutcome::UpToDate));
    assert_eq!(hash_requests, 1);
    assert_eq!(content_fetches, 0);
}

#[test]
fn answers_of_the_remote_become_events() {
    let hash = CacheRequest::Hash { path: "collections/notes/d.json".to_string() };
    let full = CacheRequest::Content { path: "collections/notes/d.json".to_string() };
    let unexpected = CacheEvent::Failed(StorageError::GitHub(GitHubStorageError::ApiError(
        "Unexpected reply".to_string(),
    )));

    let items =
        vec![ContentItem { sha: "sha9".to_string(), content: Some("aGVsbG8=\n".to_string()) }];
    assert_eq!(
        hash.answer(RemoteEvent::Hash("sha9".to_string())),
        CacheEvent::Hash("sha9".to_string())
    );
    assert_eq!(full.answer(RemoteEvent::Content(items.clone())), content("hello", "sha9"));
    assert_eq!(hash.answer(RemoteEvent::Content(items)), unexpected);
    assert_eq!(full.answer(RemoteEvent::Hash("sha9".to_string())), unexpected);

    let bare = vec![ContentItem { sha: "sha9".to_string(), content: None }];
    assert_eq!(
        full.answer(RemoteEvent::Content(bare)),
        CacheEvent::Failed(StorageError::GitHub(GitHubStorageError::MissingData(
            "No content found".to_string()
        )))
    );
    let bad = vec![ContentItem { sha: "sha9".to_string(), content: Some("?".to_string()) }];
    assert_eq!(
        full.answer(RemoteEvent::Content(bad)),
        CacheEvent::Failed(StorageError::GitHub(GitHubStorageError::EncodingError))
    );
    assert_eq!(
        full.answer(RemoteEvent::Content(vec![])),
        CacheEvent::Failed(StorageError::GitHub(GitHubStorageError::MissingData(
            "No content items found".to_string()
        )))
    );
    assert_eq!(
        full.answer(RemoteEvent::Failed(GitHubStorageError::NotFound)),
        CacheEvent::Absent
    );
    assert_eq!(
        hash.answer(RemoteEvent::Failed(GitHubStorageError::NotFound)),
        CacheEvent::Absent
    );
    assert_eq!(
        hash.answer(RemoteEvent::Failed(GitHubStorageError::AuthError)),
        CacheEvent::Failed(StorageError::GitHub(GitHubStorageError::AuthError))
    );
    assert_eq!(hash.answer(RemoteEvent::Commits(vec![])), unexpected);
}

#[test]
fn a_batch_names_the_document_whose_turn_it_is() {
    let mut cache = Cache::new("octo", "docs");
    let batch = SyncBatch::new(vec![
        ("notes".to_string(), "a".to_string()),
        ("tasks".to_string(), "b".to_string()),
    ]);
    assert_eq!(batch.current(), Some(("notes", "a")));
    let (batch, _) = cache.sync_all_documents(batch, CacheEvent::Begin);
    assert_eq!(batch.current(), Some(("notes", "a")));
    let (batch, _) = cache.sync_all_documents(batch, CacheEvent::Absent);
    assert_eq!(batch.current(), Some(("tasks", "b")));
    let (batch, _) = cache.sync_all_documents(batch, CacheEvent::Absent);
    assert_eq!(batch.current(), None);
}
