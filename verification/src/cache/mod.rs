//! The bounded cache of documents and its synchronisation with the remote
//! store.
//!
//! The cache never talks to the remote store itself. Looking a document up
//! and synchronising it are step functions: each is handed what the remote
//! answered last and says what to ask next. While a synchronisation of a
//! document is under way the cache remembers so, and a second one of the same
//! document is told to wait instead of asking the remote again.

pub mod batch;
pub mod entries;
pub mod scheduler;

pub use crate::cache::batch::{BatchAction, SyncBatch, SyncFailure};
pub use crate::cache::scheduler::{
    SchedulerAction, SchedulerEvent, SYNC_INTERVAL_MILLIS, SYNC_INTERVAL_SECS,
};

use crate::cache::entries::{
    holds, lemma_put_well_formed, lemma_removed_distinct, lemma_touched_well_formed, lookup,
    lru_capacity, lru_entries, lru_get, lru_new, lru_peek, lru_pop, lru_put, put, removed, touched,
    well_formed, Entries,
};
use crate::error::{GitHubStorageError, GitHubStorageErrorView, StorageError, StorageErrorView};
use crate::paths::{document_path, document_path_of};
use crate::storage::github::{file_of_items, read_items, unexpected, unexpected_reply};
use crate::storage::{
    RemoteEvent, RemoteEventView, RemoteRequest, RemoteRequestView, StoredFileView,
};
use lru::LruCache;
use vstd::prelude::*;

verus! {

/// The number of documents that a cache holds at most.
pub const CAPACITY: usize = 100;

/// A bounded cache of documents, each with the content hash under which the
/// remote store holds it. When the cache is full, the document that was used
/// least recently makes room for a new one. Nothing that happens to the cache
/// touches the remote store.
pub struct Cache {
    lru: LruCache<String, (String, String)>,
    owner: String,
    repo: String,
    in_flight: Vec<String>,
}

/// View of a [`Cache`]: the cached documents, the most recently used first,
/// the repository that the cache stands for, and the documents whose
/// synchronisation is under way.
pub struct CacheView {
    pub entries: Seq<(Seq<char>, Seq<char>, Seq<char>)>,
    pub owner: Seq<char>,
    pub repo: Seq<char>,
    pub in_flight: Set<Seq<char>>,
}

/// The views of a list of identifiers.
pub open spec fn ids_view(ids: Seq<String>) -> Seq<Seq<char>> {
    ids.map_values(|id: String| id@)
}

impl View for Cache {
    type V = CacheView;

    closed spec fn view(&self) -> CacheView {
        CacheView {
            entries: lru_entries(self.lru),
            owner: self.owner@,
            repo: self.repo@,
            in_flight: ids_view(self.in_flight@).to_set(),
        }
    }
}

/// What the cache asks of the remote store.
#[derive(Debug, Clone, PartialEq, Eq)]
pub enum CacheRequest {
    /// The content hash of the file at `path`, without its content.
    Hash { path: String },
    /// The content of the file at `path`, with its content hash.
    Content { path: String },
}

/// View of a [`CacheRequest`].
pub enum CacheRequestView {
    Hash { path: Seq<char> },
    Content { path: Seq<char> },
}

impl View for CacheRequest {
    type V = CacheRequestView;

    open spec fn view(&self) -> CacheRequestView {
        match self {
            CacheRequest::Hash { path } => CacheRequestView::Hash { path: path@ },
            CacheRequest::Content { path } => CacheRequestView::Content { path: path@ },
        }
    }
}

/// What drives a synchronisation forward: its start, or the remote's answer
/// to the request made last.
#[derive(Debug, Clone, PartialEq, Eq)]
pub enum CacheEvent {
    /// The operation starts.
    Begin,
    /// The content hash under which the remote holds the file.
    Hash(String),
    /// The content of the file and its content hash.
    Content { content: String, sha: String },
    /// The remote holds no such file.
    Absent,
    /// The request failed.
    Failed(StorageError),
}

/// View of a [`CacheEvent`].
pub enum CacheEventView {
    Begin,
    Hash(Seq<char>),
    Content { content: Seq<char>, sha: Seq<char> },
    Absent,
    Failed(StorageErrorView),
}

impl View for CacheEvent {
    type V = CacheEventView;

    open spec fn view(&self) -> CacheEventView {
        match self {
            CacheEvent::Begin => CacheEventView::Begin,
            CacheEvent::Hash(h) => CacheEventView::Hash(h@),
            CacheEvent::Content { content, sha } => CacheEventView::Content {
                content: content@,
                sha: sha@,
            },
            CacheEvent::Absent => CacheEventView::Absent,
            CacheEvent::Failed(e) => CacheEventView::Failed(e@),
        }
    }
}

/// What the remote store is asked for a request of the cache: for the
/// hash, the content hash of the file alone; for the content, the file.
pub open spec fn remote_request(request: CacheRequestView, branch: Seq<char>) -> RemoteRequestView {
    match request {
        CacheRequestView::Hash { path } => RemoteRequestView::GetHash { path, branch },
        CacheRequestView::Content { path } => RemoteRequestView::GetContent { path, branch },
    }
}

/// What the cache learns from a read of the file.
pub open spec fn event_of_file(file: Result<StoredFileView, StorageErrorView>) -> CacheEventView {
    match file {
        Ok(f) => CacheEventView::Content { content: f.content, sha: f.sha },
        Err(e) => CacheEventView::Failed(e),
    }
}

/// What the cache learns from the remote's answer to `request`: the hash
/// from the answer to the question for the hash, the decoded content and its
/// hash from the answer to the question for the content. A file that is not
/// found is absent, which is no failure; every other failure of the remote
/// is passed on as it is. An answer to the other question is refused.
pub open spec fn cache_event(request: CacheRequestView, reply: RemoteEventView) -> CacheEventView {
    match (request, reply) {
        (_, RemoteEventView::Failed(GitHubStorageErrorView::NotFound)) => CacheEventView::Absent,
        (_, RemoteEventView::Failed(e)) => CacheEventView::Failed(StorageErrorView::GitHub(e)),
        (CacheRequestView::Hash { path }, RemoteEventView::Hash(sha)) => CacheEventView::Hash(sha),
        (CacheRequestView::Content { path }, RemoteEventView::Content(items)) => event_of_file(
            file_of_items(items),
        ),
        (_, _) => CacheEventView::Failed(unexpected()),
    }
}

impl CacheRequest {
    /// The request to the remote store that answers this request.
    pub fn to_remote(&self, branch: &str) -> (request: RemoteRequest)
        ensures
            request@ == remote_request(self@, branch@),
            self is Hash ==> request is GetHash,
            self is Content ==> request is GetContent,
    {
        match self {
            CacheRequest::Hash { path } => RemoteRequest::GetHash {
                path: path.clone(),
                branch: String::from_str(branch),
            },
            CacheRequest::Content { path } => RemoteRequest::GetContent {
                path: path.clone(),
                branch: String::from_str(branch),
            },
        }
    }

    /// Reads the remote's answer to this request.
    pub fn answer(&self, reply: RemoteEvent) -> (event: CacheEvent)
        ensures
            event@ == cache_event(self@, reply@),
    {
        match reply {
            RemoteEvent::Failed(GitHubStorageError::NotFound) => CacheEvent::Absent,
            RemoteEvent::Failed(e) => CacheEvent::Failed(StorageError::GitHub(e)),
            RemoteEvent::Hash(sha) => match self {
                CacheRequest::Hash { path } => CacheEvent::Hash(sha),
                CacheRequest::Content { path } => CacheEvent::Failed(unexpected_reply()),
            },
            RemoteEvent::Content(items) => match self {
                CacheRequest::Hash { path } => CacheEvent::Failed(unexpected_reply()),
                CacheRequest::Content { path } => match read_items(items) {
                    Ok(file) => CacheEvent::Content { content: file.content, sha: file.sha },
                    Err(e) => CacheEvent::Failed(e),
                },
            },
            _ => CacheEvent::Failed(unexpected_reply()),
        }
    }
}

/// How the synchronisation of a document ended.
#[derive(Debug, Clone, Copy, PartialEq, Eq, Structural)]
pub enum SyncOutcome {
    /// The cached hash equals the remote one; no content was fetched.
    UpToDate,
    /// The content was fetched and cached.
    Synchronized,
    /// The remote holds no such document.
    Absent,
}

/// What a synchronisation does next.
#[derive(Debug, PartialEq, Eq)]
pub enum SyncAction {
    /// Send the request and come back with the answer.
    Ask(CacheRequest),
    /// Another synchronisation of the document is under way: send nothing,
    /// and start again when that one has ended.
    Wait,
    /// The synchronisation has ended.
    Finish(Result<SyncOutcome, StorageError>),
}

/// View of a [`SyncAction`].
pub enum SyncActionView {
    Ask(CacheRequestView),
    Wait,
    Finish(Result<SyncOutcome, StorageErrorView>),
}

impl View for SyncAction {
    type V = SyncActionView;

    open spec fn view(&self) -> SyncActionView {
        match self {
            SyncAction::Ask(q) => SyncActionView::Ask(q@),
            SyncAction::Wait => SyncActionView::Wait,
            SyncAction::Finish(Ok(o)) => SyncActionView::Finish(Ok(*o)),
            SyncAction::Finish(Err(e)) => SyncActionView::Finish(Err(e@)),
        }
    }
}

/// What a lookup does next.
#[derive(Debug, PartialEq, Eq)]
pub enum GetAction {
    /// Send the request and come back with the answer.
    Ask(CacheRequest),
    /// A synchronisation of the document is under way: send nothing, and
    /// start again when that one has ended.
    Wait,
    /// The lookup has ended: with the content, with nothing where the
    /// document does not exist remotely, or with the remote's failure.
    Finish(Result<Option<String>, StorageError>),
}

/// View of a [`GetAction`].
pub enum GetActionView {
    Ask(CacheRequestView),
    Wait,
    Finish(Result<Option<Seq<char>>, StorageErrorView>),
}

impl View for GetAction {
    type V = GetActionView;

    open spec fn view(&self) -> GetActionView {
        match self {
            GetAction::Ask(q) => GetActionView::Ask(q@),
            GetAction::Wait => GetActionView::Wait,
            GetAction::Finish(Ok(Some(content))) => GetActionView::Finish(Ok(Some(content@))),
            GetAction::Finish(Ok(None)) => GetActionView::Finish(Ok(None)),
            GetAction::Finish(Err(e)) => GetActionView::Finish(Err(e@)),
        }
    }
}

/// The cached content of a document.
pub open spec fn cached_content(es: Entries, id: Seq<char>) -> Option<Seq<char>> {
    match lookup(es, id) {
        Some((content, _)) => Some(content),
        None => None,
    }
}

/// The cache with other entries.
pub open spec fn with_entries(cache: CacheView, entries: Entries) -> CacheView {
    CacheView { entries, owner: cache.owner, repo: cache.repo, in_flight: cache.in_flight }
}

/// The cache once a synchronisation of `id` is under way.
pub open spec fn taken_off(cache: CacheView, id: Seq<char>) -> CacheView {
    CacheView {
        entries: cache.entries,
        owner: cache.owner,
        repo: cache.repo,
        in_flight: cache.in_flight.insert(id),
    }
}

/// The cache once no synchronisation of `id` is under way any more.
pub open spec fn landed(cache: CacheView, id: Seq<char>) -> CacheView {
    CacheView {
        entries: cache.entries,
        owner: cache.owner,
        repo: cache.repo,
        in_flight: cache.in_flight.remove(id),
    }
}

/// One step of the synchronisation of the document `id` of `collection`.
///
/// At the start, a document whose synchronisation is under way is left to
/// that one. Any other is marked as under way; if it is cached it is marked
/// as used and the remote hash is asked for, if not the content is asked for
/// at once. A remote hash that equals the cached one ends the synchronisation
/// with nothing fetched; any other hash, or a document that left the cache
/// meanwhile, has the content asked for. Content that arrives is cached. An
/// absent file or a failure ends the synchronisation and leaves the entries
/// alone. Whatever ends the synchronisation takes the mark away.
pub open spec fn sync_step(
    cache: CacheView,
    collection: Seq<char>,
    id: Seq<char>,
    event: CacheEventView,
) -> (CacheView, SyncActionView) {
    let path = document_path(collection, id);
    let fetch = SyncActionView::Ask(CacheRequestView::Content { path });
    match event {
        CacheEventView::Begin => if cache.in_flight.contains(id) {
            (cache, SyncActionView::Wait)
        } else if holds(cache.entries, id) {
            (
                taken_off(with_entries(cache, touched(cache.entries, id)), id),
                SyncActionView::Ask(CacheRequestView::Hash { path }),
            )
        } else {
            (taken_off(cache, id), fetch)
        },
        CacheEventView::Hash(remote) => match lookup(cache.entries, id) {
            Some((_, cached)) => if cached == remote {
                (landed(cache, id), SyncActionView::Finish(Ok(SyncOutcome::UpToDate)))
            } else {
                (cache, fetch)
            },
            None => (cache, fetch),
        },
        CacheEventView::Content { content, sha } => (
            landed(with_entries(cache, put(cache.entries, CAPACITY as nat, id, content, sha)), id),
            SyncActionView::Finish(Ok(SyncOutcome::Synchronized)),
        ),
        CacheEventView::Absent => (
            landed(cache, id),
            SyncActionView::Finish(Ok(SyncOutcome::Absent)),
        ),
        CacheEventView::Failed(e) => (landed(cache, id), SyncActionView::Finish(Err(e))),
    }
}

/// One step of a lookup of the document `id` of `collection`.
///
/// At the start, a cached document is marked as used and its content
/// returned; any other is synchronised. After that the lookup follows the
/// synchronisation, and when that has ended well it reads the cache again: a
/// document that is still not cached does not exist remotely.
pub open spec fn get_step(
    cache: CacheView,
    collection: Seq<char>,
    id: Seq<char>,
    event: CacheEventView,
) -> (CacheView, GetActionView) {
    if event is Begin && holds(cache.entries, id) {
        (
            with_entries(cache, touched(cache.entries, id)),
            GetActionView::Finish(Ok(cached_content(cache.entries, id))),
        )
    } else {
        let (synced, action) = sync_step(cache, collection, id, event);
        match action {
            SyncActionView::Ask(q) => (synced, GetActionView::Ask(q)),
            SyncActionView::Wait => (synced, GetActionView::Wait),
            SyncActionView::Finish(Err(e)) => (synced, GetActionView::Finish(Err(e))),
            SyncActionView::Finish(Ok(_)) => (
                with_entries(synced, touched(synced.entries, id)),
                GetActionView::Finish(Ok(cached_content(synced.entries, id))),
            ),
        }
    }
}

/// Adding an identifier to a list adds it to the set of its members, and a
/// list without duplicates stays so if the identifier is new.
proof fn lemma_mark(ids: Seq<Seq<char>>, id: Seq<char>)
    ensures
        ids.push(id).to_set() == ids.to_set().insert(id),
        ids.no_duplicates() && !ids.contains(id) ==> ids.push(id).no_duplicates(),
{
    let after = ids.push(id);
    assert forall|x: Seq<char>| after.to_set().contains(x) <==> ids.to_set().insert(id).contains(
        x,
    ) by {
        if after.contains(x) {
            let i = choose|i: int| 0 <= i < after.len() && after[i] == x;
            if i < ids.len() {
                assert(ids[i] == x);
            }
        }
        if ids.contains(x) {
            let i = choose|i: int| 0 <= i < ids.len() && ids[i] == x;
            assert(after[i] == x);
        }
        if x == id {
            assert(after[ids.len() as int] == x);
        }
    }
    assert(after.to_set() =~= ids.to_set().insert(id));
    if ids.no_duplicates() && !ids.contains(id) {
        assert forall|i: int, j: int|
            0 <= i < after.len() && 0 <= j < after.len() && i != j implies after[i] != after[j] by {
            if i < ids.len() && j < ids.len() {
                assert(ids[i] != ids[j]);
            } else if i < ids.len() {
                assert(ids[i] != id);
            } else {
                assert(ids[j] != id);
            }
        }
    }
}

/// Taking an identifier out of a list without duplicates takes it out of the
/// set of its members and leaves a list without duplicates.
proof fn lemma_unmark(ids: Seq<Seq<char>>, at: int)
    requires
        ids.no_duplicates(),
        0 <= at < ids.len(),
    ensures
        ids.remove(at).to_set() == ids.to_set().remove(ids[at]),
        ids.remove(at).no_duplicates(),
{
    let after = ids.remove(at);
    assert forall|i: int| 0 <= i < after.len() implies #[trigger] after[i] == ids[if i < at {
        i
    } else {
        i + 1
    }] by {}
    assert forall|x: Seq<char>| after.to_set().contains(x) <==> ids.to_set().remove(
        ids[at],
    ).contains(x) by {
        if after.contains(x) {
            let i = choose|i: int| 0 <= i < after.len() && after[i] == x;
            let k = if i < at { i } else { i + 1 };
            assert(ids[k] == x);
            assert(ids[k] != ids[at]);
        }
        if ids.contains(x) && x != ids[at] {
            let k = choose|k: int| 0 <= k < ids.len() && ids[k] == x;
            let i = if k < at { k } else { k - 1 };
            assert(after[i] == x);
        }
    }
    assert(after.to_set() =~= ids.to_set().remove(ids[at]));
    assert forall|i: int, j: int|
        0 <= i < after.len() && 0 <= j < after.len() && i != j implies after[i] != after[j] by {
        let a = if i < at { i } else { i + 1 };
        let b = if j < at { j } else { j + 1 };
        assert(ids[a] != ids[b]);
    }
}

impl Cache {
    /// Whether the cache is in order: made for `CAPACITY` documents, with
    /// well-formed entries, and with no document noted twice as under way.
    /// Every cache that `new` returned and that only the functions of this
    /// type have changed is.
    pub closed spec fn wf(&self) -> bool {
        &&& lru_capacity(self.lru) == CAPACITY
        &&& well_formed(lru_entries(self.lru), CAPACITY as nat)
        &&& ids_view(self.in_flight@).no_duplicates()
    }

    /// The entries of a cache that is in order are well formed.
    pub proof fn lemma_well_formed(&self)
        requires
            self.wf(),
        ensures
            well_formed(self@.entries, CAPACITY as nat),
    {
    }

    /// An empty cache for the repository `owner/repo`.
    pub fn new(owner: &str, repo: &str) -> (cache: Cache)
        ensures
            cache.wf(),
            cache@.entries == Seq::<(Seq<char>, Seq<char>, Seq<char>)>::empty(),
            cache@.owner == owner@,
            cache@.repo == repo@,
            cache@.in_flight == Set::<Seq<char>>::empty(),
    {
        let cache = Cache {
            lru: lru_new(CAPACITY),
            owner: String::from_str(owner),
            repo: String::from_str(repo),
            in_flight: Vec::new(),
        };
        assert(ids_view(cache.in_flight@).to_set() =~= Set::<Seq<char>>::empty());
        cache
    }

    /// The owner of the repository.
    pub fn owner(&self) -> (name: &str)
        ensures
            name@ == self@.owner,
    {
        self.owner.as_str()
    }

    /// The name of the repository.
    pub fn repo(&self) -> (name: &str)
        ensures
            name@ == self@.repo,
    {
        self.repo.as_str()
    }

    /// Whether a document is cached. Asking does not count as using it.
    pub fn contains(&self, doc_id: &str) -> (found: bool)
        ensures
            found == holds(self@.entries, doc_id@),
    {
        lru_peek(&self.lru, doc_id).is_some()
    }

    /// Caches a document, or replaces what is cached of it.
    pub fn insert(&mut self, doc_id: &str, content: &str, sha: &str)
        requires
            old(self).wf(),
        ensures
            final(self).wf(),
            final(self)@ == with_entries(
                old(self)@,
                put(old(self)@.entries, CAPACITY as nat, doc_id@, content@, sha@),
            ),
    {
        proof {
            lemma_put_well_formed(
                lru_entries(self.lru),
                CAPACITY as nat,
                doc_id@,
                content@,
                sha@,
            );
        }
        lru_put(
            &mut self.lru,
            String::from_str(doc_id),
            String::from_str(content),
            String::from_str(sha),
        );
    }

    /// Drops a document from the cache.
    pub fn remove(&mut self, doc_id: &str)
        requires
            old(self).wf(),
        ensures
            final(self).wf(),
            final(self)@ == with_entries(old(self)@, removed(old(self)@.entries, doc_id@)),
    {
        proof {
            lemma_removed_distinct(lru_entries(self.lru), doc_id@);
        }
        lru_pop(&mut self.lru, doc_id);
    }

    /// Where `doc_id` stands in the list of the documents under way.
    fn flight_of(&self, doc_id: &str) -> (at: Option<usize>)
        ensures
            match at {
                Some(i) => i < self.in_flight@.len() && self.in_flight@[i as int]@ == doc_id@,
                None => !ids_view(self.in_flight@).contains(doc_id@),
            },
            at is Some <==> self@.in_flight.contains(doc_id@),
    {
        let wanted = String::from_str(doc_id);
        let mut i: usize = 0;
        while i < self.in_flight.len()
            invariant
                i <= self.in_flight@.len(),
                wanted@ == doc_id@,
                forall|j: int| 0 <= j < i ==> self.in_flight@[j]@ != doc_id@,
            decreases self.in_flight@.len() - i,
        {
            if self.in_flight[i] == wanted {
                assert(ids_view(self.in_flight@)[i as int] == doc_id@);
                return Some(i);
            }
            i = i + 1;
        }
        assert forall|j: int| 0 <= j < ids_view(self.in_flight@).len() implies ids_view(
            self.in_flight@,
        )[j] != doc_id@ by {
            assert(ids_view(self.in_flight@)[j] == self.in_flight@[j]@);
        }
        None
    }

    /// Notes that a synchronisation of `doc_id` is under way.
    fn take_off(&mut self, doc_id: &str)
        requires
            old(self).wf(),
            !old(self)@.in_flight.contains(doc_id@),
        ensures
            final(self).wf(),
            final(self)@ == taken_off(old(self)@, doc_id@),
    {
        proof {
            lemma_mark(ids_view(self.in_flight@), doc_id@);
        }
        self.in_flight.push(String::from_str(doc_id));
        assert(ids_view(self.in_flight@) =~= ids_view(old(self).in_flight@).push(doc_id@));
    }

    /// Notes that no synchronisation of `doc_id` is under way.
    fn land(&mut self, doc_id: &str)
        requires
            old(self).wf(),
        ensures
            final(self).wf(),
            final(self)@ == landed(old(self)@, doc_id@),
    {
        match self.flight_of(doc_id) {
            Some(at) => {
                proof {
                    lemma_unmark(ids_view(self.in_flight@), at as int);
                }
                self.in_flight.remove(at);
                assert(ids_view(self.in_flight@) =~= ids_view(old(self).in_flight@).remove(
                    at as int,
                ));
            },
            None => {
                assert(self@.in_flight =~= self@.in_flight.remove(doc_id@));
            },
        }
    }

    /// Gives up a synchronisation of `doc_id` that will not be carried on,
    /// so that another can start.
    pub fn abandon(&mut self, doc_id: &str)
        requires
            old(self).wf(),
        ensures
            final(self).wf(),
            final(self)@ == landed(old(self)@, doc_id@),
    {
        self.land(doc_id);
    }

    /// One step of bringing the cached copy of a document up to date.
    ///
    /// Called first with the event `Begin`, then with the remote's answer to
    /// the request that the last step made, until it returns `Finish`. On
    /// `Wait` nothing is to be sent: another synchronisation of the document
    /// is under way, and this one starts again with `Begin` when that has
    /// ended.
    pub fn sync_document(&mut self, collection: &str, doc_id: &str, event: CacheEvent) -> (action:
        SyncAction)
        requires
            old(self).wf(),
        ensures
            final(self).wf(),
            (final(self)@, action@) == sync_step(old(self)@, collection@, doc_id@, event@),
    {
        let path = document_path_of(collection, doc_id);
        match event {
            CacheEvent::Begin => {
                if self.flight_of(doc_id).is_some() {
                    return SyncAction::Wait;
                }
                proof {
                    lemma_touched_well_formed(lru_entries(self.lru), CAPACITY as nat, doc_id@);
                }
                let cached = lru_get(&mut self.lru, doc_id);
                self.take_off(doc_id);
                match cached {
                    Some(_) => SyncAction::Ask(CacheRequest::Hash { path }),
                    None => SyncAction::Ask(CacheRequest::Content { path }),
                }
            },
            CacheEvent::Hash(remote) => {
                match lru_peek(&self.lru, doc_id) {
                    Some((_, cached)) => {
                        if cached == remote {
                            self.land(doc_id);
                            SyncAction::Finish(Ok(SyncOutcome::UpToDate))
                        } else {
                            SyncAction::Ask(CacheRequest::Content { path })
                        }
                    },
                    None => SyncAction::Ask(CacheRequest::Content { path }),
                }
            },
            CacheEvent::Content { content, sha } => {
                proof {
                    lemma_put_well_formed(
                        lru_entries(self.lru),
                        CAPACITY as nat,
                        doc_id@,
                        content@,
                        sha@,
                    );
                }
                lru_put(&mut self.lru, String::from_str(doc_id), content, sha);
                self.land(doc_id);
                SyncAction::Finish(Ok(SyncOutcome::Synchronized))
            },
            CacheEvent::Absent => {
                self.land(doc_id);
                SyncAction::Finish(Ok(SyncOutcome::Absent))
            },
            CacheEvent::Failed(e) => {
                self.land(doc_id);
                SyncAction::Finish(Err(e))
            },
        }
    }

    /// One step of looking a document up, in the cache first and remotely
    /// if it is not there.
    ///
    /// Called first with the event `Begin`, then with the remote's answer to
    /// the request that the last step made, until it returns `Finish`. On
    /// `Wait` nothing is to be sent: a synchronisation of the document is
    /// under way, and the lookup starts again with `Begin` when that has
    /// ended.
    pub fn get(&mut self, collection: &str, doc_id: &str, event: CacheEvent) -> (action: GetAction)
        requires
            old(self).wf(),
        ensures
            final(self).wf(),
            (final(self)@, action@) == get_step(old(self)@, collection@, doc_id@, event@),
    {
        if matches!(event, CacheEvent::Begin) {
            proof {
                lemma_touched_well_formed(lru_entries(self.lru), CAPACITY as nat, doc_id@);
            }
            match lru_get(&mut self.lru, doc_id) {
                Some((content, _)) => {
                    return GetAction::Finish(Ok(Some(content)));
                },
                None => {},
            }
        }
        match self.sync_document(collection, doc_id, event) {
            SyncAction::Ask(q) => GetAction::Ask(q),
            SyncAction::Wait => GetAction::Wait,
            SyncAction::Finish(Err(e)) => GetAction::Finish(Err(e)),
            SyncAction::Finish(Ok(_)) => {
                proof {
                    lemma_touched_well_formed(lru_entries(self.lru), CAPACITY as nat, doc_id@);
                }
                match lru_get(&mut self.lru, doc_id) {
                    Some((content, _)) => GetAction::Finish(Ok(Some(content))),
                    None => GetAction::Finish(Ok(None)),
                }
            },
        }
    }
}

/// Synchronising a cached document whose remote hash equals the cached one
/// fetches no content. If no synchronisation of the document is under way,
/// the hash is asked for, by a request that is not the one for the content,
/// and the answer ends the synchronisation; the cache holds what it held,
/// the document now at the front. If one is under way, nothing is asked.
pub proof fn lemma_sync_unchanged_fetches_no_content(
    cache: CacheView,
    collection: Seq<char>,
    id: Seq<char>,
    content: Seq<char>,
    hash: Seq<char>,
    branch: Seq<char>,
)
    requires
        well_formed(cache.entries, CAPACITY as nat),
        lookup(cache.entries, id) == Some((content, hash)),
    ensures
        ({
            let path = document_path(collection, id);
            let first = sync_step(cache, collection, id, CacheEventView::Begin);
            let second = sync_step(first.0, collection, id, CacheEventView::Hash(hash));
            &&& cache.in_flight.contains(id) ==> first == (cache, SyncActionView::Wait)
            &&& !cache.in_flight.contains(id) ==> {
                &&& first.1 == SyncActionView::Ask(CacheRequestView::Hash { path })
                &&& remote_request(CacheRequestView::Hash { path }, branch)
                    == RemoteRequestView::GetHash { path, branch }
                &&& second.0 == with_entries(cache, touched(cache.entries, id))
            }
            &&& second.1 == SyncActionView::Finish(Ok(SyncOutcome::UpToDate))
            &&& lookup(second.0.entries, id) == Some((content, hash))
        }),
{
    lemma_touched_well_formed(cache.entries, CAPACITY as nat, id);
    let first = sync_step(cache, collection, id, CacheEventView::Begin);
    if !cache.in_flight.contains(id) {
        assert(first.0.in_flight.remove(id) =~= cache.in_flight);
    }
}

/// While a synchronisation of a document is under way, no second one asks
/// the remote store about it: a start is told to wait and changes nothing,
/// and so is a lookup that misses. A start that does ask marks the document,
/// and whatever ends a synchronisation takes the mark away.
pub proof fn lemma_single_flight(
    cache: CacheView,
    collection: Seq<char>,
    id: Seq<char>,
    event: CacheEventView,
)
    ensures
        cache.in_flight.contains(id) ==> sync_step(cache, collection, id, CacheEventView::Begin)
            == (cache, SyncActionView::Wait),
        cache.in_flight.contains(id) && !holds(cache.entries, id) ==> get_step(
            cache,
            collection,
            id,
            CacheEventView::Begin,
        ) == (cache, GetActionView::Wait),
        sync_step(cache, collection, id, CacheEventView::Begin).1 is Ask ==> sync_step(
            cache,
            collection,
            id,
            CacheEventView::Begin,
        ).0.in_flight.contains(id),
        sync_step(cache, collection, id, event).1 is Finish ==> !sync_step(
            cache,
            collection,
            id,
            event,
        ).0.in_flight.contains(id),
        get_step(cache, collection, id, event).1 is Finish && !(event is Begin) ==> !get_step(
            cache,
            collection,
            id,
            event,
        ).0.in_flight.contains(id),
{
}

} // verus!
