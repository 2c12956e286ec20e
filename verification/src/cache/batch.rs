//! The synchronisation of every document of a catalog, one after the other.

use crate::cache::{
    ids_view, landed, sync_step, Cache, CacheEvent, CacheEventView, CacheRequest,
    CacheRequestView, CacheView, SyncAction, SyncActionView, SyncOutcome,
};
use crate::error::{StorageError, StorageErrorView};
use vstd::prelude::*;

verus! {

/// A document whose synchronisation failed, with the failure.
#[derive(Debug, Clone, PartialEq, Eq)]
pub struct SyncFailure {
    pub collection: String,
    pub doc_id: String,
    pub error: StorageError,
}

/// View of a [`SyncFailure`].
pub struct SyncFailureView {
    pub collection: Seq<char>,
    pub doc_id: Seq<char>,
    pub error: StorageErrorView,
}

impl View for SyncFailure {
    type V = SyncFailureView;

    open spec fn view(&self) -> SyncFailureView {
        SyncFailureView { collection: self.collection@, doc_id: self.doc_id@, error: self.error@ }
    }
}

/// The views of a list of failures.
pub open spec fn failures_view(failures: Seq<SyncFailure>) -> Seq<SyncFailureView> {
    failures.map_values(|f: SyncFailure| f@)
}

/// The views of a list of documents, each named by collection and identifier.
pub open spec fn targets_view(targets: Seq<(String, String)>) -> Seq<(Seq<char>, Seq<char>)> {
    targets.map_values(|t: (String, String)| (t.0@, t.1@))
}

/// A synchronisation of many documents, one after the other: the documents,
/// how many of them are done, and the failures so far.
#[derive(Debug, Clone, PartialEq, Eq)]
pub struct SyncBatch {
    targets: Vec<(String, String)>,
    next: usize,
    failures: Vec<SyncFailure>,
}

/// View of a [`SyncBatch`].
pub struct SyncBatchView {
    pub targets: Seq<(Seq<char>, Seq<char>)>,
    pub next: nat,
    pub failures: Seq<SyncFailureView>,
}

impl View for SyncBatch {
    type V = SyncBatchView;

    closed spec fn view(&self) -> SyncBatchView {
        SyncBatchView {
            targets: targets_view(self.targets@),
            next: self.next as nat,
            failures: failures_view(self.failures@),
        }
    }
}

/// What a synchronisation of many documents does next.
#[derive(Debug, PartialEq, Eq)]
pub enum BatchAction {
    /// Send the request and come back with the answer.
    Ask(CacheRequest),
    /// Every document has had its turn; these are the ones that failed.
    Finish(Vec<SyncFailure>),
}

/// View of a [`BatchAction`].
pub enum BatchActionView {
    Ask(CacheRequestView),
    Finish(Seq<SyncFailureView>),
}

impl View for BatchAction {
    type V = BatchActionView;

    open spec fn view(&self) -> BatchActionView {
        match self {
            BatchAction::Ask(q) => BatchActionView::Ask(q@),
            BatchAction::Finish(failures) => BatchActionView::Finish(failures_view(failures@)),
        }
    }
}

/// The view of the result of a synchronisation.
pub open spec fn sync_result_view(r: Result<SyncOutcome, StorageError>) -> Result<
    SyncOutcome,
    StorageErrorView,
> {
    match r {
        Ok(o) => Ok(o),
        Err(e) => Err(e@),
    }
}

/// The failures after the document `target` ended with `result`.
pub open spec fn recorded(
    failures: Seq<SyncFailureView>,
    target: (Seq<char>, Seq<char>),
    result: Result<SyncOutcome, StorageErrorView>,
) -> Seq<SyncFailureView> {
    match result {
        Ok(_) => failures,
        Err(error) => failures.push(
            SyncFailureView { collection: target.0, doc_id: target.1, error },
        ),
    }
}

/// One step of the synchronisation of many documents.
///
/// The event belongs to the document whose turn it is. When that document
/// ends, well or not, its failure is recorded if there is one and the next
/// document starts at once; a failure never ends the batch. A document that
/// another synchronisation is busy with is left to that one. When no document
/// is left the batch ends and hands the failures over.
pub open spec fn batch_step(cache: CacheView, batch: SyncBatchView, event: CacheEventView) -> (
    CacheView,
    SyncBatchView,
    BatchActionView,
)
    decreases batch.targets.len() - batch.next,
{
    if batch.next >= batch.targets.len() {
        (
            cache,
            SyncBatchView { targets: batch.targets, next: batch.next, failures: Seq::empty() },
            BatchActionView::Finish(batch.failures),
        )
    } else {
        let target = batch.targets[batch.next as int];
        let (synced, action) = sync_step(cache, target.0, target.1, event);
        match action {
            SyncActionView::Ask(q) => (synced, batch, BatchActionView::Ask(q)),
            SyncActionView::Wait => batch_step(
                synced,
                SyncBatchView {
                    targets: batch.targets,
                    next: batch.next + 1,
                    failures: batch.failures,
                },
                CacheEventView::Begin,
            ),
            SyncActionView::Finish(result) => batch_step(
                synced,
                SyncBatchView {
                    targets: batch.targets,
                    next: batch.next + 1,
                    failures: recorded(batch.failures, target, result),
                },
                CacheEventView::Begin,
            ),
        }
    }
}

/// The view of a catalog: each collection with the identifiers of its
/// documents.
pub open spec fn catalog_view(catalog: Seq<(String, Vec<String>)>) -> Seq<
    (Seq<char>, Seq<Seq<char>>),
> {
    catalog.map_values(|c: (String, Vec<String>)| (c.0@, ids_view(c.1@)))
}

/// The documents of one collection, in the order of their identifiers.
pub open spec fn collection_targets(collection: Seq<char>, ids: Seq<Seq<char>>) -> Seq<
    (Seq<char>, Seq<char>),
> {
    ids.map_values(|id: Seq<char>| (collection, id))
}

/// The documents of a catalog: those of the first collection first, each
/// collection's documents in the order of the catalog.
pub open spec fn catalog_targets(catalog: Seq<(Seq<char>, Seq<Seq<char>>)>) -> Seq<
    (Seq<char>, Seq<char>),
>
    decreases catalog.len(),
{
    if catalog.len() == 0 {
        Seq::empty()
    } else {
        catalog_targets(catalog.drop_last()) + collection_targets(
            catalog.last().0,
            catalog.last().1,
        )
    }
}

impl SyncBatch {
    /// A batch over every document of a catalog.
    pub fn from_catalog(catalog: &Vec<(String, Vec<String>)>) -> (batch: SyncBatch)
        ensures
            batch@ == (SyncBatchView {
                targets: catalog_targets(catalog_view(catalog@)),
                next: 0,
                failures: Seq::empty(),
            }),
    {
        let ghost all = catalog_view(catalog@);
        let mut targets: Vec<(String, String)> = Vec::new();
        let mut i: usize = 0;
        assert(targets_view(targets@) =~= catalog_targets(all.subrange(0, 0)));
        while i < catalog.len()
            invariant
                i <= catalog.len(),
                all == catalog_view(catalog@),
                targets_view(targets@) == catalog_targets(all.subrange(0, i as int)),
            decreases catalog.len() - i,
        {
            let collection = &catalog[i].0;
            let ids = &catalog[i].1;
            let ghost done = catalog_targets(all.subrange(0, i as int));
            let ghost names = ids_view(ids@);
            assert(all[i as int] == (collection@, names));
            let mut j: usize = 0;
            assert(targets_view(targets@) =~= done + collection_targets(
                collection@,
                names.subrange(0, 0),
            ));
            while j < ids.len()
                invariant
                    j <= ids.len(),
                    names == ids_view(ids@),
                    targets_view(targets@) == done + collection_targets(
                        collection@,
                        names.subrange(0, j as int),
                    ),
                decreases ids.len() - j,
            {
                let ghost before = targets_view(targets@);
                let id = ids[j].clone();
                assert(id@ == names[j as int]);
                targets.push((collection.clone(), id));
                assert(targets_view(targets@) =~= before.push((collection@, names[j as int])));
                assert(collection_targets(collection@, names.subrange(0, j + 1))
                    =~= collection_targets(collection@, names.subrange(0, j as int)).push(
                    (collection@, names[j as int]),
                ));
                j = j + 1;
            }
            assert(names.subrange(0, j as int) =~= names);
            assert(all.subrange(0, i + 1).drop_last() =~= all.subrange(0, i as int));
            assert(all.subrange(0, i + 1).last() == all[i as int]);
            i = i + 1;
        }
        assert(all.subrange(0, i as int) =~= all);
        SyncBatch::new(targets)
    }

    /// The document whose turn it is, as collection and identifier; none
    /// when every document has had its turn.
    pub fn current(&self) -> (target: Option<(&str, &str)>)
        ensures
            match target {
                Some((collection, doc_id)) => self@.next < self@.targets.len()
                    && self@.targets[self@.next as int] == (collection@, doc_id@),
                None => self@.next >= self@.targets.len(),
            },
    {
        if self.next < self.targets.len() {
            assert(targets_view(self.targets@)[self.next as int] == (
                self.targets@[self.next as int].0@,
                self.targets@[self.next as int].1@,
            ));
            Some((self.targets[self.next].0.as_str(), self.targets[self.next].1.as_str()))
        } else {
            None
        }
    }

    /// A batch over `targets`, each a collection and a document identifier,
    /// in the order in which they are to be synchronised.
    pub fn new(targets: Vec<(String, String)>) -> (batch: SyncBatch)
        ensures
            batch@ == (SyncBatchView {
                targets: targets_view(targets@),
                next: 0,
                failures: Seq::empty(),
            }),
    {
        let batch = SyncBatch { targets, next: 0, failures: Vec::new() };
        assert(failures_view(batch.failures@) =~= Seq::empty());
        batch
    }
}

impl Cache {
    /// One step of bringing every document of a batch up to date.
    ///
    /// Called first with a new batch and the event `Begin`, then with the
    /// batch it returned and the remote's answer to the request it made,
    /// until it returns `Finish`.
    pub fn sync_all_documents(&mut self, batch: SyncBatch, event: CacheEvent) -> (r: (
        SyncBatch,
        BatchAction,
    ))
        requires
            old(self).wf(),
        ensures
            final(self).wf(),
            (final(self)@, r.0@, r.1@) == batch_step(old(self)@, batch@, event@),
    {
        let ghost start = batch_step(self@, batch@, event@);
        let mut current = batch;
        let mut pending = event;
        loop
            invariant
                self.wf(),
                batch_step(self@, current@, pending@) == start,
                start == batch_step(old(self)@, batch@, event@),
            decreases current.targets.len() - current.next,
        {
            let ghost before = current@;
            let ghost cache = self@;
            let ghost ev = pending@;
            assert(before.targets.len() == current.targets.len());
            if current.next >= current.targets.len() {
                let SyncBatch { targets, next, failures } = current;
                let done = SyncBatch { targets, next, failures: Vec::new() };
                assert(failures_view(done.failures@) =~= Seq::empty());
                assert(done@ == (SyncBatchView {
                    targets: before.targets,
                    next: before.next,
                    failures: Seq::empty(),
                }));
                return (done, BatchAction::Finish(failures));
            }
            let ghost target = before.targets[current.next as int];
            let collection = current.targets[current.next].0.clone();
            let doc_id = current.targets[current.next].1.clone();
            assert(target == (collection@, doc_id@));
            let step = self.sync_document(collection.as_str(), doc_id.as_str(), pending);
            assert((self@, step@) == sync_step(cache, target.0, target.1, ev));
            match step {
                SyncAction::Ask(q) => {
                    assert(batch_step(cache, before, ev) == (
                        self@,
                        before,
                        BatchActionView::Ask(q@),
                    ));
                    return (current, BatchAction::Ask(q));
                },
                SyncAction::Wait => {
                    current.next = current.next + 1;
                    pending = CacheEvent::Begin;
                    assert(current@ == (SyncBatchView {
                        targets: before.targets,
                        next: before.next + 1,
                        failures: before.failures,
                    }));
                    assert(batch_step(cache, before, ev) == batch_step(
                        self@,
                        current@,
                        pending@,
                    ));
                },
                SyncAction::Finish(result) => {
                    let ghost result_view = sync_result_view(result);
                    match result {
                        Ok(_) => {},
                        Err(error) => {
                            current.failures.push(SyncFailure { collection, doc_id, error });
                            assert(failures_view(current.failures@) =~= recorded(
                                before.failures,
                                target,
                                result_view,
                            ));
                        },
                    }
                    current.next = current.next + 1;
                    pending = CacheEvent::Begin;
                    assert(current@ == (SyncBatchView {
                        targets: before.targets,
                        next: before.next + 1,
                        failures: recorded(before.failures, target, result_view),
                    }));
                    assert(batch_step(cache, before, ev) == batch_step(
                        self@,
                        current@,
                        pending@,
                    ));
                },
            }
        }
    }
}

/// A failure does not end a batch: when the document whose turn it is fails
/// and another follows, the entries are left alone, the batch goes on with
/// the next document at once, and the failure is kept to the end.
pub proof fn lemma_failure_does_not_stop_batch(
    cache: CacheView,
    batch: SyncBatchView,
    error: StorageErrorView,
)
    requires
        batch.next + 1 < batch.targets.len(),
    ensures
        ({
            let failed = batch.targets[batch.next as int];
            let failure = SyncFailureView { collection: failed.0, doc_id: failed.1, error };
            let moved = SyncBatchView {
                targets: batch.targets,
                next: batch.next + 1,
                failures: batch.failures.push(failure),
            };
            let after = batch_step(cache, batch, CacheEventView::Failed(error));
            &&& after == batch_step(landed(cache, failed.1), moved, CacheEventView::Begin)
            &&& after.1.next > batch.next
            &&& after.2 matches BatchActionView::Finish(failures) ==> failures.len()
                > batch.failures.len() && failures[batch.failures.len() as int] == failure
            &&& after.2 is Ask ==> after.1.failures.len() > batch.failures.len()
                && after.1.failures[batch.failures.len() as int] == failure
        }),
{
    let failed = batch.targets[batch.next as int];
    let failure = SyncFailureView { collection: failed.0, doc_id: failed.1, error };
    let moved = SyncBatchView {
        targets: batch.targets,
        next: batch.next + 1,
        failures: recorded(batch.failures, failed, Err(error)),
    };
    let landing = landed(cache, failed.1);
    let after = batch_step(landing, moved, CacheEventView::Begin);
    assert(batch_step(cache, batch, CacheEventView::Failed(error)) == after);
    lemma_batch_ends_after_last(landing, moved, CacheEventView::Begin);
    let n = batch.failures.len() as int;
    assert(moved.failures[n] == failure);
    match after.2 {
        BatchActionView::Finish(failures) => {
            assert(failures.subrange(0, moved.failures.len() as int)[n] == failures[n]);
        },
        BatchActionView::Ask(_) => {
            assert(after.1.failures.subrange(0, moved.failures.len() as int)[n]
                == after.1.failures[n]);
        },
    }
}

/// A batch ends only when every document has had its turn, and until then
/// it never loses a failure that it has recorded.
pub proof fn lemma_batch_ends_after_last(
    cache: CacheView,
    batch: SyncBatchView,
    event: CacheEventView,
)
    ensures
        ({
            let after = batch_step(cache, batch, event);
            &&& after.1.targets == batch.targets
            &&& after.1.next >= batch.next
            &&& after.2 matches BatchActionView::Finish(failures) ==> {
                &&& after.1.next >= batch.targets.len()
                &&& batch.failures.len() <= failures.len()
                &&& failures.subrange(0, batch.failures.len() as int) == batch.failures
            }
            &&& after.2 is Ask ==> {
                &&& after.1.next < batch.targets.len()
                &&& batch.failures.len() <= after.1.failures.len()
                &&& after.1.failures.subrange(0, batch.failures.len() as int) == batch.failures
            }
        }),
    decreases batch.targets.len() - batch.next,
{
    let n = batch.failures.len() as int;
    assert(batch.failures.subrange(0, n) =~= batch.failures);
    if batch.next < batch.targets.len() {
        let target = batch.targets[batch.next as int];
        let (synced, action) = sync_step(cache, target.0, target.1, event);
        if !(action is Ask) {
            let failures = match action {
                SyncActionView::Finish(result) => recorded(batch.failures, target, result),
                _ => batch.failures,
            };
            let moved = SyncBatchView { targets: batch.targets, next: batch.next + 1, failures };
            lemma_batch_ends_after_last(synced, moved, CacheEventView::Begin);
            let after = batch_step(synced, moved, CacheEventView::Begin);
            assert(batch_step(cache, batch, event) == after);
            assert(moved.failures.subrange(0, n) =~= batch.failures);
            match after.2 {
                BatchActionView::Finish(all) => {
                    assert(all.subrange(0, n) =~= all.subrange(
                        0,
                        moved.failures.len() as int,
                    ).subrange(0, n));
                },
                BatchActionView::Ask(_) => {
                    assert(after.1.failures.subrange(0, n) =~= after.1.failures.subrange(
                        0,
                        moved.failures.len() as int,
                    ).subrange(0, n));
                },
            }
        }
    }
}

} // verus!
