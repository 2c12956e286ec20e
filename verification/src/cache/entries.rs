//! What the cache holds, as a sequence of entries in the order of their last
//! use, and the cache of the `lru` crate that holds it.

use lru::LruCache;
use std::num::NonZeroUsize;
use vstd::prelude::*;

verus! {

/// The cache of the `lru` crate, opaque to the verifier.
#[verifier::external_type_specification]
#[verifier::external_body]
#[verifier::reject_recursive_types(K)]
#[verifier::reject_recursive_types(V)]
#[verifier::reject_recursive_types(S)]
pub struct ExLruCache<K, V, S>(LruCache<K, V, S>);

/// The hasher that the cache keys its entries with, opaque to the verifier.
#[verifier::external_type_specification]
#[verifier::external_body]
pub struct ExDefaultHasher(lru::DefaultHasher);

/// What a cache holds: identifier, content and content hash of each
/// document, the most recently used first.
pub uninterp spec fn lru_entries(cache: LruCache<String, (String, String)>) -> Seq<
    (Seq<char>, Seq<char>, Seq<char>),
>;

/// The number of documents that a cache was made to hold.
pub uninterp spec fn lru_capacity(cache: LruCache<String, (String, String)>) -> nat;

/// Makes an empty cache. Trusted: `LruCache::new` returns a cache without
/// entries that holds at most `capacity` of them.
#[verifier::external_body]
pub(crate) fn lru_new(capacity: usize) -> (cache: LruCache<String, (String, String)>)
    requires
        capacity > 0,
    ensures
        lru_entries(cache) == Seq::<(Seq<char>, Seq<char>, Seq<char>)>::empty(),
        lru_capacity(cache) == capacity,
{
    LruCache::new(NonZeroUsize::new(capacity).unwrap())
}

/// The entries of a cache: identifier, content and content hash of each
/// document, the most recently used first.
pub type Entries = Seq<(Seq<char>, Seq<char>, Seq<char>)>;

/// Whether some entry is that of `id`.
pub open spec fn holds(es: Entries, id: Seq<char>) -> bool {
    exists|i: int| 0 <= i < es.len() && (#[trigger] es[i]).0 == id
}

/// The place of the entry of `id`, where there is one.
pub open spec fn position(es: Entries, id: Seq<char>) -> int {
    choose|i: int| 0 <= i < es.len() && (#[trigger] es[i]).0 == id
}

/// Whether no two entries are of the same document.
pub open spec fn distinct(es: Entries) -> bool {
    forall|i: int, j: int| 0 <= i < j < es.len() ==> (#[trigger] es[i]).0 != (#[trigger] es[j]).0
}

/// Whether `es` can be the entries of a cache made for `capacity` documents.
pub open spec fn well_formed(es: Entries, capacity: nat) -> bool {
    &&& capacity >= 1
    &&& es.len() <= capacity
    &&& distinct(es)
}

/// Content and content hash of the document `id`, where it is cached.
pub open spec fn lookup(es: Entries, id: Seq<char>) -> Option<(Seq<char>, Seq<char>)> {
    if holds(es, id) {
        let e = es[position(es, id)];
        Some((e.1, e.2))
    } else {
        None
    }
}

/// The entries after the document `id` was used: its entry, where there is
/// one, has moved to the front.
pub open spec fn touched(es: Entries, id: Seq<char>) -> Entries {
    if holds(es, id) {
        let i = position(es, id);
        seq![es[i]] + es.remove(i)
    } else {
        es
    }
}

/// The entries after a document was put: the new entry stands at the front;
/// the old entry of the same document is gone; failing that, a full cache
/// has lost its last entry, the one that was used least recently.
pub open spec fn put(
    es: Entries,
    capacity: nat,
    id: Seq<char>,
    content: Seq<char>,
    hash: Seq<char>,
) -> Entries {
    if holds(es, id) {
        seq![(id, content, hash)] + es.remove(position(es, id))
    } else if es.len() >= capacity && es.len() > 0 {
        seq![(id, content, hash)] + es.drop_last()
    } else {
        seq![(id, content, hash)] + es
    }
}

/// The entries without that of `id`.
pub open spec fn removed(es: Entries, id: Seq<char>) -> Entries {
    if holds(es, id) {
        es.remove(position(es, id))
    } else {
        es
    }
}

/// Puts a document. Trusted: `LruCache::put` replaces the value of a key that
/// is present and moves it to the front; otherwise it adds the key at the
/// front, after dropping the entry at the back if the cache is full.
#[verifier::external_body]
pub(crate) fn lru_put(cache: &mut LruCache<String, (String, String)>, id: String, content: String, hash: String)
    ensures
        lru_entries(*final(cache)) == put(
            lru_entries(*old(cache)),
            lru_capacity(*old(cache)),
            id@,
            content@,
            hash@,
        ),
        lru_capacity(*final(cache)) == lru_capacity(*old(cache)),
{
    cache.put(id, (content, hash));
}

/// Looks a document up and marks it as used. Trusted: `LruCache::get` returns
/// the value of a key that is present and moves the key to the front; it
/// returns nothing and changes nothing for any other key.
#[verifier::external_body]
pub(crate) fn lru_get(cache: &mut LruCache<String, (String, String)>, id: &str) -> (r: Option<
    (String, String),
>)
    ensures
        lru_entries(*final(cache)) == touched(lru_entries(*old(cache)), id@),
        lru_capacity(*final(cache)) == lru_capacity(*old(cache)),
        match r {
            Some((content, hash)) => lookup(lru_entries(*old(cache)), id@) == Some(
                (content@, hash@),
            ),
            None => lookup(lru_entries(*old(cache)), id@) is None,
        },
{
    cache.get(id).cloned()
}

/// Looks a document up without marking it as used. Trusted: `LruCache::peek`
/// returns the value of a key that is present, nothing for any other key.
#[verifier::external_body]
pub(crate) fn lru_peek(cache: &LruCache<String, (String, String)>, id: &str) -> (r: Option<(String, String)>)
    ensures
        match r {
            Some((content, hash)) => lookup(lru_entries(*cache), id@) == Some((content@, hash@)),
            None => lookup(lru_entries(*cache), id@) is None,
        },
{
    cache.peek(id).cloned()
}

/// Drops a document. Trusted: `LruCache::pop` removes the entry of a key that
/// is present and changes nothing for any other key.
#[verifier::external_body]
pub(crate) fn lru_pop(cache: &mut LruCache<String, (String, String)>, id: &str)
    ensures
        lru_entries(*final(cache)) == removed(lru_entries(*old(cache)), id@),
        lru_capacity(*final(cache)) == lru_capacity(*old(cache)),
{
    cache.pop(id);
}

/// In well-formed entries the entry of a document stands at one place only.
pub proof fn lemma_position_unique(es: Entries, id: Seq<char>, i: int)
    requires
        distinct(es),
        0 <= i < es.len(),
        es[i].0 == id,
    ensures
        holds(es, id),
        position(es, id) == i,
{
    let p = position(es, id);
    if p < i {
        assert(es[p].0 != es[i].0);
    } else if i < p {
        assert(es[i].0 != es[p].0);
    }
}

/// Taking the entry of `id` out leaves distinct entries, none of them of `id`.
pub proof fn lemma_removed_distinct(es: Entries, id: Seq<char>)
    requires
        distinct(es),
    ensures
        distinct(removed(es, id)),
        !holds(removed(es, id), id),
        removed(es, id).len() <= es.len(),
        holds(es, id) ==> removed(es, id).len() == es.len() - 1,
{
    if holds(es, id) {
        let p = position(es, id);
        let r = es.remove(p);
        assert forall|i: int, j: int| 0 <= i < j < r.len() implies (#[trigger] r[i]).0 != (
        #[trigger] r[j]).0 by {
            let a = if i < p { i } else { i + 1 };
            let b = if j < p { j } else { j + 1 };
            assert(r[i] == es[a]);
            assert(r[j] == es[b]);
            assert(es[a].0 != es[b].0);
        }
        assert forall|i: int| 0 <= i < r.len() implies (#[trigger] r[i]).0 != id by {
            let a = if i < p { i } else { i + 1 };
            assert(r[i] == es[a]);
            if a < p {
                assert(es[a].0 != es[p].0);
            } else {
                assert(es[p].0 != es[a].0);
            }
        }
    }
}

/// Putting a document keeps the entries well formed, and the document is
/// then cached, at the front, with the content and the hash that were put.
pub proof fn lemma_put_well_formed(
    es: Entries,
    capacity: nat,
    id: Seq<char>,
    content: Seq<char>,
    hash: Seq<char>,
)
    requires
        well_formed(es, capacity),
    ensures
        well_formed(put(es, capacity, id, content, hash), capacity),
        put(es, capacity, id, content, hash)[0] == (id, content, hash),
        lookup(put(es, capacity, id, content, hash), id) == Some((content, hash)),
{
    let after = put(es, capacity, id, content, hash);
    let rest = after.subrange(1, after.len() as int);
    if holds(es, id) {
        lemma_removed_distinct(es, id);
        assert(rest =~= removed(es, id));
    } else if es.len() >= capacity && es.len() > 0 {
        assert(rest =~= es.drop_last());
        assert forall|i: int| 0 <= i < rest.len() implies rest[i] == es[i] by {}
    } else {
        assert(rest =~= es);
    }
    assert forall|i: int| 0 <= i < rest.len() implies (#[trigger] rest[i]).0 != id by {
        if holds(es, id) {
        } else {
            assert(rest[i] == es[i]);
        }
    }
    assert(distinct(rest)) by {
        if holds(es, id) {
        } else {
            assert forall|i: int, j: int| 0 <= i < j < rest.len() implies (#[trigger] rest[i]).0
                != (#[trigger] rest[j]).0 by {
                assert(rest[i] == es[i]);
                assert(rest[j] == es[j]);
            }
        }
    }
    assert forall|i: int, j: int| 0 <= i < j < after.len() implies (#[trigger] after[i]).0 != (
    #[trigger] after[j]).0 by {
        assert(after[j] == rest[j - 1]);
        if i > 0 {
            assert(after[i] == rest[i - 1]);
        }
    }
    lemma_position_unique(after, id, 0);
}

/// Using a document keeps the entries well formed and their number.
pub proof fn lemma_touched_well_formed(es: Entries, capacity: nat, id: Seq<char>)
    requires
        well_formed(es, capacity),
    ensures
        well_formed(touched(es, id), capacity),
        touched(es, id).len() == es.len(),
        holds(es, id) ==> touched(es, id)[0].0 == id,
        lookup(touched(es, id), id) == lookup(es, id),
{
    if holds(es, id) {
        let p = position(es, id);
        let after = touched(es, id);
        let rest = removed(es, id);
        lemma_removed_distinct(es, id);
        assert(after.subrange(1, after.len() as int) =~= rest);
        assert forall|i: int, j: int| 0 <= i < j < after.len() implies (#[trigger] after[i]).0 != (
        #[trigger] after[j]).0 by {
            assert(after[j] == rest[j - 1]);
            if i > 0 {
                assert(after[i] == rest[i - 1]);
            } else {
                assert(rest[j - 1].0 != id);
            }
        }
        lemma_position_unique(after, id, 0);
    }
}

/// Putting a new document into a full cache evicts exactly the entry that
/// was used least recently: the new entry stands at the front, every other
/// entry but the last follows in its order, and the document of the last is
/// no longer cached.
pub proof fn lemma_full_cache_evicts_least_recent(
    es: Entries,
    capacity: nat,
    id: Seq<char>,
    content: Seq<char>,
    hash: Seq<char>,
)
    requires
        well_formed(es, capacity),
        es.len() == capacity,
        !holds(es, id),
    ensures
        put(es, capacity, id, content, hash) == seq![(id, content, hash)] + es.drop_last(),
        put(es, capacity, id, content, hash).len() == capacity,
        !holds(put(es, capacity, id, content, hash), es.last().0),
        forall|i: int|
            0 <= i < capacity - 1 ==> #[trigger] put(es, capacity, id, content, hash)[i + 1]
                == es[i],
{
    let after = put(es, capacity, id, content, hash);
    let gone = es.last().0;
    assert(es[capacity - 1].0 == gone);
    assert(gone != id);
    assert forall|i: int| 0 <= i < after.len() implies (#[trigger] after[i]).0 != gone by {
        if i > 0 {
            assert(after[i] == es[i - 1]);
            assert(es[i - 1].0 != es[capacity - 1].0);
        }
    }
}

/// A document that was used is safe from the next eviction: after it was
/// touched, putting a new document into the full cache leaves it cached with
/// what was cached of it.
pub proof fn lemma_touch_protects_from_eviction(
    es: Entries,
    capacity: nat,
    kept: Seq<char>,
    id: Seq<char>,
    content: Seq<char>,
    hash: Seq<char>,
)
    requires
        well_formed(es, capacity),
        capacity >= 2,
        es.len() == capacity,
        holds(es, kept),
        !holds(es, id),
    ensures
        holds(put(touched(es, kept), capacity, id, content, hash), kept),
        lookup(put(touched(es, kept), capacity, id, content, hash), kept) == lookup(es, kept),
{
    let t = touched(es, kept);
    lemma_touched_well_formed(es, capacity, kept);
    assert(!holds(t, id)) by {
        if holds(t, id) {
            let i = position(t, id);
            if i == 0 {
                assert(t[0] == es[position(es, kept)]);
            } else {
                let p = position(es, kept);
                let a = if i - 1 < p { i - 1 } else { i };
                assert(t[i] == es.remove(p)[i - 1]);
                assert(es.remove(p)[i - 1] == es[a]);
            }
            assert(false);
        }
    }
    let after = put(t, capacity, id, content, hash);
    lemma_put_well_formed(t, capacity, id, content, hash);
    assert(after[1] == t[0]);
    lemma_position_unique(after, kept, 1);
    lemma_position_unique(t, kept, 0);
}

/// The entries after the documents `docs` were put one after the other, the
/// first of them first.
pub open spec fn put_all(es: Entries, capacity: nat, docs: Entries) -> Entries
    decreases docs.len(),
{
    if docs.len() == 0 {
        es
    } else {
        let d = docs.last();
        put(put_all(es, capacity, docs.drop_last()), capacity, d.0, d.1, d.2)
    }
}

/// The last of a list of distinct documents is none of those before it,
/// in whatever order those stand.
proof fn lemma_last_is_new(docs: Entries)
    requires
        distinct(docs),
        docs.len() > 0,
    ensures
        !holds(docs.drop_last().reverse(), docs.last().0),
{
    let before = docs.drop_last();
    let held = before.reverse();
    if holds(held, docs.last().0) {
        let i = position(held, docs.last().0);
        assert(held[i] == before[before.len() - 1 - i]);
        assert(before[before.len() - 1 - i] == docs[before.len() - 1 - i]);
        assert(docs[before.len() - 1 - i].0 != docs[docs.len() - 1].0);
    }
}

/// An empty cache that is given no more distinct documents than it can hold
/// holds them all, the last one put first.
pub proof fn lemma_put_all_within_capacity(capacity: nat, docs: Entries)
    requires
        capacity >= 1,
        distinct(docs),
        docs.len() <= capacity,
    ensures
        put_all(Seq::empty(), capacity, docs) == docs.reverse(),
    decreases docs.len(),
{
    if docs.len() > 0 {
        let before = docs.drop_last();
        let d = docs.last();
        lemma_put_all_within_capacity(capacity, before);
        let held = before.reverse();
        lemma_last_is_new(docs);
        assert(put(held, capacity, d.0, d.1, d.2) =~= docs.reverse());
    }
}

/// An empty cache that is given one distinct document more than it can hold
/// has evicted exactly the first of them, the one used least recently, and
/// holds all the others, the last one put first.
pub proof fn lemma_one_too_many_evicts_first(capacity: nat, docs: Entries)
    requires
        capacity >= 1,
        distinct(docs),
        docs.len() == capacity + 1,
    ensures
        put_all(Seq::empty(), capacity, docs) == docs.subrange(1, docs.len() as int).reverse(),
        !holds(put_all(Seq::empty(), capacity, docs), docs[0].0),
{
    let before = docs.drop_last();
    let d = docs.last();
    lemma_put_all_within_capacity(capacity, before);
    let held = before.reverse();
    lemma_last_is_new(docs);
    let after = put(held, capacity, d.0, d.1, d.2);
    let rest = docs.subrange(1, docs.len() as int);
    assert(after =~= rest.reverse());
    assert forall|i: int| 0 <= i < after.len() implies (#[trigger] after[i]).0 != docs[0].0 by {
        assert(after[i] == rest[rest.len() - 1 - i]);
        assert(rest[rest.len() - 1 - i] == docs[rest.len() - i]);
        assert(docs[0].0 != docs[rest.len() - i].0);
    }
}

} // verus!
